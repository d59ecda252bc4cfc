//! Operand computation shared by the instruction handlers: the barrel
//! shifter that produces the data-processing second operand together with
//! its carry-out, and the effective-address evaluators for the word/byte and
//! halfword/signed-byte load/store addressing modes.

use vstd::prelude::*;

use crate::bits::{get_bit, spec_get_bit};
use crate::cpu::{register_from_bits, spec_register_from_bits, RegisterSet};
use crate::emulator::Emulator;

verus! {

/// How a load/store addressing mode treats its base register.
#[derive(Copy, Clone, Debug, PartialEq, Eq, Structural)]
pub enum AddressingType {
    /// Base plus offset; the base register is untouched.
    Offset,
    /// Base plus offset, written back to the base register.
    PreIndexed,
    /// Base alone; base plus offset is written back afterwards.
    PostIndexed,
}

/// An arithmetic (sign-extending) right shift by `s` places, `1 <= s < 32`.
pub open spec fn spec_sar(value: u32, s: u32) -> u32 {
    if spec_get_bit(value, 31) {
        (value >> s) | (0xffff_ffffu32 << (32 - s))
    } else {
        value >> s
    }
}

/// A right rotation by `s` places, `1 <= s < 32`.
pub open spec fn spec_ror(value: u32, s: u32) -> u32 {
    (value >> s) | (value << (32 - s))
}

/// Arithmetic (sign-extending) right shift.
fn sar(value: u32, s: u32) -> (r: u32)
    requires
        1 <= s < 32,
    ensures
        r == spec_sar(value, s),
{
    if (value >> 31) & 1 > 0 {
        (value >> s) | (0xffff_ffffu32 << (32 - s))
    } else {
        value >> s
    }
}

/// Right rotation.
pub(crate) fn ror(value: u32, s: u32) -> (r: u32)
    requires
        1 <= s < 32,
    ensures
        r == spec_ror(value, s),
{
    (value >> s) | (value << (32 - s))
}

/// The value and carry-out of a shift by an immediate five-bit amount.
/// A zero amount selects the special cases of the architecture: `LSL #0`
/// passes the value through, `LSR #0` and `ASR #0` mean a shift by 32, and
/// `ROR #0` is RRX, a one-bit rotate through the carry flag.
pub open spec fn spec_shift_by_imm(c_in: bool, value: u32, imm: u32, mode: u32) -> (u32, bool) {
    if mode == 0 {
        if imm == 0 {
            (value, c_in)
        } else {
            (value << imm, spec_get_bit(value, (32 - imm) as u32))
        }
    } else if mode == 1 {
        if imm == 0 {
            (0u32, spec_get_bit(value, 31))
        } else {
            (value >> imm, spec_get_bit(value, (imm - 1) as u32))
        }
    } else if mode == 2 {
        if imm == 0 {
            (if spec_get_bit(value, 31) { 0xffff_ffffu32 } else { 0u32 }, spec_get_bit(value, 31))
        } else {
            (spec_sar(value, imm), spec_get_bit(value, (imm - 1) as u32))
        }
    } else {
        if imm == 0 {
            ((if c_in { 0x8000_0000u32 } else { 0u32 }) | (value >> 1), spec_get_bit(value, 0))
        } else {
            (spec_ror(value, imm), spec_get_bit(value, (imm - 1) as u32))
        }
    }
}

/// The value and carry-out of a shift by a register-specified amount, which
/// uses the low byte of the register and so ranges up to 255. A zero amount
/// leaves value and carry alone; an amount of 32 or more drains the value
/// out (for ASR, into copies of the sign bit; for ROR, modulo 32).
pub open spec fn spec_shift_by_reg(c_in: bool, value: u32, s: u32, mode: u32) -> (u32, bool) {
    if s == 0 {
        (value, c_in)
    } else if mode == 0 {
        if s < 32 {
            (value << s, spec_get_bit(value, (32 - s) as u32))
        } else if s == 32 {
            (0u32, spec_get_bit(value, 0))
        } else {
            (0u32, false)
        }
    } else if mode == 1 {
        if s < 32 {
            (value >> s, spec_get_bit(value, (s - 1) as u32))
        } else if s == 32 {
            (0u32, spec_get_bit(value, 31))
        } else {
            (0u32, false)
        }
    } else if mode == 2 {
        if s < 32 {
            (spec_sar(value, s), spec_get_bit(value, (s - 1) as u32))
        } else {
            (if spec_get_bit(value, 31) { 0xffff_ffffu32 } else { 0u32 }, spec_get_bit(value, 31))
        }
    } else {
        let r = s % 32;
        if r == 0 {
            (value, spec_get_bit(value, 31))
        } else {
            (spec_ror(value, r), spec_get_bit(value, (r - 1) as u32))
        }
    }
}

/// Shift by an immediate five-bit amount, returning value and carry-out.
pub(crate) fn shift_by_imm(c_in: bool, value: u32, imm: u32, mode: u32) -> (r: (u32, bool))
    requires
        imm < 32,
        mode < 4,
    ensures
        r == spec_shift_by_imm(c_in, value, imm, mode),
{
    if mode == 0 {
        if imm == 0 {
            (value, c_in)
        } else {
            (value << imm, get_bit(value, 32 - imm))
        }
    } else if mode == 1 {
        if imm == 0 {
            (0u32, get_bit(value, 31))
        } else {
            (value >> imm, get_bit(value, imm - 1))
        }
    } else if mode == 2 {
        if imm == 0 {
            (if get_bit(value, 31) { 0xffff_ffffu32 } else { 0u32 }, get_bit(value, 31))
        } else {
            (sar(value, imm), get_bit(value, imm - 1))
        }
    } else {
        if imm == 0 {
            ((if c_in { 0x8000_0000u32 } else { 0u32 }) | (value >> 1), get_bit(value, 0))
        } else {
            (ror(value, imm), get_bit(value, imm - 1))
        }
    }
}

/// Shift by a register-specified amount, returning value and carry-out.
pub(crate) fn shift_by_reg(c_in: bool, value: u32, s: u32, mode: u32) -> (r: (u32, bool))
    requires
        mode < 4,
    ensures
        r == spec_shift_by_reg(c_in, value, s, mode),
{
    if s == 0 {
        (value, c_in)
    } else if mode == 0 {
        if s < 32 {
            (value << s, get_bit(value, 32 - s))
        } else if s == 32 {
            (0u32, get_bit(value, 0))
        } else {
            (0u32, false)
        }
    } else if mode == 1 {
        if s < 32 {
            (value >> s, get_bit(value, s - 1))
        } else if s == 32 {
            (0u32, get_bit(value, 31))
        } else {
            (0u32, false)
        }
    } else if mode == 2 {
        if s < 32 {
            (sar(value, s), get_bit(value, s - 1))
        } else {
            (if get_bit(value, 31) { 0xffff_ffffu32 } else { 0u32 }, get_bit(value, 31))
        }
    } else {
        let r = s % 32;
        if r == 0 {
            (value, get_bit(value, 31))
        } else {
            (ror(value, r), get_bit(value, r - 1))
        }
    }
}

/// Whether a data-processing operand field is free of the multiplies and
/// extra load/store extension space: an instruction with both bit 4 and
/// bit 7 set is not a shifted operand and must not reach the shifter.
pub open spec fn spec_dp_operand_ok(inst: u32) -> bool {
    spec_get_bit(inst, 25) || !spec_get_bit(inst, 4) || !spec_get_bit(inst, 7)
}

/// The data-processing second operand and the shifter carry-out, decoded
/// from bit 25 and the low twelve bits of the instruction.
pub open spec fn spec_shifter_operand(rs: RegisterSet, inst: u32) -> (u32, bool) {
    if spec_get_bit(inst, 25) {
        let rotate = (((inst >> 8) & 0xf) * 2) as u32;
        let imm = inst & 0xff;
        if rotate == 0 {
            (imm, rs.spec_c())
        } else {
            (spec_ror(imm, rotate), spec_get_bit(spec_ror(imm, rotate), 31))
        }
    } else {
        let mode = (inst >> 5) & 3;
        let value = rs.spec_reg(spec_register_from_bits(inst & 0xf));
        if spec_get_bit(inst, 4) {
            let s = rs.spec_reg(spec_register_from_bits((inst >> 8) & 0xf)) & 0xff;
            spec_shift_by_reg(rs.spec_c(), value, s, mode)
        } else {
            spec_shift_by_imm(rs.spec_c(), value, (inst >> 7) & 0x1f, mode)
        }
    }
}

/// Compute the data-processing second operand together with the shifter
/// carry-out that logical operations put into the C flag.
pub fn process_shifter_operand(emulator: &mut Emulator, instruction: u32) -> (r: (u32, bool))
    requires
        old(emulator).wf(),
        spec_dp_operand_ok(instruction),
    ensures
        *final(emulator) == *old(emulator),
        r == spec_shifter_operand(old(emulator).cpu.registers, instruction),
{
    proof {
        lemma_field_bounds(instruction);
    }
    let is_immediate_value = (instruction >> 25) & 1 > 0;

    if is_immediate_value {
        // An 8-bit immediate, rotated right by twice the four-bit rotate
        // field.
        let rotate = ((instruction >> 8) & 0xf) * 2;
        let imm = instruction & 0xff;
        if rotate == 0 {
            (imm, emulator.cpu.get_c())
        } else {
            let rotated = ror(imm, rotate);
            (rotated, get_bit(rotated, 31))
        }
    } else {
        // 00: LSL, 01: LSR, 10: ASR, 11: ROR (or RRX at zero shift).
        let shift_mode = (instruction >> 5) & 3;
        let is_register_shift = (instruction >> 4) & 1 > 0;
        let value = emulator.cpu.get_register_value(register_from_bits(instruction & 0xf));

        if is_register_shift {
            // Only the low byte of the shift register matters.
            let s = emulator.cpu.get_register_value(
                register_from_bits((instruction >> 8) & 0xf),
            ) & 0xff;
            shift_by_reg(emulator.cpu.get_c(), value, s, shift_mode)
        } else {
            shift_by_imm(emulator.cpu.get_c(), value, (instruction >> 7) & 0x1f, shift_mode)
        }
    }
}

/// The field-extraction bounds the operand evaluators rely on.
pub proof fn lemma_field_bounds(inst: u32)
    by (bit_vector)
    ensures
        (inst >> 8) & 0xf < 16,
        (inst >> 5) & 3 < 4,
        (inst >> 7) & 0x1f < 32,
        inst & 0xf < 16,
        (inst >> 12) & 0xf < 16,
        (inst >> 16) & 0xf < 16,
        (inst >> 28) & 15 < 16,
{
}

/// The offset of addressing mode 2 (word and byte load/store): a 12-bit
/// immediate, or a register shifted by a five-bit immediate amount.
pub open spec fn spec_am2_offset(rs: RegisterSet, inst: u32) -> u32 {
    if !spec_get_bit(inst, 25) {
        inst & 0xfff
    } else {
        spec_shift_by_imm(
            rs.spec_c(),
            rs.spec_reg(spec_register_from_bits(inst & 0xf)),
            (inst >> 7) & 0x1f,
            (inst >> 5) & 3,
        ).0
    }
}

/// Addressing mode 2 in full: the register file after any base writeback,
/// the effective address handed to the transfer, and how the base was
/// treated. The offset is added to or taken from the base by the U bit
/// (23); the P bit (24) selects post-indexing and the W bit (21) selects
/// writeback.
pub open spec fn spec_am2(rs: RegisterSet, inst: u32) -> (RegisterSet, u32, AddressingType) {
    let base_name = spec_register_from_bits((inst >> 16) & 0xf);
    let base = rs.spec_reg(base_name);
    let offset = spec_am2_offset(rs, inst);
    let address = if spec_get_bit(inst, 23) {
        base.wrapping_add(offset)
    } else {
        base.wrapping_sub(offset)
    };
    if !spec_get_bit(inst, 24) {
        (rs.spec_set(base_name, address), base, AddressingType::PostIndexed)
    } else if spec_get_bit(inst, 21) {
        (rs.spec_set(base_name, address), address, AddressingType::PreIndexed)
    } else {
        (rs, address, AddressingType::Offset)
    }
}

/// Evaluate addressing mode 2 (word/byte load/store): compute the effective
/// address, perform any base-register writeback, and report how the base
/// was treated so that callers can enforce their own restrictions.
pub fn process_addressing_mode(emulator: &mut Emulator, instruction: u32) -> (r: (
    u32,
    AddressingType,
))
    requires
        old(emulator).wf(),
    ensures
        *final(emulator) == old(emulator).spec_with_registers(
            spec_am2(old(emulator).cpu.registers, instruction).0,
        ),
        r.0 == spec_am2(old(emulator).cpu.registers, instruction).1,
        r.1 == spec_am2(old(emulator).cpu.registers, instruction).2,
        final(emulator).wf(),
{
    proof {
        lemma_field_bounds(instruction);
    }
    let is_immediate_value = (instruction >> 25) & 1 == 0;
    let post_index_addressing = !((instruction >> 24) & 1 > 0);

    // In post-indexed addressing the W bit marks the translation ("T")
    // variant, which matters only for privilege and is ignored here. In
    // pre-indexed addressing it selects writeback of the computed address.
    let write_address_to_base_register = (instruction >> 21) & 1 > 0;

    let base_register = register_from_bits((instruction >> 16) & 0xf);
    let base_register_value = emulator.cpu.get_register_value(base_register);

    let add_offset = (instruction >> 23) & 1 > 0;

    let offset = if is_immediate_value {
        instruction & 0xfff
    } else {
        let register_value = emulator.cpu.get_register_value(
            register_from_bits(instruction & 0xf),
        );
        shift_by_imm(
            emulator.cpu.get_c(),
            register_value,
            (instruction >> 7) & 0x1f,
            (instruction >> 5) & 3,
        ).0
    };

    let address = if add_offset {
        base_register_value.wrapping_add(offset)
    } else {
        base_register_value.wrapping_sub(offset)
    };

    if post_index_addressing {
        // Transfer from the untouched base; the computed address goes back
        // into the base register afterwards.
        emulator.cpu.set_register_value(base_register, address);
        (base_register_value, AddressingType::PostIndexed)
    } else if write_address_to_base_register {
        emulator.cpu.set_register_value(base_register, address);
        (address, AddressingType::PreIndexed)
    } else {
        (address, AddressingType::Offset)
    }
}

/// The offset of addressing mode 3 (halfword and signed transfers): an
/// 8-bit immediate split across two nibbles, or a plain register value.
pub open spec fn spec_am3_offset(rs: RegisterSet, inst: u32) -> u32 {
    if spec_get_bit(inst, 22) {
        (((inst >> 8) & 0xf) << 4) | (inst & 0xf)
    } else {
        rs.spec_reg(spec_register_from_bits(inst & 0xf))
    }
}

/// Addressing mode 3 in full: the register file after any base writeback,
/// the effective address, and how the base was treated. Indexing works as
/// in addressing mode 2.
pub open spec fn spec_am3(rs: RegisterSet, inst: u32) -> (RegisterSet, u32, AddressingType) {
    let base_name = spec_register_from_bits((inst >> 16) & 0xf);
    let base = rs.spec_reg(base_name);
    let offset = spec_am3_offset(rs, inst);
    let address = if spec_get_bit(inst, 23) {
        base.wrapping_add(offset)
    } else {
        base.wrapping_sub(offset)
    };
    if !spec_get_bit(inst, 24) {
        (rs.spec_set(base_name, address), base, AddressingType::PostIndexed)
    } else if spec_get_bit(inst, 21) {
        (rs.spec_set(base_name, address), address, AddressingType::PreIndexed)
    } else {
        (rs, address, AddressingType::Offset)
    }
}

/// Evaluate addressing mode 3 (halfword and signed-byte load/store).
pub fn process_misc_addressing_mode(emulator: &mut Emulator, instruction: u32) -> (r: (
    u32,
    AddressingType,
))
    requires
        old(emulator).wf(),
    ensures
        *final(emulator) == old(emulator).spec_with_registers(
            spec_am3(old(emulator).cpu.registers, instruction).0,
        ),
        r.0 == spec_am3(old(emulator).cpu.registers, instruction).1,
        r.1 == spec_am3(old(emulator).cpu.registers, instruction).2,
        final(emulator).wf(),
{
    proof {
        lemma_field_bounds(instruction);
    }
    let immediate_offset = (instruction >> 22) & 1 > 0;
    let add_offset = (instruction >> 23) & 1 > 0;
    let post_index_addressing = !((instruction >> 24) & 1 > 0);

    let offset = if immediate_offset {
        let immediate_high = (instruction >> 8) & 0xf;
        let immediate_low = instruction & 0xf;

        (immediate_high << 4) | immediate_low
    } else {
        emulator.cpu.get_register_value(register_from_bits(instruction & 0xf))
    };

    let base_register = register_from_bits((instruction >> 16) & 0xf);
    let base_register_value = emulator.cpu.get_register_value(base_register);

    let address = if add_offset {
        base_register_value.wrapping_add(offset)
    } else {
        base_register_value.wrapping_sub(offset)
    };

    if post_index_addressing {
        emulator.cpu.set_register_value(base_register, address);
        (base_register_value, AddressingType::PostIndexed)
    } else {
        let write_address_to_base_register = (instruction >> 21) & 1 > 0;

        if write_address_to_base_register {
            emulator.cpu.set_register_value(base_register, address);
            (address, AddressingType::PreIndexed)
        } else {
            (address, AddressingType::Offset)
        }
    }
}

/// Fetch the common data-processing operands: the destination register
/// name, the first operand register's value, and the shifter operand with
/// its carry-out. The machine state is untouched.
pub fn get_data_processing_operands(emulator: &mut Emulator, instruction: u32) -> (r: (
    crate::cpu::RegisterNames,
    u32,
    u32,
    bool,
))
    requires
        old(emulator).wf(),
        spec_dp_operand_ok(instruction),
    ensures
        *final(emulator) == *old(emulator),
        r.0 == spec_register_from_bits((instruction >> 12) & 0xf),
        r.0.spec_is_gp(),
        r.1 == old(emulator).cpu.registers.spec_reg(
            spec_register_from_bits((instruction >> 16) & 0xf),
        ),
        r.2 == spec_shifter_operand(old(emulator).cpu.registers, instruction).0,
        r.3 == spec_shifter_operand(old(emulator).cpu.registers, instruction).1,
{
    proof {
        lemma_field_bounds(instruction);
    }
    let destination_register = register_from_bits((instruction >> 12) & 0xf);
    let operand_register_value = emulator.cpu.get_register_value(
        register_from_bits((instruction >> 16) & 0xf),
    );
    let (shifter_operand_value, shifter_carry_out) = process_shifter_operand(
        emulator,
        instruction,
    );

    (destination_register, operand_register_value, shifter_operand_value, shifter_carry_out)
}

} // verus!
