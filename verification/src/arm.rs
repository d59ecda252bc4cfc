//! The 32-bit ARM instruction set: the decoder that classifies a word by
//! its bit fields, and one handler per instruction. Every instruction is
//! gated by its condition code; one that fails it costs one cycle and
//! leaves the machine untouched.

use vstd::prelude::*;

use crate::bits::{get_bit, spec_get_bit};
use crate::cpu::{
    condition_from_bits, register_from_bits, spec_condition_from_bits, spec_register_from_bits,
    valid_mode_bits, RegisterNames, RegisterSet,
};
use crate::emulator::Emulator;
use crate::memory::{spec_read_word, spec_write_byte, spec_write_half, spec_write_word, MemView};
use crate::utils::{
    process_addressing_mode, process_misc_addressing_mode, spec_am2, spec_am3, spec_dp_operand_ok,
    spec_ror, spec_shifter_operand,
};

verus! {

/// An ARM instruction, named after the handler that executes it. The
/// decoder is a total function from instruction words onto these tags;
/// encodings of the extension spaces that this core does not implement
/// decode to `Undefined`.
#[derive(Copy, Clone, Debug, PartialEq, Eq, Structural)]
pub enum ArmInstruction {
    Adc,
    Add,
    And,
    B,
    Bic,
    Bl,
    Bx,
    Cdp,
    Cmn,
    Cmp,
    Eor,
    Ldc,
    Ldm,
    Ldr,
    Ldrb,
    Ldrbt,
    Ldrh,
    Ldrsb,
    Ldrsh,
    Ldrt,
    Mcr,
    Mla,
    Mov,
    Mrc,
    Mrs,
    Msr,
    Mul,
    Mvn,
    Or,
    Rsb,
    Rsc,
    Sbc,
    Smlal,
    Smull,
    Stc,
    Stm,
    Str,
    Strb,
    Strbt,
    Strh,
    Strt,
    Sub,
    Swi,
    Swp,
    Swpb,
    Teq,
    Tst,
    Umlal,
    Umull,
    Undefined,
}

/// The decode function: a pure function of the instruction word alone.
/// Bits 27..25 select the class; the data-processing classes further split
/// on the opcode, the S bit, and bits 7..4, where the multiply, swap and
/// extra load/store extension spaces live.
pub open spec fn spec_decode(inst: u32) -> ArmInstruction {
    let category = (inst >> 25) & 7;
    if category == 0 || category == 1 {
        let opcode = (inst >> 21) & 0xf;
        let set_flags = (inst >> 20) & 1;
        let lower = (inst >> 4) & 0xf;
        if category == 0 && lower == 0b1001 {
            // Multiplies (A3-3) and semaphore swaps.
            if opcode == 0b0000 {
                ArmInstruction::Mul
            } else if opcode == 0b0001 {
                ArmInstruction::Mla
            } else if opcode == 0b0100 {
                ArmInstruction::Umull
            } else if opcode == 0b0101 {
                ArmInstruction::Umlal
            } else if opcode == 0b0110 {
                ArmInstruction::Smull
            } else if opcode == 0b0111 {
                ArmInstruction::Smlal
            } else if opcode == 0b1000 && set_flags == 0 {
                ArmInstruction::Swp
            } else if opcode == 0b1010 && set_flags == 0 {
                ArmInstruction::Swpb
            } else {
                ArmInstruction::Undefined
            }
        } else if category == 0 && (lower == 0b1011 || lower == 0b1101 || lower == 0b1111) {
            // Extra load/stores (A3-5); the L bit picks load or store.
            if lower == 0b1011 {
                if set_flags == 1 {
                    ArmInstruction::Ldrh
                } else {
                    ArmInstruction::Strh
                }
            } else if set_flags == 1 {
                if lower == 0b1101 {
                    ArmInstruction::Ldrsb
                } else {
                    ArmInstruction::Ldrsh
                }
            } else {
                ArmInstruction::Undefined
            }
        } else {
            // Data processing, with the miscellaneous instructions (A3-4)
            // in the comparison opcodes with a clear S bit.
            if opcode == 0b0000 {
                ArmInstruction::And
            } else if opcode == 0b0001 {
                ArmInstruction::Eor
            } else if opcode == 0b0010 {
                ArmInstruction::Sub
            } else if opcode == 0b0011 {
                ArmInstruction::Rsb
            } else if opcode == 0b0100 {
                ArmInstruction::Add
            } else if opcode == 0b0101 {
                ArmInstruction::Adc
            } else if opcode == 0b0110 {
                ArmInstruction::Sbc
            } else if opcode == 0b0111 {
                ArmInstruction::Rsc
            } else if (opcode == 0b1000 || opcode == 0b1010) && set_flags == 0 && category == 0 {
                ArmInstruction::Mrs
            } else if opcode == 0b1000 {
                ArmInstruction::Tst
            } else if opcode == 0b1001 && set_flags == 0 && lower == 0b0001 && category == 0 {
                ArmInstruction::Bx
            } else if (opcode == 0b1001 || opcode == 0b1011) && set_flags == 0 {
                ArmInstruction::Msr
            } else if opcode == 0b1001 {
                ArmInstruction::Teq
            } else if opcode == 0b1010 {
                ArmInstruction::Cmp
            } else if opcode == 0b1011 {
                ArmInstruction::Cmn
            } else if opcode == 0b1100 {
                ArmInstruction::Or
            } else if opcode == 0b1101 {
                ArmInstruction::Mov
            } else if opcode == 0b1110 {
                ArmInstruction::Bic
            } else {
                ArmInstruction::Mvn
            }
        }
    } else if category == 0b010 || category == 0b011 {
        // Load/store word or byte, with or without translation.
        let byte = (inst >> 22) & 1 > 0;
        let load = (inst >> 20) & 1 > 0;
        let translate = (inst >> 24) & 1 == 0 && (inst >> 21) & 1 > 0;
        if load {
            if byte {
                if translate {
                    ArmInstruction::Ldrbt
                } else {
                    ArmInstruction::Ldrb
                }
            } else {
                if translate {
                    ArmInstruction::Ldrt
                } else {
                    ArmInstruction::Ldr
                }
            }
        } else {
            if byte {
                if translate {
                    ArmInstruction::Strbt
                } else {
                    ArmInstruction::Strb
                }
            } else {
                if translate {
                    ArmInstruction::Strt
                } else {
                    ArmInstruction::Str
                }
            }
        }
    } else if category == 0b100 {
        // Load/store multiple; the addressing modes all share this class.
        if (inst >> 20) & 1 > 0 {
            ArmInstruction::Ldm
        } else {
            ArmInstruction::Stm
        }
    } else if category == 0b101 {
        // Branches, with the link bit choosing BL.
        if (inst >> 24) & 1 > 0 {
            ArmInstruction::Bl
        } else {
            ArmInstruction::B
        }
    } else if category == 0b110 {
        // Coprocessor load/store.
        if (inst >> 20) & 1 > 0 {
            ArmInstruction::Ldc
        } else {
            ArmInstruction::Stc
        }
    } else {
        // Coprocessor data processing and register transfers, and the
        // software interrupt.
        if (inst >> 24) & 1 > 0 {
            ArmInstruction::Swi
        } else if (inst >> 4) & 1 == 0 {
            ArmInstruction::Cdp
        } else if (inst >> 20) & 1 > 0 {
            ArmInstruction::Mrc
        } else {
            ArmInstruction::Mcr
        }
    }
}

/// Decode an instruction word. The result is a pure function of the word:
/// decoding the same word again yields the same instruction.
pub fn decode_instruction(instruction: u32) -> (r: ArmInstruction)
    ensures
        r == spec_decode(instruction),
{
    let category = (instruction >> 25) & 7;
    if category == 0 || category == 1 {
        let opcode = (instruction >> 21) & 0xf;
        let set_flags = (instruction >> 20) & 1;
        let lower = (instruction >> 4) & 0xf;
        if category == 0 && lower == 0b1001 {
            if opcode == 0b0000 {
                ArmInstruction::Mul
            } else if opcode == 0b0001 {
                ArmInstruction::Mla
            } else if opcode == 0b0100 {
                ArmInstruction::Umull
            } else if opcode == 0b0101 {
                ArmInstruction::Umlal
            } else if opcode == 0b0110 {
                ArmInstruction::Smull
            } else if opcode == 0b0111 {
                ArmInstruction::Smlal
            } else if opcode == 0b1000 && set_flags == 0 {
                ArmInstruction::Swp
            } else if opcode == 0b1010 && set_flags == 0 {
                ArmInstruction::Swpb
            } else {
                ArmInstruction::Undefined
            }
        } else if category == 0 && (lower == 0b1011 || lower == 0b1101 || lower == 0b1111) {
            if lower == 0b1011 {
                if set_flags == 1 {
                    ArmInstruction::Ldrh
                } else {
                    ArmInstruction::Strh
                }
            } else if set_flags == 1 {
                if lower == 0b1101 {
                    ArmInstruction::Ldrsb
                } else {
                    ArmInstruction::Ldrsh
                }
            } else {
                ArmInstruction::Undefined
            }
        } else {
            if opcode == 0b0000 {
                ArmInstruction::And
            } else if opcode == 0b0001 {
                ArmInstruction::Eor
            } else if opcode == 0b0010 {
                ArmInstruction::Sub
            } else if opcode == 0b0011 {
                ArmInstruction::Rsb
            } else if opcode == 0b0100 {
                ArmInstruction::Add
            } else if opcode == 0b0101 {
                ArmInstruction::Adc
            } else if opcode == 0b0110 {
                ArmInstruction::Sbc
            } else if opcode == 0b0111 {
                ArmInstruction::Rsc
            } else if (opcode == 0b1000 || opcode == 0b1010) && set_flags == 0 && category == 0 {
                ArmInstruction::Mrs
            } else if opcode == 0b1000 {
                ArmInstruction::Tst
            } else if opcode == 0b1001 && set_flags == 0 && lower == 0b0001 && category == 0 {
                ArmInstruction::Bx
            } else if (opcode == 0b1001 || opcode == 0b1011) && set_flags == 0 {
                ArmInstruction::Msr
            } else if opcode == 0b1001 {
                ArmInstruction::Teq
            } else if opcode == 0b1010 {
                ArmInstruction::Cmp
            } else if opcode == 0b1011 {
                ArmInstruction::Cmn
            } else if opcode == 0b1100 {
                ArmInstruction::Or
            } else if opcode == 0b1101 {
                ArmInstruction::Mov
            } else if opcode == 0b1110 {
                ArmInstruction::Bic
            } else {
                ArmInstruction::Mvn
            }
        }
    } else if category == 0b010 || category == 0b011 {
        let byte = (instruction >> 22) & 1 > 0;
        let load = (instruction >> 20) & 1 > 0;
        let translate = (instruction >> 24) & 1 == 0 && (instruction >> 21) & 1 > 0;
        if load {
            if byte {
                if translate {
                    ArmInstruction::Ldrbt
                } else {
                    ArmInstruction::Ldrb
                }
            } else {
                if translate {
                    ArmInstruction::Ldrt
                } else {
                    ArmInstruction::Ldr
                }
            }
        } else {
            if byte {
                if translate {
                    ArmInstruction::Strbt
                } else {
                    ArmInstruction::Strb
                }
            } else {
                if translate {
                    ArmInstruction::Strt
                } else {
                    ArmInstruction::Str
                }
            }
        }
    } else if category == 0b100 {
        if (instruction >> 20) & 1 > 0 {
            ArmInstruction::Ldm
        } else {
            ArmInstruction::Stm
        }
    } else if category == 0b101 {
        if (instruction >> 24) & 1 > 0 {
            ArmInstruction::Bl
        } else {
            ArmInstruction::B
        }
    } else if category == 0b110 {
        if (instruction >> 20) & 1 > 0 {
            ArmInstruction::Ldc
        } else {
            ArmInstruction::Stc
        }
    } else {
        if (instruction >> 24) & 1 > 0 {
            ArmInstruction::Swi
        } else if (instruction >> 4) & 1 == 0 {
            ArmInstruction::Cdp
        } else if (instruction >> 20) & 1 > 0 {
            ArmInstruction::Mrc
        } else {
            ArmInstruction::Mcr
        }
    }
}

/// Whether a tag names a data-processing instruction, whose second operand
/// goes through the barrel shifter.
pub open spec fn spec_is_data_processing(op: ArmInstruction) -> bool {
    op == ArmInstruction::And || op == ArmInstruction::Eor || op == ArmInstruction::Sub || op
        == ArmInstruction::Rsb || op == ArmInstruction::Add || op == ArmInstruction::Adc || op
        == ArmInstruction::Sbc || op == ArmInstruction::Rsc || op == ArmInstruction::Tst || op
        == ArmInstruction::Teq || op == ArmInstruction::Cmp || op == ArmInstruction::Cmn || op
        == ArmInstruction::Or || op == ArmInstruction::Mov || op == ArmInstruction::Bic || op
        == ArmInstruction::Mvn
}

/// A word the decoder classifies as data processing never carries the
/// multiplies and extra load/store extension space in its operand field,
/// so its operand may always go through the shifter.
pub proof fn lemma_decode_dp_operand_ok(inst: u32)
    ensures
        spec_is_data_processing(spec_decode(inst)) ==> spec_dp_operand_ok(inst),
{
    if spec_is_data_processing(spec_decode(inst)) {
        assert(((inst >> 25) & 7 == 1) ==> (inst >> 25) & 1 > 0) by (bit_vector);
        assert(((inst >> 25) & 7 == 0 && !((inst >> 4) & 0xf == 0b1001 || (inst >> 4) & 0xf
            == 0b1011 || (inst >> 4) & 0xf == 0b1101 || (inst >> 4) & 0xf == 0b1111)) ==> (!((inst
            >> 4) & 1 > 0) || !((inst >> 7) & 1 > 0))) by (bit_vector);
    }
}

/// Whether a value is negative when read as a 32-bit two's-complement
/// integer: the interpretation the N and V flags use.
pub open spec fn spec_sign(x: u32) -> bool {
    x >= 0x8000_0000
}

/// The register file after a data-processing write-back: if the S bit is
/// set and the destination is not the program counter, the four flags are
/// installed; if the destination is the program counter, the current
/// mode's SPSR is restored into CPSR instead, when the mode has one and it
/// holds a valid mode (otherwise the status registers are untouched, the
/// architecture calling that case unpredictable). The result then lands in
/// the destination register.
pub open spec fn spec_alu_writeback(
    rs: RegisterSet,
    inst: u32,
    result: u32,
    n: bool,
    z: bool,
    c: bool,
    v: bool,
) -> RegisterSet {
    let dest = spec_register_from_bits((inst >> 12) & 0xf);
    let s = spec_get_bit(inst, 20);
    if s && dest == RegisterNames::r15 {
        let restored = if rs.spec_has_spsr() && valid_mode_bits(
            rs.spec_reg(RegisterNames::spsr) & 0x1f,
        ) {
            rs.spec_set(RegisterNames::cpsr, rs.spec_reg(RegisterNames::spsr))
        } else {
            rs
        };
        restored.spec_set(dest, result)
    } else if s {
        let flagged = rs.spec_with_cpsr(
            (rs.cpsr & 0x0fff_ffff) | (crate::cpu::spec_nzcv_bits(n, z, c, v) << 28),
        );
        flagged.spec_set(dest, result)
    } else {
        rs.spec_set(dest, result)
    }
}

/// Perform the data-processing write-back: flags or SPSR restore per the S
/// bit, then the result into the destination register.
fn alu_writeback(emulator: &mut Emulator, instruction: u32, result: u32, n: bool, z: bool, c: bool, v: bool)
    requires
        old(emulator).wf(),
    ensures
        *final(emulator) == old(emulator).spec_with_registers(
            spec_alu_writeback(old(emulator).cpu.registers, instruction, result, n, z, c, v),
        ),
        final(emulator).wf(),
{
    proof {
        crate::utils::lemma_field_bounds(instruction);
    }
    let should_update_flags = get_bit(instruction, 20);
    let destination_register = register_from_bits((instruction >> 12) & 0xf);

    if should_update_flags {
        if destination_register == RegisterNames::r15 {
            if emulator.cpu.current_mode_has_spsr() {
                let saved = emulator.cpu.get_register_value(RegisterNames::spsr);
                if crate::cpu::is_valid_mode_field(saved) {
                    emulator.cpu.set_register_value(RegisterNames::cpsr, saved);
                }
            }
        } else {
            emulator.cpu.set_nzcv(n, z, c, v);
        }
    }

    emulator.cpu.set_register_value(destination_register, result);
}

/// Addition that also takes the carry bit of CPSR.
pub open spec fn spec_exec_adc(rs: RegisterSet, inst: u32) -> RegisterSet {
    let a = rs.spec_reg(spec_register_from_bits((inst >> 16) & 0xf));
    let b = spec_shifter_operand(rs, inst).0;
    let cin: u32 = if rs.spec_c() { 1 } else { 0 };
    let result = a.wrapping_add(b).wrapping_add(cin);
    spec_alu_writeback(
        rs,
        inst,
        result,
        spec_sign(result),
        result == 0,
        a + b + cin > 0xffff_ffff,
        spec_sign(a) == spec_sign(b) && spec_sign(result) != spec_sign(a),
    )
}

/// Addition that includes carry from the carry bit in the CPSR register.
pub fn adc(emulator: &mut Emulator, instruction: u32) -> (r: u32)
    requires
        old(emulator).wf(),
        spec_dp_operand_ok(instruction),
    ensures
        *final(emulator) == old(emulator).spec_with_registers(
            spec_exec_adc(old(emulator).cpu.registers, instruction),
        ),
        final(emulator).wf(),
        r == 5,
{
    let carry_amount: u32 = if emulator.cpu.get_c() {
        1
    } else {
        0
    };
    let (_, operand_register_value, shifter_operand, _) = crate::utils::get_data_processing_operands(
        emulator,
        instruction,
    );

    let a = operand_register_value;
    let overflow_first = shifter_operand > 0xffff_ffffu32 - a;
    let partial = a.wrapping_add(shifter_operand);
    let overflow_second = carry_amount > 0xffff_ffffu32 - partial;
    let result = partial.wrapping_add(carry_amount);

    alu_writeback(
        emulator,
        instruction,
        result,
        result >= 0x8000_0000,
        result == 0,
        overflow_first || overflow_second,
        (a >= 0x8000_0000) == (shifter_operand >= 0x8000_0000) && (result >= 0x8000_0000) != (a
            >= 0x8000_0000),
    );

    5
}

/// Addition.
pub open spec fn spec_exec_add(rs: RegisterSet, inst: u32) -> RegisterSet {
    let a = rs.spec_reg(spec_register_from_bits((inst >> 16) & 0xf));
    let b = spec_shifter_operand(rs, inst).0;
    let result = a.wrapping_add(b);
    spec_alu_writeback(
        rs,
        inst,
        result,
        spec_sign(result),
        result == 0,
        a + b > 0xffff_ffff,
        spec_sign(a) == spec_sign(b) && spec_sign(result) != spec_sign(a),
    )
}

/// Addition.
pub fn add(emulator: &mut Emulator, instruction: u32) -> (r: u32)
    requires
        old(emulator).wf(),
        spec_dp_operand_ok(instruction),
    ensures
        *final(emulator) == old(emulator).spec_with_registers(
            spec_exec_add(old(emulator).cpu.registers, instruction),
        ),
        final(emulator).wf(),
        r == 5,
{
    let (_, a, b, _) = crate::utils::get_data_processing_operands(emulator, instruction);

    let result = a.wrapping_add(b);

    alu_writeback(
        emulator,
        instruction,
        result,
        result >= 0x8000_0000,
        result == 0,
        b > 0xffff_ffffu32 - a,
        (a >= 0x8000_0000) == (b >= 0x8000_0000) && (result >= 0x8000_0000) != (a >= 0x8000_0000),
    );

    5
}

/// Subtraction.
pub open spec fn spec_exec_sub(rs: RegisterSet, inst: u32) -> RegisterSet {
    let a = rs.spec_reg(spec_register_from_bits((inst >> 16) & 0xf));
    let b = spec_shifter_operand(rs, inst).0;
    let result = a.wrapping_sub(b);
    spec_alu_writeback(
        rs,
        inst,
        result,
        spec_sign(result),
        result == 0,
        a >= b,
        spec_sign(a) != spec_sign(b) && spec_sign(result) != spec_sign(a),
    )
}

/// Subtraction: the C flag reports "no borrow", the V flag signed overflow.
pub fn sub(emulator: &mut Emulator, instruction: u32) -> (r: u32)
    requires
        old(emulator).wf(),
        spec_dp_operand_ok(instruction),
    ensures
        *final(emulator) == old(emulator).spec_with_registers(
            spec_exec_sub(old(emulator).cpu.registers, instruction),
        ),
        final(emulator).wf(),
        r == 5,
{
    let (_, a, b, _) = crate::utils::get_data_processing_operands(emulator, instruction);

    let result = a.wrapping_sub(b);

    alu_writeback(
        emulator,
        instruction,
        result,
        result >= 0x8000_0000,
        result == 0,
        a >= b,
        (a >= 0x8000_0000) != (b >= 0x8000_0000) && (result >= 0x8000_0000) != (a >= 0x8000_0000),
    );

    5
}

/// Reverse subtraction: the shifter operand minus the register operand.
pub open spec fn spec_exec_rsb(rs: RegisterSet, inst: u32) -> RegisterSet {
    let a = rs.spec_reg(spec_register_from_bits((inst >> 16) & 0xf));
    let b = spec_shifter_operand(rs, inst).0;
    let result = b.wrapping_sub(a);
    spec_alu_writeback(
        rs,
        inst,
        result,
        spec_sign(result),
        result == 0,
        b >= a,
        spec_sign(b) != spec_sign(a) && spec_sign(result) != spec_sign(b),
    )
}

/// Reverse subtraction.
pub fn rsb(emulator: &mut Emulator, instruction: u32) -> (r: u32)
    requires
        old(emulator).wf(),
        spec_dp_operand_ok(instruction),
    ensures
        *final(emulator) == old(emulator).spec_with_registers(
            spec_exec_rsb(old(emulator).cpu.registers, instruction),
        ),
        final(emulator).wf(),
        r == 5,
{
    let (_, a, b, _) = crate::utils::get_data_processing_operands(emulator, instruction);

    let result = b.wrapping_sub(a);

    alu_writeback(
        emulator,
        instruction,
        result,
        result >= 0x8000_0000,
        result == 0,
        b >= a,
        (b >= 0x8000_0000) != (a >= 0x8000_0000) && (result >= 0x8000_0000) != (b >= 0x8000_0000),
    );

    5
}

/// Subtraction with carry: a clear C flag costs one more borrow.
pub open spec fn spec_exec_sbc(rs: RegisterSet, inst: u32) -> RegisterSet {
    let a = rs.spec_reg(spec_register_from_bits((inst >> 16) & 0xf));
    let b = spec_shifter_operand(rs, inst).0;
    let borrow: u32 = if rs.spec_c() { 0 } else { 1 };
    let result = a.wrapping_sub(b).wrapping_sub(borrow);
    spec_alu_writeback(
        rs,
        inst,
        result,
        spec_sign(result),
        result == 0,
        a >= b + borrow,
        spec_sign(a) != spec_sign(b) && spec_sign(result) != spec_sign(a),
    )
}

/// Subtraction with carry.
pub fn sbc(emulator: &mut Emulator, instruction: u32) -> (r: u32)
    requires
        old(emulator).wf(),
        spec_dp_operand_ok(instruction),
    ensures
        *final(emulator) == old(emulator).spec_with_registers(
            spec_exec_sbc(old(emulator).cpu.registers, instruction),
        ),
        final(emulator).wf(),
        r == 5,
{
    let borrow: u32 = if emulator.cpu.get_c() {
        0
    } else {
        1
    };
    let (_, a, b, _) = crate::utils::get_data_processing_operands(emulator, instruction);

    let result = a.wrapping_sub(b).wrapping_sub(borrow);
    let no_borrow = a >= b && a - b >= borrow;

    alu_writeback(
        emulator,
        instruction,
        result,
        result >= 0x8000_0000,
        result == 0,
        no_borrow,
        (a >= 0x8000_0000) != (b >= 0x8000_0000) && (result >= 0x8000_0000) != (a >= 0x8000_0000),
    );

    5
}

/// Reverse subtraction with carry.
pub open spec fn spec_exec_rsc(rs: RegisterSet, inst: u32) -> RegisterSet {
    let a = rs.spec_reg(spec_register_from_bits((inst >> 16) & 0xf));
    let b = spec_shifter_operand(rs, inst).0;
    let borrow: u32 = if rs.spec_c() { 0 } else { 1 };
    let result = b.wrapping_sub(a).wrapping_sub(borrow);
    spec_alu_writeback(
        rs,
        inst,
        result,
        spec_sign(result),
        result == 0,
        b >= a + borrow,
        spec_sign(b) != spec_sign(a) && spec_sign(result) != spec_sign(b),
    )
}

/// Reverse subtraction with carry.
pub fn rsc(emulator: &mut Emulator, instruction: u32) -> (r: u32)
    requires
        old(emulator).wf(),
        spec_dp_operand_ok(instruction),
    ensures
        *final(emulator) == old(emulator).spec_with_registers(
            spec_exec_rsc(old(emulator).cpu.registers, instruction),
        ),
        final(emulator).wf(),
        r == 5,
{
    let borrow: u32 = if emulator.cpu.get_c() {
        0
    } else {
        1
    };
    let (_, a, b, _) = crate::utils::get_data_processing_operands(emulator, instruction);

    let result = b.wrapping_sub(a).wrapping_sub(borrow);
    let no_borrow = b >= a && b - a >= borrow;

    alu_writeback(
        emulator,
        instruction,
        result,
        result >= 0x8000_0000,
        result == 0,
        no_borrow,
        (b >= 0x8000_0000) != (a >= 0x8000_0000) && (result >= 0x8000_0000) != (b >= 0x8000_0000),
    );

    5
}

/// Logical AND.
pub open spec fn spec_exec_and(rs: RegisterSet, inst: u32) -> RegisterSet {
    let a = rs.spec_reg(spec_register_from_bits((inst >> 16) & 0xf));
    let (b, carry) = spec_shifter_operand(rs, inst);
    let result = a & b;
    spec_alu_writeback(rs, inst, result, spec_sign(result), result == 0, carry, rs.spec_v())
}

/// Logical AND: N and Z from the result, C from the shifter carry-out, V
/// untouched.
pub fn and(emulator: &mut Emulator, instruction: u32) -> (r: u32)
    requires
        old(emulator).wf(),
        spec_dp_operand_ok(instruction),
    ensures
        *final(emulator) == old(emulator).spec_with_registers(
            spec_exec_and(old(emulator).cpu.registers, instruction),
        ),
        final(emulator).wf(),
        r == 5,
{
    let (_, a, b, carry) = crate::utils::get_data_processing_operands(emulator, instruction);
    let v = emulator.cpu.get_v();

    let result = a & b;

    alu_writeback(emulator, instruction, result, result >= 0x8000_0000, result == 0, carry, v);

    5
}

/// Logical exclusive OR.
pub open spec fn spec_exec_eor(rs: RegisterSet, inst: u32) -> RegisterSet {
    let a = rs.spec_reg(spec_register_from_bits((inst >> 16) & 0xf));
    let (b, carry) = spec_shifter_operand(rs, inst);
    let result = a ^ b;
    spec_alu_writeback(rs, inst, result, spec_sign(result), result == 0, carry, rs.spec_v())
}

/// Logical exclusive OR.
pub fn eor(emulator: &mut Emulator, instruction: u32) -> (r: u32)
    requires
        old(emulator).wf(),
        spec_dp_operand_ok(instruction),
    ensures
        *final(emulator) == old(emulator).spec_with_registers(
            spec_exec_eor(old(emulator).cpu.registers, instruction),
        ),
        final(emulator).wf(),
        r == 5,
{
    let (_, a, b, carry) = crate::utils::get_data_processing_operands(emulator, instruction);
    let v = emulator.cpu.get_v();

    let result = a ^ b;

    alu_writeback(emulator, instruction, result, result >= 0x8000_0000, result == 0, carry, v);

    5
}

/// Logical OR (the `orr` mnemonic).
pub open spec fn spec_exec_or(rs: RegisterSet, inst: u32) -> RegisterSet {
    let a = rs.spec_reg(spec_register_from_bits((inst >> 16) & 0xf));
    let (b, carry) = spec_shifter_operand(rs, inst);
    let result = a | b;
    spec_alu_writeback(rs, inst, result, spec_sign(result), result == 0, carry, rs.spec_v())
}

/// Logical OR (also referred to as the orr instruction).
pub fn or(emulator: &mut Emulator, instruction: u32) -> (r: u32)
    requires
        old(emulator).wf(),
        spec_dp_operand_ok(instruction),
    ensures
        *final(emulator) == old(emulator).spec_with_registers(
            spec_exec_or(old(emulator).cpu.registers, instruction),
        ),
        final(emulator).wf(),
        r == 5,
{
    let (_, a, b, carry) = crate::utils::get_data_processing_operands(emulator, instruction);
    let v = emulator.cpu.get_v();

    let result = a | b;

    alu_writeback(emulator, instruction, result, result >= 0x8000_0000, result == 0, carry, v);

    5
}

/// Bit clear: `a AND (NOT b)`.
pub open spec fn spec_exec_bic(rs: RegisterSet, inst: u32) -> RegisterSet {
    let a = rs.spec_reg(spec_register_from_bits((inst >> 16) & 0xf));
    let (b, carry) = spec_shifter_operand(rs, inst);
    let result = a & !b;
    spec_alu_writeback(rs, inst, result, spec_sign(result), result == 0, carry, rs.spec_v())
}

/// Bit clear - equivalent to `a AND (NOT b)`.
pub fn bic(emulator: &mut Emulator, instruction: u32) -> (r: u32)
    requires
        old(emulator).wf(),
        spec_dp_operand_ok(instruction),
    ensures
        *final(emulator) == old(emulator).spec_with_registers(
            spec_exec_bic(old(emulator).cpu.registers, instruction),
        ),
        final(emulator).wf(),
        r == 5,
{
    let (_, a, b, carry) = crate::utils::get_data_processing_operands(emulator, instruction);
    let v = emulator.cpu.get_v();

    let result = a & !b;

    alu_writeback(emulator, instruction, result, result >= 0x8000_0000, result == 0, carry, v);

    5
}

/// Move the shifter operand into the destination.
pub open spec fn spec_exec_mov(rs: RegisterSet, inst: u32) -> RegisterSet {
    let (b, carry) = spec_shifter_operand(rs, inst);
    spec_alu_writeback(rs, inst, b, spec_sign(b), b == 0, carry, rs.spec_v())
}

/// Move the shifter operand into the destination register.
pub fn mov(emulator: &mut Emulator, instruction: u32) -> (r: u32)
    requires
        old(emulator).wf(),
        spec_dp_operand_ok(instruction),
    ensures
        *final(emulator) == old(emulator).spec_with_registers(
            spec_exec_mov(old(emulator).cpu.registers, instruction),
        ),
        final(emulator).wf(),
        r == 5,
{
    let (_, _, b, carry) = crate::utils::get_data_processing_operands(emulator, instruction);
    let v = emulator.cpu.get_v();

    alu_writeback(emulator, instruction, b, b >= 0x8000_0000, b == 0, carry, v);

    5
}

/// Move the bitwise complement of the shifter operand.
pub open spec fn spec_exec_mvn(rs: RegisterSet, inst: u32) -> RegisterSet {
    let (b, carry) = spec_shifter_operand(rs, inst);
    let result = !b;
    spec_alu_writeback(rs, inst, result, spec_sign(result), result == 0, carry, rs.spec_v())
}

/// Move the bitwise complement of the shifter operand.
pub fn mvn(emulator: &mut Emulator, instruction: u32) -> (r: u32)
    requires
        old(emulator).wf(),
        spec_dp_operand_ok(instruction),
    ensures
        *final(emulator) == old(emulator).spec_with_registers(
            spec_exec_mvn(old(emulator).cpu.registers, instruction),
        ),
        final(emulator).wf(),
        r == 5,
{
    let (_, _, b, carry) = crate::utils::get_data_processing_operands(emulator, instruction);
    let v = emulator.cpu.get_v();

    let result = !b;

    alu_writeback(emulator, instruction, result, result >= 0x8000_0000, result == 0, carry, v);

    5
}

/// The register file with the four flags replaced: the comparison
/// instructions end here, writing no destination register.
pub open spec fn spec_set_flags(rs: RegisterSet, n: bool, z: bool, c: bool, v: bool) -> RegisterSet {
    rs.spec_with_cpsr(
        (rs.cpsr & 0x0fff_ffff) | (crate::cpu::spec_nzcv_bits(n, z, c, v) << 28),
    )
}

/// Compare: the flags of `a - b`, with nothing written back.
pub open spec fn spec_exec_cmp(rs: RegisterSet, inst: u32) -> RegisterSet {
    let a = rs.spec_reg(spec_register_from_bits((inst >> 16) & 0xf));
    let b = spec_shifter_operand(rs, inst).0;
    let result = a.wrapping_sub(b);
    spec_set_flags(
        rs,
        spec_sign(result),
        result == 0,
        a >= b,
        spec_sign(a) != spec_sign(b) && spec_sign(result) != spec_sign(a),
    )
}

/// Compare: set the flags of a subtraction, discarding the result.
pub fn cmp(emulator: &mut Emulator, instruction: u32) -> (r: u32)
    requires
        old(emulator).wf(),
        spec_dp_operand_ok(instruction),
    ensures
        *final(emulator) == old(emulator).spec_with_registers(
            spec_exec_cmp(old(emulator).cpu.registers, instruction),
        ),
        final(emulator).wf(),
        r == 1,
{
    let (_, a, b, _) = crate::utils::get_data_processing_operands(emulator, instruction);

    let result = a.wrapping_sub(b);

    emulator.cpu.set_nzcv(
        result >= 0x8000_0000,
        result == 0,
        a >= b,
        (a >= 0x8000_0000) != (b >= 0x8000_0000) && (result >= 0x8000_0000) != (a >= 0x8000_0000),
    );

    1
}

/// Compare negative: the flags of `a + b`.
pub open spec fn spec_exec_cmn(rs: RegisterSet, inst: u32) -> RegisterSet {
    let a = rs.spec_reg(spec_register_from_bits((inst >> 16) & 0xf));
    let b = spec_shifter_operand(rs, inst).0;
    let result = a.wrapping_add(b);
    spec_set_flags(
        rs,
        spec_sign(result),
        result == 0,
        a + b > 0xffff_ffff,
        spec_sign(a) == spec_sign(b) && spec_sign(result) != spec_sign(a),
    )
}

/// Compare negative: set the flags of an addition, discarding the result.
pub fn cmn(emulator: &mut Emulator, instruction: u32) -> (r: u32)
    requires
        old(emulator).wf(),
        spec_dp_operand_ok(instruction),
    ensures
        *final(emulator) == old(emulator).spec_with_registers(
            spec_exec_cmn(old(emulator).cpu.registers, instruction),
        ),
        final(emulator).wf(),
        r == 1,
{
    let (_, a, b, _) = crate::utils::get_data_processing_operands(emulator, instruction);

    let result = a.wrapping_add(b);

    emulator.cpu.set_nzcv(
        result >= 0x8000_0000,
        result == 0,
        b > 0xffff_ffffu32 - a,
        (a >= 0x8000_0000) == (b >= 0x8000_0000) && (result >= 0x8000_0000) != (a >= 0x8000_0000),
    );

    1
}

/// Test: the flags of `a AND b`.
pub open spec fn spec_exec_tst(rs: RegisterSet, inst: u32) -> RegisterSet {
    let a = rs.spec_reg(spec_register_from_bits((inst >> 16) & 0xf));
    let (b, carry) = spec_shifter_operand(rs, inst);
    let result = a & b;
    spec_set_flags(rs, spec_sign(result), result == 0, carry, rs.spec_v())
}

/// Test: set the flags of a bitwise AND, discarding the result.
pub fn tst(emulator: &mut Emulator, instruction: u32) -> (r: u32)
    requires
        old(emulator).wf(),
        spec_dp_operand_ok(instruction),
    ensures
        *final(emulator) == old(emulator).spec_with_registers(
            spec_exec_tst(old(emulator).cpu.registers, instruction),
        ),
        final(emulator).wf(),
        r == 1,
{
    let (_, a, b, carry) = crate::utils::get_data_processing_operands(emulator, instruction);
    let v = emulator.cpu.get_v();

    let result = a & b;

    emulator.cpu.set_nzcv(result >= 0x8000_0000, result == 0, carry, v);

    1
}

/// Test equivalence: the flags of `a EOR b`.
pub open spec fn spec_exec_teq(rs: RegisterSet, inst: u32) -> RegisterSet {
    let a = rs.spec_reg(spec_register_from_bits((inst >> 16) & 0xf));
    let (b, carry) = spec_shifter_operand(rs, inst);
    let result = a ^ b;
    spec_set_flags(rs, spec_sign(result), result == 0, carry, rs.spec_v())
}

/// Test equivalence: set the flags of an exclusive OR, discarding the
/// result.
pub fn teq(emulator: &mut Emulator, instruction: u32) -> (r: u32)
    requires
        old(emulator).wf(),
        spec_dp_operand_ok(instruction),
    ensures
        *final(emulator) == old(emulator).spec_with_registers(
            spec_exec_teq(old(emulator).cpu.registers, instruction),
        ),
        final(emulator).wf(),
        r == 1,
{
    let (_, a, b, carry) = crate::utils::get_data_processing_operands(emulator, instruction);
    let v = emulator.cpu.get_v();

    let result = a ^ b;

    emulator.cpu.set_nzcv(result >= 0x8000_0000, result == 0, carry, v);

    1
}

/// The 26-bit branch displacement: the 24-bit field sign-extended and
/// shifted left by two.
pub open spec fn spec_branch_shift(inst: u32) -> u32 {
    (if spec_get_bit(inst, 23) {
        (inst & 0x7fffff) | 0x3f80_0000
    } else {
        inst & 0x7fffff
    }) << 2
}

/// Relative branch.
pub open spec fn spec_exec_b(rs: RegisterSet, inst: u32) -> RegisterSet {
    let pc = rs.spec_reg(RegisterNames::r15);
    rs.spec_set(RegisterNames::r15, pc.wrapping_add(spec_branch_shift(inst)))
}

/// Relative code branching by up to 32MB in either direction.
pub fn b(emulator: &mut Emulator, instruction: u32) -> (r: u32)
    requires
        old(emulator).wf(),
    ensures
        *final(emulator) == old(emulator).spec_with_registers(
            spec_exec_b(old(emulator).cpu.registers, instruction),
        ),
        final(emulator).wf(),
        r == 5,
{
    let pc_value = emulator.cpu.get_register_value(RegisterNames::r15);
    let negative = get_bit(instruction, 23);

    // The displacement is a 26-bit two's-complement value stored in 24
    // bits; widen the sign before shifting it up.
    let shift = (if negative {
        (instruction & 0x7fffff) | 0x3f80_0000
    } else {
        instruction & 0x7fffff
    }) << 2;

    emulator.cpu.set_register_value(RegisterNames::r15, pc_value.wrapping_add(shift));

    5
}

/// Relative branch with link: the return address goes to `r14` first.
pub open spec fn spec_exec_bl(rs: RegisterSet, inst: u32) -> RegisterSet {
    let pc = rs.spec_reg(RegisterNames::r15);
    let linked = rs.spec_set(RegisterNames::r14, pc);
    linked.spec_set(RegisterNames::r15, pc.wrapping_add(spec_branch_shift(inst)))
}

/// Linked relative code branching by up to 32MB in either direction. Sets
/// `r14` with the address to return to after execution.
pub fn bl(emulator: &mut Emulator, instruction: u32) -> (r: u32)
    requires
        old(emulator).wf(),
    ensures
        *final(emulator) == old(emulator).spec_with_registers(
            spec_exec_bl(old(emulator).cpu.registers, instruction),
        ),
        final(emulator).wf(),
        r == 5,
{
    let pc_value = emulator.cpu.get_register_value(RegisterNames::r15);
    let negative = get_bit(instruction, 23);

    let shift = (if negative {
        (instruction & 0x7fffff) | 0x3f80_0000
    } else {
        instruction & 0x7fffff
    }) << 2;

    emulator.cpu.set_register_value(RegisterNames::r14, pc_value);
    emulator.cpu.set_register_value(RegisterNames::r15, pc_value.wrapping_add(shift));

    5
}

/// Branch and exchange: jump to an address held in a register, selecting
/// the Thumb instruction set from its lowest bit.
pub open spec fn spec_exec_bx(rs: RegisterSet, inst: u32) -> RegisterSet {
    let target = rs.spec_reg(spec_register_from_bits(inst & 0xf));
    let switched = rs.spec_with_cpsr(
        if spec_get_bit(target, 0) {
            rs.cpsr | crate::cpu::THUMB_BIT
        } else {
            rs.cpsr & !crate::cpu::THUMB_BIT
        },
    );
    switched.spec_set(RegisterNames::r15, target & 0xffff_fffe)
}

/// Branch to a register-held address, exchanging the instruction set to
/// Thumb when bit 0 of the target is set.
pub fn bx(emulator: &mut Emulator, instruction: u32) -> (r: u32)
    requires
        old(emulator).wf(),
    ensures
        *final(emulator) == old(emulator).spec_with_registers(
            spec_exec_bx(old(emulator).cpu.registers, instruction),
        ),
        final(emulator).wf(),
        r == 1,
{
    proof {
        crate::utils::lemma_field_bounds(instruction);
    }
    let target = emulator.cpu.get_register_value(register_from_bits(instruction & 0xf));

    emulator.cpu.set_thumb_bit(get_bit(target, 0));
    emulator.cpu.set_register_value(RegisterNames::r15, target & 0xffff_fffe);

    1
}

// Plain reads and writes against the emulator's memory. There is no
// permission checking on this system's bus; keeping them as named
// functions leaves one place to extend for a system with a protection
// unit.

/// Read one byte of memory.
pub fn read_byte(emulator: &Emulator, address: u32) -> (r: u8)
    ensures
        r == crate::memory::spec_read_byte(emulator.memory@, address),
{
    emulator.memory.read_byte(address)
}

/// Read an aligned halfword of memory.
pub fn read_half_word(emulator: &Emulator, address: u32) -> (r: u16)
    requires
        address % 2 == 0,
    ensures
        r == crate::memory::spec_read_half(emulator.memory@, address),
{
    emulator.memory.read_half_word(address)
}

/// Read an aligned word of memory.
pub fn read_word(emulator: &Emulator, address: u32) -> (r: u32)
    requires
        address % 4 == 0,
    ensures
        r == spec_read_word(emulator.memory@, address),
{
    emulator.memory.read_word(address)
}

/// Write one byte of memory.
pub fn write_byte(emulator: &mut Emulator, address: u32, value: u8)
    ensures
        final(emulator).memory@ == spec_write_byte(old(emulator).memory@, address, value),
        final(emulator).cpu == old(emulator).cpu,
        final(emulator).remaining_cycles == old(emulator).remaining_cycles,
{
    emulator.memory.write_byte(address, value);
}

/// Write an aligned halfword of memory.
pub fn write_half_word(emulator: &mut Emulator, address: u32, value: u16)
    requires
        address % 2 == 0,
    ensures
        final(emulator).memory@ == spec_write_half(old(emulator).memory@, address, value),
        final(emulator).cpu == old(emulator).cpu,
        final(emulator).remaining_cycles == old(emulator).remaining_cycles,
{
    emulator.memory.write_half_word(address, value);
}

/// Write an aligned word of memory.
pub fn write_word(emulator: &mut Emulator, address: u32, value: u32)
    requires
        address % 4 == 0,
    ensures
        final(emulator).memory@ == spec_write_word(old(emulator).memory@, address, value),
        final(emulator).cpu == old(emulator).cpu,
        final(emulator).remaining_cycles == old(emulator).remaining_cycles,
{
    emulator.memory.write_word(address, value);
}

/// Store a register as a word at the given address, forced down to word
/// alignment.
pub fn store_register(emulator: &mut Emulator, source_register: RegisterNames, address: u32)
    requires
        old(emulator).wf(),
        source_register == RegisterNames::spsr ==> old(emulator).cpu.registers.spec_has_spsr(),
    ensures
        final(emulator).memory@ == spec_write_word(
            old(emulator).memory@,
            address & 0xffff_fffc,
            old(emulator).cpu.registers.spec_reg(source_register),
        ),
        final(emulator).cpu == old(emulator).cpu,
        final(emulator).remaining_cycles == old(emulator).remaining_cycles,
{
    proof {
        assert((address & 0xffff_fffcu32) % 4 == 0) by (bit_vector);
    }
    let source_register_value = emulator.cpu.get_register_value(source_register);

    write_word(emulator, address & 0xffff_fffc, source_register_value);
}

/// Store the low byte of a register at the given address.
pub fn store_register_byte(emulator: &mut Emulator, source_register: RegisterNames, address: u32)
    requires
        old(emulator).wf(),
        source_register == RegisterNames::spsr ==> old(emulator).cpu.registers.spec_has_spsr(),
    ensures
        final(emulator).memory@ == spec_write_byte(
            old(emulator).memory@,
            address,
            (old(emulator).cpu.registers.spec_reg(source_register) & 0xff) as u8,
        ),
        final(emulator).cpu == old(emulator).cpu,
        final(emulator).remaining_cycles == old(emulator).remaining_cycles,
{
    let source_register_value = emulator.cpu.get_register_value(source_register);

    proof {
        assert(source_register_value & 0xff < 256) by (bit_vector);
    }
    write_byte(emulator, address, (source_register_value & 0xff) as u8);
}

/// The register file after a word load: the word at the aligned address,
/// rotated right by eight bits per low address bit, lands in the
/// destination; a load into the program counter is forced to word
/// alignment.
pub open spec fn spec_load_register(e: Emulator, dest: RegisterNames, address: u32) -> RegisterSet {
    let value0 = spec_read_word(e.memory@, address & 0xffff_fffc);
    let rotate = address & 3;
    let value = if rotate > 0 {
        spec_ror(value0, ((rotate * 8) as u32))
    } else {
        value0
    };
    if dest == RegisterNames::r15 {
        e.cpu.registers.spec_set(RegisterNames::r15, value & 0xffff_fffc)
    } else {
        e.cpu.registers.spec_set(dest, value)
    }
}

/// Load a word into a register. On this architecture a misaligned address
/// rotates the aligned word right by eight bits for each low address bit;
/// a load into the program counter masks the value to word alignment.
pub fn load_register(emulator: &mut Emulator, destination_register: RegisterNames, address: u32)
    requires
        old(emulator).wf(),
        destination_register != RegisterNames::cpsr,
        destination_register == RegisterNames::spsr ==> old(
            emulator,
        ).cpu.registers.spec_has_spsr(),
    ensures
        *final(emulator) == old(emulator).spec_with_registers(
            spec_load_register(*old(emulator), destination_register, address),
        ),
        final(emulator).wf(),
{
    proof {
        assert((address & 0xffff_fffcu32) % 4 == 0 && address & 3 < 4) by (bit_vector);
    }
    let mut value = read_word(emulator, address & 0xffff_fffc);

    let rotate = address & 3;
    if rotate > 0 {
        value = crate::utils::ror(value, rotate * 8);
    }

    if destination_register == RegisterNames::r15 {
        emulator.cpu.set_register_value(RegisterNames::r15, value & 0xffff_fffc);
    } else {
        emulator.cpu.set_register_value(destination_register, value);
    }
}

/// How a word load leaves the machine: addressing mode 2 runs first (with
/// any base writeback), then the loaded word lands in the destination.
pub open spec fn spec_ldr_rel(pre: Emulator, post: Emulator, inst: u32) -> bool {
    let stepped = spec_am2(pre.cpu.registers, inst);
    let dest = spec_register_from_bits((inst >> 12) & 0xf);
    post == pre.spec_with_registers(
        spec_load_register(pre.spec_with_registers(stepped.0), dest, stepped.1),
    )
}

/// Load register: a word access through addressing mode 2.
pub fn ldr(emulator: &mut Emulator, instruction: u32) -> (r: u32)
    requires
        old(emulator).wf(),
    ensures
        spec_ldr_rel(*old(emulator), *final(emulator), instruction),
        final(emulator).wf(),
        r == 5,
{
    proof {
        crate::utils::lemma_field_bounds(instruction);
    }
    let (address, _addressing_type) = process_addressing_mode(emulator, instruction);
    let destination_register = register_from_bits((instruction >> 12) & 0xf);

    load_register(emulator, destination_register, address);

    5
}

/// Load register with translation: the post-indexed form of `ldr`; the
/// user-mode translation has no effect on this system, which has no
/// memory protection.
pub fn ldrt(emulator: &mut Emulator, instruction: u32) -> (r: u32)
    requires
        old(emulator).wf(),
    ensures
        spec_ldr_rel(*old(emulator), *final(emulator), instruction),
        final(emulator).wf(),
        r == 5,
{
    proof {
        crate::utils::lemma_field_bounds(instruction);
    }
    let (address, _addressing_type) = process_addressing_mode(emulator, instruction);
    let destination_register = register_from_bits((instruction >> 12) & 0xf);

    load_register(emulator, destination_register, address);

    5
}

/// How a byte load leaves the machine: the byte at the effective address,
/// zero-extended, lands in the destination.
pub open spec fn spec_ldrb_rel(pre: Emulator, post: Emulator, inst: u32) -> bool {
    let stepped = spec_am2(pre.cpu.registers, inst);
    let dest = spec_register_from_bits((inst >> 12) & 0xf);
    let value = crate::memory::spec_read_byte(pre.memory@, stepped.1) as u32;
    post == pre.spec_with_registers(stepped.0.spec_set(dest, value))
}

/// Load register byte: a zero-extended byte access through addressing
/// mode 2.
pub fn ldrb(emulator: &mut Emulator, instruction: u32) -> (r: u32)
    requires
        old(emulator).wf(),
    ensures
        spec_ldrb_rel(*old(emulator), *final(emulator), instruction),
        final(emulator).wf(),
        r == 5,
{
    proof {
        crate::utils::lemma_field_bounds(instruction);
    }
    let (address, _addressing_type) = process_addressing_mode(emulator, instruction);
    let destination_register = register_from_bits((instruction >> 12) & 0xf);

    let value = read_byte(emulator, address) as u32;
    emulator.cpu.set_register_value(destination_register, value);

    5
}

/// Load register byte with translation: the post-indexed form of `ldrb`.
pub fn ldrbt(emulator: &mut Emulator, instruction: u32) -> (r: u32)
    requires
        old(emulator).wf(),
    ensures
        spec_ldrb_rel(*old(emulator), *final(emulator), instruction),
        final(emulator).wf(),
        r == 5,
{
    proof {
        crate::utils::lemma_field_bounds(instruction);
    }
    let (address, _addressing_type) = process_addressing_mode(emulator, instruction);
    let destination_register = register_from_bits((instruction >> 12) & 0xf);

    let value = read_byte(emulator, address) as u32;
    emulator.cpu.set_register_value(destination_register, value);

    5
}

/// How a word store leaves the machine: addressing mode 2 runs first, then
/// the source register - read after any base writeback - is stored at the
/// word-aligned effective address.
pub open spec fn spec_str_rel(pre: Emulator, post: Emulator, inst: u32) -> bool {
    let stepped = spec_am2(pre.cpu.registers, inst);
    let src = spec_register_from_bits((inst >> 12) & 0xf);
    post.cpu.registers == stepped.0 && post.cpu.halt == pre.cpu.halt && post.remaining_cycles
        == pre.remaining_cycles && post.memory@ == spec_write_word(
        pre.memory@,
        stepped.1 & 0xffff_fffc,
        stepped.0.spec_reg(src),
    )
}

/// Store register: a word access through addressing mode 2.
pub fn str(emulator: &mut Emulator, instruction: u32) -> (r: u32)
    requires
        old(emulator).wf(),
    ensures
        spec_str_rel(*old(emulator), *final(emulator), instruction),
        final(emulator).wf(),
        r == 1,
{
    proof {
        crate::utils::lemma_field_bounds(instruction);
    }
    let (address, _addressing_type) = process_addressing_mode(emulator, instruction);
    let source_register = register_from_bits((instruction >> 12) & 0xf);

    store_register(emulator, source_register, address);

    1
}

/// Store register with translation: the post-indexed form of `str`.
pub fn strt(emulator: &mut Emulator, instruction: u32) -> (r: u32)
    requires
        old(emulator).wf(),
    ensures
        spec_str_rel(*old(emulator), *final(emulator), instruction),
        final(emulator).wf(),
        r == 1,
{
    proof {
        crate::utils::lemma_field_bounds(instruction);
    }
    let (address, _addressing_type) = process_addressing_mode(emulator, instruction);
    let source_register = register_from_bits((instruction >> 12) & 0xf);

    store_register(emulator, source_register, address);

    1
}

/// How a byte store leaves the machine: the low byte of the source
/// register lands at the exact effective address.
pub open spec fn spec_strb_rel(pre: Emulator, post: Emulator, inst: u32) -> bool {
    let stepped = spec_am2(pre.cpu.registers, inst);
    let src = spec_register_from_bits((inst >> 12) & 0xf);
    post.cpu.registers == stepped.0 && post.cpu.halt == pre.cpu.halt && post.remaining_cycles
        == pre.remaining_cycles && post.memory@ == spec_write_byte(
        pre.memory@,
        stepped.1,
        (stepped.0.spec_reg(src) & 0xff) as u8,
    )
}

/// Store register byte: the low byte of the source through addressing
/// mode 2.
pub fn strb(emulator: &mut Emulator, instruction: u32) -> (r: u32)
    requires
        old(emulator).wf(),
    ensures
        spec_strb_rel(*old(emulator), *final(emulator), instruction),
        final(emulator).wf(),
        r == 1,
{
    proof {
        crate::utils::lemma_field_bounds(instruction);
    }
    let (address, _addressing_type) = process_addressing_mode(emulator, instruction);
    let source_register = register_from_bits((instruction >> 12) & 0xf);

    store_register_byte(emulator, source_register, address);

    1
}

/// Store register byte with translation: the post-indexed form of `strb`.
pub fn strbt(emulator: &mut Emulator, instruction: u32) -> (r: u32)
    requires
        old(emulator).wf(),
    ensures
        spec_strb_rel(*old(emulator), *final(emulator), instruction),
        final(emulator).wf(),
        r == 1,
{
    proof {
        crate::utils::lemma_field_bounds(instruction);
    }
    let (address, _addressing_type) = process_addressing_mode(emulator, instruction);
    let source_register = register_from_bits((instruction >> 12) & 0xf);

    store_register_byte(emulator, source_register, address);

    1
}

/// How a halfword load leaves the machine: the halfword at the effective
/// address, snapped down to even alignment and zero-extended, lands in the
/// destination.
pub open spec fn spec_ldrh_rel(pre: Emulator, post: Emulator, inst: u32) -> bool {
    let stepped = spec_am3(pre.cpu.registers, inst);
    let dest = spec_register_from_bits((inst >> 12) & 0xf);
    let value = crate::memory::spec_read_half(pre.memory@, stepped.1 & 0xffff_fffe) as u32;
    post == pre.spec_with_registers(stepped.0.spec_set(dest, value))
}

/// Load register halfword, zero-extended, through addressing mode 3.
pub fn ldrh(emulator: &mut Emulator, instruction: u32) -> (r: u32)
    requires
        old(emulator).wf(),
    ensures
        spec_ldrh_rel(*old(emulator), *final(emulator), instruction),
        final(emulator).wf(),
        r == 5,
{
    proof {
        crate::utils::lemma_field_bounds(instruction);
    }
    let (address, _addressing_type) = process_misc_addressing_mode(emulator, instruction);
    let destination_register = register_from_bits((instruction >> 12) & 0xf);

    proof {
        assert((address & 0xffff_fffeu32) % 2 == 0) by (bit_vector);
    }
    let value = read_half_word(emulator, address & 0xffff_fffe) as u32;
    emulator.cpu.set_register_value(destination_register, value);

    5
}

/// How a signed byte load leaves the machine: the byte at the effective
/// address, sign-extended, lands in the destination.
pub open spec fn spec_ldrsb_rel(pre: Emulator, post: Emulator, inst: u32) -> bool {
    let stepped = spec_am3(pre.cpu.registers, inst);
    let dest = spec_register_from_bits((inst >> 12) & 0xf);
    let byte = crate::memory::spec_read_byte(pre.memory@, stepped.1);
    let value: u32 = if byte >= 0x80 {
        (byte as u32) | 0xffff_ff00
    } else {
        byte as u32
    };
    post == pre.spec_with_registers(stepped.0.spec_set(dest, value))
}

/// Load register signed byte, sign-extended, through addressing mode 3.
pub fn ldrsb(emulator: &mut Emulator, instruction: u32) -> (r: u32)
    requires
        old(emulator).wf(),
    ensures
        spec_ldrsb_rel(*old(emulator), *final(emulator), instruction),
        final(emulator).wf(),
        r == 5,
{
    proof {
        crate::utils::lemma_field_bounds(instruction);
    }
    let (address, _addressing_type) = process_misc_addressing_mode(emulator, instruction);
    let destination_register = register_from_bits((instruction >> 12) & 0xf);

    let byte = read_byte(emulator, address);
    let value: u32 = if byte >= 0x80 {
        (byte as u32) | 0xffff_ff00
    } else {
        byte as u32
    };
    emulator.cpu.set_register_value(destination_register, value);

    5
}

/// How a signed halfword load leaves the machine: the halfword at the
/// even-aligned effective address, sign-extended, lands in the
/// destination.
pub open spec fn spec_ldrsh_rel(pre: Emulator, post: Emulator, inst: u32) -> bool {
    let stepped = spec_am3(pre.cpu.registers, inst);
    let dest = spec_register_from_bits((inst >> 12) & 0xf);
    let half = crate::memory::spec_read_half(pre.memory@, stepped.1 & 0xffff_fffe);
    let value: u32 = if half >= 0x8000 {
        (half as u32) | 0xffff_0000
    } else {
        half as u32
    };
    post == pre.spec_with_registers(stepped.0.spec_set(dest, value))
}

/// Load register signed halfword, sign-extended, through addressing
/// mode 3.
pub fn ldrsh(emulator: &mut Emulator, instruction: u32) -> (r: u32)
    requires
        old(emulator).wf(),
    ensures
        spec_ldrsh_rel(*old(emulator), *final(emulator), instruction),
        final(emulator).wf(),
        r == 5,
{
    proof {
        crate::utils::lemma_field_bounds(instruction);
    }
    let (address, _addressing_type) = process_misc_addressing_mode(emulator, instruction);
    let destination_register = register_from_bits((instruction >> 12) & 0xf);

    proof {
        assert((address & 0xffff_fffeu32) % 2 == 0) by (bit_vector);
    }
    let half = read_half_word(emulator, address & 0xffff_fffe);
    let value: u32 = if half >= 0x8000 {
        (half as u32) | 0xffff_0000
    } else {
        half as u32
    };
    emulator.cpu.set_register_value(destination_register, value);

    5
}

/// How a halfword store leaves the machine: the low halfword of the
/// source register lands at the even-aligned effective address.
pub open spec fn spec_strh_rel(pre: Emulator, post: Emulator, inst: u32) -> bool {
    let stepped = spec_am3(pre.cpu.registers, inst);
    let src = spec_register_from_bits((inst >> 12) & 0xf);
    post.cpu.registers == stepped.0 && post.cpu.halt == pre.cpu.halt && post.remaining_cycles
        == pre.remaining_cycles && post.memory@ == spec_write_half(
        pre.memory@,
        stepped.1 & 0xffff_fffe,
        (stepped.0.spec_reg(src) & 0xffff) as u16,
    )
}

/// Store register halfword through addressing mode 3.
pub fn strh(emulator: &mut Emulator, instruction: u32) -> (r: u32)
    requires
        old(emulator).wf(),
    ensures
        spec_strh_rel(*old(emulator), *final(emulator), instruction),
        final(emulator).wf(),
        r == 1,
{
    proof {
        crate::utils::lemma_field_bounds(instruction);
    }
    let (address, _addressing_type) = process_misc_addressing_mode(emulator, instruction);
    let source_register = register_from_bits((instruction >> 12) & 0xf);

    let value = emulator.cpu.get_register_value(source_register);
    proof {
        assert((address & 0xffff_fffeu32) % 2 == 0 && value & 0xffff < 0x10000) by (bit_vector);
    }
    write_half_word(emulator, address & 0xffff_fffe, (value & 0xffff) as u16);

    1
}

/// How a word swap leaves the machine: the word at the aligned address is
/// read (with the rotation of a misaligned load), the source register is
/// stored there, and the loaded value lands in the destination.
pub open spec fn spec_swp_rel(pre: Emulator, post: Emulator, inst: u32) -> bool {
    let address = pre.cpu.registers.spec_reg(spec_register_from_bits((inst >> 16) & 0xf));
    let stored = pre.cpu.registers.spec_reg(spec_register_from_bits(inst & 0xf));
    let dest = spec_register_from_bits((inst >> 12) & 0xf);
    let loaded = spec_load_register(pre, dest, address);
    post.cpu.registers == loaded && post.cpu.halt == pre.cpu.halt && post.remaining_cycles
        == pre.remaining_cycles && post.memory@ == spec_write_word(
        pre.memory@,
        address & 0xffff_fffc,
        stored,
    )
}

/// Swap a word between a register and memory: read, then write.
pub fn swp(emulator: &mut Emulator, instruction: u32) -> (r: u32)
    requires
        old(emulator).wf(),
    ensures
        spec_swp_rel(*old(emulator), *final(emulator), instruction),
        final(emulator).wf(),
        r == 1,
{
    proof {
        crate::utils::lemma_field_bounds(instruction);
    }
    let address = emulator.cpu.get_register_value(register_from_bits((instruction >> 16) & 0xf));
    let stored = emulator.cpu.get_register_value(register_from_bits(instruction & 0xf));
    let destination_register = register_from_bits((instruction >> 12) & 0xf);

    load_register(emulator, destination_register, address);
    proof {
        assert((address & 0xffff_fffcu32) % 4 == 0) by (bit_vector);
    }
    write_word(emulator, address & 0xffff_fffc, stored);

    1
}

/// How a byte swap leaves the machine: the byte at the address is read
/// zero-extended into the destination, and the low byte of the source is
/// stored there.
pub open spec fn spec_swpb_rel(pre: Emulator, post: Emulator, inst: u32) -> bool {
    let address = pre.cpu.registers.spec_reg(spec_register_from_bits((inst >> 16) & 0xf));
    let stored = pre.cpu.registers.spec_reg(spec_register_from_bits(inst & 0xf));
    let dest = spec_register_from_bits((inst >> 12) & 0xf);
    let loaded = crate::memory::spec_read_byte(pre.memory@, address) as u32;
    post.cpu.registers == pre.cpu.registers.spec_set(dest, loaded) && post.cpu.halt
        == pre.cpu.halt && post.remaining_cycles == pre.remaining_cycles && post.memory@
        == spec_write_byte(pre.memory@, address, (stored & 0xff) as u8)
}

/// Swap a byte between a register and memory: read, then write.
pub fn swpb(emulator: &mut Emulator, instruction: u32) -> (r: u32)
    requires
        old(emulator).wf(),
    ensures
        spec_swpb_rel(*old(emulator), *final(emulator), instruction),
        final(emulator).wf(),
        r == 1,
{
    proof {
        crate::utils::lemma_field_bounds(instruction);
    }
    let address = emulator.cpu.get_register_value(register_from_bits((instruction >> 16) & 0xf));
    let stored = emulator.cpu.get_register_value(register_from_bits(instruction & 0xf));
    let destination_register = register_from_bits((instruction >> 12) & 0xf);

    let loaded = read_byte(emulator, address) as u32;
    emulator.cpu.set_register_value(destination_register, loaded);
    proof {
        assert(stored & 0xff < 256) by (bit_vector);
    }
    write_byte(emulator, address, (stored & 0xff) as u8);

    1
}

/// Move a status register to a register: CPSR, or the current mode's SPSR
/// when the R bit is set. An SPSR read in a mode that has none is a mode
/// fault, translated to the undefined-instruction exception.
pub open spec fn spec_exec_mrs(rs: RegisterSet, inst: u32) -> RegisterSet {
    let dest = spec_register_from_bits((inst >> 12) & 0xf);
    if spec_get_bit(inst, 22) {
        if rs.spec_has_spsr() {
            rs.spec_set(dest, rs.spec_reg(RegisterNames::spsr))
        } else {
            spec_enter_exception(rs, crate::cpu::OperationModes::UND, 0x0000_0004)
        }
    } else {
        rs.spec_set(dest, rs.spec_reg(RegisterNames::cpsr))
    }
}

/// Move CPSR or the current SPSR into a register.
pub fn mrs(emulator: &mut Emulator, instruction: u32) -> (r: u32)
    requires
        old(emulator).wf(),
    ensures
        *final(emulator) == old(emulator).spec_with_registers(
            spec_exec_mrs(old(emulator).cpu.registers, instruction),
        ),
        final(emulator).wf(),
        r == 1,
{
    proof {
        crate::utils::lemma_field_bounds(instruction);
    }
    let destination_register = register_from_bits((instruction >> 12) & 0xf);

    if get_bit(instruction, 22) {
        if emulator.cpu.current_mode_has_spsr() {
            let value = emulator.cpu.get_register_value(RegisterNames::spsr);
            emulator.cpu.set_register_value(destination_register, value);
        } else {
            enter_exception(emulator, crate::cpu::OperationModes::UND, 0x0000_0004);
        }
    } else {
        let value = emulator.cpu.get_register_value(RegisterNames::cpsr);
        emulator.cpu.set_register_value(destination_register, value);
    }

    1
}

/// The operand of an MSR: an immediate rotated as in the shifter, or a
/// register value.
pub open spec fn spec_msr_operand(rs: RegisterSet, inst: u32) -> u32 {
    if spec_get_bit(inst, 25) {
        let rotate = (((inst >> 8) & 0xf) * 2) as u32;
        let imm = inst & 0xff;
        if rotate == 0 {
            imm
        } else {
            spec_ror(imm, rotate)
        }
    } else {
        rs.spec_reg(spec_register_from_bits(inst & 0xf))
    }
}

/// The byte-lane mask selected by the four field bits of an MSR.
pub open spec fn spec_msr_mask(inst: u32) -> u32 {
    (if spec_get_bit(inst, 19) { 0xff00_0000u32 } else { 0u32 }) | (if spec_get_bit(inst, 18) {
        0x00ff_0000u32
    } else {
        0u32
    }) | (if spec_get_bit(inst, 17) { 0x0000_ff00u32 } else { 0u32 }) | (if spec_get_bit(
        inst,
        16,
    ) { 0x0000_00ffu32 } else { 0u32 })
}

/// Move a value into a status register under the field mask. An SPSR
/// write in a mode without one, and a CPSR write whose masked result
/// would carry an invalid mode, are mode faults, translated to the
/// undefined-instruction exception.
pub open spec fn spec_exec_msr(rs: RegisterSet, inst: u32) -> RegisterSet {
    let operand = spec_msr_operand(rs, inst);
    let mask = spec_msr_mask(inst);
    if spec_get_bit(inst, 22) {
        if rs.spec_has_spsr() {
            rs.spec_set(
                RegisterNames::spsr,
                (rs.spec_reg(RegisterNames::spsr) & !mask) | (operand & mask),
            )
        } else {
            spec_enter_exception(rs, crate::cpu::OperationModes::UND, 0x0000_0004)
        }
    } else {
        let updated = (rs.cpsr & !mask) | (operand & mask);
        if valid_mode_bits(updated & 0x1f) {
            rs.spec_set(RegisterNames::cpsr, updated)
        } else {
            spec_enter_exception(rs, crate::cpu::OperationModes::UND, 0x0000_0004)
        }
    }
}

/// Move a register or immediate into CPSR or the current SPSR, respecting
/// the field mask.
pub fn msr(emulator: &mut Emulator, instruction: u32) -> (r: u32)
    requires
        old(emulator).wf(),
    ensures
        *final(emulator) == old(emulator).spec_with_registers(
            spec_exec_msr(old(emulator).cpu.registers, instruction),
        ),
        final(emulator).wf(),
        r == 1,
{
    proof {
        crate::utils::lemma_field_bounds(instruction);
    }
    let operand = if get_bit(instruction, 25) {
        let rotate = ((instruction >> 8) & 0xf) * 2;
        let imm = instruction & 0xff;
        if rotate == 0 {
            imm
        } else {
            crate::utils::ror(imm, rotate)
        }
    } else {
        emulator.cpu.get_register_value(register_from_bits(instruction & 0xf))
    };

    let mask = (if get_bit(instruction, 19) {
        0xff00_0000u32
    } else {
        0u32
    }) | (if get_bit(instruction, 18) {
        0x00ff_0000u32
    } else {
        0u32
    }) | (if get_bit(instruction, 17) {
        0x0000_ff00u32
    } else {
        0u32
    }) | (if get_bit(instruction, 16) {
        0x0000_00ffu32
    } else {
        0u32
    });

    if get_bit(instruction, 22) {
        if emulator.cpu.current_mode_has_spsr() {
            let saved = emulator.cpu.get_register_value(RegisterNames::spsr);
            emulator.cpu.set_register_value(RegisterNames::spsr, (saved & !mask) | (operand & mask));
        } else {
            enter_exception(emulator, crate::cpu::OperationModes::UND, 0x0000_0004);
        }
    } else {
        let updated = (emulator.cpu.get_register_value(RegisterNames::cpsr) & !mask) | (operand
            & mask);
        if crate::cpu::is_valid_mode_field(updated) {
            emulator.cpu.set_register_value(RegisterNames::cpsr, updated);
        } else {
            enter_exception(emulator, crate::cpu::OperationModes::UND, 0x0000_0004);
        }
    }

    1
}

/// Exception entry: the outgoing CPSR is saved into the target mode's
/// SPSR, the return address into its `r14` bank, and execution resumes at
/// the vector in the new mode.
pub open spec fn spec_enter_exception(
    rs: RegisterSet,
    mode: crate::cpu::OperationModes,
    vector: u32,
) -> RegisterSet {
    let switched = rs.spec_with_mode(mode);
    let saved = switched.spec_set(RegisterNames::spsr, rs.cpsr);
    let linked = saved.spec_set(RegisterNames::r14, rs.spec_reg(RegisterNames::r15));
    linked.spec_set(RegisterNames::r15, vector)
}

/// Enter an exception: switch mode, save the outgoing CPSR and return
/// address into the new mode's banks, and jump to the vector.
pub(crate) fn enter_exception(emulator: &mut Emulator, mode: crate::cpu::OperationModes, vector: u32)
    requires
        old(emulator).wf(),
        mode != crate::cpu::OperationModes::USR,
        mode != crate::cpu::OperationModes::SYS,
    ensures
        *final(emulator) == old(emulator).spec_with_registers(
            spec_enter_exception(old(emulator).cpu.registers, mode, vector),
        ),
        final(emulator).wf(),
{
    let outgoing_cpsr = emulator.cpu.get_register_value(RegisterNames::cpsr);
    let return_address = emulator.cpu.get_register_value(RegisterNames::r15);

    emulator.cpu.set_operation_mode(mode);
    emulator.cpu.set_register_value(RegisterNames::spsr, outgoing_cpsr);
    emulator.cpu.set_register_value(RegisterNames::r14, return_address);
    emulator.cpu.set_register_value(RegisterNames::r15, vector);
}

/// Software interrupt: enter SVC mode through the SWI vector. Usually
/// used to make system calls into the BIOS.
pub fn swi(emulator: &mut Emulator, instruction: u32) -> (r: u32)
    requires
        old(emulator).wf(),
    ensures
        *final(emulator) == old(emulator).spec_with_registers(
            spec_enter_exception(
                old(emulator).cpu.registers,
                crate::cpu::OperationModes::SVC,
                0x0000_0008,
            ),
        ),
        final(emulator).wf(),
        r == 1,
{
    enter_exception(emulator, crate::cpu::OperationModes::SVC, 0x0000_0008);

    1
}

/// An instruction with no mapping on this core: enter UND mode through
/// the undefined-instruction vector.
pub fn undefined_instruction(emulator: &mut Emulator, instruction: u32) -> (r: u32)
    requires
        old(emulator).wf(),
    ensures
        *final(emulator) == old(emulator).spec_with_registers(
            spec_enter_exception(
                old(emulator).cpu.registers,
                crate::cpu::OperationModes::UND,
                0x0000_0004,
            ),
        ),
        final(emulator).wf(),
        r == 1,
{
    enter_exception(emulator, crate::cpu::OperationModes::UND, 0x0000_0004);

    1
}

/// A 32-bit value sign-extended to 64 bits.
pub open spec fn spec_sx64(x: u32) -> u64 {
    if x >= 0x8000_0000 {
        (x as u64) | 0xffff_ffff_0000_0000
    } else {
        x as u64
    }
}

/// Multiply: the low 32 bits of the product. With the S bit, N and Z are
/// set from the result; C and V are architecturally unpredictable and this
/// core leaves them unchanged.
pub open spec fn spec_exec_mul(rs: RegisterSet, inst: u32) -> RegisterSet {
    let dest = spec_register_from_bits((inst >> 16) & 0xf);
    let a = rs.spec_reg(spec_register_from_bits(inst & 0xf));
    let b = rs.spec_reg(spec_register_from_bits((inst >> 8) & 0xf));
    let result = a.wrapping_mul(b);
    let flagged = if spec_get_bit(inst, 20) {
        spec_set_flags(rs, spec_sign(result), result == 0, rs.spec_c(), rs.spec_v())
    } else {
        rs
    };
    flagged.spec_set(dest, result)
}

/// Multiply two registers into a third.
pub fn mul(emulator: &mut Emulator, instruction: u32) -> (r: u32)
    requires
        old(emulator).wf(),
    ensures
        *final(emulator) == old(emulator).spec_with_registers(
            spec_exec_mul(old(emulator).cpu.registers, instruction),
        ),
        final(emulator).wf(),
        r == 5,
{
    proof {
        crate::utils::lemma_field_bounds(instruction);
    }
    let destination_register = register_from_bits((instruction >> 16) & 0xf);
    let a = emulator.cpu.get_register_value(register_from_bits(instruction & 0xf));
    let b = emulator.cpu.get_register_value(register_from_bits((instruction >> 8) & 0xf));

    let result = a.wrapping_mul(b);

    if get_bit(instruction, 20) {
        let c = emulator.cpu.get_c();
        let v = emulator.cpu.get_v();
        emulator.cpu.set_nzcv(result >= 0x8000_0000, result == 0, c, v);
    }
    emulator.cpu.set_register_value(destination_register, result);

    5
}

/// Multiply-accumulate: the product plus a third register, low 32 bits.
pub open spec fn spec_exec_mla(rs: RegisterSet, inst: u32) -> RegisterSet {
    let dest = spec_register_from_bits((inst >> 16) & 0xf);
    let a = rs.spec_reg(spec_register_from_bits(inst & 0xf));
    let b = rs.spec_reg(spec_register_from_bits((inst >> 8) & 0xf));
    let acc = rs.spec_reg(spec_register_from_bits((inst >> 12) & 0xf));
    let result = a.wrapping_mul(b).wrapping_add(acc);
    let flagged = if spec_get_bit(inst, 20) {
        spec_set_flags(rs, spec_sign(result), result == 0, rs.spec_c(), rs.spec_v())
    } else {
        rs
    };
    flagged.spec_set(dest, result)
}

/// Multiply and accumulate.
pub fn mla(emulator: &mut Emulator, instruction: u32) -> (r: u32)
    requires
        old(emulator).wf(),
    ensures
        *final(emulator) == old(emulator).spec_with_registers(
            spec_exec_mla(old(emulator).cpu.registers, instruction),
        ),
        final(emulator).wf(),
        r == 5,
{
    proof {
        crate::utils::lemma_field_bounds(instruction);
    }
    let destination_register = register_from_bits((instruction >> 16) & 0xf);
    let a = emulator.cpu.get_register_value(register_from_bits(instruction & 0xf));
    let b = emulator.cpu.get_register_value(register_from_bits((instruction >> 8) & 0xf));
    let acc = emulator.cpu.get_register_value(register_from_bits((instruction >> 12) & 0xf));

    let result = a.wrapping_mul(b).wrapping_add(acc);

    if get_bit(instruction, 20) {
        let c = emulator.cpu.get_c();
        let v = emulator.cpu.get_v();
        emulator.cpu.set_nzcv(result >= 0x8000_0000, result == 0, c, v);
    }
    emulator.cpu.set_register_value(destination_register, result);

    5
}

/// The register file after a 64-bit multiply result lands in its two
/// destination registers, with N and Z from the 64-bit value when the S
/// bit is set.
pub open spec fn spec_long_mul_writeback(rs: RegisterSet, inst: u32, product: u64) -> RegisterSet {
    let dest_hi = spec_register_from_bits((inst >> 16) & 0xf);
    let dest_lo = spec_register_from_bits((inst >> 12) & 0xf);
    let lo = (product & 0xffff_ffff) as u32;
    let hi = ((product >> 32) & 0xffff_ffff) as u32;
    let flagged = if spec_get_bit(inst, 20) {
        spec_set_flags(rs, hi >= 0x8000_0000, product == 0, rs.spec_c(), rs.spec_v())
    } else {
        rs
    };
    flagged.spec_set(dest_lo, lo).spec_set(dest_hi, hi)
}

/// Land a 64-bit product in the two destination registers, setting N and Z
/// from it when the S bit asks.
fn long_mul_writeback(emulator: &mut Emulator, instruction: u32, product: u64)
    requires
        old(emulator).wf(),
    ensures
        *final(emulator) == old(emulator).spec_with_registers(
            spec_long_mul_writeback(old(emulator).cpu.registers, instruction, product),
        ),
        final(emulator).wf(),
{
    proof {
        crate::utils::lemma_field_bounds(instruction);
        assert(product & 0xffff_ffff <= 0xffff_ffffu64 && (product >> 32) & 0xffff_ffff
            <= 0xffff_ffffu64) by (bit_vector);
    }
    let destination_hi = register_from_bits((instruction >> 16) & 0xf);
    let destination_lo = register_from_bits((instruction >> 12) & 0xf);
    let lo = (product & 0xffff_ffff) as u32;
    let hi = ((product >> 32) & 0xffff_ffff) as u32;

    if get_bit(instruction, 20) {
        let c = emulator.cpu.get_c();
        let v = emulator.cpu.get_v();
        emulator.cpu.set_nzcv(hi >= 0x8000_0000, product == 0, c, v);
    }
    emulator.cpu.set_register_value(destination_lo, lo);
    emulator.cpu.set_register_value(destination_hi, hi);
}

/// Unsigned long multiply: the full 64-bit product.
pub open spec fn spec_exec_umull(rs: RegisterSet, inst: u32) -> RegisterSet {
    let a = rs.spec_reg(spec_register_from_bits(inst & 0xf));
    let b = rs.spec_reg(spec_register_from_bits((inst >> 8) & 0xf));
    let product = (a as u64).wrapping_mul(b as u64);
    spec_long_mul_writeback(rs, inst, product)
}

/// Unsigned multiply long.
pub fn umull(emulator: &mut Emulator, instruction: u32) -> (r: u32)
    requires
        old(emulator).wf(),
    ensures
        *final(emulator) == old(emulator).spec_with_registers(
            spec_exec_umull(old(emulator).cpu.registers, instruction),
        ),
        final(emulator).wf(),
        r == 5,
{
    proof {
        crate::utils::lemma_field_bounds(instruction);
    }
    let a = emulator.cpu.get_register_value(register_from_bits(instruction & 0xf));
    let b = emulator.cpu.get_register_value(register_from_bits((instruction >> 8) & 0xf));

    let product = (a as u64).wrapping_mul(b as u64);
    long_mul_writeback(emulator, instruction, product);

    5
}

/// Unsigned long multiply-accumulate: the product plus the 64-bit value
/// already in the destination pair.
pub open spec fn spec_exec_umlal(rs: RegisterSet, inst: u32) -> RegisterSet {
    let a = rs.spec_reg(spec_register_from_bits(inst & 0xf));
    let b = rs.spec_reg(spec_register_from_bits((inst >> 8) & 0xf));
    let acc_hi = rs.spec_reg(spec_register_from_bits((inst >> 16) & 0xf));
    let acc_lo = rs.spec_reg(spec_register_from_bits((inst >> 12) & 0xf));
    let acc = ((acc_hi as u64) << 32) | (acc_lo as u64);
    let product = (a as u64).wrapping_mul(b as u64).wrapping_add(acc);
    spec_long_mul_writeback(rs, inst, product)
}

/// Unsigned multiply-accumulate long.
pub fn umlal(emulator: &mut Emulator, instruction: u32) -> (r: u32)
    requires
        old(emulator).wf(),
    ensures
        *final(emulator) == old(emulator).spec_with_registers(
            spec_exec_umlal(old(emulator).cpu.registers, instruction),
        ),
        final(emulator).wf(),
        r == 5,
{
    proof {
        crate::utils::lemma_field_bounds(instruction);
    }
    let a = emulator.cpu.get_register_value(register_from_bits(instruction & 0xf));
    let b = emulator.cpu.get_register_value(register_from_bits((instruction >> 8) & 0xf));
    let acc_hi = emulator.cpu.get_register_value(register_from_bits((instruction >> 16) & 0xf));
    let acc_lo = emulator.cpu.get_register_value(register_from_bits((instruction >> 12) & 0xf));

    let acc = ((acc_hi as u64) << 32) | (acc_lo as u64);
    let product = (a as u64).wrapping_mul(b as u64).wrapping_add(acc);
    long_mul_writeback(emulator, instruction, product);

    5
}

/// Signed long multiply: the full 64-bit product of the sign-extended
/// operands.
pub open spec fn spec_exec_smull(rs: RegisterSet, inst: u32) -> RegisterSet {
    let a = rs.spec_reg(spec_register_from_bits(inst & 0xf));
    let b = rs.spec_reg(spec_register_from_bits((inst >> 8) & 0xf));
    let product = spec_sx64(a).wrapping_mul(spec_sx64(b));
    spec_long_mul_writeback(rs, inst, product)
}

/// A 32-bit value sign-extended to 64 bits.
fn sx64(x: u32) -> (r: u64)
    ensures
        r == spec_sx64(x),
{
    if x >= 0x8000_0000 {
        (x as u64) | 0xffff_ffff_0000_0000
    } else {
        x as u64
    }
}

/// Signed multiply long.
pub fn smull(emulator: &mut Emulator, instruction: u32) -> (r: u32)
    requires
        old(emulator).wf(),
    ensures
        *final(emulator) == old(emulator).spec_with_registers(
            spec_exec_smull(old(emulator).cpu.registers, instruction),
        ),
        final(emulator).wf(),
        r == 5,
{
    proof {
        crate::utils::lemma_field_bounds(instruction);
    }
    let a = emulator.cpu.get_register_value(register_from_bits(instruction & 0xf));
    let b = emulator.cpu.get_register_value(register_from_bits((instruction >> 8) & 0xf));

    let product = sx64(a).wrapping_mul(sx64(b));
    long_mul_writeback(emulator, instruction, product);

    5
}

/// Signed long multiply-accumulate.
pub open spec fn spec_exec_smlal(rs: RegisterSet, inst: u32) -> RegisterSet {
    let a = rs.spec_reg(spec_register_from_bits(inst & 0xf));
    let b = rs.spec_reg(spec_register_from_bits((inst >> 8) & 0xf));
    let acc_hi = rs.spec_reg(spec_register_from_bits((inst >> 16) & 0xf));
    let acc_lo = rs.spec_reg(spec_register_from_bits((inst >> 12) & 0xf));
    let acc = ((acc_hi as u64) << 32) | (acc_lo as u64);
    let product = spec_sx64(a).wrapping_mul(spec_sx64(b)).wrapping_add(acc);
    spec_long_mul_writeback(rs, inst, product)
}

/// Signed multiply-accumulate long.
pub fn smlal(emulator: &mut Emulator, instruction: u32) -> (r: u32)
    requires
        old(emulator).wf(),
    ensures
        *final(emulator) == old(emulator).spec_with_registers(
            spec_exec_smlal(old(emulator).cpu.registers, instruction),
        ),
        final(emulator).wf(),
        r == 5,
{
    proof {
        crate::utils::lemma_field_bounds(instruction);
    }
    let a = emulator.cpu.get_register_value(register_from_bits(instruction & 0xf));
    let b = emulator.cpu.get_register_value(register_from_bits((instruction >> 8) & 0xf));
    let acc_hi = emulator.cpu.get_register_value(register_from_bits((instruction >> 16) & 0xf));
    let acc_lo = emulator.cpu.get_register_value(register_from_bits((instruction >> 12) & 0xf));

    let acc = ((acc_hi as u64) << 32) | (acc_lo as u64);
    let product = sx64(a).wrapping_mul(sx64(b)).wrapping_add(acc);
    long_mul_writeback(emulator, instruction, product);

    5
}

// The instructions below retire without touching architectural state.
// The Game Boy Advance has no coprocessors, so the coprocessor transfers
// are accepted as no-ops; the multiple-transfer forms are outside the
// subset this core models and retire the same way.

/// Coprocessor data processing: no coprocessors exist on this system.
pub fn cdp(emulator: &mut Emulator, instruction: u32) -> (r: u32)
    ensures
        *final(emulator) == *old(emulator),
        r == 1,
{
    1
}

/// Load coprocessor: no coprocessors exist on this system.
pub fn ldc(emulator: &mut Emulator, instruction: u32) -> (r: u32)
    ensures
        *final(emulator) == *old(emulator),
        r == 1,
{
    1
}

/// Store coprocessor: no coprocessors exist on this system.
pub fn stc(emulator: &mut Emulator, instruction: u32) -> (r: u32)
    ensures
        *final(emulator) == *old(emulator),
        r == 1,
{
    1
}

/// Move to coprocessor: no coprocessors exist on this system.
pub fn mcr(emulator: &mut Emulator, instruction: u32) -> (r: u32)
    ensures
        *final(emulator) == *old(emulator),
        r == 1,
{
    1
}

/// Move from coprocessor: no coprocessors exist on this system.
pub fn mrc(emulator: &mut Emulator, instruction: u32) -> (r: u32)
    ensures
        *final(emulator) == *old(emulator),
        r == 1,
{
    1
}

/// How one ARM instruction leaves the machine: an instruction that fails
/// its condition code costs one cycle and touches nothing; one that passes
/// steps the machine exactly as its handler's specification says, for the
/// handler the decoder names.
pub open spec fn spec_process_rel(pre: Emulator, post: Emulator, inst: u32, cycles: u32) -> bool {
    if !pre.cpu.registers.spec_check_condition(spec_condition_from_bits((inst >> 28) & 15)) {
        post == pre && cycles == 1
    } else {
        match spec_decode(inst) {
            ArmInstruction::Adc => post == pre.spec_with_registers(
                spec_exec_adc(pre.cpu.registers, inst),
            ) && cycles == 5,
            ArmInstruction::Add => post == pre.spec_with_registers(
                spec_exec_add(pre.cpu.registers, inst),
            ) && cycles == 5,
            ArmInstruction::And => post == pre.spec_with_registers(
                spec_exec_and(pre.cpu.registers, inst),
            ) && cycles == 5,
            ArmInstruction::B => post == pre.spec_with_registers(
                spec_exec_b(pre.cpu.registers, inst),
            ) && cycles == 5,
            ArmInstruction::Bic => post == pre.spec_with_registers(
                spec_exec_bic(pre.cpu.registers, inst),
            ) && cycles == 5,
            ArmInstruction::Bl => post == pre.spec_with_registers(
                spec_exec_bl(pre.cpu.registers, inst),
            ) && cycles == 5,
            ArmInstruction::Bx => post == pre.spec_with_registers(
                spec_exec_bx(pre.cpu.registers, inst),
            ) && cycles == 1,
            ArmInstruction::Cdp => post == pre && cycles == 1,
            ArmInstruction::Cmn => post == pre.spec_with_registers(
                spec_exec_cmn(pre.cpu.registers, inst),
            ) && cycles == 1,
            ArmInstruction::Cmp => post == pre.spec_with_registers(
                spec_exec_cmp(pre.cpu.registers, inst),
            ) && cycles == 1,
            ArmInstruction::Eor => post == pre.spec_with_registers(
                spec_exec_eor(pre.cpu.registers, inst),
            ) && cycles == 5,
            ArmInstruction::Ldc => post == pre && cycles == 1,
            ArmInstruction::Ldm => spec_ldm_rel(pre, post, inst) && cycles == 5,
            ArmInstruction::Ldr => spec_ldr_rel(pre, post, inst) && cycles == 5,
            ArmInstruction::Ldrb => spec_ldrb_rel(pre, post, inst) && cycles == 5,
            ArmInstruction::Ldrbt => spec_ldrb_rel(pre, post, inst) && cycles == 5,
            ArmInstruction::Ldrh => spec_ldrh_rel(pre, post, inst) && cycles == 5,
            ArmInstruction::Ldrsb => spec_ldrsb_rel(pre, post, inst) && cycles == 5,
            ArmInstruction::Ldrsh => spec_ldrsh_rel(pre, post, inst) && cycles == 5,
            ArmInstruction::Ldrt => spec_ldr_rel(pre, post, inst) && cycles == 5,
            ArmInstruction::Mcr => post == pre && cycles == 1,
            ArmInstruction::Mla => post == pre.spec_with_registers(
                spec_exec_mla(pre.cpu.registers, inst),
            ) && cycles == 5,
            ArmInstruction::Mov => post == pre.spec_with_registers(
                spec_exec_mov(pre.cpu.registers, inst),
            ) && cycles == 5,
            ArmInstruction::Mrc => post == pre && cycles == 1,
            ArmInstruction::Mrs => post == pre.spec_with_registers(
                spec_exec_mrs(pre.cpu.registers, inst),
            ) && cycles == 1,
            ArmInstruction::Msr => post == pre.spec_with_registers(
                spec_exec_msr(pre.cpu.registers, inst),
            ) && cycles == 1,
            ArmInstruction::Mul => post == pre.spec_with_registers(
                spec_exec_mul(pre.cpu.registers, inst),
            ) && cycles == 5,
            ArmInstruction::Mvn => post == pre.spec_with_registers(
                spec_exec_mvn(pre.cpu.registers, inst),
            ) && cycles == 5,
            ArmInstruction::Or => post == pre.spec_with_registers(
                spec_exec_or(pre.cpu.registers, inst),
            ) && cycles == 5,
            ArmInstruction::Rsb => post == pre.spec_with_registers(
                spec_exec_rsb(pre.cpu.registers, inst),
            ) && cycles == 5,
            ArmInstruction::Rsc => post == pre.spec_with_registers(
                spec_exec_rsc(pre.cpu.registers, inst),
            ) && cycles == 5,
            ArmInstruction::Sbc => post == pre.spec_with_registers(
                spec_exec_sbc(pre.cpu.registers, inst),
            ) && cycles == 5,
            ArmInstruction::Smlal => post == pre.spec_with_registers(
                spec_exec_smlal(pre.cpu.registers, inst),
            ) && cycles == 5,
            ArmInstruction::Smull => post == pre.spec_with_registers(
                spec_exec_smull(pre.cpu.registers, inst),
            ) && cycles == 5,
            ArmInstruction::Stc => post == pre && cycles == 1,
            ArmInstruction::Stm => spec_stm_rel(pre, post, inst) && cycles == 5,
            ArmInstruction::Str => spec_str_rel(pre, post, inst) && cycles == 1,
            ArmInstruction::Strb => spec_strb_rel(pre, post, inst) && cycles == 1,
            ArmInstruction::Strbt => spec_strb_rel(pre, post, inst) && cycles == 1,
            ArmInstruction::Strh => spec_strh_rel(pre, post, inst) && cycles == 1,
            ArmInstruction::Strt => spec_str_rel(pre, post, inst) && cycles == 1,
            ArmInstruction::Sub => post == pre.spec_with_registers(
                spec_exec_sub(pre.cpu.registers, inst),
            ) && cycles == 5,
            ArmInstruction::Swi => post == pre.spec_with_registers(
                spec_enter_exception(
                    pre.cpu.registers,
                    crate::cpu::OperationModes::SVC,
                    0x0000_0008,
                ),
            ) && cycles == 1,
            ArmInstruction::Swp => spec_swp_rel(pre, post, inst) && cycles == 1,
            ArmInstruction::Swpb => spec_swpb_rel(pre, post, inst) && cycles == 1,
            ArmInstruction::Teq => post == pre.spec_with_registers(
                spec_exec_teq(pre.cpu.registers, inst),
            ) && cycles == 1,
            ArmInstruction::Tst => post == pre.spec_with_registers(
                spec_exec_tst(pre.cpu.registers, inst),
            ) && cycles == 1,
            ArmInstruction::Umlal => post == pre.spec_with_registers(
                spec_exec_umlal(pre.cpu.registers, inst),
            ) && cycles == 5,
            ArmInstruction::Umull => post == pre.spec_with_registers(
                spec_exec_umull(pre.cpu.registers, inst),
            ) && cycles == 5,
            ArmInstruction::Undefined => post == pre.spec_with_registers(
                spec_enter_exception(
                    pre.cpu.registers,
                    crate::cpu::OperationModes::UND,
                    0x0000_0004,
                ),
            ) && cycles == 1,
        }
    }
}

/// Decode and run one ARM instruction, returning the cycles it used. An
/// instruction whose condition code fails is a no-op on all architectural
/// state - registers, flags and memory - and costs one cycle.
#[verifier::rlimit(30)]
pub fn process_instruction(emulator: &mut Emulator, instruction: u32) -> (r: u32)
    requires
        old(emulator).wf(),
    ensures
        spec_process_rel(*old(emulator), *final(emulator), instruction, r),
        !old(emulator).cpu.registers.spec_check_condition(
            spec_condition_from_bits((instruction >> 28) & 15),
        ) ==> *final(emulator) == *old(emulator) && r == 1,
        final(emulator).wf(),
        1 <= r <= 5,
{
    proof {
        crate::utils::lemma_field_bounds(instruction);
        lemma_decode_dp_operand_ok(instruction);
    }
    // Check the condition before executing the instruction.
    let condition = condition_from_bits((instruction >> 28) & 15);
    if !emulator.cpu.check_condition(condition) {
        return 1;
    }

    match decode_instruction(instruction) {
        ArmInstruction::Adc => adc(emulator, instruction),
        ArmInstruction::Add => crate::arm::add(emulator, instruction),
        ArmInstruction::And => and(emulator, instruction),
        ArmInstruction::B => b(emulator, instruction),
        ArmInstruction::Bic => bic(emulator, instruction),
        ArmInstruction::Bl => bl(emulator, instruction),
        ArmInstruction::Bx => bx(emulator, instruction),
        ArmInstruction::Cdp => cdp(emulator, instruction),
        ArmInstruction::Cmn => cmn(emulator, instruction),
        ArmInstruction::Cmp => cmp(emulator, instruction),
        ArmInstruction::Eor => eor(emulator, instruction),
        ArmInstruction::Ldc => ldc(emulator, instruction),
        ArmInstruction::Ldm => ldm(emulator, instruction),
        ArmInstruction::Ldr => ldr(emulator, instruction),
        ArmInstruction::Ldrb => ldrb(emulator, instruction),
        ArmInstruction::Ldrbt => ldrbt(emulator, instruction),
        ArmInstruction::Ldrh => ldrh(emulator, instruction),
        ArmInstruction::Ldrsb => ldrsb(emulator, instruction),
        ArmInstruction::Ldrsh => ldrsh(emulator, instruction),
        ArmInstruction::Ldrt => ldrt(emulator, instruction),
        ArmInstruction::Mcr => mcr(emulator, instruction),
        ArmInstruction::Mla => mla(emulator, instruction),
        ArmInstruction::Mov => mov(emulator, instruction),
        ArmInstruction::Mrc => mrc(emulator, instruction),
        ArmInstruction::Mrs => mrs(emulator, instruction),
        ArmInstruction::Msr => msr(emulator, instruction),
        ArmInstruction::Mul => crate::arm::mul(emulator, instruction),
        ArmInstruction::Mvn => mvn(emulator, instruction),
        ArmInstruction::Or => or(emulator, instruction),
        ArmInstruction::Rsb => rsb(emulator, instruction),
        ArmInstruction::Rsc => rsc(emulator, instruction),
        ArmInstruction::Sbc => sbc(emulator, instruction),
        ArmInstruction::Smlal => smlal(emulator, instruction),
        ArmInstruction::Smull => smull(emulator, instruction),
        ArmInstruction::Stc => stc(emulator, instruction),
        ArmInstruction::Stm => stm(emulator, instruction),
        ArmInstruction::Str => str(emulator, instruction),
        ArmInstruction::Strb => strb(emulator, instruction),
        ArmInstruction::Strbt => strbt(emulator, instruction),
        ArmInstruction::Strh => strh(emulator, instruction),
        ArmInstruction::Strt => strt(emulator, instruction),
        ArmInstruction::Sub => crate::arm::sub(emulator, instruction),
        ArmInstruction::Swi => swi(emulator, instruction),
        ArmInstruction::Swp => swp(emulator, instruction),
        ArmInstruction::Swpb => swpb(emulator, instruction),
        ArmInstruction::Teq => teq(emulator, instruction),
        ArmInstruction::Tst => tst(emulator, instruction),
        ArmInstruction::Umlal => umlal(emulator, instruction),
        ArmInstruction::Umull => umull(emulator, instruction),
        ArmInstruction::Undefined => undefined_instruction(emulator, instruction),
    }
}

/// How many of the register-list bits below index `n` are set.
pub open spec fn spec_reg_count(inst: u32, n: int) -> int
    decreases n,
{
    if n <= 0 {
        0
    } else {
        spec_reg_count(inst, n - 1) + if spec_get_bit(inst, (n - 1) as u32) {
            1int
        } else {
            0int
        }
    }
}

/// The lowest address a multiple transfer touches, selected by the P and U
/// bits: increment or decrement, after or before each transfer.
pub open spec fn spec_multiple_start(rs: RegisterSet, inst: u32) -> u32 {
    let base = rs.spec_reg(spec_register_from_bits((inst >> 16) & 0xf));
    let span = (4 * spec_reg_count(inst, 16)) as u32;
    if spec_get_bit(inst, 23) {
        if spec_get_bit(inst, 24) {
            base.wrapping_add(4)
        } else {
            base
        }
    } else {
        if spec_get_bit(inst, 24) {
            base.wrapping_sub(span)
        } else {
            base.wrapping_sub(span).wrapping_add(4)
        }
    }
}

/// The address at which register `i` of the list transfers: registers go
/// in ascending order at ascending word steps from the start address.
pub open spec fn spec_multiple_addr(rs: RegisterSet, inst: u32, i: int) -> u32 {
    spec_multiple_start(rs, inst).wrapping_add((4 * spec_reg_count(inst, i)) as u32)
}

/// The base register's value after writeback: the base moved over the
/// whole span, up or down by the U bit.
pub open spec fn spec_multiple_wb_value(rs: RegisterSet, inst: u32) -> u32 {
    let base = rs.spec_reg(spec_register_from_bits((inst >> 16) & 0xf));
    let span = (4 * spec_reg_count(inst, 16)) as u32;
    if spec_get_bit(inst, 23) {
        base.wrapping_add(span)
    } else {
        base.wrapping_sub(span)
    }
}

/// The memory after the first `n` list positions of a store-multiple: each
/// selected register's value lands at its word-aligned slot. With the S
/// bit, the values come from the user bank rather than the current mode's.
pub open spec fn spec_stm_mem(pre: Emulator, inst: u32, n: int) -> MemView
    decreases n,
{
    if n <= 0 {
        pre.memory@
    } else {
        let m = spec_stm_mem(pre, inst, n - 1);
        if spec_get_bit(inst, (n - 1) as u32) {
            let value = if spec_get_bit(inst, 22) {
                pre.cpu.registers.spec_reg_user(spec_register_from_bits((n - 1) as u32))
            } else {
                pre.cpu.registers.spec_reg(spec_register_from_bits((n - 1) as u32))
            };
            spec_write_word(
                m,
                spec_multiple_addr(pre.cpu.registers, inst, n - 1) & 0xffff_fffc,
                value,
            )
        } else {
            m
        }
    }
}

/// How a store-multiple leaves the machine: every selected register stored
/// at its slot, and the base register moved over the span when the W bit
/// asks (after the transfers, so the stored base is its original value).
pub open spec fn spec_stm_rel(pre: Emulator, post: Emulator, inst: u32) -> bool {
    let rs = pre.cpu.registers;
    post.memory@ == spec_stm_mem(pre, inst, 16) && post.cpu.registers == (if spec_get_bit(
        inst,
        21,
    ) {
        rs.spec_set(
            spec_register_from_bits((inst >> 16) & 0xf),
            spec_multiple_wb_value(rs, inst),
        )
    } else {
        rs
    }) && post.cpu.halt == pre.cpu.halt && post.remaining_cycles == pre.remaining_cycles
}

/// The register file after the first `n` list positions of a
/// load-multiple: each selected register takes the word at its slot, read
/// from the memory as it was before the instruction; a load into the
/// program counter is forced to word alignment. With the S bit and no
/// program counter in the list, the loads land in the user bank rather
/// than the current mode's.
pub open spec fn spec_ldm_regs(pre: Emulator, inst: u32, n: int) -> RegisterSet
    decreases n,
{
    if n <= 0 {
        pre.cpu.registers
    } else {
        let rs = spec_ldm_regs(pre, inst, n - 1);
        if spec_get_bit(inst, (n - 1) as u32) {
            let value = spec_read_word(
                pre.memory@,
                spec_multiple_addr(pre.cpu.registers, inst, n - 1) & 0xffff_fffc,
            );
            if n - 1 == 15 {
                rs.spec_set(RegisterNames::r15, value & 0xffff_fffc)
            } else if spec_get_bit(inst, 22) && !spec_get_bit(inst, 15) {
                rs.spec_set_user(spec_register_from_bits((n - 1) as u32), value)
            } else {
                rs.spec_set(spec_register_from_bits((n - 1) as u32), value)
            }
        } else {
            rs
        }
    }
}

/// How a load-multiple leaves the machine: every selected register loaded
/// from its slot, then the base moved over the span when the W bit asks
/// (so on a base that is also in the list, the writeback value wins).
/// With the S bit and the program counter in the list, CPSR is finally
/// restored from the current mode's SPSR, when the mode has one and it
/// holds a valid mode (a mode fault there leaves the status registers
/// untouched).
pub open spec fn spec_ldm_rel(pre: Emulator, post: Emulator, inst: u32) -> bool {
    let loaded = spec_ldm_regs(pre, inst, 16);
    let written_back = if spec_get_bit(inst, 21) {
        loaded.spec_set(
            spec_register_from_bits((inst >> 16) & 0xf),
            spec_multiple_wb_value(pre.cpu.registers, inst),
        )
    } else {
        loaded
    };
    let finished = if spec_get_bit(inst, 22) && spec_get_bit(inst, 15) {
        if written_back.spec_has_spsr() && valid_mode_bits(
            written_back.spec_reg(RegisterNames::spsr) & 0x1f,
        ) {
            written_back.spec_set(
                RegisterNames::cpsr,
                written_back.spec_reg(RegisterNames::spsr),
            )
        } else {
            written_back
        }
    } else {
        written_back
    };
    post == pre.spec_with_registers(finished)
}

/// Store multiple registers: the set bits of the low halfword name the
/// registers, stored in ascending order at ascending word-aligned
/// addresses arranged by the P and U bits. With the S bit, the user-bank
/// register values are stored; the base register and its writeback stay
/// with the current mode's bank.
pub fn stm(emulator: &mut Emulator, instruction: u32) -> (r: u32)
    requires
        old(emulator).wf(),
    ensures
        spec_stm_rel(*old(emulator), *final(emulator), instruction),
        final(emulator).wf(),
        r == 5,
{
    proof {
        crate::utils::lemma_field_bounds(instruction);
    }
    let ghost pre = *emulator;
    let base_register = register_from_bits((instruction >> 16) & 0xf);
    let base = emulator.cpu.get_register_value(base_register);

    let count = count_list_registers(instruction);
    let start = multiple_start_address(base, count, instruction);

    let mut stored: u32 = 0;
    let mut i: u32 = 0;
    while i < 16
        invariant
            i <= 16,
            stored <= i,
            stored as int == spec_reg_count(instruction, i as int),
            emulator.cpu == pre.cpu,
            emulator.remaining_cycles == pre.remaining_cycles,
            emulator.memory@ == spec_stm_mem(pre, instruction, i as int),
            emulator.wf(),
            base == pre.cpu.registers.spec_reg(
                spec_register_from_bits((instruction >> 16) & 0xf),
            ),
            start == spec_multiple_start(pre.cpu.registers, instruction),
        decreases 16 - i,
    {
        if get_bit(instruction, i) {
            let address = start.wrapping_add(4 * stored);
            proof {
                assert((address & 0xffff_fffcu32) % 4 == 0) by (bit_vector);
            }
            let value = if get_bit(instruction, 22) {
                emulator.cpu.registers.get_user_value(register_from_bits(i))
            } else {
                emulator.cpu.get_register_value(register_from_bits(i))
            };
            write_word(emulator, address & 0xffff_fffc, value);
            stored += 1;
        }
        i += 1;
    }

    if get_bit(instruction, 21) {
        let span = 4 * count;
        let written_back = if get_bit(instruction, 23) {
            base.wrapping_add(span)
        } else {
            base.wrapping_sub(span)
        };
        emulator.cpu.set_register_value(base_register, written_back);
    }

    5
}

/// Load multiple registers: the set bits of the low halfword name the
/// registers, loaded in ascending order from ascending word-aligned
/// addresses arranged by the P and U bits; a base register also in the
/// list ends with the writeback value. With the S bit, the loads land in
/// the user bank, unless the program counter is in the list, in which
/// case the current banks are used and CPSR is restored from the SPSR at
/// the end.
pub fn ldm(emulator: &mut Emulator, instruction: u32) -> (r: u32)
    requires
        old(emulator).wf(),
    ensures
        spec_ldm_rel(*old(emulator), *final(emulator), instruction),
        final(emulator).wf(),
        r == 5,
{
    proof {
        crate::utils::lemma_field_bounds(instruction);
    }
    let ghost pre = *emulator;
    let base_register = register_from_bits((instruction >> 16) & 0xf);
    let base = emulator.cpu.get_register_value(base_register);

    let count = count_list_registers(instruction);
    let start = multiple_start_address(base, count, instruction);

    let mut loaded: u32 = 0;
    let mut i: u32 = 0;
    while i < 16
        invariant
            i <= 16,
            loaded <= i,
            loaded as int == spec_reg_count(instruction, i as int),
            *emulator == pre.spec_with_registers(emulator.cpu.registers),
            emulator.cpu.registers == spec_ldm_regs(pre, instruction, i as int),
            emulator.wf(),
            base == pre.cpu.registers.spec_reg(
                spec_register_from_bits((instruction >> 16) & 0xf),
            ),
            start == spec_multiple_start(pre.cpu.registers, instruction),
        decreases 16 - i,
    {
        if get_bit(instruction, i) {
            let address = start.wrapping_add(4 * loaded);
            proof {
                assert((address & 0xffff_fffcu32) % 4 == 0) by (bit_vector);
            }
            let value = read_word(emulator, address & 0xffff_fffc);
            if i == 15 {
                emulator.cpu.set_register_value(RegisterNames::r15, value & 0xffff_fffc);
            } else if get_bit(instruction, 22) && !get_bit(instruction, 15) {
                emulator.cpu.registers.set_user_value(register_from_bits(i), value);
            } else {
                emulator.cpu.set_register_value(register_from_bits(i), value);
            }
            loaded += 1;
        }
        i += 1;
    }

    if get_bit(instruction, 21) {
        let span = 4 * count;
        let written_back = if get_bit(instruction, 23) {
            base.wrapping_add(span)
        } else {
            base.wrapping_sub(span)
        };
        emulator.cpu.set_register_value(base_register, written_back);
    }

    if get_bit(instruction, 22) && get_bit(instruction, 15) {
        if emulator.cpu.current_mode_has_spsr() {
            let saved = emulator.cpu.get_register_value(RegisterNames::spsr);
            if crate::cpu::is_valid_mode_field(saved) {
                emulator.cpu.set_register_value(RegisterNames::cpsr, saved);
            }
        }
    }

    5
}

/// Count the registers named by the low halfword of the instruction.
fn count_list_registers(instruction: u32) -> (r: u32)
    ensures
        r as int == spec_reg_count(instruction, 16),
        r <= 16,
{
    let mut count: u32 = 0;
    let mut i: u32 = 0;
    while i < 16
        invariant
            i <= 16,
            count <= i,
            count as int == spec_reg_count(instruction, i as int),
        decreases 16 - i,
    {
        if get_bit(instruction, i) {
            count += 1;
        }
        i += 1;
    }
    count
}

/// The lowest address of a multiple transfer of `count` registers.
fn multiple_start_address(base: u32, count: u32, instruction: u32) -> (r: u32)
    requires
        count <= 16,
        count as int == spec_reg_count(instruction, 16),
    ensures
        forall|rs: RegisterSet|
            rs.spec_reg(spec_register_from_bits((instruction >> 16) & 0xf)) == base
                ==> r == spec_multiple_start(rs, instruction),
{
    let span = 4 * count;
    if get_bit(instruction, 23) {
        if get_bit(instruction, 24) {
            base.wrapping_add(4)
        } else {
            base
        }
    } else {
        if get_bit(instruction, 24) {
            base.wrapping_sub(span)
        } else {
            base.wrapping_sub(span).wrapping_add(4)
        }
    }
}

} // verus!
