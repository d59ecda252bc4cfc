//! The 16-bit Thumb instruction set: a compressed encoding whose semantics
//! mirror a subset of the ARM instructions. The decoder classifies a
//! halfword by its top bits into the architecture's families - shifts,
//! immediate and register arithmetic, hi-register operations, loads and
//! stores in their addressing forms, stack and multiple transfers,
//! branches and the software interrupt - and one handler executes each.

use vstd::prelude::*;

use crate::bits::get_bit;
use crate::cpu::{
    condition_from_bits, register_from_bits, spec_condition_from_bits, spec_register_from_bits,
    RegisterNames, RegisterSet,
};
use crate::emulator::Emulator;
use crate::utils::{shift_by_imm, spec_shift_by_imm};

verus! {

/// A decoded Thumb instruction, named after the handler that executes it.
/// The few encodings outside the architecture's families - the never
/// condition, the halfword reserved for later architectures in the long
/// branch, and the unallocated miscellaneous patterns - decode to the
/// placeholder.
#[derive(Copy, Clone, Debug, PartialEq, Eq, Structural)]
pub enum ThumbInstruction {
    Adc,
    Add,
    And,
    Asr,
    B,
    Bic,
    Bl,
    Bx,
    Cmn,
    Cmp,
    Eor,
    Ldmia,
    Ldr,
    Ldrb,
    Ldrh,
    Ldrsb,
    Ldrsh,
    Lsl,
    Lsr,
    Mov,
    Mul,
    Mvn,
    Neg,
    Or,
    Pop,
    Push,
    Ror,
    Sbc,
    Stmia,
    Str,
    Strb,
    Strh,
    Sub,
    Swi,
    Tst,
    Placeholder,
}

/// The Thumb decode function: a pure function of the halfword alone. The
/// top three bits select the family; the executed families split further
/// on their operation fields.
pub open spec fn spec_decode(inst: u16) -> ThumbInstruction {
    let category = (inst >> 13) & 7;
    if category == 0b000 {
        // Shift by immediate, or the three-register add/subtract.
        let op = (inst >> 11) & 3;
        if op == 0 {
            ThumbInstruction::Lsl
        } else if op == 1 {
            ThumbInstruction::Lsr
        } else if op == 2 {
            ThumbInstruction::Asr
        } else if (inst >> 9) & 1 == 0 {
            ThumbInstruction::Add
        } else {
            ThumbInstruction::Sub
        }
    } else if category == 0b001 {
        // Move/compare/add/subtract with an 8-bit immediate.
        let op = (inst >> 11) & 3;
        if op == 0 {
            ThumbInstruction::Mov
        } else if op == 1 {
            ThumbInstruction::Cmp
        } else if op == 2 {
            ThumbInstruction::Add
        } else {
            ThumbInstruction::Sub
        }
    } else if category == 0b010 {
        if (inst >> 10) & 0x3f == 0b010000 {
            // Register ALU operations.
            let op = (inst >> 6) & 0xf;
            if op == 0b0000 {
                ThumbInstruction::And
            } else if op == 0b0001 {
                ThumbInstruction::Eor
            } else if op == 0b0010 {
                ThumbInstruction::Lsl
            } else if op == 0b0011 {
                ThumbInstruction::Lsr
            } else if op == 0b0100 {
                ThumbInstruction::Asr
            } else if op == 0b0101 {
                ThumbInstruction::Adc
            } else if op == 0b0110 {
                ThumbInstruction::Sbc
            } else if op == 0b0111 {
                ThumbInstruction::Ror
            } else if op == 0b1000 {
                ThumbInstruction::Tst
            } else if op == 0b1001 {
                ThumbInstruction::Neg
            } else if op == 0b1010 {
                ThumbInstruction::Cmp
            } else if op == 0b1011 {
                ThumbInstruction::Cmn
            } else if op == 0b1100 {
                ThumbInstruction::Or
            } else if op == 0b1101 {
                ThumbInstruction::Mul
            } else if op == 0b1110 {
                ThumbInstruction::Bic
            } else {
                ThumbInstruction::Mvn
            }
        } else if (inst >> 10) & 0x3f == 0b010001 {
            // Hi-register operations and branch-exchange.
            let op = (inst >> 8) & 3;
            if op == 0 {
                ThumbInstruction::Add
            } else if op == 1 {
                ThumbInstruction::Cmp
            } else if op == 2 {
                ThumbInstruction::Mov
            } else {
                ThumbInstruction::Bx
            }
        } else if (inst >> 11) & 0x1f == 0b01001 {
            // Load from the literal pool.
            ThumbInstruction::Ldr
        } else if (inst >> 9) & 1 == 0 {
            // Load/store with a register offset.
            let load = (inst >> 11) & 1 > 0;
            let byte = (inst >> 10) & 1 > 0;
            if load {
                if byte {
                    ThumbInstruction::Ldrb
                } else {
                    ThumbInstruction::Ldr
                }
            } else {
                if byte {
                    ThumbInstruction::Strb
                } else {
                    ThumbInstruction::Str
                }
            }
        } else {
            // Halfword and sign-extended load/store with a register
            // offset.
            let op = (inst >> 10) & 3;
            if op == 0 {
                ThumbInstruction::Strh
            } else if op == 1 {
                ThumbInstruction::Ldrsb
            } else if op == 2 {
                ThumbInstruction::Ldrh
            } else {
                ThumbInstruction::Ldrsh
            }
        }
    } else if category == 0b011 {
        // Load/store word or byte with an immediate offset.
        let byte = (inst >> 12) & 1 > 0;
        let load = (inst >> 11) & 1 > 0;
        if load {
            if byte {
                ThumbInstruction::Ldrb
            } else {
                ThumbInstruction::Ldr
            }
        } else {
            if byte {
                ThumbInstruction::Strb
            } else {
                ThumbInstruction::Str
            }
        }
    } else if category == 0b100 {
        if (inst >> 12) & 1 == 0 {
            // Halfword load/store with an immediate offset.
            if (inst >> 11) & 1 > 0 {
                ThumbInstruction::Ldrh
            } else {
                ThumbInstruction::Strh
            }
        } else {
            // SP-relative load/store.
            if (inst >> 11) & 1 > 0 {
                ThumbInstruction::Ldr
            } else {
                ThumbInstruction::Str
            }
        }
    } else if category == 0b101 {
        if (inst >> 12) & 1 == 0 {
            // Load an address relative to PC or SP.
            ThumbInstruction::Add
        } else if (inst >> 8) & 0xf == 0 {
            // Adjust the stack pointer.
            if (inst >> 7) & 1 == 0 {
                ThumbInstruction::Add
            } else {
                ThumbInstruction::Sub
            }
        } else if (inst >> 9) & 7 == 0b010 {
            ThumbInstruction::Push
        } else if (inst >> 9) & 7 == 0b110 {
            ThumbInstruction::Pop
        } else {
            ThumbInstruction::Placeholder
        }
    } else if category == 0b110 {
        if (inst >> 12) & 1 == 0 {
            // Multiple load/store.
            if (inst >> 11) & 1 > 0 {
                ThumbInstruction::Ldmia
            } else {
                ThumbInstruction::Stmia
            }
        } else {
            // Conditional branches and the software interrupt.
            let condition = (inst >> 8) & 0xf;
            if condition == 0b1111 {
                ThumbInstruction::Swi
            } else if condition == 0b1110 {
                ThumbInstruction::Placeholder
            } else {
                ThumbInstruction::B
            }
        }
    } else {
        // The unconditional branch and the long branch-with-link pair.
        let op = (inst >> 11) & 3;
        if op == 0 {
            ThumbInstruction::B
        } else if op == 2 || op == 3 {
            ThumbInstruction::Bl
        } else {
            ThumbInstruction::Placeholder
        }
    }
}

/// Decode a Thumb halfword. The result is a pure function of the halfword:
/// decoding the same halfword again yields the same instruction.
pub fn decode_instruction(instruction: u16) -> (r: ThumbInstruction)
    ensures
        r == spec_decode(instruction),
{
    let category = (instruction >> 13) & 7;
    if category == 0b000 {
        // Shift by immediate, or the three-register add/subtract.
        let op = (instruction >> 11) & 3;
        if op == 0 {
            ThumbInstruction::Lsl
        } else if op == 1 {
            ThumbInstruction::Lsr
        } else if op == 2 {
            ThumbInstruction::Asr
        } else if (instruction >> 9) & 1 == 0 {
            ThumbInstruction::Add
        } else {
            ThumbInstruction::Sub
        }
    } else if category == 0b001 {
        // Move/compare/add/subtract with an 8-bit immediate.
        let op = (instruction >> 11) & 3;
        if op == 0 {
            ThumbInstruction::Mov
        } else if op == 1 {
            ThumbInstruction::Cmp
        } else if op == 2 {
            ThumbInstruction::Add
        } else {
            ThumbInstruction::Sub
        }
    } else if category == 0b010 {
        if (instruction >> 10) & 0x3f == 0b010000 {
            // Register ALU operations.
            let op = (instruction >> 6) & 0xf;
            if op == 0b0000 {
                ThumbInstruction::And
            } else if op == 0b0001 {
                ThumbInstruction::Eor
            } else if op == 0b0010 {
                ThumbInstruction::Lsl
            } else if op == 0b0011 {
                ThumbInstruction::Lsr
            } else if op == 0b0100 {
                ThumbInstruction::Asr
            } else if op == 0b0101 {
                ThumbInstruction::Adc
            } else if op == 0b0110 {
                ThumbInstruction::Sbc
            } else if op == 0b0111 {
                ThumbInstruction::Ror
            } else if op == 0b1000 {
                ThumbInstruction::Tst
            } else if op == 0b1001 {
                ThumbInstruction::Neg
            } else if op == 0b1010 {
                ThumbInstruction::Cmp
            } else if op == 0b1011 {
                ThumbInstruction::Cmn
            } else if op == 0b1100 {
                ThumbInstruction::Or
            } else if op == 0b1101 {
                ThumbInstruction::Mul
            } else if op == 0b1110 {
                ThumbInstruction::Bic
            } else {
                ThumbInstruction::Mvn
            }
        } else if (instruction >> 10) & 0x3f == 0b010001 {
            // Hi-register operations and branch-exchange.
            let op = (instruction >> 8) & 3;
            if op == 0 {
                ThumbInstruction::Add
            } else if op == 1 {
                ThumbInstruction::Cmp
            } else if op == 2 {
                ThumbInstruction::Mov
            } else {
                ThumbInstruction::Bx
            }
        } else if (instruction >> 11) & 0x1f == 0b01001 {
            // Load from the literal pool.
            ThumbInstruction::Ldr
        } else if (instruction >> 9) & 1 == 0 {
            // Load/store with a register offset.
            let load = (instruction >> 11) & 1 > 0;
            let byte = (instruction >> 10) & 1 > 0;
            if load {
                if byte {
                    ThumbInstruction::Ldrb
                } else {
                    ThumbInstruction::Ldr
                }
            } else {
                if byte {
                    ThumbInstruction::Strb
                } else {
                    ThumbInstruction::Str
                }
            }
        } else {
            // Halfword and sign-extended load/store with a register
            // offset.
            let op = (instruction >> 10) & 3;
            if op == 0 {
                ThumbInstruction::Strh
            } else if op == 1 {
                ThumbInstruction::Ldrsb
            } else if op == 2 {
                ThumbInstruction::Ldrh
            } else {
                ThumbInstruction::Ldrsh
            }
        }
    } else if category == 0b011 {
        // Load/store word or byte with an immediate offset.
        let byte = (instruction >> 12) & 1 > 0;
        let load = (instruction >> 11) & 1 > 0;
        if load {
            if byte {
                ThumbInstruction::Ldrb
            } else {
                ThumbInstruction::Ldr
            }
        } else {
            if byte {
                ThumbInstruction::Strb
            } else {
                ThumbInstruction::Str
            }
        }
    } else if category == 0b100 {
        if (instruction >> 12) & 1 == 0 {
            // Halfword load/store with an immediate offset.
            if (instruction >> 11) & 1 > 0 {
                ThumbInstruction::Ldrh
            } else {
                ThumbInstruction::Strh
            }
        } else {
            // SP-relative load/store.
            if (instruction >> 11) & 1 > 0 {
                ThumbInstruction::Ldr
            } else {
                ThumbInstruction::Str
            }
        }
    } else if category == 0b101 {
        if (instruction >> 12) & 1 == 0 {
            // Load an address relative to PC or SP.
            ThumbInstruction::Add
        } else if (instruction >> 8) & 0xf == 0 {
            // Adjust the stack pointer.
            if (instruction >> 7) & 1 == 0 {
                ThumbInstruction::Add
            } else {
                ThumbInstruction::Sub
            }
        } else if (instruction >> 9) & 7 == 0b010 {
            ThumbInstruction::Push
        } else if (instruction >> 9) & 7 == 0b110 {
            ThumbInstruction::Pop
        } else {
            ThumbInstruction::Placeholder
        }
    } else if category == 0b110 {
        if (instruction >> 12) & 1 == 0 {
            // Multiple load/store.
            if (instruction >> 11) & 1 > 0 {
                ThumbInstruction::Ldmia
            } else {
                ThumbInstruction::Stmia
            }
        } else {
            // Conditional branches and the software interrupt.
            let condition = (instruction >> 8) & 0xf;
            if condition == 0b1111 {
                ThumbInstruction::Swi
            } else if condition == 0b1110 {
                ThumbInstruction::Placeholder
            } else {
                ThumbInstruction::B
            }
        }
    } else {
        // The unconditional branch and the long branch-with-link pair.
        let op = (instruction >> 11) & 3;
        if op == 0 {
            ThumbInstruction::B
        } else if op == 2 || op == 3 {
            ThumbInstruction::Bl
        } else {
            ThumbInstruction::Placeholder
        }
    }
}

/// The field bounds the Thumb handlers rely on.
proof fn lemma_thumb_field_bounds(inst: u16)
    by (bit_vector)
    ensures
        (inst & 7) < 8,
        ((inst >> 3) & 7) < 8,
        ((inst >> 6) & 7) < 8,
        ((inst >> 8) & 7) < 8,
        ((inst >> 3) & 0xf) < 16,
        ((inst >> 8) & 0xf) < 16,
        ((inst >> 6) & 0x1f) < 32,
        (inst & 0xff) < 256,
        ((inst >> 7) & 1) < 2,
        (inst & 0x7f) < 128,
        (inst & 0x7ff) < 0x800,
        ((inst >> 7) & 1) * 8 + (inst & 7) < 16,
{
}

/// A shift of `Rd` into itself, or of `Rs` into `Rd`, with N and Z from
/// the result and C from the shifter carry-out. In the top family the
/// amount is a five-bit immediate; in the register-operation family it is
/// the low byte of `Rs`.
pub open spec fn spec_exec_thumb_shift(rs: RegisterSet, inst: u16, mode: u32) -> RegisterSet {
    let dest = spec_register_from_bits((inst & 7) as u32);
    let shifted = if (inst >> 13) & 7 == 0 {
        let source = rs.spec_reg(spec_register_from_bits(((inst >> 3) & 7) as u32));
        spec_shift_by_imm(rs.spec_c(), source, ((inst >> 6) & 0x1f) as u32, mode)
    } else {
        let source = rs.spec_reg(dest);
        let amount = rs.spec_reg(spec_register_from_bits(((inst >> 3) & 7) as u32)) & 0xff;
        crate::utils::spec_shift_by_reg(rs.spec_c(), source, amount, mode)
    };
    crate::arm::spec_set_flags(
        rs,
        crate::arm::spec_sign(shifted.0),
        shifted.0 == 0,
        shifted.1,
        rs.spec_v(),
    ).spec_set(dest, shifted.0)
}

/// Shift into `Rd` and set the flags: by an immediate amount, or by the
/// low byte of `Rs` in the register-operation family.
fn shift_into(emulator: &mut Emulator, instruction: u16, mode: u32) -> (r: u32)
    requires
        old(emulator).wf(),
        mode < 4,
    ensures
        *final(emulator) == old(emulator).spec_with_registers(
            spec_exec_thumb_shift(old(emulator).cpu.registers, instruction, mode),
        ),
        final(emulator).wf(),
        r == 1,
{
    proof {
        lemma_thumb_field_bounds(instruction);
    }
    let dest = register_from_bits((instruction & 7) as u32);
    let v = emulator.cpu.get_v();

    let (value, carry) = if (instruction >> 13) & 7 == 0 {
        let source = emulator.cpu.get_register_value(
            register_from_bits(((instruction >> 3) & 7) as u32),
        );
        shift_by_imm(emulator.cpu.get_c(), source, ((instruction >> 6) & 0x1f) as u32, mode)
    } else {
        let source = emulator.cpu.get_register_value(dest);
        let amount = emulator.cpu.get_register_value(
            register_from_bits(((instruction >> 3) & 7) as u32),
        ) & 0xff;
        crate::utils::shift_by_reg(emulator.cpu.get_c(), source, amount, mode)
    };

    emulator.cpu.set_nzcv(value >= 0x8000_0000, value == 0, carry, v);
    emulator.cpu.set_register_value(dest, value);

    1
}

/// Logical shift left, by an immediate amount or by a register.
pub fn lsl(emulator: &mut Emulator, instruction: u16) -> (r: u32)
    requires
        old(emulator).wf(),
    ensures
        *final(emulator) == old(emulator).spec_with_registers(
            spec_exec_thumb_shift(old(emulator).cpu.registers, instruction, 0),
        ),
        final(emulator).wf(),
        r == 1,
{
    shift_into(emulator, instruction, 0)
}

/// Logical shift right, by an immediate amount or by a register.
pub fn lsr(emulator: &mut Emulator, instruction: u16) -> (r: u32)
    requires
        old(emulator).wf(),
    ensures
        *final(emulator) == old(emulator).spec_with_registers(
            spec_exec_thumb_shift(old(emulator).cpu.registers, instruction, 1),
        ),
        final(emulator).wf(),
        r == 1,
{
    shift_into(emulator, instruction, 1)
}

/// Arithmetic shift right, by an immediate amount or by a register.
pub fn asr(emulator: &mut Emulator, instruction: u16) -> (r: u32)
    requires
        old(emulator).wf(),
    ensures
        *final(emulator) == old(emulator).spec_with_registers(
            spec_exec_thumb_shift(old(emulator).cpu.registers, instruction, 2),
        ),
        final(emulator).wf(),
        r == 1,
{
    shift_into(emulator, instruction, 2)
}

/// A Thumb addition. The shift family carries the three-register (or
/// register plus 3-bit immediate) form and the immediate family the
/// destination-plus-8-bit-immediate form, both setting all four flags.
/// The hi-register form, the load-address form (PC or SP plus a scaled
/// immediate) and the SP-adjust form write their sum without touching
/// the flags.
pub open spec fn spec_exec_thumb_add(rs: RegisterSet, inst: u16) -> RegisterSet {
    if (inst >> 13) & 7 == 0 {
        let first = rs.spec_reg(spec_register_from_bits(((inst >> 3) & 7) as u32));
        let second = if (inst >> 10) & 1 > 0 {
            ((inst >> 6) & 7) as u32
        } else {
            rs.spec_reg(spec_register_from_bits(((inst >> 6) & 7) as u32))
        };
        let dest = spec_register_from_bits((inst & 7) as u32);
        let result = first.wrapping_add(second);
        crate::arm::spec_set_flags(
            rs,
            crate::arm::spec_sign(result),
            result == 0,
            first + second > 0xffff_ffff,
            crate::arm::spec_sign(first) == crate::arm::spec_sign(second)
                && crate::arm::spec_sign(result) != crate::arm::spec_sign(first),
        ).spec_set(dest, result)
    } else if (inst >> 13) & 7 == 1 {
        let dest = spec_register_from_bits(((inst >> 8) & 7) as u32);
        let first = rs.spec_reg(dest);
        let second = (inst & 0xff) as u32;
        let result = first.wrapping_add(second);
        crate::arm::spec_set_flags(
            rs,
            crate::arm::spec_sign(result),
            result == 0,
            first + second > 0xffff_ffff,
            crate::arm::spec_sign(first) == crate::arm::spec_sign(second)
                && crate::arm::spec_sign(result) != crate::arm::spec_sign(first),
        ).spec_set(dest, result)
    } else if (inst >> 10) & 0x3f == 0b010001 {
        let dest = spec_register_from_bits((((inst >> 7) & 1) * 8 + (inst & 7)) as u32);
        let first = rs.spec_reg(dest);
        let second = rs.spec_reg(spec_register_from_bits(((inst >> 3) & 0xf) as u32));
        let result = first.wrapping_add(second);
        if dest == RegisterNames::r15 {
            rs.spec_set(dest, result & 0xffff_fffe)
        } else {
            rs.spec_set(dest, result)
        }
    } else if (inst >> 12) & 0xf == 0b1010 {
        let dest = spec_register_from_bits(((inst >> 8) & 7) as u32);
        let base = if (inst >> 11) & 1 > 0 {
            rs.spec_reg(RegisterNames::r13)
        } else {
            rs.spec_reg(RegisterNames::r15) & 0xffff_fffc
        };
        rs.spec_set(dest, base.wrapping_add(((((inst & 0xff) as u32) * 4) as u32)))
    } else {
        let sp = rs.spec_reg(RegisterNames::r13);
        rs.spec_set(RegisterNames::r13, sp.wrapping_add(((((inst & 0x7f) as u32) * 4) as u32)))
    }
}

/// Addition: the flag-setting register and immediate forms, the
/// flag-preserving hi-register form, and the PC/SP address forms.
pub fn add(emulator: &mut Emulator, instruction: u16) -> (r: u32)
    requires
        old(emulator).wf(),
    ensures
        *final(emulator) == old(emulator).spec_with_registers(
            spec_exec_thumb_add(old(emulator).cpu.registers, instruction),
        ),
        final(emulator).wf(),
        r == 1,
{
    proof {
        lemma_thumb_field_bounds(instruction);
    }
    if (instruction >> 13) & 7 == 0 {
        let first = emulator.cpu.get_register_value(
            register_from_bits(((instruction >> 3) & 7) as u32),
        );
        let second = if (instruction >> 10) & 1 > 0 {
            ((instruction >> 6) & 7) as u32
        } else {
            emulator.cpu.get_register_value(register_from_bits(((instruction >> 6) & 7) as u32))
        };
        let dest = register_from_bits((instruction & 7) as u32);
        let result = first.wrapping_add(second);
        emulator.cpu.set_nzcv(
            result >= 0x8000_0000,
            result == 0,
            second > 0xffff_ffffu32 - first,
            (first >= 0x8000_0000) == (second >= 0x8000_0000) && (result >= 0x8000_0000) != (first
                >= 0x8000_0000),
        );
        emulator.cpu.set_register_value(dest, result);
    } else if (instruction >> 13) & 7 == 1 {
        let dest = register_from_bits(((instruction >> 8) & 7) as u32);
        let first = emulator.cpu.get_register_value(dest);
        let second = (instruction & 0xff) as u32;
        let result = first.wrapping_add(second);
        emulator.cpu.set_nzcv(
            result >= 0x8000_0000,
            result == 0,
            second > 0xffff_ffffu32 - first,
            (first >= 0x8000_0000) == (second >= 0x8000_0000) && (result >= 0x8000_0000) != (first
                >= 0x8000_0000),
        );
        emulator.cpu.set_register_value(dest, result);
    } else if (instruction >> 10) & 0x3f == 0b010001 {
        let dest = register_from_bits((((instruction >> 7) & 1) * 8 + (instruction & 7)) as u32);
        let first = emulator.cpu.get_register_value(dest);
        let second = emulator.cpu.get_register_value(
            register_from_bits(((instruction >> 3) & 0xf) as u32),
        );
        let result = first.wrapping_add(second);
        if dest == RegisterNames::r15 {
            emulator.cpu.set_register_value(dest, result & 0xffff_fffe);
        } else {
            emulator.cpu.set_register_value(dest, result);
        }
    } else if (instruction >> 12) & 0xf == 0b1010 {
        let dest = register_from_bits(((instruction >> 8) & 7) as u32);
        let base = if (instruction >> 11) & 1 > 0 {
            emulator.cpu.get_register_value(RegisterNames::r13)
        } else {
            emulator.cpu.get_register_value(RegisterNames::r15) & 0xffff_fffc
        };
        emulator.cpu.set_register_value(dest, base.wrapping_add(((instruction & 0xff) as u32) * 4));
    } else {
        let sp = emulator.cpu.get_register_value(RegisterNames::r13);
        emulator.cpu.set_register_value(
            RegisterNames::r13,
            sp.wrapping_add(((instruction & 0x7f) as u32) * 4),
        );
    }

    1
}

/// A Thumb subtraction: the flag-setting register and immediate forms,
/// and the flag-preserving SP-adjust form.
pub open spec fn spec_exec_thumb_sub(rs: RegisterSet, inst: u16) -> RegisterSet {
    if (inst >> 13) & 7 == 0 {
        let first = rs.spec_reg(spec_register_from_bits(((inst >> 3) & 7) as u32));
        let second = if (inst >> 10) & 1 > 0 {
            ((inst >> 6) & 7) as u32
        } else {
            rs.spec_reg(spec_register_from_bits(((inst >> 6) & 7) as u32))
        };
        let dest = spec_register_from_bits((inst & 7) as u32);
        let result = first.wrapping_sub(second);
        crate::arm::spec_set_flags(
            rs,
            crate::arm::spec_sign(result),
            result == 0,
            first >= second,
            crate::arm::spec_sign(first) != crate::arm::spec_sign(second)
                && crate::arm::spec_sign(result) != crate::arm::spec_sign(first),
        ).spec_set(dest, result)
    } else if (inst >> 13) & 7 == 1 {
        let dest = spec_register_from_bits(((inst >> 8) & 7) as u32);
        let first = rs.spec_reg(dest);
        let second = (inst & 0xff) as u32;
        let result = first.wrapping_sub(second);
        crate::arm::spec_set_flags(
            rs,
            crate::arm::spec_sign(result),
            result == 0,
            first >= second,
            crate::arm::spec_sign(first) != crate::arm::spec_sign(second)
                && crate::arm::spec_sign(result) != crate::arm::spec_sign(first),
        ).spec_set(dest, result)
    } else {
        let sp = rs.spec_reg(RegisterNames::r13);
        rs.spec_set(RegisterNames::r13, sp.wrapping_sub(((((inst & 0x7f) as u32) * 4) as u32)))
    }
}

/// Subtraction: a low register minus a register, a 3-bit immediate or an
/// 8-bit immediate with flags, or the flag-preserving SP adjustment.
pub fn sub(emulator: &mut Emulator, instruction: u16) -> (r: u32)
    requires
        old(emulator).wf(),
    ensures
        *final(emulator) == old(emulator).spec_with_registers(
            spec_exec_thumb_sub(old(emulator).cpu.registers, instruction),
        ),
        final(emulator).wf(),
        r == 1,
{
    proof {
        lemma_thumb_field_bounds(instruction);
    }
    if (instruction >> 13) & 7 == 0 {
        let first = emulator.cpu.get_register_value(
            register_from_bits(((instruction >> 3) & 7) as u32),
        );
        let second = if (instruction >> 10) & 1 > 0 {
            ((instruction >> 6) & 7) as u32
        } else {
            emulator.cpu.get_register_value(register_from_bits(((instruction >> 6) & 7) as u32))
        };
        let dest = register_from_bits((instruction & 7) as u32);
        let result = first.wrapping_sub(second);
        emulator.cpu.set_nzcv(
            result >= 0x8000_0000,
            result == 0,
            first >= second,
            (first >= 0x8000_0000) != (second >= 0x8000_0000) && (result >= 0x8000_0000) != (first
                >= 0x8000_0000),
        );
        emulator.cpu.set_register_value(dest, result);
    } else if (instruction >> 13) & 7 == 1 {
        let dest = register_from_bits(((instruction >> 8) & 7) as u32);
        let first = emulator.cpu.get_register_value(dest);
        let second = (instruction & 0xff) as u32;
        let result = first.wrapping_sub(second);
        emulator.cpu.set_nzcv(
            result >= 0x8000_0000,
            result == 0,
            first >= second,
            (first >= 0x8000_0000) != (second >= 0x8000_0000) && (result >= 0x8000_0000) != (first
                >= 0x8000_0000),
        );
        emulator.cpu.set_register_value(dest, result);
    } else {
        let sp = emulator.cpu.get_register_value(RegisterNames::r13);
        emulator.cpu.set_register_value(
            RegisterNames::r13,
            sp.wrapping_sub(((instruction & 0x7f) as u32) * 4),
        );
    }

    1
}

/// A Thumb move: an 8-bit immediate into a low register setting N and Z,
/// or the flag-preserving hi-register form, which may land in any of the
/// sixteen registers (the program counter forced to halfword alignment).
pub open spec fn spec_exec_thumb_mov(rs: RegisterSet, inst: u16) -> RegisterSet {
    if (inst >> 13) & 7 == 1 {
        let dest = spec_register_from_bits(((inst >> 8) & 7) as u32);
        let value = (inst & 0xff) as u32;
        crate::arm::spec_set_flags(
            rs,
            crate::arm::spec_sign(value),
            value == 0,
            rs.spec_c(),
            rs.spec_v(),
        ).spec_set(dest, value)
    } else {
        let dest = spec_register_from_bits((((inst >> 7) & 1) * 8 + (inst & 7)) as u32);
        let value = rs.spec_reg(spec_register_from_bits(((inst >> 3) & 0xf) as u32));
        if dest == RegisterNames::r15 {
            rs.spec_set(dest, value & 0xffff_fffe)
        } else {
            rs.spec_set(dest, value)
        }
    }
}

/// Move an 8-bit immediate or a hi-register value into a register.
pub fn mov(emulator: &mut Emulator, instruction: u16) -> (r: u32)
    requires
        old(emulator).wf(),
    ensures
        *final(emulator) == old(emulator).spec_with_registers(
            spec_exec_thumb_mov(old(emulator).cpu.registers, instruction),
        ),
        final(emulator).wf(),
        r == 1,
{
    proof {
        lemma_thumb_field_bounds(instruction);
    }
    if (instruction >> 13) & 7 == 1 {
        let dest = register_from_bits(((instruction >> 8) & 7) as u32);
        let value = (instruction & 0xff) as u32;
        let c = emulator.cpu.get_c();
        let v = emulator.cpu.get_v();

        emulator.cpu.set_nzcv(value >= 0x8000_0000, value == 0, c, v);
        emulator.cpu.set_register_value(dest, value);
    } else {
        let dest = register_from_bits((((instruction >> 7) & 1) * 8 + (instruction & 7)) as u32);
        let value = emulator.cpu.get_register_value(
            register_from_bits(((instruction >> 3) & 0xf) as u32),
        );
        if dest == RegisterNames::r15 {
            emulator.cpu.set_register_value(dest, value & 0xffff_fffe);
        } else {
            emulator.cpu.set_register_value(dest, value);
        }
    }

    1
}

/// A Thumb compare: the flags of a subtraction, with nothing written
/// back. The operand is an 8-bit immediate, a low register, or a
/// register pair of the hi-register form.
pub open spec fn spec_exec_thumb_cmp(rs: RegisterSet, inst: u16) -> RegisterSet {
    let first = if (inst >> 13) & 7 == 1 {
        rs.spec_reg(spec_register_from_bits(((inst >> 8) & 7) as u32))
    } else if (inst >> 10) & 0x3f == 0b010000 {
        rs.spec_reg(spec_register_from_bits((inst & 7) as u32))
    } else {
        rs.spec_reg(spec_register_from_bits((((inst >> 7) & 1) * 8 + (inst & 7)) as u32))
    };
    let second = if (inst >> 13) & 7 == 1 {
        (inst & 0xff) as u32
    } else if (inst >> 10) & 0x3f == 0b010000 {
        rs.spec_reg(spec_register_from_bits(((inst >> 3) & 7) as u32))
    } else {
        rs.spec_reg(spec_register_from_bits(((inst >> 3) & 0xf) as u32))
    };
    let result = first.wrapping_sub(second);
    crate::arm::spec_set_flags(
        rs,
        crate::arm::spec_sign(result),
        result == 0,
        first >= second,
        crate::arm::spec_sign(first) != crate::arm::spec_sign(second) && crate::arm::spec_sign(
            result,
        ) != crate::arm::spec_sign(first),
    )
}

/// Compare a register against an immediate, a low register, or a
/// hi-register operand.
pub fn cmp(emulator: &mut Emulator, instruction: u16) -> (r: u32)
    requires
        old(emulator).wf(),
    ensures
        *final(emulator) == old(emulator).spec_with_registers(
            spec_exec_thumb_cmp(old(emulator).cpu.registers, instruction),
        ),
        final(emulator).wf(),
        r == 1,
{
    proof {
        lemma_thumb_field_bounds(instruction);
    }
    let first = if (instruction >> 13) & 7 == 1 {
        emulator.cpu.get_register_value(register_from_bits(((instruction >> 8) & 7) as u32))
    } else if (instruction >> 10) & 0x3f == 0b010000 {
        emulator.cpu.get_register_value(register_from_bits((instruction & 7) as u32))
    } else {
        emulator.cpu.get_register_value(
            register_from_bits((((instruction >> 7) & 1) * 8 + (instruction & 7)) as u32),
        )
    };
    let second = if (instruction >> 13) & 7 == 1 {
        (instruction & 0xff) as u32
    } else if (instruction >> 10) & 0x3f == 0b010000 {
        emulator.cpu.get_register_value(register_from_bits(((instruction >> 3) & 7) as u32))
    } else {
        emulator.cpu.get_register_value(register_from_bits(((instruction >> 3) & 0xf) as u32))
    };

    let result = first.wrapping_sub(second);

    emulator.cpu.set_nzcv(
        result >= 0x8000_0000,
        result == 0,
        first >= second,
        (first >= 0x8000_0000) != (second >= 0x8000_0000) && (result >= 0x8000_0000) != (first
            >= 0x8000_0000),
    );

    1
}

/// Branch and exchange: jump to an address held in any of the sixteen
/// registers, selecting the instruction set from its lowest bit.
pub open spec fn spec_exec_thumb_bx(rs: RegisterSet, inst: u16) -> RegisterSet {
    let target = rs.spec_reg(spec_register_from_bits(((inst >> 3) & 0xf) as u32));
    let switched = rs.spec_with_cpsr(
        if crate::bits::spec_get_bit(target, 0) {
            rs.cpsr | crate::cpu::THUMB_BIT
        } else {
            rs.cpsr & !crate::cpu::THUMB_BIT
        },
    );
    switched.spec_set(RegisterNames::r15, target & 0xffff_fffe)
}

/// Branch to a register-held address, exchanging the instruction set by
/// bit 0 of the target.
pub fn bx(emulator: &mut Emulator, instruction: u16) -> (r: u32)
    requires
        old(emulator).wf(),
    ensures
        *final(emulator) == old(emulator).spec_with_registers(
            spec_exec_thumb_bx(old(emulator).cpu.registers, instruction),
        ),
        final(emulator).wf(),
        r == 1,
{
    proof {
        lemma_thumb_field_bounds(instruction);
    }
    let target = emulator.cpu.get_register_value(
        register_from_bits(((instruction >> 3) & 0xf) as u32),
    );

    emulator.cpu.set_thumb_bit(get_bit(target, 0));
    emulator.cpu.set_register_value(RegisterNames::r15, target & 0xffff_fffe);

    1
}

/// A Thumb branch: the conditional form tests its condition code and jumps
/// by a sign-extended 8-bit offset doubled; the unconditional form jumps
/// by a sign-extended 11-bit offset doubled.
pub open spec fn spec_exec_thumb_b(rs: RegisterSet, inst: u16) -> RegisterSet {
    let pc = rs.spec_reg(RegisterNames::r15);
    if (inst >> 12) & 0xf == 0b1101 {
        let cond = spec_condition_from_bits(((inst >> 8) & 0xf) as u32);
        if rs.spec_check_condition(cond) {
            let imm = (inst & 0xff) as u32;
            let offset = if imm >= 0x80 {
                (imm << 1) | 0xffff_fe00
            } else {
                imm << 1
            };
            rs.spec_set(RegisterNames::r15, pc.wrapping_add(offset))
        } else {
            rs
        }
    } else {
        let imm = (inst & 0x7ff) as u32;
        let offset = if imm >= 0x400 {
            (imm << 1) | 0xffff_f000
        } else {
            imm << 1
        };
        rs.spec_set(RegisterNames::r15, pc.wrapping_add(offset))
    }
}

/// Branch: conditional with an 8-bit offset, or unconditional with an
/// 11-bit offset, both doubled and sign-extended.
pub fn b(emulator: &mut Emulator, instruction: u16) -> (r: u32)
    requires
        old(emulator).wf(),
    ensures
        *final(emulator) == old(emulator).spec_with_registers(
            spec_exec_thumb_b(old(emulator).cpu.registers, instruction),
        ),
        final(emulator).wf(),
        r == 1,
{
    proof {
        lemma_thumb_field_bounds(instruction);
        assert((instruction & 0x7ff) < 0x800) by (bit_vector);
    }
    let pc = emulator.cpu.get_register_value(RegisterNames::r15);

    if (instruction >> 12) & 0xf == 0b1101 {
        let cond = condition_from_bits(((instruction >> 8) & 0xf) as u32);
        if emulator.cpu.check_condition(cond) {
            let imm = (instruction & 0xff) as u32;
            let offset = if imm >= 0x80 {
                (imm << 1) | 0xffff_fe00
            } else {
                imm << 1
            };
            emulator.cpu.set_register_value(RegisterNames::r15, pc.wrapping_add(offset));
        }
    } else {
        let imm = (instruction & 0x7ff) as u32;
        let offset = if imm >= 0x400 {
            (imm << 1) | 0xffff_f000
        } else {
            imm << 1
        };
        emulator.cpu.set_register_value(RegisterNames::r15, pc.wrapping_add(offset));
    }

    1
}

/// Software interrupt: enter SVC mode through the SWI vector, as the ARM
/// form does.
pub fn swi(emulator: &mut Emulator, instruction: u16) -> (r: u32)
    requires
        old(emulator).wf(),
    ensures
        *final(emulator) == old(emulator).spec_with_registers(
            crate::arm::spec_enter_exception(
                old(emulator).cpu.registers,
                crate::cpu::OperationModes::SVC,
                0x0000_0008,
            ),
        ),
        final(emulator).wf(),
        r == 1,
{
    crate::arm::enter_exception(emulator, crate::cpu::OperationModes::SVC, 0x0000_0008);

    1
}

/// How one Thumb instruction leaves the machine: the machine steps per
/// the specification of the handler the decoder names, in one cycle.
pub open spec fn spec_process_rel(pre: Emulator, post: Emulator, inst: u16, cycles: u32) -> bool {
    cycles == 1 && match spec_decode(inst) {
        ThumbInstruction::Adc => post == pre.spec_with_registers(
            spec_exec_thumb_adc(pre.cpu.registers, inst),
        ),
        ThumbInstruction::Add => post == pre.spec_with_registers(
            spec_exec_thumb_add(pre.cpu.registers, inst),
        ),
        ThumbInstruction::And => post == pre.spec_with_registers(
            spec_exec_thumb_and(pre.cpu.registers, inst),
        ),
        ThumbInstruction::Asr => post == pre.spec_with_registers(
            spec_exec_thumb_shift(pre.cpu.registers, inst, 2),
        ),
        ThumbInstruction::B => post == pre.spec_with_registers(
            spec_exec_thumb_b(pre.cpu.registers, inst),
        ),
        ThumbInstruction::Bic => post == pre.spec_with_registers(
            spec_exec_thumb_bic(pre.cpu.registers, inst),
        ),
        ThumbInstruction::Bl => post == pre.spec_with_registers(
            spec_exec_thumb_bl(pre.cpu.registers, inst),
        ),
        ThumbInstruction::Bx => post == pre.spec_with_registers(
            spec_exec_thumb_bx(pre.cpu.registers, inst),
        ),
        ThumbInstruction::Cmn => post == pre.spec_with_registers(
            spec_exec_thumb_cmn(pre.cpu.registers, inst),
        ),
        ThumbInstruction::Cmp => post == pre.spec_with_registers(
            spec_exec_thumb_cmp(pre.cpu.registers, inst),
        ),
        ThumbInstruction::Eor => post == pre.spec_with_registers(
            spec_exec_thumb_eor(pre.cpu.registers, inst),
        ),
        ThumbInstruction::Ldmia => spec_thumb_ldmia_rel(pre, post, inst),
        ThumbInstruction::Ldr => spec_thumb_ldr_rel(pre, post, inst),
        ThumbInstruction::Ldrb => spec_thumb_ldrb_rel(pre, post, inst),
        ThumbInstruction::Ldrh => spec_thumb_ldrh_rel(pre, post, inst),
        ThumbInstruction::Ldrsb => spec_thumb_ldrsb_rel(pre, post, inst),
        ThumbInstruction::Ldrsh => spec_thumb_ldrsh_rel(pre, post, inst),
        ThumbInstruction::Lsl => post == pre.spec_with_registers(
            spec_exec_thumb_shift(pre.cpu.registers, inst, 0),
        ),
        ThumbInstruction::Lsr => post == pre.spec_with_registers(
            spec_exec_thumb_shift(pre.cpu.registers, inst, 1),
        ),
        ThumbInstruction::Mov => post == pre.spec_with_registers(
            spec_exec_thumb_mov(pre.cpu.registers, inst),
        ),
        ThumbInstruction::Mul => post == pre.spec_with_registers(
            spec_exec_thumb_mul(pre.cpu.registers, inst),
        ),
        ThumbInstruction::Mvn => post == pre.spec_with_registers(
            spec_exec_thumb_mvn(pre.cpu.registers, inst),
        ),
        ThumbInstruction::Neg => post == pre.spec_with_registers(
            spec_exec_thumb_neg(pre.cpu.registers, inst),
        ),
        ThumbInstruction::Or => post == pre.spec_with_registers(
            spec_exec_thumb_or(pre.cpu.registers, inst),
        ),
        ThumbInstruction::Pop => spec_thumb_pop_rel(pre, post, inst),
        ThumbInstruction::Push => spec_thumb_push_rel(pre, post, inst),
        ThumbInstruction::Ror => post == pre.spec_with_registers(
            spec_exec_thumb_shift(pre.cpu.registers, inst, 3),
        ),
        ThumbInstruction::Sbc => post == pre.spec_with_registers(
            spec_exec_thumb_sbc(pre.cpu.registers, inst),
        ),
        ThumbInstruction::Stmia => spec_thumb_stmia_rel(pre, post, inst),
        ThumbInstruction::Str => spec_thumb_str_rel(pre, post, inst),
        ThumbInstruction::Strb => spec_thumb_strb_rel(pre, post, inst),
        ThumbInstruction::Strh => spec_thumb_strh_rel(pre, post, inst),
        ThumbInstruction::Sub => post == pre.spec_with_registers(
            spec_exec_thumb_sub(pre.cpu.registers, inst),
        ),
        ThumbInstruction::Swi => post == pre.spec_with_registers(
            crate::arm::spec_enter_exception(
                pre.cpu.registers,
                crate::cpu::OperationModes::SVC,
                0x0000_0008,
            ),
        ),
        ThumbInstruction::Tst => post == pre.spec_with_registers(
            spec_exec_thumb_tst(pre.cpu.registers, inst),
        ),
        ThumbInstruction::Placeholder => post == pre,
    }
}

/// Decode and run one Thumb instruction, returning the cycles it used.
pub fn process_instruction(emulator: &mut Emulator, instruction: u16) -> (r: u32)
    requires
        old(emulator).wf(),
    ensures
        spec_process_rel(*old(emulator), *final(emulator), instruction, r),
        final(emulator).wf(),
        r == 1,
{
    match decode_instruction(instruction) {
        ThumbInstruction::Adc => adc(emulator, instruction),
        ThumbInstruction::Add => crate::thumb::add(emulator, instruction),
        ThumbInstruction::And => and(emulator, instruction),
        ThumbInstruction::Asr => asr(emulator, instruction),
        ThumbInstruction::B => b(emulator, instruction),
        ThumbInstruction::Bic => bic(emulator, instruction),
        ThumbInstruction::Bl => bl(emulator, instruction),
        ThumbInstruction::Bx => bx(emulator, instruction),
        ThumbInstruction::Cmn => cmn(emulator, instruction),
        ThumbInstruction::Cmp => cmp(emulator, instruction),
        ThumbInstruction::Eor => eor(emulator, instruction),
        ThumbInstruction::Ldmia => ldmia(emulator, instruction),
        ThumbInstruction::Ldr => ldr(emulator, instruction),
        ThumbInstruction::Ldrb => ldrb(emulator, instruction),
        ThumbInstruction::Ldrh => ldrh(emulator, instruction),
        ThumbInstruction::Ldrsb => ldrsb(emulator, instruction),
        ThumbInstruction::Ldrsh => ldrsh(emulator, instruction),
        ThumbInstruction::Lsl => lsl(emulator, instruction),
        ThumbInstruction::Lsr => lsr(emulator, instruction),
        ThumbInstruction::Mov => mov(emulator, instruction),
        ThumbInstruction::Mul => crate::thumb::mul(emulator, instruction),
        ThumbInstruction::Mvn => mvn(emulator, instruction),
        ThumbInstruction::Neg => neg(emulator, instruction),
        ThumbInstruction::Or => or(emulator, instruction),
        ThumbInstruction::Pop => pop(emulator, instruction),
        ThumbInstruction::Push => push(emulator, instruction),
        ThumbInstruction::Ror => ror(emulator, instruction),
        ThumbInstruction::Sbc => sbc(emulator, instruction),
        ThumbInstruction::Stmia => stmia(emulator, instruction),
        ThumbInstruction::Str => str(emulator, instruction),
        ThumbInstruction::Strb => strb(emulator, instruction),
        ThumbInstruction::Strh => strh(emulator, instruction),
        ThumbInstruction::Sub => crate::thumb::sub(emulator, instruction),
        ThumbInstruction::Swi => swi(emulator, instruction),
        ThumbInstruction::Tst => tst(emulator, instruction),
        ThumbInstruction::Placeholder => placeholder(emulator, instruction),
    }
}

/// The handler for the few encodings outside the architecture's
/// families: a one-cycle no-op.
pub fn placeholder(emulator: &mut Emulator, instruction: u16) -> (r: u32)
    ensures
        *final(emulator) == *old(emulator),
        r == 1,
{
    1
}

/// Addition of `Rs` and the carry bit into `Rd`, setting all four flags.
pub open spec fn spec_exec_thumb_adc(rs: RegisterSet, inst: u16) -> RegisterSet {
    let dest = spec_register_from_bits((inst & 7) as u32);
    let a = rs.spec_reg(dest);
    let b = rs.spec_reg(spec_register_from_bits(((inst >> 3) & 7) as u32));
    let cin: u32 = if rs.spec_c() { 1 } else { 0 };
    let result = a.wrapping_add(b).wrapping_add(cin);
    crate::arm::spec_set_flags(
        rs,
        crate::arm::spec_sign(result),
        result == 0,
        a + b + cin > 0xffff_ffff,
        crate::arm::spec_sign(a) == crate::arm::spec_sign(b) && crate::arm::spec_sign(result)
            != crate::arm::spec_sign(a),
    ).spec_set(dest, result)
}

/// Addition that includes carry: `Rd + Rs + C` into `Rd`.
pub fn adc(emulator: &mut Emulator, instruction: u16) -> (r: u32)
    requires
        old(emulator).wf(),
    ensures
        *final(emulator) == old(emulator).spec_with_registers(
            spec_exec_thumb_adc(old(emulator).cpu.registers, instruction),
        ),
        final(emulator).wf(),
        r == 1,
{
    proof {
        lemma_thumb_field_bounds(instruction);
    }
    let dest = register_from_bits((instruction & 7) as u32);
    let a = emulator.cpu.get_register_value(dest);
    let b = emulator.cpu.get_register_value(register_from_bits(((instruction >> 3) & 7) as u32));
    let cin: u32 = if emulator.cpu.get_c() {
        1
    } else {
        0
    };

    let overflow_first = b > 0xffff_ffffu32 - a;
    let partial = a.wrapping_add(b);
    let overflow_second = cin > 0xffff_ffffu32 - partial;
    let result = partial.wrapping_add(cin);

    emulator.cpu.set_nzcv(
        result >= 0x8000_0000,
        result == 0,
        overflow_first || overflow_second,
        (a >= 0x8000_0000) == (b >= 0x8000_0000) && (result >= 0x8000_0000) != (a >= 0x8000_0000),
    );
    emulator.cpu.set_register_value(dest, result);

    1
}

/// Logical AND of `Rd` and `Rs` into `Rd`, setting N and Z.
pub open spec fn spec_exec_thumb_and(rs: RegisterSet, inst: u16) -> RegisterSet {
    let dest = spec_register_from_bits((inst & 7) as u32);
    let a = rs.spec_reg(dest);
    let b = rs.spec_reg(spec_register_from_bits(((inst >> 3) & 7) as u32));
    let result = a & b;
    crate::arm::spec_set_flags(
        rs,
        crate::arm::spec_sign(result),
        result == 0,
        rs.spec_c(),
        rs.spec_v(),
    ).spec_set(dest, result)
}

/// Logical AND of `Rd` and `Rs` into `Rd`, setting N and Z.
pub fn and(emulator: &mut Emulator, instruction: u16) -> (r: u32)
    requires
        old(emulator).wf(),
    ensures
        *final(emulator) == old(emulator).spec_with_registers(
            spec_exec_thumb_and(old(emulator).cpu.registers, instruction),
        ),
        final(emulator).wf(),
        r == 1,
{
    proof {
        lemma_thumb_field_bounds(instruction);
    }
    let dest = register_from_bits((instruction & 7) as u32);
    let a = emulator.cpu.get_register_value(dest);
    let b = emulator.cpu.get_register_value(register_from_bits(((instruction >> 3) & 7) as u32));
    let c = emulator.cpu.get_c();
    let v = emulator.cpu.get_v();

    let result = a & b;

    emulator.cpu.set_nzcv(result >= 0x8000_0000, result == 0, c, v);
    emulator.cpu.set_register_value(dest, result);

    1
}

/// Bit clear: `Rd AND (NOT Rs)` into `Rd`, setting N and Z.
pub open spec fn spec_exec_thumb_bic(rs: RegisterSet, inst: u16) -> RegisterSet {
    let dest = spec_register_from_bits((inst & 7) as u32);
    let a = rs.spec_reg(dest);
    let b = rs.spec_reg(spec_register_from_bits(((inst >> 3) & 7) as u32));
    let result = a & !b;
    crate::arm::spec_set_flags(
        rs,
        crate::arm::spec_sign(result),
        result == 0,
        rs.spec_c(),
        rs.spec_v(),
    ).spec_set(dest, result)
}

/// Bit clear: `Rd AND (NOT Rs)` into `Rd`, setting N and Z.
pub fn bic(emulator: &mut Emulator, instruction: u16) -> (r: u32)
    requires
        old(emulator).wf(),
    ensures
        *final(emulator) == old(emulator).spec_with_registers(
            spec_exec_thumb_bic(old(emulator).cpu.registers, instruction),
        ),
        final(emulator).wf(),
        r == 1,
{
    proof {
        lemma_thumb_field_bounds(instruction);
    }
    let dest = register_from_bits((instruction & 7) as u32);
    let a = emulator.cpu.get_register_value(dest);
    let b = emulator.cpu.get_register_value(register_from_bits(((instruction >> 3) & 7) as u32));
    let c = emulator.cpu.get_c();
    let v = emulator.cpu.get_v();

    let result = a & !b;

    emulator.cpu.set_nzcv(result >= 0x8000_0000, result == 0, c, v);
    emulator.cpu.set_register_value(dest, result);

    1
}

/// The long branch-with-link pair. The first halfword plants the
/// sign-extended high part of the offset in the link register; the second
/// adds the low part, branches there, and leaves the return address - the
/// halfword after the pair, with bit 0 set - in the link register.
pub open spec fn spec_exec_thumb_bl(rs: RegisterSet, inst: u16) -> RegisterSet {
    if (inst >> 11) & 0x1f == 0b11110 {
        let imm = (inst & 0x7ff) as u32;
        let offset = if imm >= 0x400 {
            (imm << 12) | 0xff80_0000
        } else {
            imm << 12
        };
        rs.spec_set(RegisterNames::r14, rs.spec_reg(RegisterNames::r15).wrapping_add(offset))
    } else {
        let target = rs.spec_reg(RegisterNames::r14).wrapping_add(((inst & 0x7ff) as u32) << 1);
        let linked = rs.spec_set(RegisterNames::r14, rs.spec_reg(RegisterNames::r15) | 1);
        linked.spec_set(RegisterNames::r15, target)
    }
}

/// One half of the long branch-with-link pair.
pub fn bl(emulator: &mut Emulator, instruction: u16) -> (r: u32)
    requires
        old(emulator).wf(),
    ensures
        *final(emulator) == old(emulator).spec_with_registers(
            spec_exec_thumb_bl(old(emulator).cpu.registers, instruction),
        ),
        final(emulator).wf(),
        r == 1,
{
    proof {
        lemma_thumb_field_bounds(instruction);
    }
    if (instruction >> 11) & 0x1f == 0b11110 {
        let imm = (instruction & 0x7ff) as u32;
        let offset = if imm >= 0x400 {
            (imm << 12) | 0xff80_0000
        } else {
            imm << 12
        };
        let pc = emulator.cpu.get_register_value(RegisterNames::r15);
        emulator.cpu.set_register_value(RegisterNames::r14, pc.wrapping_add(offset));
    } else {
        let target = emulator.cpu.get_register_value(RegisterNames::r14).wrapping_add(
            ((instruction & 0x7ff) as u32) << 1,
        );
        let pc = emulator.cpu.get_register_value(RegisterNames::r15);
        emulator.cpu.set_register_value(RegisterNames::r14, pc | 1);
        emulator.cpu.set_register_value(RegisterNames::r15, target);
    }

    1
}

/// Compare negative: the flags of `Rd + Rs`, with nothing written back.
pub open spec fn spec_exec_thumb_cmn(rs: RegisterSet, inst: u16) -> RegisterSet {
    let a = rs.spec_reg(spec_register_from_bits((inst & 7) as u32));
    let b = rs.spec_reg(spec_register_from_bits(((inst >> 3) & 7) as u32));
    let result = a.wrapping_add(b);
    crate::arm::spec_set_flags(
        rs,
        crate::arm::spec_sign(result),
        result == 0,
        a + b > 0xffff_ffff,
        crate::arm::spec_sign(a) == crate::arm::spec_sign(b) && crate::arm::spec_sign(result)
            != crate::arm::spec_sign(a),
    )
}

/// Compare negative: set the flags of an addition, discarding the result.
pub fn cmn(emulator: &mut Emulator, instruction: u16) -> (r: u32)
    requires
        old(emulator).wf(),
    ensures
        *final(emulator) == old(emulator).spec_with_registers(
            spec_exec_thumb_cmn(old(emulator).cpu.registers, instruction),
        ),
        final(emulator).wf(),
        r == 1,
{
    proof {
        lemma_thumb_field_bounds(instruction);
    }
    let a = emulator.cpu.get_register_value(register_from_bits((instruction & 7) as u32));
    let b = emulator.cpu.get_register_value(register_from_bits(((instruction >> 3) & 7) as u32));

    let result = a.wrapping_add(b);

    emulator.cpu.set_nzcv(
        result >= 0x8000_0000,
        result == 0,
        b > 0xffff_ffffu32 - a,
        (a >= 0x8000_0000) == (b >= 0x8000_0000) && (result >= 0x8000_0000) != (a >= 0x8000_0000),
    );

    1
}

/// Logical exclusive OR of `Rd` and `Rs` into `Rd`, setting N and Z.
pub open spec fn spec_exec_thumb_eor(rs: RegisterSet, inst: u16) -> RegisterSet {
    let dest = spec_register_from_bits((inst & 7) as u32);
    let a = rs.spec_reg(dest);
    let b = rs.spec_reg(spec_register_from_bits(((inst >> 3) & 7) as u32));
    let result = a ^ b;
    crate::arm::spec_set_flags(
        rs,
        crate::arm::spec_sign(result),
        result == 0,
        rs.spec_c(),
        rs.spec_v(),
    ).spec_set(dest, result)
}

/// Logical exclusive OR of `Rd` and `Rs` into `Rd`, setting N and Z.
pub fn eor(emulator: &mut Emulator, instruction: u16) -> (r: u32)
    requires
        old(emulator).wf(),
    ensures
        *final(emulator) == old(emulator).spec_with_registers(
            spec_exec_thumb_eor(old(emulator).cpu.registers, instruction),
        ),
        final(emulator).wf(),
        r == 1,
{
    proof {
        lemma_thumb_field_bounds(instruction);
    }
    let dest = register_from_bits((instruction & 7) as u32);
    let a = emulator.cpu.get_register_value(dest);
    let b = emulator.cpu.get_register_value(register_from_bits(((instruction >> 3) & 7) as u32));
    let c = emulator.cpu.get_c();
    let v = emulator.cpu.get_v();

    let result = a ^ b;

    emulator.cpu.set_nzcv(result >= 0x8000_0000, result == 0, c, v);
    emulator.cpu.set_register_value(dest, result);

    1
}

/// The register file after the first `n` list positions of a Thumb
/// load-multiple: each selected low register takes the word at its slot,
/// read from the memory as it was before the instruction.
pub open spec fn spec_thumb_ldmia_regs(pre: Emulator, inst: u16, n: int) -> RegisterSet
    decreases n,
{
    if n <= 0 {
        pre.cpu.registers
    } else {
        let rs = spec_thumb_ldmia_regs(pre, inst, n - 1);
        if crate::bits::spec_get_bit(inst as u32, (n - 1) as u32) {
            rs.spec_set(
                spec_register_from_bits((n - 1) as u32),
                crate::memory::spec_read_word(
                    pre.memory@,
                    spec_thumb_block_addr(pre.cpu.registers, inst, n - 1) & 0xffff_fffc,
                ),
            )
        } else {
            rs
        }
    }
}

/// How a Thumb load-multiple leaves the machine: the selected low
/// registers loaded from ascending slots, then the base moved over the
/// span (so on a base that is also in the list, the writeback value
/// wins).
pub open spec fn spec_thumb_ldmia_rel(pre: Emulator, post: Emulator, inst: u16) -> bool {
    let rs = pre.cpu.registers;
    let base_name = spec_register_from_bits(((inst >> 8) & 7) as u32);
    post == pre.spec_with_registers(
        spec_thumb_ldmia_regs(pre, inst, 8).spec_set(
            base_name,
            rs.spec_reg(base_name).wrapping_add(
                (4 * crate::arm::spec_reg_count(inst as u32, 8)) as u32,
            ),
        ),
    )
}

/// Load multiple low registers ascending from the base register, with
/// writeback.
pub fn ldmia(emulator: &mut Emulator, instruction: u16) -> (r: u32)
    requires
        old(emulator).wf(),
    ensures
        spec_thumb_ldmia_rel(*old(emulator), *final(emulator), instruction),
        final(emulator).wf(),
        r == 1,
{
    proof {
        lemma_thumb_field_bounds(instruction);
    }
    let ghost pre = *emulator;
    let base_register = register_from_bits(((instruction >> 8) & 7) as u32);
    let base = emulator.cpu.get_register_value(base_register);

    let count = count_block_registers(instruction, 8);

    let mut loaded: u32 = 0;
    let mut i: u32 = 0;
    while i < 8
        invariant
            i <= 8,
            loaded <= i,
            loaded as int == crate::arm::spec_reg_count(instruction as u32, i as int),
            *emulator == pre.spec_with_registers(emulator.cpu.registers),
            emulator.cpu.registers == spec_thumb_ldmia_regs(pre, instruction, i as int),
            emulator.wf(),
            base == pre.cpu.registers.spec_reg(
                spec_register_from_bits(((instruction >> 8) & 7) as u32),
            ),
        decreases 8 - i,
    {
        if crate::bits::get_bit(instruction as u32, i) {
            let address = base.wrapping_add(4 * loaded);
            proof {
                assert((address & 0xffff_fffcu32) % 4 == 0) by (bit_vector);
            }
            let value = crate::arm::read_word(emulator, address & 0xffff_fffc);
            emulator.cpu.set_register_value(register_from_bits(i), value);
            loaded += 1;
        }
        i += 1;
    }

    emulator.cpu.set_register_value(base_register, base.wrapping_add(4 * count));

    1
}

/// The effective address of a Thumb word load: PC-relative with a scaled
/// 8-bit immediate, a register plus register offset, a register plus a
/// scaled 5-bit immediate, or SP-relative with a scaled 8-bit immediate.
pub open spec fn spec_thumb_ldr_addr(rs: RegisterSet, inst: u16) -> u32 {
    if (inst >> 11) & 0x1f == 0b01001 {
        (rs.spec_reg(RegisterNames::r15) & 0xffff_fffc).wrapping_add(
            ((((inst & 0xff) as u32) * 4) as u32),
        )
    } else if (inst >> 12) & 0xf == 0b0101 {
        rs.spec_reg(spec_register_from_bits(((inst >> 3) & 7) as u32)).wrapping_add(
            rs.spec_reg(spec_register_from_bits(((inst >> 6) & 7) as u32)),
        )
    } else if (inst >> 13) & 7 == 0b011 {
        rs.spec_reg(spec_register_from_bits(((inst >> 3) & 7) as u32)).wrapping_add(
            ((((inst >> 6) & 0x1f) as u32) * 4) as u32,
        )
    } else {
        rs.spec_reg(RegisterNames::r13).wrapping_add(((((inst & 0xff) as u32) * 4) as u32))
    }
}

/// The destination of a Thumb word load: bits 10..8 for the PC- and
/// SP-relative forms, the low three bits otherwise.
pub open spec fn spec_thumb_ldr_dest(inst: u16) -> RegisterNames {
    if (inst >> 11) & 0x1f == 0b01001 || (inst >> 12) & 0xf == 0b1001 {
        spec_register_from_bits(((inst >> 8) & 7) as u32)
    } else {
        spec_register_from_bits((inst & 7) as u32)
    }
}

/// How a Thumb word load leaves the machine: the word at the effective
/// address lands in the destination, with the rotation of a misaligned
/// load.
pub open spec fn spec_thumb_ldr_rel(pre: Emulator, post: Emulator, inst: u16) -> bool {
    post == pre.spec_with_registers(
        crate::arm::spec_load_register(pre, spec_thumb_ldr_dest(inst), spec_thumb_ldr_addr(
            pre.cpu.registers,
            inst,
        )),
    )
}

/// Load a word: PC-relative, register offset, immediate offset, or
/// SP-relative.
pub fn ldr(emulator: &mut Emulator, instruction: u16) -> (r: u32)
    requires
        old(emulator).wf(),
    ensures
        spec_thumb_ldr_rel(*old(emulator), *final(emulator), instruction),
        final(emulator).wf(),
        r == 1,
{
    proof {
        lemma_thumb_field_bounds(instruction);
    }
    let address = if (instruction >> 11) & 0x1f == 0b01001 {
        (emulator.cpu.get_register_value(RegisterNames::r15) & 0xffff_fffc).wrapping_add(
            ((instruction & 0xff) as u32) * 4,
        )
    } else if (instruction >> 12) & 0xf == 0b0101 {
        emulator.cpu.get_register_value(
            register_from_bits(((instruction >> 3) & 7) as u32),
        ).wrapping_add(
            emulator.cpu.get_register_value(register_from_bits(((instruction >> 6) & 7) as u32)),
        )
    } else if (instruction >> 13) & 7 == 0b011 {
        emulator.cpu.get_register_value(
            register_from_bits(((instruction >> 3) & 7) as u32),
        ).wrapping_add((((instruction >> 6) & 0x1f) as u32) * 4)
    } else {
        emulator.cpu.get_register_value(RegisterNames::r13).wrapping_add(
            ((instruction & 0xff) as u32) * 4,
        )
    };
    let dest = if (instruction >> 11) & 0x1f == 0b01001 || (instruction >> 12) & 0xf == 0b1001 {
        register_from_bits(((instruction >> 8) & 7) as u32)
    } else {
        register_from_bits((instruction & 7) as u32)
    };

    crate::arm::load_register(emulator, dest, address);

    1
}

/// The effective address of a Thumb byte transfer: a register plus
/// register offset, or a register plus an unscaled 5-bit immediate.
pub open spec fn spec_thumb_byte_addr(rs: RegisterSet, inst: u16) -> u32 {
    if (inst >> 12) & 0xf == 0b0101 {
        rs.spec_reg(spec_register_from_bits(((inst >> 3) & 7) as u32)).wrapping_add(
            rs.spec_reg(spec_register_from_bits(((inst >> 6) & 7) as u32)),
        )
    } else {
        rs.spec_reg(spec_register_from_bits(((inst >> 3) & 7) as u32)).wrapping_add(
            (((inst >> 6) & 0x1f) as u32),
        )
    }
}

/// How a Thumb byte load leaves the machine: the byte at the effective
/// address, zero-extended, lands in the low destination register.
pub open spec fn spec_thumb_ldrb_rel(pre: Emulator, post: Emulator, inst: u16) -> bool {
    let dest = spec_register_from_bits((inst & 7) as u32);
    let value = crate::memory::spec_read_byte(
        pre.memory@,
        spec_thumb_byte_addr(pre.cpu.registers, inst),
    ) as u32;
    post == pre.spec_with_registers(pre.cpu.registers.spec_set(dest, value))
}

/// Load a zero-extended byte: register offset or immediate offset.
pub fn ldrb(emulator: &mut Emulator, instruction: u16) -> (r: u32)
    requires
        old(emulator).wf(),
    ensures
        spec_thumb_ldrb_rel(*old(emulator), *final(emulator), instruction),
        final(emulator).wf(),
        r == 1,
{
    proof {
        lemma_thumb_field_bounds(instruction);
    }
    let address = thumb_byte_address(emulator, instruction);
    let dest = register_from_bits((instruction & 7) as u32);

    let value = crate::arm::read_byte(emulator, address) as u32;
    emulator.cpu.set_register_value(dest, value);

    1
}

/// Compute the effective address of a Thumb byte transfer.
fn thumb_byte_address(emulator: &Emulator, instruction: u16) -> (r: u32)
    requires
        emulator.wf(),
    ensures
        r == spec_thumb_byte_addr(emulator.cpu.registers, instruction),
{
    proof {
        lemma_thumb_field_bounds(instruction);
    }
    if (instruction >> 12) & 0xf == 0b0101 {
        emulator.cpu.get_register_value(
            register_from_bits(((instruction >> 3) & 7) as u32),
        ).wrapping_add(
            emulator.cpu.get_register_value(register_from_bits(((instruction >> 6) & 7) as u32)),
        )
    } else {
        emulator.cpu.get_register_value(
            register_from_bits(((instruction >> 3) & 7) as u32),
        ).wrapping_add(((instruction >> 6) & 0x1f) as u32)
    }
}

/// The effective address of a Thumb halfword transfer: a register plus
/// register offset, or a register plus a 5-bit immediate scaled by two.
pub open spec fn spec_thumb_half_addr(rs: RegisterSet, inst: u16) -> u32 {
    if (inst >> 12) & 0xf == 0b0101 {
        rs.spec_reg(spec_register_from_bits(((inst >> 3) & 7) as u32)).wrapping_add(
            rs.spec_reg(spec_register_from_bits(((inst >> 6) & 7) as u32)),
        )
    } else {
        rs.spec_reg(spec_register_from_bits(((inst >> 3) & 7) as u32)).wrapping_add(
            ((((inst >> 6) & 0x1f) as u32) * 2) as u32,
        )
    }
}

/// How a Thumb halfword load leaves the machine: the halfword at the
/// even-aligned effective address, zero-extended, lands in the low
/// destination register.
pub open spec fn spec_thumb_ldrh_rel(pre: Emulator, post: Emulator, inst: u16) -> bool {
    let dest = spec_register_from_bits((inst & 7) as u32);
    let value = crate::memory::spec_read_half(
        pre.memory@,
        spec_thumb_half_addr(pre.cpu.registers, inst) & 0xffff_fffe,
    ) as u32;
    post == pre.spec_with_registers(pre.cpu.registers.spec_set(dest, value))
}

/// Load a zero-extended halfword: register offset or immediate offset.
pub fn ldrh(emulator: &mut Emulator, instruction: u16) -> (r: u32)
    requires
        old(emulator).wf(),
    ensures
        spec_thumb_ldrh_rel(*old(emulator), *final(emulator), instruction),
        final(emulator).wf(),
        r == 1,
{
    proof {
        lemma_thumb_field_bounds(instruction);
    }
    let address = thumb_half_address(emulator, instruction);
    let dest = register_from_bits((instruction & 7) as u32);

    proof {
        assert((address & 0xffff_fffeu32) % 2 == 0) by (bit_vector);
    }
    let value = crate::arm::read_half_word(emulator, address & 0xffff_fffe) as u32;
    emulator.cpu.set_register_value(dest, value);

    1
}

/// Compute the effective address of a Thumb halfword transfer.
fn thumb_half_address(emulator: &Emulator, instruction: u16) -> (r: u32)
    requires
        emulator.wf(),
    ensures
        r == spec_thumb_half_addr(emulator.cpu.registers, instruction),
{
    proof {
        lemma_thumb_field_bounds(instruction);
    }
    if (instruction >> 12) & 0xf == 0b0101 {
        emulator.cpu.get_register_value(
            register_from_bits(((instruction >> 3) & 7) as u32),
        ).wrapping_add(
            emulator.cpu.get_register_value(register_from_bits(((instruction >> 6) & 7) as u32)),
        )
    } else {
        emulator.cpu.get_register_value(
            register_from_bits(((instruction >> 3) & 7) as u32),
        ).wrapping_add((((instruction >> 6) & 0x1f) as u32) * 2)
    }
}

/// How a Thumb signed byte load leaves the machine: the byte at the
/// register-plus-register address, sign-extended, lands in the low
/// destination register.
pub open spec fn spec_thumb_ldrsb_rel(pre: Emulator, post: Emulator, inst: u16) -> bool {
    let dest = spec_register_from_bits((inst & 7) as u32);
    let byte = crate::memory::spec_read_byte(
        pre.memory@,
        spec_thumb_byte_addr(pre.cpu.registers, inst),
    );
    let value: u32 = if byte >= 0x80 {
        (byte as u32) | 0xffff_ff00
    } else {
        byte as u32
    };
    post == pre.spec_with_registers(pre.cpu.registers.spec_set(dest, value))
}

/// Load a sign-extended byte with a register offset.
pub fn ldrsb(emulator: &mut Emulator, instruction: u16) -> (r: u32)
    requires
        old(emulator).wf(),
    ensures
        spec_thumb_ldrsb_rel(*old(emulator), *final(emulator), instruction),
        final(emulator).wf(),
        r == 1,
{
    proof {
        lemma_thumb_field_bounds(instruction);
    }
    let address = thumb_byte_address(emulator, instruction);
    let dest = register_from_bits((instruction & 7) as u32);

    let byte = crate::arm::read_byte(emulator, address);
    let value: u32 = if byte >= 0x80 {
        (byte as u32) | 0xffff_ff00
    } else {
        byte as u32
    };
    emulator.cpu.set_register_value(dest, value);

    1
}

/// How a Thumb signed halfword load leaves the machine: the halfword at
/// the even-aligned register-plus-register address, sign-extended, lands
/// in the low destination register.
pub open spec fn spec_thumb_ldrsh_rel(pre: Emulator, post: Emulator, inst: u16) -> bool {
    let dest = spec_register_from_bits((inst & 7) as u32);
    let half = crate::memory::spec_read_half(
        pre.memory@,
        spec_thumb_half_addr(pre.cpu.registers, inst) & 0xffff_fffe,
    );
    let value: u32 = if half >= 0x8000 {
        (half as u32) | 0xffff_0000
    } else {
        half as u32
    };
    post == pre.spec_with_registers(pre.cpu.registers.spec_set(dest, value))
}

/// Load a sign-extended halfword with a register offset.
pub fn ldrsh(emulator: &mut Emulator, instruction: u16) -> (r: u32)
    requires
        old(emulator).wf(),
    ensures
        spec_thumb_ldrsh_rel(*old(emulator), *final(emulator), instruction),
        final(emulator).wf(),
        r == 1,
{
    proof {
        lemma_thumb_field_bounds(instruction);
    }
    let address = thumb_half_address(emulator, instruction);
    let dest = register_from_bits((instruction & 7) as u32);

    proof {
        assert((address & 0xffff_fffeu32) % 2 == 0) by (bit_vector);
    }
    let half = crate::arm::read_half_word(emulator, address & 0xffff_fffe);
    let value: u32 = if half >= 0x8000 {
        (half as u32) | 0xffff_0000
    } else {
        half as u32
    };
    emulator.cpu.set_register_value(dest, value);

    1
}

/// Multiply: `Rd * Rs` into `Rd`, setting N and Z; C and V are
/// architecturally unpredictable and this core leaves them unchanged.
pub open spec fn spec_exec_thumb_mul(rs: RegisterSet, inst: u16) -> RegisterSet {
    let dest = spec_register_from_bits((inst & 7) as u32);
    let a = rs.spec_reg(dest);
    let b = rs.spec_reg(spec_register_from_bits(((inst >> 3) & 7) as u32));
    let result = a.wrapping_mul(b);
    crate::arm::spec_set_flags(
        rs,
        crate::arm::spec_sign(result),
        result == 0,
        rs.spec_c(),
        rs.spec_v(),
    ).spec_set(dest, result)
}

/// Multiply `Rd` by `Rs`.
pub fn mul(emulator: &mut Emulator, instruction: u16) -> (r: u32)
    requires
        old(emulator).wf(),
    ensures
        *final(emulator) == old(emulator).spec_with_registers(
            spec_exec_thumb_mul(old(emulator).cpu.registers, instruction),
        ),
        final(emulator).wf(),
        r == 1,
{
    proof {
        lemma_thumb_field_bounds(instruction);
    }
    let dest = register_from_bits((instruction & 7) as u32);
    let a = emulator.cpu.get_register_value(dest);
    let b = emulator.cpu.get_register_value(register_from_bits(((instruction >> 3) & 7) as u32));
    let c = emulator.cpu.get_c();
    let v = emulator.cpu.get_v();

    let result = a.wrapping_mul(b);

    emulator.cpu.set_nzcv(result >= 0x8000_0000, result == 0, c, v);
    emulator.cpu.set_register_value(dest, result);

    1
}

/// Move the bitwise complement of `Rs` into `Rd`, setting N and Z.
pub open spec fn spec_exec_thumb_mvn(rs: RegisterSet, inst: u16) -> RegisterSet {
    let dest = spec_register_from_bits((inst & 7) as u32);
    let b = rs.spec_reg(spec_register_from_bits(((inst >> 3) & 7) as u32));
    let result = !b;
    crate::arm::spec_set_flags(
        rs,
        crate::arm::spec_sign(result),
        result == 0,
        rs.spec_c(),
        rs.spec_v(),
    ).spec_set(dest, result)
}

/// Move the bitwise complement of `Rs` into `Rd`, setting N and Z.
pub fn mvn(emulator: &mut Emulator, instruction: u16) -> (r: u32)
    requires
        old(emulator).wf(),
    ensures
        *final(emulator) == old(emulator).spec_with_registers(
            spec_exec_thumb_mvn(old(emulator).cpu.registers, instruction),
        ),
        final(emulator).wf(),
        r == 1,
{
    proof {
        lemma_thumb_field_bounds(instruction);
    }
    let dest = register_from_bits((instruction & 7) as u32);
    let b = emulator.cpu.get_register_value(register_from_bits(((instruction >> 3) & 7) as u32));
    let c = emulator.cpu.get_c();
    let v = emulator.cpu.get_v();

    let result = !b;

    emulator.cpu.set_nzcv(result >= 0x8000_0000, result == 0, c, v);
    emulator.cpu.set_register_value(dest, result);

    1
}

/// Negate: `0 - Rs` into `Rd`, setting all four flags.
pub open spec fn spec_exec_thumb_neg(rs: RegisterSet, inst: u16) -> RegisterSet {
    let dest = spec_register_from_bits((inst & 7) as u32);
    let b = rs.spec_reg(spec_register_from_bits(((inst >> 3) & 7) as u32));
    let result = (0u32).wrapping_sub(b);
    crate::arm::spec_set_flags(
        rs,
        crate::arm::spec_sign(result),
        result == 0,
        0 >= b,
        crate::arm::spec_sign(0u32) != crate::arm::spec_sign(b) && crate::arm::spec_sign(result)
            != crate::arm::spec_sign(0u32),
    ).spec_set(dest, result)
}

/// Negate `Rs` into `Rd`.
pub fn neg(emulator: &mut Emulator, instruction: u16) -> (r: u32)
    requires
        old(emulator).wf(),
    ensures
        *final(emulator) == old(emulator).spec_with_registers(
            spec_exec_thumb_neg(old(emulator).cpu.registers, instruction),
        ),
        final(emulator).wf(),
        r == 1,
{
    proof {
        lemma_thumb_field_bounds(instruction);
    }
    let dest = register_from_bits((instruction & 7) as u32);
    let b = emulator.cpu.get_register_value(register_from_bits(((instruction >> 3) & 7) as u32));
    let first: u32 = 0;

    let result = first.wrapping_sub(b);

    emulator.cpu.set_nzcv(
        result >= 0x8000_0000,
        result == 0,
        first >= b,
        (first >= 0x8000_0000) != (b >= 0x8000_0000) && (result >= 0x8000_0000) != (first
            >= 0x8000_0000),
    );
    emulator.cpu.set_register_value(dest, result);

    1
}

/// Logical OR (the orr mnemonic) of `Rd` and `Rs` into `Rd`, setting N and Z.
pub open spec fn spec_exec_thumb_or(rs: RegisterSet, inst: u16) -> RegisterSet {
    let dest = spec_register_from_bits((inst & 7) as u32);
    let a = rs.spec_reg(dest);
    let b = rs.spec_reg(spec_register_from_bits(((inst >> 3) & 7) as u32));
    let result = a | b;
    crate::arm::spec_set_flags(
        rs,
        crate::arm::spec_sign(result),
        result == 0,
        rs.spec_c(),
        rs.spec_v(),
    ).spec_set(dest, result)
}

/// Logical OR (the orr mnemonic) of `Rd` and `Rs` into `Rd`, setting N and Z.
pub fn or(emulator: &mut Emulator, instruction: u16) -> (r: u32)
    requires
        old(emulator).wf(),
    ensures
        *final(emulator) == old(emulator).spec_with_registers(
            spec_exec_thumb_or(old(emulator).cpu.registers, instruction),
        ),
        final(emulator).wf(),
        r == 1,
{
    proof {
        lemma_thumb_field_bounds(instruction);
    }
    let dest = register_from_bits((instruction & 7) as u32);
    let a = emulator.cpu.get_register_value(dest);
    let b = emulator.cpu.get_register_value(register_from_bits(((instruction >> 3) & 7) as u32));
    let c = emulator.cpu.get_c();
    let v = emulator.cpu.get_v();

    let result = a | b;

    emulator.cpu.set_nzcv(result >= 0x8000_0000, result == 0, c, v);
    emulator.cpu.set_register_value(dest, result);

    1
}

/// The slot of list position `i` of a pop: ascending word steps from the
/// stack pointer, with position 8 standing for the program counter.
pub open spec fn spec_thumb_pop_addr(rs: RegisterSet, inst: u16, i: int) -> u32 {
    rs.spec_reg(RegisterNames::r13).wrapping_add(
        (4 * crate::arm::spec_reg_count(inst as u32, i)) as u32,
    )
}

/// The register file after the first `n` list positions of a pop: each
/// selected low register - and the program counter, forced to halfword
/// alignment, for position 8 - takes the word at its slot.
pub open spec fn spec_thumb_pop_regs(pre: Emulator, inst: u16, n: int) -> RegisterSet
    decreases n,
{
    if n <= 0 {
        pre.cpu.registers
    } else {
        let rs = spec_thumb_pop_regs(pre, inst, n - 1);
        if crate::bits::spec_get_bit(inst as u32, (n - 1) as u32) {
            let value = crate::memory::spec_read_word(
                pre.memory@,
                spec_thumb_pop_addr(pre.cpu.registers, inst, n - 1) & 0xffff_fffc,
            );
            if n - 1 == 8 {
                rs.spec_set(RegisterNames::r15, value & 0xffff_fffe)
            } else {
                rs.spec_set(spec_register_from_bits((n - 1) as u32), value)
            }
        } else {
            rs
        }
    }
}

/// How a pop leaves the machine: the selected low registers, and the
/// program counter when its bit is set, loaded from the stack, which
/// moves up over the span.
pub open spec fn spec_thumb_pop_rel(pre: Emulator, post: Emulator, inst: u16) -> bool {
    let rs = pre.cpu.registers;
    post == pre.spec_with_registers(
        spec_thumb_pop_regs(pre, inst, 9).spec_set(
            RegisterNames::r13,
            rs.spec_reg(RegisterNames::r13).wrapping_add(
                (4 * crate::arm::spec_reg_count(inst as u32, 9)) as u32,
            ),
        ),
    )
}

/// Pop the selected low registers, and the program counter when asked,
/// off the stack.
pub fn pop(emulator: &mut Emulator, instruction: u16) -> (r: u32)
    requires
        old(emulator).wf(),
    ensures
        spec_thumb_pop_rel(*old(emulator), *final(emulator), instruction),
        final(emulator).wf(),
        r == 1,
{
    proof {
        lemma_thumb_field_bounds(instruction);
    }
    let ghost pre = *emulator;
    let sp = emulator.cpu.get_register_value(RegisterNames::r13);

    let count = count_block_registers(instruction, 9);

    let mut loaded: u32 = 0;
    let mut i: u32 = 0;
    while i < 9
        invariant
            i <= 9,
            loaded <= i,
            loaded as int == crate::arm::spec_reg_count(instruction as u32, i as int),
            *emulator == pre.spec_with_registers(emulator.cpu.registers),
            emulator.cpu.registers == spec_thumb_pop_regs(pre, instruction, i as int),
            emulator.wf(),
            sp == pre.cpu.registers.spec_reg(RegisterNames::r13),
        decreases 9 - i,
    {
        if crate::bits::get_bit(instruction as u32, i) {
            let address = sp.wrapping_add(4 * loaded);
            proof {
                assert((address & 0xffff_fffcu32) % 4 == 0) by (bit_vector);
            }
            let value = crate::arm::read_word(emulator, address & 0xffff_fffc);
            if i == 8 {
                emulator.cpu.set_register_value(RegisterNames::r15, value & 0xffff_fffe);
            } else {
                emulator.cpu.set_register_value(register_from_bits(i), value);
            }
            loaded += 1;
        }
        i += 1;
    }

    emulator.cpu.set_register_value(RegisterNames::r13, sp.wrapping_add(4 * count));

    1
}

/// The slot of list position `i` of a push: ascending word steps from
/// the lowered stack pointer, with position 8 standing for the link
/// register.
pub open spec fn spec_thumb_push_addr(rs: RegisterSet, inst: u16, i: int) -> u32 {
    rs.spec_reg(RegisterNames::r13).wrapping_sub(
        (4 * crate::arm::spec_reg_count(inst as u32, 9)) as u32,
    ).wrapping_add((4 * crate::arm::spec_reg_count(inst as u32, i)) as u32)
}

/// The memory after the first `n` list positions of a push: each
/// selected low register - and the link register for position 8 - lands
/// at its word-aligned slot.
pub open spec fn spec_thumb_push_mem(pre: Emulator, inst: u16, n: int) -> crate::memory::MemView
    decreases n,
{
    if n <= 0 {
        pre.memory@
    } else {
        let m = spec_thumb_push_mem(pre, inst, n - 1);
        if crate::bits::spec_get_bit(inst as u32, (n - 1) as u32) {
            let value = if n - 1 == 8 {
                pre.cpu.registers.spec_reg(RegisterNames::r14)
            } else {
                pre.cpu.registers.spec_reg(spec_register_from_bits((n - 1) as u32))
            };
            crate::memory::spec_write_word(
                m,
                spec_thumb_push_addr(pre.cpu.registers, inst, n - 1) & 0xffff_fffc,
                value,
            )
        } else {
            m
        }
    }
}

/// How a push leaves the machine: the selected low registers, and the
/// link register when its bit is set, stored below the stack pointer,
/// which moves down over the span.
pub open spec fn spec_thumb_push_rel(pre: Emulator, post: Emulator, inst: u16) -> bool {
    let rs = pre.cpu.registers;
    post.memory@ == spec_thumb_push_mem(pre, inst, 9) && post.cpu.registers == rs.spec_set(
        RegisterNames::r13,
        rs.spec_reg(RegisterNames::r13).wrapping_sub(
            (4 * crate::arm::spec_reg_count(inst as u32, 9)) as u32,
        ),
    ) && post.cpu.halt == pre.cpu.halt && post.remaining_cycles == pre.remaining_cycles
}

/// Push the selected low registers, and the link register when asked,
/// onto the stack.
pub fn push(emulator: &mut Emulator, instruction: u16) -> (r: u32)
    requires
        old(emulator).wf(),
    ensures
        spec_thumb_push_rel(*old(emulator), *final(emulator), instruction),
        final(emulator).wf(),
        r == 1,
{
    proof {
        lemma_thumb_field_bounds(instruction);
    }
    let ghost pre = *emulator;
    let sp = emulator.cpu.get_register_value(RegisterNames::r13);

    let count = count_block_registers(instruction, 9);
    let start = sp.wrapping_sub(4 * count);

    let mut stored: u32 = 0;
    let mut i: u32 = 0;
    while i < 9
        invariant
            i <= 9,
            stored <= i,
            stored as int == crate::arm::spec_reg_count(instruction as u32, i as int),
            emulator.cpu == pre.cpu,
            emulator.remaining_cycles == pre.remaining_cycles,
            emulator.memory@ == spec_thumb_push_mem(pre, instruction, i as int),
            emulator.wf(),
            sp == pre.cpu.registers.spec_reg(RegisterNames::r13),
            start == spec_thumb_push_addr(pre.cpu.registers, instruction, 0),
        decreases 9 - i,
    {
        if crate::bits::get_bit(instruction as u32, i) {
            let address = start.wrapping_add(4 * stored);
            proof {
                assert((address & 0xffff_fffcu32) % 4 == 0) by (bit_vector);
            }
            let value = if i == 8 {
                emulator.cpu.get_register_value(RegisterNames::r14)
            } else {
                emulator.cpu.get_register_value(register_from_bits(i))
            };
            crate::arm::write_word(emulator, address & 0xffff_fffc, value);
            stored += 1;
        }
        i += 1;
    }

    emulator.cpu.set_register_value(RegisterNames::r13, start);

    1
}

/// Rotate `Rd` right by the low byte of `Rs`, setting N, Z and C.
pub fn ror(emulator: &mut Emulator, instruction: u16) -> (r: u32)
    requires
        old(emulator).wf(),
    ensures
        *final(emulator) == old(emulator).spec_with_registers(
            spec_exec_thumb_shift(old(emulator).cpu.registers, instruction, 3),
        ),
        final(emulator).wf(),
        r == 1,
{
    shift_into(emulator, instruction, 3)
}

/// Subtraction with carry: `Rd - Rs - NOT C` into `Rd`, setting all four
/// flags.
pub open spec fn spec_exec_thumb_sbc(rs: RegisterSet, inst: u16) -> RegisterSet {
    let dest = spec_register_from_bits((inst & 7) as u32);
    let a = rs.spec_reg(dest);
    let b = rs.spec_reg(spec_register_from_bits(((inst >> 3) & 7) as u32));
    let borrow: u32 = if rs.spec_c() { 0 } else { 1 };
    let result = a.wrapping_sub(b).wrapping_sub(borrow);
    crate::arm::spec_set_flags(
        rs,
        crate::arm::spec_sign(result),
        result == 0,
        a >= b + borrow,
        crate::arm::spec_sign(a) != crate::arm::spec_sign(b) && crate::arm::spec_sign(result)
            != crate::arm::spec_sign(a),
    ).spec_set(dest, result)
}

/// Subtraction with carry.
pub fn sbc(emulator: &mut Emulator, instruction: u16) -> (r: u32)
    requires
        old(emulator).wf(),
    ensures
        *final(emulator) == old(emulator).spec_with_registers(
            spec_exec_thumb_sbc(old(emulator).cpu.registers, instruction),
        ),
        final(emulator).wf(),
        r == 1,
{
    proof {
        lemma_thumb_field_bounds(instruction);
    }
    let dest = register_from_bits((instruction & 7) as u32);
    let a = emulator.cpu.get_register_value(dest);
    let b = emulator.cpu.get_register_value(register_from_bits(((instruction >> 3) & 7) as u32));
    let borrow: u32 = if emulator.cpu.get_c() {
        0
    } else {
        1
    };

    let result = a.wrapping_sub(b).wrapping_sub(borrow);
    let no_borrow = a >= b && a - b >= borrow;

    emulator.cpu.set_nzcv(
        result >= 0x8000_0000,
        result == 0,
        no_borrow,
        (a >= 0x8000_0000) != (b >= 0x8000_0000) && (result >= 0x8000_0000) != (a >= 0x8000_0000),
    );
    emulator.cpu.set_register_value(dest, result);

    1
}

/// The address at which list position `i` of a Thumb multiple transfer
/// moves: ascending word steps from the base register.
pub open spec fn spec_thumb_block_addr(rs: RegisterSet, inst: u16, i: int) -> u32 {
    rs.spec_reg(spec_register_from_bits(((inst >> 8) & 7) as u32)).wrapping_add(
        (4 * crate::arm::spec_reg_count(inst as u32, i)) as u32,
    )
}

/// The memory after the first `n` list positions of a Thumb
/// store-multiple: each selected low register lands at its word-aligned
/// slot.
pub open spec fn spec_thumb_stmia_mem(pre: Emulator, inst: u16, n: int) -> crate::memory::MemView
    decreases n,
{
    if n <= 0 {
        pre.memory@
    } else {
        let m = spec_thumb_stmia_mem(pre, inst, n - 1);
        if crate::bits::spec_get_bit(inst as u32, (n - 1) as u32) {
            crate::memory::spec_write_word(
                m,
                spec_thumb_block_addr(pre.cpu.registers, inst, n - 1) & 0xffff_fffc,
                pre.cpu.registers.spec_reg(spec_register_from_bits((n - 1) as u32)),
            )
        } else {
            m
        }
    }
}

/// How a Thumb store-multiple leaves the machine: the selected low
/// registers stored at ascending slots from the base, and the base moved
/// over the span.
pub open spec fn spec_thumb_stmia_rel(pre: Emulator, post: Emulator, inst: u16) -> bool {
    let rs = pre.cpu.registers;
    let base_name = spec_register_from_bits(((inst >> 8) & 7) as u32);
    post.memory@ == spec_thumb_stmia_mem(pre, inst, 8) && post.cpu.registers == rs.spec_set(
        base_name,
        rs.spec_reg(base_name).wrapping_add(
            (4 * crate::arm::spec_reg_count(inst as u32, 8)) as u32,
        ),
    ) && post.cpu.halt == pre.cpu.halt && post.remaining_cycles == pre.remaining_cycles
}

/// Store multiple low registers ascending from the base register, with
/// writeback. A base that is also in the list is stored with its
/// original value.
pub fn stmia(emulator: &mut Emulator, instruction: u16) -> (r: u32)
    requires
        old(emulator).wf(),
    ensures
        spec_thumb_stmia_rel(*old(emulator), *final(emulator), instruction),
        final(emulator).wf(),
        r == 1,
{
    proof {
        lemma_thumb_field_bounds(instruction);
    }
    let ghost pre = *emulator;
    let base_register = register_from_bits(((instruction >> 8) & 7) as u32);
    let base = emulator.cpu.get_register_value(base_register);

    let count = count_block_registers(instruction, 8);

    let mut stored: u32 = 0;
    let mut i: u32 = 0;
    while i < 8
        invariant
            i <= 8,
            stored <= i,
            stored as int == crate::arm::spec_reg_count(instruction as u32, i as int),
            emulator.cpu == pre.cpu,
            emulator.remaining_cycles == pre.remaining_cycles,
            emulator.memory@ == spec_thumb_stmia_mem(pre, instruction, i as int),
            emulator.wf(),
            base == pre.cpu.registers.spec_reg(
                spec_register_from_bits(((instruction >> 8) & 7) as u32),
            ),
        decreases 8 - i,
    {
        if crate::bits::get_bit(instruction as u32, i) {
            let address = base.wrapping_add(4 * stored);
            proof {
                assert((address & 0xffff_fffcu32) % 4 == 0) by (bit_vector);
            }
            let value = emulator.cpu.get_register_value(register_from_bits(i));
            crate::arm::write_word(emulator, address & 0xffff_fffc, value);
            stored += 1;
        }
        i += 1;
    }

    emulator.cpu.set_register_value(base_register, base.wrapping_add(4 * count));

    1
}

/// Count the low registers named by a Thumb transfer list.
fn count_block_registers(instruction: u16, n: u32) -> (r: u32)
    requires
        n <= 16,
    ensures
        r as int == crate::arm::spec_reg_count(instruction as u32, n as int),
        r <= n,
{
    let mut count: u32 = 0;
    let mut i: u32 = 0;
    while i < n
        invariant
            n <= 16,
            i <= n,
            count <= i,
            count as int == crate::arm::spec_reg_count(instruction as u32, i as int),
        decreases n - i,
    {
        if crate::bits::get_bit(instruction as u32, i) {
            count += 1;
        }
        i += 1;
    }
    count
}

/// The effective address of a Thumb word store: a register plus register
/// offset, a register plus a scaled 5-bit immediate, or SP-relative.
pub open spec fn spec_thumb_str_addr(rs: RegisterSet, inst: u16) -> u32 {
    if (inst >> 12) & 0xf == 0b0101 {
        rs.spec_reg(spec_register_from_bits(((inst >> 3) & 7) as u32)).wrapping_add(
            rs.spec_reg(spec_register_from_bits(((inst >> 6) & 7) as u32)),
        )
    } else if (inst >> 13) & 7 == 0b011 {
        rs.spec_reg(spec_register_from_bits(((inst >> 3) & 7) as u32)).wrapping_add(
            ((((inst >> 6) & 0x1f) as u32) * 4) as u32,
        )
    } else {
        rs.spec_reg(RegisterNames::r13).wrapping_add(((((inst & 0xff) as u32) * 4) as u32))
    }
}

/// The source of a Thumb word store: bits 10..8 for the SP-relative form,
/// the low three bits otherwise.
pub open spec fn spec_thumb_str_src(inst: u16) -> RegisterNames {
    if (inst >> 12) & 0xf == 0b1001 {
        spec_register_from_bits(((inst >> 8) & 7) as u32)
    } else {
        spec_register_from_bits((inst & 7) as u32)
    }
}

/// How a Thumb word store leaves the machine: the source register lands
/// at the word-aligned effective address.
pub open spec fn spec_thumb_str_rel(pre: Emulator, post: Emulator, inst: u16) -> bool {
    post.memory@ == crate::memory::spec_write_word(
        pre.memory@,
        spec_thumb_str_addr(pre.cpu.registers, inst) & 0xffff_fffc,
        pre.cpu.registers.spec_reg(spec_thumb_str_src(inst)),
    ) && post.cpu == pre.cpu && post.remaining_cycles == pre.remaining_cycles
}

/// Store a word: register offset, immediate offset, or SP-relative.
pub fn str(emulator: &mut Emulator, instruction: u16) -> (r: u32)
    requires
        old(emulator).wf(),
    ensures
        spec_thumb_str_rel(*old(emulator), *final(emulator), instruction),
        final(emulator).wf(),
        r == 1,
{
    proof {
        lemma_thumb_field_bounds(instruction);
    }
    let address = if (instruction >> 12) & 0xf == 0b0101 {
        emulator.cpu.get_register_value(
            register_from_bits(((instruction >> 3) & 7) as u32),
        ).wrapping_add(
            emulator.cpu.get_register_value(register_from_bits(((instruction >> 6) & 7) as u32)),
        )
    } else if (instruction >> 13) & 7 == 0b011 {
        emulator.cpu.get_register_value(
            register_from_bits(((instruction >> 3) & 7) as u32),
        ).wrapping_add((((instruction >> 6) & 0x1f) as u32) * 4)
    } else {
        emulator.cpu.get_register_value(RegisterNames::r13).wrapping_add(
            ((instruction & 0xff) as u32) * 4,
        )
    };
    let source = if (instruction >> 12) & 0xf == 0b1001 {
        register_from_bits(((instruction >> 8) & 7) as u32)
    } else {
        register_from_bits((instruction & 7) as u32)
    };

    crate::arm::store_register(emulator, source, address);

    1
}

/// How a Thumb byte store leaves the machine: the low byte of the source
/// register lands at the effective address.
pub open spec fn spec_thumb_strb_rel(pre: Emulator, post: Emulator, inst: u16) -> bool {
    let src = spec_register_from_bits((inst & 7) as u32);
    post.memory@ == crate::memory::spec_write_byte(
        pre.memory@,
        spec_thumb_byte_addr(pre.cpu.registers, inst),
        (pre.cpu.registers.spec_reg(src) & 0xff) as u8,
    ) && post.cpu == pre.cpu && post.remaining_cycles == pre.remaining_cycles
}

/// Store the low byte of a register: register offset or immediate offset.
pub fn strb(emulator: &mut Emulator, instruction: u16) -> (r: u32)
    requires
        old(emulator).wf(),
    ensures
        spec_thumb_strb_rel(*old(emulator), *final(emulator), instruction),
        final(emulator).wf(),
        r == 1,
{
    proof {
        lemma_thumb_field_bounds(instruction);
    }
    let address = thumb_byte_address(emulator, instruction);
    let source = register_from_bits((instruction & 7) as u32);

    crate::arm::store_register_byte(emulator, source, address);

    1
}

/// How a Thumb halfword store leaves the machine: the low halfword of
/// the source register lands at the even-aligned effective address.
pub open spec fn spec_thumb_strh_rel(pre: Emulator, post: Emulator, inst: u16) -> bool {
    let src = spec_register_from_bits((inst & 7) as u32);
    post.memory@ == crate::memory::spec_write_half(
        pre.memory@,
        spec_thumb_half_addr(pre.cpu.registers, inst) & 0xffff_fffe,
        (pre.cpu.registers.spec_reg(src) & 0xffff) as u16,
    ) && post.cpu == pre.cpu && post.remaining_cycles == pre.remaining_cycles
}

/// Store the low halfword of a register: register offset or immediate
/// offset.
pub fn strh(emulator: &mut Emulator, instruction: u16) -> (r: u32)
    requires
        old(emulator).wf(),
    ensures
        spec_thumb_strh_rel(*old(emulator), *final(emulator), instruction),
        final(emulator).wf(),
        r == 1,
{
    proof {
        lemma_thumb_field_bounds(instruction);
    }
    let address = thumb_half_address(emulator, instruction);
    let source = register_from_bits((instruction & 7) as u32);

    let value = emulator.cpu.get_register_value(source);
    proof {
        assert((address & 0xffff_fffeu32) % 2 == 0 && value & 0xffff < 0x10000) by (bit_vector);
    }
    crate::arm::write_half_word(emulator, address & 0xffff_fffe, (value & 0xffff) as u16);

    1
}

/// Test: the flags of `Rd AND Rs`, with nothing written back.
pub open spec fn spec_exec_thumb_tst(rs: RegisterSet, inst: u16) -> RegisterSet {
    let a = rs.spec_reg(spec_register_from_bits((inst & 7) as u32));
    let b = rs.spec_reg(spec_register_from_bits(((inst >> 3) & 7) as u32));
    let result = a & b;
    crate::arm::spec_set_flags(
        rs,
        crate::arm::spec_sign(result),
        result == 0,
        rs.spec_c(),
        rs.spec_v(),
    )
}

/// Test: set the flags of `Rd AND Rs`, discarding the result.
pub fn tst(emulator: &mut Emulator, instruction: u16) -> (r: u32)
    requires
        old(emulator).wf(),
    ensures
        *final(emulator) == old(emulator).spec_with_registers(
            spec_exec_thumb_tst(old(emulator).cpu.registers, instruction),
        ),
        final(emulator).wf(),
        r == 1,
{
    proof {
        lemma_thumb_field_bounds(instruction);
    }
    let a = emulator.cpu.get_register_value(register_from_bits((instruction & 7) as u32));
    let b = emulator.cpu.get_register_value(register_from_bits(((instruction >> 3) & 7) as u32));
    let c = emulator.cpu.get_c();
    let v = emulator.cpu.get_v();

    let result = a & b;

    emulator.cpu.set_nzcv(result >= 0x8000_0000, result == 0, c, v);

    1
}

} // verus!
