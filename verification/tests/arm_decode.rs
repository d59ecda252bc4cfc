//! Decode tests: each canonical encoding maps to its handler.

use lavender::arm::{decode_instruction, ArmInstruction};

#[test]
fn arm_tests_decode_adc() {
    assert_eq!(decode_instruction(0x0_0a_000_0_0), ArmInstruction::Adc);
}

#[test]
fn arm_tests_decode_add() {
    assert_eq!(decode_instruction(0x0_08_000_0_0), ArmInstruction::Add);
}

#[test]
fn arm_tests_decode_and() {
    assert_eq!(decode_instruction(0x0_00_000_0_0), ArmInstruction::And);
}

#[test]
fn arm_tests_decode_b() {
    assert_eq!(decode_instruction(0x0_a0_000_0_0), ArmInstruction::B);
}

#[test]
fn arm_tests_decode_bic() {
    assert_eq!(decode_instruction(0x0_1c_000_0_0), ArmInstruction::Bic);
}

#[test]
fn arm_tests_decode_bl() {
    assert_eq!(decode_instruction(0x0_b0_000_0_0), ArmInstruction::Bl);
}

#[test]
fn arm_tests_decode_bx() {
    assert_eq!(decode_instruction(0x0_12_000_1_0), ArmInstruction::Bx);
}

#[test]
fn arm_tests_decode_cdp() {
    assert_eq!(decode_instruction(0x0_e0_000_0_0), ArmInstruction::Cdp);
}

#[test]
fn arm_tests_decode_cmn() {
    assert_eq!(decode_instruction(0x0_17_000_0_0), ArmInstruction::Cmn);
}

#[test]
fn arm_tests_decode_cmp() {
    assert_eq!(decode_instruction(0x0_15_000_0_0), ArmInstruction::Cmp);
}

#[test]
fn arm_tests_decode_eor() {
    assert_eq!(decode_instruction(0x0_02_000_0_0), ArmInstruction::Eor);
}

#[test]
fn arm_tests_decode_ldc() {
    assert_eq!(decode_instruction(0x0_c1_000_0_0), ArmInstruction::Ldc);
}

#[test]
fn arm_tests_decode_ldm() {
    assert_eq!(decode_instruction(0x0_81_000_0_0), ArmInstruction::Ldm);
}

#[test]
fn arm_tests_decode_ldr() {
    assert_eq!(decode_instruction(0x0_41_000_0_0), ArmInstruction::Ldr);
}

#[test]
fn arm_tests_decode_ldrb() {
    assert_eq!(decode_instruction(0x0_45_000_0_0), ArmInstruction::Ldrb);
}

#[test]
fn arm_tests_decode_ldrbt() {
    assert_eq!(decode_instruction(0x0_47_000_0_0), ArmInstruction::Ldrbt);
}

#[test]
fn arm_tests_decode_ldrh() {
    assert_eq!(decode_instruction(0x0_05_000_b_0), ArmInstruction::Ldrh);
}

#[test]
fn arm_tests_decode_ldrsb() {
    assert_eq!(decode_instruction(0x0_05_000_d_0), ArmInstruction::Ldrsb);
}

#[test]
fn arm_tests_decode_ldrsh() {
    assert_eq!(decode_instruction(0x0_05_000_f_0), ArmInstruction::Ldrsh);
}

#[test]
fn arm_tests_decode_ldrt() {
    assert_eq!(decode_instruction(0x0_43_000_0_0), ArmInstruction::Ldrt);
}

#[test]
fn arm_tests_decode_mcr() {
    assert_eq!(decode_instruction(0x0_e0_000_1_0), ArmInstruction::Mcr);
}

#[test]
fn arm_tests_decode_mla() {
    assert_eq!(decode_instruction(0x0_02_000_9_0), ArmInstruction::Mla);
}

#[test]
fn arm_tests_decode_mov() {
    assert_eq!(decode_instruction(0x0_1a_000_0_0), ArmInstruction::Mov);
}

#[test]
fn arm_tests_decode_mrc() {
    assert_eq!(decode_instruction(0x0_e1_000_1_0), ArmInstruction::Mrc);
}

#[test]
fn arm_tests_decode_mrs() {
    assert_eq!(decode_instruction(0x0_10_000_0_0), ArmInstruction::Mrs);
}

#[test]
fn arm_tests_decode_msr() {
    assert_eq!(decode_instruction(0x0_12_000_0_0), ArmInstruction::Msr);
}

#[test]
fn arm_tests_decode_mul() {
    assert_eq!(decode_instruction(0x0_00_000_9_0), ArmInstruction::Mul);
}

#[test]
fn arm_tests_decode_mvn() {
    assert_eq!(decode_instruction(0x0_1e_000_0_0), ArmInstruction::Mvn);
}

#[test]
fn arm_tests_decode_or() {
    assert_eq!(decode_instruction(0x0_18_000_0_0), ArmInstruction::Or);
}

#[test]
fn arm_tests_decode_rsb() {
    assert_eq!(decode_instruction(0x0_06_000_0_0), ArmInstruction::Rsb);
}

#[test]
fn arm_tests_decode_rsc() {
    assert_eq!(decode_instruction(0x0_0e_000_0_0), ArmInstruction::Rsc);
}

#[test]
fn arm_tests_decode_sbc() {
    assert_eq!(decode_instruction(0x0_0c_000_0_0), ArmInstruction::Sbc);
}

#[test]
fn arm_tests_decode_smlal() {
    assert_eq!(decode_instruction(0x0_0e_000_9_0), ArmInstruction::Smlal);
}

#[test]
fn arm_tests_decode_smull() {
    assert_eq!(decode_instruction(0x0_0c_000_9_0), ArmInstruction::Smull);
}

#[test]
fn arm_tests_decode_stc() {
    assert_eq!(decode_instruction(0x0_c0_000_0_0), ArmInstruction::Stc);
}

#[test]
fn arm_tests_decode_stm() {
    assert_eq!(decode_instruction(0x0_80_000_0_0), ArmInstruction::Stm);
}

#[test]
fn arm_tests_decode_str() {
    assert_eq!(decode_instruction(0x0_40_000_0_0), ArmInstruction::Str);
}

#[test]
fn arm_tests_decode_strb() {
    assert_eq!(decode_instruction(0x0_44_000_0_0), ArmInstruction::Strb);
}

#[test]
fn arm_tests_decode_strbt() {
    assert_eq!(decode_instruction(0x0_46_000_0_0), ArmInstruction::Strbt);
}

#[test]
fn arm_tests_decode_strh() {
    assert_eq!(decode_instruction(0x0_00_000_b_0), ArmInstruction::Strh);
}

#[test]
fn arm_tests_decode_strt() {
    assert_eq!(decode_instruction(0x0_42_000_0_0), ArmInstruction::Strt);
}

#[test]
fn arm_tests_decode_sub() {
    assert_eq!(decode_instruction(0x0_04_000_0_0), ArmInstruction::Sub);
}

#[test]
fn arm_tests_decode_swi() {
    assert_eq!(decode_instruction(0x0_f0_000_0_0), ArmInstruction::Swi);
}

#[test]
fn arm_tests_decode_swp() {
    assert_eq!(decode_instruction(0x0_10_000_9_0), ArmInstruction::Swp);
}

#[test]
fn arm_tests_decode_swpb() {
    assert_eq!(decode_instruction(0x0_14_000_9_0), ArmInstruction::Swpb);
}

#[test]
fn arm_tests_decode_teq() {
    assert_eq!(decode_instruction(0x0_13_000_0_0), ArmInstruction::Teq);
}

#[test]
fn arm_tests_decode_tst() {
    assert_eq!(decode_instruction(0x0_11_000_0_0), ArmInstruction::Tst);
}

#[test]
fn arm_tests_decode_umlal() {
    assert_eq!(decode_instruction(0x0_0a_000_9_0), ArmInstruction::Umlal);
}

#[test]
fn arm_tests_decode_umull() {
    assert_eq!(decode_instruction(0x0_08_000_9_0), ArmInstruction::Umull);
}

#[test]
fn tests_decode_adc() {
    assert_eq!(decode_instruction(0x0_0a_000_0_0), ArmInstruction::Adc);
}

#[test]
fn tests_decode_add() {
    assert_eq!(decode_instruction(0x0_08_000_0_0), ArmInstruction::Add);
}

#[test]
fn tests_decode_and() {
    assert_eq!(decode_instruction(0x0_00_000_0_0), ArmInstruction::And);
}

#[test]
fn tests_decode_bic() {
    assert_eq!(decode_instruction(0x0_1c_000_0_0), ArmInstruction::Bic);
}

#[test]
fn tests_decode_cdp() {
    assert_eq!(decode_instruction(0x0_e0_000_0_0), ArmInstruction::Cdp);
}

#[test]
fn tests_decode_cmn() {
    assert_eq!(decode_instruction(0x0_17_000_0_0), ArmInstruction::Cmn);
}

#[test]
fn tests_decode_cmp() {
    assert_eq!(decode_instruction(0x0_15_000_0_0), ArmInstruction::Cmp);
}

#[test]
fn tests_decode_eor() {
    assert_eq!(decode_instruction(0x0_02_000_0_0), ArmInstruction::Eor);
}

#[test]
fn tests_decode_ldc() {
    assert_eq!(decode_instruction(0x0_c1_000_0_0), ArmInstruction::Ldc);
}

#[test]
fn tests_decode_ldm() {
    assert_eq!(decode_instruction(0x0_81_000_0_0), ArmInstruction::Ldm);
}

#[test]
fn tests_decode_ldr() {
    assert_eq!(decode_instruction(0x0_41_000_0_0), ArmInstruction::Ldr);
}

#[test]
fn tests_decode_ldrb() {
    assert_eq!(decode_instruction(0x0_45_000_0_0), ArmInstruction::Ldrb);
}

#[test]
fn tests_decode_ldrh() {
    assert_eq!(decode_instruction(0x0_05_000_b_0), ArmInstruction::Ldrh);
}

#[test]
fn tests_decode_ldrsb() {
    assert_eq!(decode_instruction(0x0_05_000_d_0), ArmInstruction::Ldrsb);
}

#[test]
fn tests_decode_ldrsh() {
    assert_eq!(decode_instruction(0x0_05_000_f_0), ArmInstruction::Ldrsh);
}

#[test]
fn tests_decode_mcr() {
    assert_eq!(decode_instruction(0x0_e0_000_1_0), ArmInstruction::Mcr);
}

#[test]
fn tests_decode_mla() {
    assert_eq!(decode_instruction(0x0_02_000_9_0), ArmInstruction::Mla);
}

#[test]
fn tests_decode_mov() {
    assert_eq!(decode_instruction(0x0_1a_000_0_0), ArmInstruction::Mov);
}

#[test]
fn tests_decode_mrs() {
    assert_eq!(decode_instruction(0x0_10_000_0_0), ArmInstruction::Mrs);
}

#[test]
fn tests_decode_msr() {
    assert_eq!(decode_instruction(0x0_12_000_0_0), ArmInstruction::Msr);
}

#[test]
fn tests_decode_mul() {
    assert_eq!(decode_instruction(0x0_0_000_9_0), ArmInstruction::Mul);
}

#[test]
fn decode_is_pure_on_repeats() {
    for inst in [0x0_0a_000_0_0u32, 0xE592_1004, 0xEA00_0000, 0x0000_0000, 0xFFFF_FFFF] {
        assert_eq!(decode_instruction(inst), decode_instruction(inst));
    }
}

#[test]
fn decode_extension_space_collision_is_undefined() {
    // Category 0, bits 7..4 = 1001, opcode 0010: neither a multiply nor a
    // swap, and not a valid shifted operand either.
    assert_eq!(decode_instruction(0xE040_0090), ArmInstruction::Undefined);
    // Category 0, bits 7..4 = 1101 with a clear L bit: the doubleword
    // transfer space of later architectures.
    assert_eq!(decode_instruction(0xE000_00D0), ArmInstruction::Undefined);
}
