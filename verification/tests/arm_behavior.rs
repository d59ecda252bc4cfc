//! Behaviour tests for the ARM instruction handlers, driven through
//! `process_instruction` on a small test emulator.

use lavender::arm::process_instruction;
use lavender::cpu::RegisterNames::{r0, r1, r2, r3, r4, r5, r8, r13, r14, r15};
use lavender::emulator::Emulator;

#[test]
fn arm_tests_behavior_add() {
    let mut emulator = Emulator::dummy();

    // Initialize r3 and r4 as the accumulators, and r5 as the increment for r4
    emulator.cpu.set_register_value(r3, 0);
    emulator.cpu.set_register_value(r4, 0);
    emulator.cpu.set_register_value(r5, 3);

    for _ in 0..10 {
        // add r3, r3, #1
        process_instruction(&mut emulator, 0b1110_00_1_0100_1_0011_0011_0000_00000001);
        // add r4, r4, r5
        process_instruction(&mut emulator, 0b1110_00_0_0100_1_0100_0100_00000000_0101);
    }

    // Assert that the adding completed correctly
    assert_eq!(emulator.cpu.get_register_value(r3), 10);
    assert_eq!(emulator.cpu.get_register_value(r4), 30);
}

#[test]
fn arm_tests_behavior_b() {
    let mut emulator = Emulator::dummy();

    // Set the pc to a known value
    let starting_position = 0x0100_0000;
    emulator.cpu.set_register_value(r15, starting_position);

    // Branch with distance of 0
    process_instruction(&mut emulator, 0b1110_101_0_0000_0000_0000_0000_0000_0000);
    assert_eq!(emulator.cpu.get_register_value(r15), starting_position);

    // Branch with largest positive number (0x7fffff<<2)
    process_instruction(&mut emulator, 0b1110_101_0_0111_1111_1111_1111_1111_1111);
    assert_eq!(
        emulator.cpu.get_register_value(r15),
        starting_position + (0x7fffff << 2)
    );

    // Branch with smallest negative number (-4)
    process_instruction(&mut emulator, 0b1110_101_0_1111_1111_1111_1111_1111_1111);
    assert_eq!(
        emulator.cpu.get_register_value(r15),
        starting_position + (0x7fffff << 2) - 4
    );

    // Branch with largest negative number (0x800000<<2)
    process_instruction(&mut emulator, 0b1110_101_0_1000_0000_0000_0000_0000_0000);
    assert_eq!(emulator.cpu.get_register_value(r15), starting_position - 8);
}

#[test]
fn arm_tests_behavior_eor() {
    let mut emulator = Emulator::dummy();

    emulator.cpu.set_register_value(r4, 0xaaaaaaaa);
    emulator.cpu.set_register_value(r5, 0xbebebebe);

    // eor r4, r4, r5
    process_instruction(&mut emulator, 0b1110_00_0_0001_1_0100_0100_00000000_0101);

    assert_eq!(emulator.cpu.get_register_value(r4), 0x14141414);
}

#[test]
fn behavior_ldr() {
    // Offset
    {
        let mut emulator = Emulator::dummy();

        emulator.memory.write_word(0x0300_0004, 0xaabb_ccdd);
        emulator.cpu.set_register_value(r2, 0x0300_0000);

        //   cond    P UBWL Rn   Rd   offset12
        // 0b1110_0101_1001_0010_0001_0000_0000_0100 - ldr r1,[r2,0x4]
        process_instruction(&mut emulator, 0xE592_1004);

        assert_eq!(emulator.cpu.get_register_value(r1), 0xaabb_ccdd);
        assert_eq!(emulator.cpu.get_register_value(r2), 0x0300_0000);
    }

    // Post-indexed
    {
        let mut emulator = Emulator::dummy();

        emulator.memory.write_word(0x0300_0000, 0xeeff_1122);
        emulator.cpu.set_register_value(r2, 0x0300_0000);

        //   cond    P UBWL Rn   Rd   offset12
        // 0b1110_0100_1001_0010_0001_0000_0000_1010 - ldr r1,[r2],0xA
        process_instruction(&mut emulator, 0xE492_100A);

        assert_eq!(emulator.cpu.get_register_value(r1), 0xeeff_1122);
        assert_eq!(emulator.cpu.get_register_value(r2), 0x0300_000A);
    }

    // Pre-indexed
    {
        let mut emulator = Emulator::dummy();

        emulator.memory.write_word(0x0300_0010, 0x3344_5566);
        emulator.cpu.set_register_value(r2, 0x0300_0000);

        //   cond    P UBWL Rn   Rd   offset12
        // 0b1110_0101_1011_0010_0001_0000_0001_0000 - ldr r1,[r2,0x10]!
        process_instruction(&mut emulator, 0xE5B2_1010);

        assert_eq!(emulator.memory.read_word(0x0300_0010), 0x3344_5566);
        assert_eq!(emulator.cpu.get_register_value(r2), 0x0300_0010);
    }

    // Non word-aligned address
    {
        let mut emulator = Emulator::dummy();

        emulator.memory.write_word(0x0300_0004, 0xaabb_ccdd);
        emulator.cpu.set_register_value(r2, 0x0300_0000);

        //   cond    P UBWL Rn   Rd   offset12
        // 0b1110_0101_1001_0010_0001_0000_0000_0101 - ldr r1,[r2,0x5]
        process_instruction(&mut emulator, 0xE592_1005);

        assert_eq!(emulator.cpu.get_register_value(r1), 0xddaa_bbcc);
        assert_eq!(emulator.cpu.get_register_value(r2), 0x0300_0000);
    }

    // Rd == r15
    {
        let mut emulator = Emulator::dummy();

        emulator.memory.write_word(0x0300_0014, 0x0400_0083);
        emulator.cpu.set_register_value(r2, 0x0300_0000);

        //   cond    P UBWL Rn   Rd   offset12
        // 0b1110_0101_1001_0010_1111_0000_0001_0100 - ldr r15,[r2,0x14]
        process_instruction(&mut emulator, 0xE592_F014);

        assert_eq!(emulator.cpu.get_register_value(r15), 0x0400_0080);
    }
}

#[test]
fn behavior_str() {
    // Offset
    {
        let mut emulator = Emulator::dummy();

        emulator.cpu.set_register_value(r1, 0xaaaa_aaaa);
        emulator.cpu.set_register_value(r2, 0x0300_0000);

        //   cond    P UBWL Rn   Rd   offset12
        // 0b1110_0101_1000_0010_0001_0000_0000_1011 - str r1,[r2,0x00B]
        process_instruction(&mut emulator, 0xE582_100B);

        assert_eq!(emulator.memory.read_word(0x0300_0008), 0xaaaa_aaaa);
    }

    // Pre-indexed
    {
        let mut emulator = Emulator::dummy();

        emulator.cpu.set_register_value(r1, 0xcccc_cccc);
        emulator.cpu.set_register_value(r2, 0x0300_0000);

        //   cond    P UBWL Rn   Rd   offset12
        // 0b1110_0101_1010_0010_0001_0000_0000_1011 - str r1,[r2,0x00B]!
        process_instruction(&mut emulator, 0xE5A2_100B);

        assert_eq!(emulator.memory.read_word(0x0300_0008), 0xcccc_cccc);
        assert_eq!(emulator.cpu.get_register_value(r2), 0x0300_000B);
    }

    // Post-indexed
    {
        let mut emulator = Emulator::dummy();

        emulator.cpu.set_register_value(r1, 0xbbbb_bbbb);
        emulator.cpu.set_register_value(r2, 0x0300_0000);

        //   cond    P UBWL Rn   Rd   offset12
        // 0b1110_0100_1000_0010_0001_0000_0000_1011 - str r1,[r2],0x00B
        process_instruction(&mut emulator, 0xE482_100B);

        assert_eq!(emulator.memory.read_word(0x0300_0000), 0xbbbb_bbbb);
        assert_eq!(emulator.cpu.get_register_value(r2), 0x0300_000B);
    }
}

#[test]
fn behavior_strb() {
    // Offset
    {
        let mut emulator = Emulator::dummy();

        emulator.cpu.set_register_value(r1, 0xffff_ffaa);
        emulator.cpu.set_register_value(r2, 0x0300_0000);

        //   cond    P UBWL Rn   Rd   offset12
        // 0b1110_0101_1100_0010_0001_0000_0000_1010 - strb r1,[r2,0x00A]
        process_instruction(&mut emulator, 0xE5C2_100A);

        assert_eq!(emulator.memory.read_byte(0x0300_0009), 0x0);
        assert_eq!(emulator.memory.read_byte(0x0300_000A), 0xaa);
        assert_eq!(emulator.memory.read_byte(0x0300_000B), 0x0);

        assert_eq!(emulator.cpu.get_register_value(r2), 0x0300_0000);
    }

    // Post-indexed
    {
        let mut emulator = Emulator::dummy();

        emulator.cpu.set_register_value(r1, 0xffff_ffbb);
        emulator.cpu.set_register_value(r2, 0x0300_0000);

        //   cond    P UBWL Rn   Rd   offset12
        // 0b1110_0100_1100_0010_0001_0000_0000_0101 - strb r1,[r2],0x5
        process_instruction(&mut emulator, 0xE4C2_1005);

        assert_eq!(emulator.memory.read_byte(0x0300_0000), 0xbb);
        assert_eq!(emulator.memory.read_byte(0x0300_0001), 0x0);

        assert_eq!(emulator.cpu.get_register_value(r2), 0x0300_0005);
    }

    // Pre-indexed
    {
        let mut emulator = Emulator::dummy();

        emulator.cpu.set_register_value(r1, 0xffff_ffcc);
        emulator.cpu.set_register_value(r2, 0x0300_0000);

        //   cond    P UBWL Rn   Rd   offset12
        // 0b1110_0101_1110_0010_0001_0000_0001_0000 - strb r1,[r2,0x10]!
        process_instruction(&mut emulator, 0xE5E2_1010);

        assert_eq!(emulator.memory.read_byte(0x0300_000F), 0x0);
        assert_eq!(emulator.memory.read_byte(0x0300_0010), 0xcc);
        assert_eq!(emulator.memory.read_byte(0x0300_0011), 0x0);

        assert_eq!(emulator.cpu.get_register_value(r2), 0x0300_0010);
    }
}

#[test]
fn behavior_sub() {
    let mut emulator = Emulator::dummy();

    // sub{s} r0, r1, r2
    let instruction = 0xE051_0002;

    // r1 = 0xFFFF_FFFE
    // r2 = 0x7FFF_FFFF
    // r0 = 0x7FFF_FFFF
    // nzcv = 0b0011
    {
        emulator.cpu.set_register_value(r1, 0xFFFF_FFFE);
        emulator.cpu.set_register_value(r2, 0x7FFF_FFFF);

        process_instruction(&mut emulator, instruction);

        assert_eq!(emulator.cpu.get_register_value(r0), 0x7FFF_FFFF);
        assert_eq!(emulator.cpu.get_n(), false);
        assert_eq!(emulator.cpu.get_z(), false);
        assert_eq!(emulator.cpu.get_c(), true);
        assert_eq!(emulator.cpu.get_v(), true);
    }

    // r1 = 0x1
    // r2 = 0x1
    // r0 = 0x0
    // nzcv = 0b0110
    {
        emulator.cpu.set_register_value(r1, 0x1);
        emulator.cpu.set_register_value(r2, 0x1);

        process_instruction(&mut emulator, instruction);

        assert_eq!(emulator.cpu.get_register_value(r0), 0x0);
        assert_eq!(emulator.cpu.get_n(), false);
        assert_eq!(emulator.cpu.get_z(), true);
        assert_eq!(emulator.cpu.get_c(), true);
        assert_eq!(emulator.cpu.get_v(), false);
    }

    // r1 = 0x0
    // r2 = 0x1
    // r0 = 0xFFFF_FFFF
    // nzcv = 0b1000
    {
        emulator.cpu.set_register_value(r1, 0x0);
        emulator.cpu.set_register_value(r2, 0x1);

        process_instruction(&mut emulator, instruction);

        assert_eq!(emulator.cpu.get_register_value(r0), 0xFFFF_FFFF);
        assert_eq!(emulator.cpu.get_n(), true);
        assert_eq!(emulator.cpu.get_z(), false);
        assert_eq!(emulator.cpu.get_c(), false);
        assert_eq!(emulator.cpu.get_v(), false);
    }

    // r1 = 0xFFFF_FFFF
    // r2 = 0xFFFF_FFFE
    // r0 = 0x1
    // nzcv = 0b0010
    {
        emulator.cpu.set_register_value(r1, 0xFFFF_FFFF);
        emulator.cpu.set_register_value(r2, 0xFFFF_FFFE);

        process_instruction(&mut emulator, instruction);

        assert_eq!(emulator.cpu.get_register_value(r0), 0x1);
        assert_eq!(emulator.cpu.get_n(), false);
        assert_eq!(emulator.cpu.get_z(), false);
        assert_eq!(emulator.cpu.get_c(), true);
        assert_eq!(emulator.cpu.get_v(), false);
    }

    // r1 = 0x0
    // r2 = 0xFFFF_FFFF
    // r0 = 0x1
    // nzcv = 0b0000
    {
        emulator.cpu.set_register_value(r1, 0x0);
        emulator.cpu.set_register_value(r2, 0xFFFF_FFFF);

        process_instruction(&mut emulator, instruction);

        assert_eq!(emulator.cpu.get_register_value(r0), 0x1);
        assert_eq!(emulator.cpu.get_n(), false);
        assert_eq!(emulator.cpu.get_z(), false);
        assert_eq!(emulator.cpu.get_c(), false);
        assert_eq!(emulator.cpu.get_v(), false);
    }

    // r1 = 0x2
    // r2 = 0x1
    // r0 = 0x1
    // nzcv = 0b0010
    {
        emulator.cpu.set_register_value(r1, 0x2);
        emulator.cpu.set_register_value(r2, 0x1);

        process_instruction(&mut emulator, instruction);

        assert_eq!(emulator.cpu.get_register_value(r0), 0x1);
        assert_eq!(emulator.cpu.get_n(), false);
        assert_eq!(emulator.cpu.get_z(), false);
        assert_eq!(emulator.cpu.get_c(), true);
        assert_eq!(emulator.cpu.get_v(), false);
    }

    // r1 = 0xFFFF_FFFF
    // r2 = 0xFFFF_FFFF
    // r0 = 0x0
    // nzcv = 0b0110
    {
        emulator.cpu.set_register_value(r1, 0xFFFF_FFFF);
        emulator.cpu.set_register_value(r2, 0xFFFF_FFFF);

        process_instruction(&mut emulator, instruction);

        assert_eq!(emulator.cpu.get_register_value(r0), 0x0);
        assert_eq!(emulator.cpu.get_n(), false);
        assert_eq!(emulator.cpu.get_z(), true);
        assert_eq!(emulator.cpu.get_c(), true);
        assert_eq!(emulator.cpu.get_v(), false);
    }

    // r1 = 0xFFFF_FFFE
    // r2 = 0xFFFF_FFFF
    // r0 = 0xFFFF_FFFF
    // nzcv = 0b0110
    {
        emulator.cpu.set_register_value(r1, 0xFFFF_FFFE);
        emulator.cpu.set_register_value(r2, 0xFFFF_FFFF);

        process_instruction(&mut emulator, instruction);

        assert_eq!(emulator.cpu.get_register_value(r0), 0xFFFF_FFFF);
        assert_eq!(emulator.cpu.get_n(), true);
        assert_eq!(emulator.cpu.get_z(), false);
        assert_eq!(emulator.cpu.get_c(), false);
        assert_eq!(emulator.cpu.get_v(), false);
    }

    // r1 = 0x7FFF_FFFF
    // r2 = 0xFFFF_FFFF
    // r0 = 0x8000_0000
    // nzcv = 0b1001
    {
        emulator.cpu.set_register_value(r1, 0x7FFF_FFFF);
        emulator.cpu.set_register_value(r2, 0xFFFF_FFFF);

        process_instruction(&mut emulator, instruction);

        assert_eq!(emulator.cpu.get_register_value(r0), 0x8000_0000);
        assert_eq!(emulator.cpu.get_n(), true);
        assert_eq!(emulator.cpu.get_z(), false);
        assert_eq!(emulator.cpu.get_c(), false);
        assert_eq!(emulator.cpu.get_v(), true);
    }
}

#[test]
fn behavior_condition_failed_is_noop() {
    let mut emulator = Emulator::dummy();

    emulator.cpu.set_register_value(r3, 7);

    // With all flags clear, EQ fails: add r3, r3, #1 under EQ must leave
    // every register and flag alone and cost one cycle.
    let cycles = process_instruction(&mut emulator, 0b0000_00_1_0100_1_0011_0011_0000_00000001);

    assert_eq!(cycles, 1);
    assert_eq!(emulator.cpu.get_register_value(r3), 7);
    assert_eq!(emulator.read_cpsr(), 0xdf);
}

#[test]
fn behavior_movs_takes_shifter_carry() {
    let mut emulator = Emulator::dummy();

    emulator.cpu.set_register_value(r1, 0x8000_0000);

    // movs r0, r1, lsr #32 (an immediate shift of zero encodes 32): the
    // result drains to zero and the carry takes bit 31 of r1.
    process_instruction(&mut emulator, 0xE1B0_0021);

    assert_eq!(emulator.cpu.get_register_value(r0), 0);
    assert!(emulator.cpu.get_z());
    assert!(emulator.cpu.get_c());
    assert!(!emulator.cpu.get_n());
}

#[test]
fn behavior_undefined_enters_und_mode() {
    let mut emulator = Emulator::dummy();

    let cycles = process_instruction(&mut emulator, 0xE040_0090);

    assert_eq!(cycles, 1);
    assert_eq!(emulator.read_cpsr() & 0x1f, 0b11011);
    assert_eq!(emulator.cpu.get_register_value(r15), 0x0000_0004);
}

#[test]
fn behavior_swi_enters_svc_mode() {
    let mut emulator = Emulator::dummy();

    emulator.cpu.set_register_value(r15, 0x0100_0000);
    let cycles = process_instruction(&mut emulator, 0xEF00_0000);

    assert_eq!(cycles, 1);
    assert_eq!(emulator.read_cpsr() & 0x1f, 0b10011);
    // In SVC mode, r14 holds the return address and the SPSR the outgoing
    // status word.
    assert_eq!(emulator.cpu.get_register_value(r14), 0x0100_0000);
    assert_eq!(
        emulator
            .cpu
            .get_register_value(lavender::cpu::RegisterNames::spsr),
        0xdf
    );
    assert_eq!(emulator.cpu.get_register_value(r15), 0x0000_0008);
}

#[test]
fn behavior_mul_and_umull() {
    let mut emulator = Emulator::dummy();

    emulator.cpu.set_register_value(r1, 0x1_0001);
    emulator.cpu.set_register_value(r2, 0x1_0000);

    // mul r0, r1, r2 -> low 32 bits of 0x1_0001_0000_0000... wrapped
    process_instruction(&mut emulator, 0xE000_0291);
    assert_eq!(emulator.cpu.get_register_value(r0), 0x0001_0000);

    // umull r3, r4, r1, r2: r3 the low word, r4 the high word
    process_instruction(&mut emulator, 0xE084_3291);
    assert_eq!(emulator.cpu.get_register_value(r3), 0x0001_0000);
    assert_eq!(emulator.cpu.get_register_value(r4), 0x0000_0001);
}

#[test]
fn behavior_bx_switches_to_thumb() {
    let mut emulator = Emulator::dummy();

    emulator.cpu.set_register_value(r1, 0x0300_0011);

    // bx r1
    process_instruction(&mut emulator, 0xE12F_FF11);

    assert!(emulator.cpu.get_thumb_bit());
    assert_eq!(emulator.cpu.get_register_value(r15), 0x0300_0010);
}

#[test]
fn behavior_stm_and_ldm() {
    let mut emulator = Emulator::dummy();

    emulator.cpu.set_register_value(r0, 0x1111_1111);
    emulator.cpu.set_register_value(r1, 0x2222_2222);
    emulator.cpu.set_register_value(r3, 0x3333_3333);
    emulator.cpu.set_register_value(r2, 0x0300_0000);

    // stmia r2!, {r0, r1, r3}: ascending stores from the base, with the
    // base moved over the span afterwards.
    process_instruction(&mut emulator, 0xE8A2_000B);

    assert_eq!(emulator.memory.read_word(0x0300_0000), 0x1111_1111);
    assert_eq!(emulator.memory.read_word(0x0300_0004), 0x2222_2222);
    assert_eq!(emulator.memory.read_word(0x0300_0008), 0x3333_3333);
    assert_eq!(emulator.cpu.get_register_value(r2), 0x0300_000C);

    // ldmdb r2, {r4, r5, r14}: descending before-decrement loads of the
    // same three words, without writeback.
    process_instruction(&mut emulator, 0xE912_4030);

    assert_eq!(emulator.cpu.get_register_value(r4), 0x1111_1111);
    assert_eq!(emulator.cpu.get_register_value(r5), 0x2222_2222);
    assert_eq!(emulator.cpu.get_register_value(r14), 0x3333_3333);
    assert_eq!(emulator.cpu.get_register_value(r2), 0x0300_000C);
}

#[test]
fn behavior_halfword_and_signed_transfers() {
    let mut emulator = Emulator::dummy();

    emulator.cpu.set_register_value(r1, 0xffff_8001);
    emulator.cpu.set_register_value(r2, 0x0300_0000);

    // strh r1,[r2,#4]: only the low halfword lands in memory.
    process_instruction(&mut emulator, 0xE1C2_10B4);
    assert_eq!(emulator.memory.read_half_word(0x0300_0004), 0x8001);

    // ldrh r3,[r2,#4]: zero-extended.
    process_instruction(&mut emulator, 0xE1D2_30B4);
    assert_eq!(emulator.cpu.get_register_value(r3), 0x0000_8001);

    // ldrsh r4,[r2,#4]: sign-extended.
    process_instruction(&mut emulator, 0xE1D2_40F4);
    assert_eq!(emulator.cpu.get_register_value(r4), 0xffff_8001);

    // ldrsb r5,[r2,#5]: the sign-extended high byte of the halfword.
    process_instruction(&mut emulator, 0xE1D2_50D5);
    assert_eq!(emulator.cpu.get_register_value(r5), 0xffff_ff80);
}

#[test]
fn behavior_swp_reads_then_writes() {
    let mut emulator = Emulator::dummy();

    emulator.memory.write_word(0x0300_0008, 0x1122_3344);
    emulator.cpu.set_register_value(r1, 0x5566_7788);
    emulator.cpu.set_register_value(r2, 0x0300_0008);

    // swp r0, r1, [r2]
    process_instruction(&mut emulator, 0xE102_0091);

    assert_eq!(emulator.cpu.get_register_value(r0), 0x1122_3344);
    assert_eq!(emulator.memory.read_word(0x0300_0008), 0x5566_7788);
}

#[test]
fn behavior_msr_and_mrs_move_the_flags() {
    let mut emulator = Emulator::dummy();

    // msr cpsr_f, #0xF0000000: set all four flags, touching nothing else.
    process_instruction(&mut emulator, 0xE328_F20F);
    assert!(emulator.cpu.get_n());
    assert!(emulator.cpu.get_z());
    assert!(emulator.cpu.get_c());
    assert!(emulator.cpu.get_v());
    assert_eq!(emulator.read_cpsr() & 0x0fff_ffff, 0xdf);

    // mrs r0, cpsr: the whole status word lands in r0.
    process_instruction(&mut emulator, 0xE10F_0000);
    assert_eq!(emulator.cpu.get_register_value(r0), emulator.read_cpsr());
}

#[test]
fn behavior_mrs_spsr_without_one_faults_to_und() {
    let mut emulator = Emulator::dummy();

    emulator.cpu.set_register_value(r15, 0x0300_0020);

    // mrs r0, spsr in SYS mode: a mode fault, translated to the
    // undefined-instruction exception.
    let cycles = process_instruction(&mut emulator, 0xE14F_0000);

    assert_eq!(cycles, 1);
    assert_eq!(emulator.read_cpsr() & 0x1f, 0b11011);
    assert_eq!(emulator.cpu.get_register_value(r14), 0x0300_0020);
    assert_eq!(emulator.cpu.get_register_value(r15), 0x0000_0004);
}

#[test]
fn behavior_ldm_stm_user_bank_variant() {
    let mut emulator = Emulator::dummy();

    // Plant two words and load them into the user bank of r13/r14 from
    // SVC mode: ldmia r0, {r13, r14}^.
    emulator.memory.write_word(0x0300_0000, 0x0101_0101);
    emulator.memory.write_word(0x0300_0004, 0x0202_0202);
    emulator.cpu.set_operation_mode(lavender::cpu::OperationModes::SVC);
    emulator.cpu.set_register_value(r0, 0x0300_0000);
    emulator.cpu.set_register_value(r13, 0x5555_5555);

    process_instruction(&mut emulator, 0xE8D0_6000);

    // The SVC bank is untouched; the user bank took the loads.
    assert_eq!(emulator.cpu.get_register_value(r13), 0x5555_5555);
    emulator.cpu.set_operation_mode(lavender::cpu::OperationModes::SYS);
    assert_eq!(emulator.cpu.get_register_value(r13), 0x0101_0101);
    assert_eq!(emulator.cpu.get_register_value(r14), 0x0202_0202);

    // From FIQ mode, stmia r0, {r8}^ stores the user r8, not the shadow.
    emulator.cpu.set_register_value(r8, 0x0A0A_0A0A);
    emulator.cpu.set_operation_mode(lavender::cpu::OperationModes::FIQ);
    emulator.cpu.set_register_value(r8, 0x0B0B_0B0B);
    emulator.cpu.set_register_value(r0, 0x0300_0008);

    process_instruction(&mut emulator, 0xE8C0_0100);

    assert_eq!(emulator.memory.read_word(0x0300_0008), 0x0A0A_0A0A);
}
