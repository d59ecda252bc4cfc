//! Tests for the bit-field helpers and the emulator facade: fetch and
//! step, frame pacing, and the host snapshots.

use lavender::bits::{get_bit, get_bits};
use lavender::thumb::decode_instruction as thumb_decode;
use lavender::thumb::process_instruction as thumb_process;
use lavender::thumb::ThumbInstruction;
use lavender::cpu::RegisterNames::{r0, r1, r13, r14, r15, r2, r3, r4, r5};
use lavender::emulator::Emulator;

#[test]
fn get_bits_test() {
    assert_eq!(get_bits(0b0110_1001_1010_0101, 3, 0), 0b0101);
    assert_eq!(get_bits(0b0110_1001_1010_0101, 7, 4), 0b1010);
}

#[test]
fn test_adc() {}

#[test]
fn get_bit_reads_single_bits() {
    assert!(get_bit(0x8000_0000, 31));
    assert!(!get_bit(0x8000_0000, 30));
    assert!(get_bit(1, 0));
}

#[test]
fn step_instruction_fetches_at_pc_and_advances() {
    let mut emulator = Emulator::dummy();

    // Plant `add r3, r3, #1` at address 8 of the internal work RAM and
    // point the program counter at it.
    emulator.memory.write_word(0x0300_0008, 0xE283_3001);
    emulator.cpu.set_register_value(lavender::cpu::RegisterNames::r15, 0x0300_0008);
    emulator.cpu.set_register_value(r3, 41);

    let cycles = emulator.step_instruction();

    assert!(cycles >= 1);
    assert_eq!(emulator.cpu.get_register_value(r3), 42);
    assert_eq!(
        emulator.cpu.get_register_value(lavender::cpu::RegisterNames::r15),
        0x0300_000C
    );
}

#[test]
fn step_frame_spends_the_whole_budget() {
    let mut emulator = Emulator::dummy();

    // The zeroed test memory decodes as `andeq r0, r0, r0`, an endless
    // run of no-ops; the frame still terminates when the budget is spent.
    emulator.step_frame();
    assert_eq!(emulator.remaining_cycles, 0);

    emulator.step_frames(2);
    assert_eq!(emulator.remaining_cycles, 0);
}

#[test]
fn read_registers_reflects_the_current_mode() {
    let mut emulator = Emulator::dummy();

    emulator.cpu.set_register_value(r5, 0x1234_5678);
    let registers = emulator.read_registers();

    assert_eq!(registers.len(), 16);
    assert_eq!(registers[5], 0x1234_5678);
    assert_eq!(registers[0], 0);
}

#[test]
fn read_cpsr_exposes_the_raw_status_word() {
    let emulator = Emulator::dummy();
    // Reset state: SYS mode with both interrupt classes masked.
    assert_eq!(emulator.read_cpsr(), 0xdf);
}

#[test]
fn read_next_instruction_fetches_the_bios_word() {
    let emulator = Emulator::new();
    // The program counter starts at zero: the next instruction is the
    // BIOS reset vector.
    assert_eq!(emulator.read_next_instruction(), 0xea00_0006);
}

#[test]
fn test_pattern_writes_pixels() {
    let mut emulator = Emulator::new();
    emulator.test();

    // The display control register selects the bitmap mode.
    assert_eq!(emulator.memory.read_half_word(0x0400_0000), 0x0403);
    // One of the planted pixels.
    assert_eq!(emulator.memory.read_half_word(0x0600_96f0), 0x03ff);
}

#[test]
fn load_rom_replaces_only_the_image() {
    let mut emulator = Emulator::new();

    emulator.load_rom(&[1, 2, 3, 4, 5]);
    assert_eq!(emulator.memory.rom, vec![1, 2, 3, 4, 5]);
    // The BIOS is untouched.
    assert_eq!(emulator.memory.read_word(0), 0xea00_0006);
}

#[test]
fn thumb_state_fetches_halfwords() {
    let mut emulator = Emulator::dummy();

    emulator.cpu.set_thumb_bit(true);
    emulator.cpu.set_register_value(lavender::cpu::RegisterNames::r15, 0x0300_0010);

    let cycles = emulator.step_instruction();

    assert_eq!(cycles, 1);
    assert_eq!(
        emulator.cpu.get_register_value(lavender::cpu::RegisterNames::r15),
        0x0300_0012
    );
}

#[test]
fn thumb_decode_classifies_the_families() {
    assert_eq!(thumb_decode(0xdf00), ThumbInstruction::Swi);
    assert_eq!(thumb_decode(0x0000), ThumbInstruction::Lsl);
    assert_eq!(thumb_decode(0x0800), ThumbInstruction::Lsr);
    assert_eq!(thumb_decode(0x1000), ThumbInstruction::Asr);
    assert_eq!(thumb_decode(0x1800), ThumbInstruction::Add);
    assert_eq!(thumb_decode(0x1a00), ThumbInstruction::Sub);
    assert_eq!(thumb_decode(0x2000), ThumbInstruction::Mov);
    assert_eq!(thumb_decode(0x2800), ThumbInstruction::Cmp);
    // The register ALU operations.
    assert_eq!(thumb_decode(0x4000), ThumbInstruction::And);
    assert_eq!(thumb_decode(0x4040), ThumbInstruction::Eor);
    assert_eq!(thumb_decode(0x4140), ThumbInstruction::Adc);
    assert_eq!(thumb_decode(0x4240), ThumbInstruction::Neg);
    assert_eq!(thumb_decode(0x4340), ThumbInstruction::Mul);
    assert_eq!(thumb_decode(0x43c0), ThumbInstruction::Mvn);
    // Hi-register operations and branch-exchange.
    assert_eq!(thumb_decode(0x4400), ThumbInstruction::Add);
    assert_eq!(thumb_decode(0x4500), ThumbInstruction::Cmp);
    assert_eq!(thumb_decode(0x4600), ThumbInstruction::Mov);
    assert_eq!(thumb_decode(0x4700), ThumbInstruction::Bx);
    // Loads and stores in their addressing forms.
    assert_eq!(thumb_decode(0x4800), ThumbInstruction::Ldr);
    assert_eq!(thumb_decode(0x5000), ThumbInstruction::Str);
    assert_eq!(thumb_decode(0x5400), ThumbInstruction::Strb);
    assert_eq!(thumb_decode(0x5200), ThumbInstruction::Strh);
    assert_eq!(thumb_decode(0x5600), ThumbInstruction::Ldrsb);
    assert_eq!(thumb_decode(0x5a00), ThumbInstruction::Ldrh);
    assert_eq!(thumb_decode(0x5e00), ThumbInstruction::Ldrsh);
    assert_eq!(thumb_decode(0x6000), ThumbInstruction::Str);
    assert_eq!(thumb_decode(0x6800), ThumbInstruction::Ldr);
    assert_eq!(thumb_decode(0x7000), ThumbInstruction::Strb);
    assert_eq!(thumb_decode(0x7800), ThumbInstruction::Ldrb);
    assert_eq!(thumb_decode(0x8000), ThumbInstruction::Strh);
    assert_eq!(thumb_decode(0x8800), ThumbInstruction::Ldrh);
    assert_eq!(thumb_decode(0x9000), ThumbInstruction::Str);
    assert_eq!(thumb_decode(0x9800), ThumbInstruction::Ldr);
    // Address arithmetic, the stack, and multiple transfers.
    assert_eq!(thumb_decode(0xa000), ThumbInstruction::Add);
    assert_eq!(thumb_decode(0xb000), ThumbInstruction::Add);
    assert_eq!(thumb_decode(0xb080), ThumbInstruction::Sub);
    assert_eq!(thumb_decode(0xb400), ThumbInstruction::Push);
    assert_eq!(thumb_decode(0xbc00), ThumbInstruction::Pop);
    assert_eq!(thumb_decode(0xc000), ThumbInstruction::Stmia);
    assert_eq!(thumb_decode(0xc800), ThumbInstruction::Ldmia);
    // Branches.
    assert_eq!(thumb_decode(0xd000), ThumbInstruction::B);
    assert_eq!(thumb_decode(0xe000), ThumbInstruction::B);
    assert_eq!(thumb_decode(0xf000), ThumbInstruction::Bl);
    assert_eq!(thumb_decode(0xf800), ThumbInstruction::Bl);
    // The never condition and the halfword reserved for later
    // architectures stay unallocated.
    assert_eq!(thumb_decode(0xde00), ThumbInstruction::Placeholder);
    assert_eq!(thumb_decode(0xe800), ThumbInstruction::Placeholder);
}

#[test]
fn thumb_register_alu_operations() {
    let mut emulator = Emulator::dummy();

    // mov r0, #0xf0; mov r1, #0x3c
    thumb_process(&mut emulator, 0x20f0);
    thumb_process(&mut emulator, 0x213c);

    // and r0, r1
    thumb_process(&mut emulator, 0x4008);
    assert_eq!(emulator.cpu.get_register_value(r0), 0x30);

    // eor r0, r1
    thumb_process(&mut emulator, 0x4048);
    assert_eq!(emulator.cpu.get_register_value(r0), 0x0c);
    // orr r0, r1
    thumb_process(&mut emulator, 0x4308);
    assert_eq!(emulator.cpu.get_register_value(r0), 0x3c);
    // mul r0, r1
    thumb_process(&mut emulator, 0x4348);
    assert_eq!(emulator.cpu.get_register_value(r0), 0x3c * 0x3c);
    // neg r2, r1
    thumb_process(&mut emulator, 0x424a);
    assert_eq!(emulator.cpu.get_register_value(r2), 0x3cu32.wrapping_neg());
    // lsr r2, r1 by register: r1 = 0x3c > 32, so the value drains out.
    thumb_process(&mut emulator, 0x40ca);
    assert_eq!(emulator.cpu.get_register_value(r2), 0);
    assert!(emulator.cpu.get_z());
}

#[test]
fn thumb_hi_register_and_address_forms() {
    let mut emulator = Emulator::dummy();

    // mov r0, #8; mov r8 (hi), r0
    thumb_process(&mut emulator, 0x2008);
    thumb_process(&mut emulator, 0x4680);
    // add r0, r8 (hi): 8 + 8
    thumb_process(&mut emulator, 0x4440);
    assert_eq!(emulator.cpu.get_register_value(r0), 16);

    // cmp r0, r8 (hi): 16 - 8, no flags from the moves
    thumb_process(&mut emulator, 0x4540);
    assert!(!emulator.cpu.get_z());
    assert!(emulator.cpu.get_c());

    // add r1, sp, #16 then add sp, #8 and sub sp, #8
    emulator.cpu.set_register_value(r13, 0x0300_0000);
    thumb_process(&mut emulator, 0xa904);
    assert_eq!(emulator.cpu.get_register_value(r1), 0x0300_0010);
    thumb_process(&mut emulator, 0xb002);
    assert_eq!(emulator.cpu.get_register_value(r13), 0x0300_0008);
    thumb_process(&mut emulator, 0xb082);
    assert_eq!(emulator.cpu.get_register_value(r13), 0x0300_0000);
}

#[test]
fn thumb_loads_and_stores() {
    let mut emulator = Emulator::dummy();

    emulator.cpu.set_register_value(r1, 0x0300_0000);
    emulator.cpu.set_register_value(r0, 0x1234_8765);

    // str r0, [r1, #4]; ldr r2, [r1, #4]
    thumb_process(&mut emulator, 0x6048);
    thumb_process(&mut emulator, 0x684a);
    assert_eq!(emulator.cpu.get_register_value(r2), 0x1234_8765);

    // strb r0, [r1, #9]; ldrb r2, [r1, #9]
    thumb_process(&mut emulator, 0x7248);
    thumb_process(&mut emulator, 0x7a4a);
    assert_eq!(emulator.cpu.get_register_value(r2), 0x65);

    // strh r0, [r1, #12]; ldrh r2, [r1, #12]
    thumb_process(&mut emulator, 0x8188);
    thumb_process(&mut emulator, 0x898a);
    assert_eq!(emulator.cpu.get_register_value(r2), 0x8765);

    // ldrsh r2, [r1, r3] with r3 = 12: sign-extended
    thumb_process(&mut emulator, 0x230c);
    thumb_process(&mut emulator, 0x5eca);
    assert_eq!(emulator.cpu.get_register_value(r2), 0xffff_8765);

    // sp-relative store and load: str r0, [sp, #4]; ldr r4, [sp, #4]
    emulator.cpu.set_register_value(r13, 0x0300_0010);
    thumb_process(&mut emulator, 0x9001);
    thumb_process(&mut emulator, 0x9c01);
    assert_eq!(emulator.cpu.get_register_value(r4), 0x1234_8765);
}

#[test]
fn thumb_push_pop_and_multiple_transfers() {
    let mut emulator = Emulator::dummy();

    emulator.cpu.set_register_value(r0, 0x1111_1111);
    emulator.cpu.set_register_value(r1, 0x2222_2222);
    emulator.cpu.set_register_value(r14, 0x3333_3333);
    emulator.cpu.set_register_value(r13, 0x0300_0010);

    // push {r0, r1, lr}
    thumb_process(&mut emulator, 0xb503);
    assert_eq!(emulator.cpu.get_register_value(r13), 0x0300_0004);
    assert_eq!(emulator.memory.read_word(0x0300_0004), 0x1111_1111);
    assert_eq!(emulator.memory.read_word(0x0300_0008), 0x2222_2222);
    assert_eq!(emulator.memory.read_word(0x0300_000c), 0x3333_3333);

    // pop {r2, r3, pc}
    thumb_process(&mut emulator, 0xbd0c);
    assert_eq!(emulator.cpu.get_register_value(r2), 0x1111_1111);
    assert_eq!(emulator.cpu.get_register_value(r3), 0x2222_2222);
    assert_eq!(emulator.cpu.get_register_value(r15), 0x3333_3332);
    assert_eq!(emulator.cpu.get_register_value(r13), 0x0300_0010);

    // stmia r1!, {r0, r2} from a fresh base, then ldmia back
    emulator.cpu.set_register_value(r1, 0x0300_0000);
    thumb_process(&mut emulator, 0xc105);
    assert_eq!(emulator.cpu.get_register_value(r1), 0x0300_0008);
    assert_eq!(emulator.memory.read_word(0x0300_0000), 0x1111_1111);
    assert_eq!(emulator.memory.read_word(0x0300_0004), 0x1111_1111);

    emulator.cpu.set_register_value(r1, 0x0300_0000);
    thumb_process(&mut emulator, 0xc930);
    assert_eq!(emulator.cpu.get_register_value(r4), 0x1111_1111);
    assert_eq!(emulator.cpu.get_register_value(r5), 0x1111_1111);
    assert_eq!(emulator.cpu.get_register_value(r1), 0x0300_0008);
}

#[test]
fn thumb_long_branch_with_link() {
    let mut emulator = Emulator::dummy();

    emulator.cpu.set_register_value(r15, 0x0300_0104);

    // bl prefix with a high part of zero, then the suffix with a low
    // part of 0x20 halfwords.
    thumb_process(&mut emulator, 0xf000);
    assert_eq!(emulator.cpu.get_register_value(r14), 0x0300_0104);

    emulator.cpu.set_register_value(r15, 0x0300_0106);
    thumb_process(&mut emulator, 0xf820);
    assert_eq!(emulator.cpu.get_register_value(r15), 0x0300_0144);
    // The return address is the halfword after the pair, marked Thumb.
    assert_eq!(emulator.cpu.get_register_value(r14), 0x0300_0107);
}

#[test]
fn thumb_immediate_arithmetic_and_shifts() {
    let mut emulator = Emulator::dummy();

    // mov r0, #42
    thumb_process(&mut emulator, 0x202a);
    assert_eq!(emulator.cpu.get_register_value(r0), 42);

    // add r0, #1
    thumb_process(&mut emulator, 0x3001);
    assert_eq!(emulator.cpu.get_register_value(r0), 43);

    // lsl r1, r0, #4
    thumb_process(&mut emulator, 0x0101);
    assert_eq!(emulator.cpu.get_register_value(r1), 43 << 4);

    // sub r2, r1, r0 (three-register form)
    thumb_process(&mut emulator, 0x1a0a);
    assert_eq!(emulator.cpu.get_register_value(r2), (43 << 4) - 43);

    // cmp r0, #43: equal, so Z and C set.
    thumb_process(&mut emulator, 0x282b);
    assert!(emulator.cpu.get_z());
    assert!(emulator.cpu.get_c());
}

#[test]
fn thumb_branches_and_exchange() {
    let mut emulator = Emulator::dummy();

    emulator.cpu.set_register_value(r15, 0x0300_0000);

    // b +8 (unconditional, offset doubled from 4)
    thumb_process(&mut emulator, 0xe004);
    assert_eq!(emulator.cpu.get_register_value(r15), 0x0300_0008);

    // b -8
    thumb_process(&mut emulator, 0xe7fc);
    assert_eq!(emulator.cpu.get_register_value(r15), 0x0300_0000);

    // beq +4 with Z clear: not taken.
    thumb_process(&mut emulator, 0xd002);
    assert_eq!(emulator.cpu.get_register_value(r15), 0x0300_0000);

    // bne +4 with Z clear: taken.
    thumb_process(&mut emulator, 0xd102);
    assert_eq!(emulator.cpu.get_register_value(r15), 0x0300_0004);

    // bx r0 with an even address: back to the ARM instruction set.
    emulator.cpu.set_thumb_bit(true);
    emulator.cpu.set_register_value(r0, 0x0300_0020);
    thumb_process(&mut emulator, 0x4700);
    assert!(!emulator.cpu.get_thumb_bit());
    assert_eq!(emulator.cpu.get_register_value(r15), 0x0300_0020);
}
