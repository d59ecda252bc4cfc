//! The emulator: the ARM7TDMI processor together with the mapped memory and
//! the cycle budget that paces a frame.

use vstd::prelude::*;

use crate::cpu::{Arm7Tdmi, OperationModes, RegisterNames};
use crate::memory::{
    spec_read_word, Memory, BIOS_SIZE, EXT_SIZE, IO_SIZE, OBJECT_ATTRIBUTE_SIZE, PALETTE_SIZE,
    RAM_SIZE, SAVE_SIZE, VRAM_SIZE,
};

verus! {

/// The CPU cycles available per frame: a 16.78 MHz clock divided by a 60 Hz
/// display refresh.
pub const CYCLES_PER_FRAME: u32 = 279_666;

/// One emulated Game Boy Advance: processor, memory, and the cycle budget
/// carried between frames.
pub struct Emulator {
    pub cpu: Arm7Tdmi,
    pub memory: Memory,
    /// How much more the emulator should run before the next frame is due.
    /// When it reaches zero, execution pauses until the host asks for the
    /// next frame.
    pub remaining_cycles: u32,
}

impl Emulator {
    /// Well-formedness: the register file holds a valid operation mode.
    pub open spec fn wf(self) -> bool {
        self.cpu.registers.wf()
    }

    /// The emulator with the register file replaced and everything else -
    /// memory, halt state, cycle budget - kept.
    pub open spec fn spec_with_registers(self, rs: crate::cpu::RegisterSet) -> Emulator {
        Emulator { cpu: Arm7Tdmi { registers: rs, ..self.cpu }, ..self }
    }

    /// The emulator with the cycle remainder replaced and everything else
    /// kept.
    pub open spec fn spec_with_remaining(self, remaining: u32) -> Emulator {
        Emulator { remaining_cycles: remaining, ..self }
    }

    /// A new emulator with BIOS and the full memory space available, reset
    /// and ready for a ROM.
    pub fn new() -> (r: Emulator)
        ensures
            r.wf(),
            r.cpu.halt == true,
            r.cpu.registers.spec_mode() == OperationModes::SYS,
            r.cpu.registers.cpsr == 0xdfu32,
            r.cpu.registers.r15 == 0,
            r.remaining_cycles == 0,
            r.memory@.bios.len() == BIOS_SIZE as int,
            r.memory@.ext.len() == EXT_SIZE as int,
            r.memory@.ram.len() == RAM_SIZE as int,
            r.memory@.io.len() == IO_SIZE as int,
            r.memory@.palette.len() == PALETTE_SIZE as int,
            r.memory@.vram.len() == VRAM_SIZE as int,
            r.memory@.object.len() == OBJECT_ATTRIBUTE_SIZE as int,
            r.memory@.rom.len() == 1,
            r.memory@.save.len() == SAVE_SIZE as int,
            forall|i: int|
                0 <= i < 548 ==> r.memory@.bios[i] == crate::memory::spec_bios_image()[i],
            forall|i: int| 548 <= i < BIOS_SIZE ==> r.memory@.bios[i] == 0,
            forall|i: int| 0 <= i < EXT_SIZE ==> r.memory@.ext[i] == 0,
            forall|i: int| 0 <= i < RAM_SIZE ==> r.memory@.ram[i] == 0,
            forall|i: int| 0 <= i < IO_SIZE ==> r.memory@.io[i] == 0,
            forall|i: int| 0 <= i < PALETTE_SIZE ==> r.memory@.palette[i] == 0,
            forall|i: int| 0 <= i < VRAM_SIZE ==> r.memory@.vram[i] == 0,
            forall|i: int| 0 <= i < OBJECT_ATTRIBUTE_SIZE ==> r.memory@.object[i] == 0,
            r.memory@.rom[0] == 0,
            forall|i: int| 0 <= i < SAVE_SIZE ==> r.memory@.save[i] == 0,
            spec_read_word(r.memory@, 0) == 0xea00_0006,
    {
        Emulator { cpu: Arm7Tdmi::init(), memory: Memory::init(), remaining_cycles: 0 }
    }

    /// A simplified emulator for unit testing: no BIOS image and only a few
    /// bytes per memory region.
    pub fn dummy() -> (r: Emulator)
        ensures
            r.wf(),
            r.cpu.halt == true,
            r.cpu.registers.spec_mode() == OperationModes::SYS,
            r.cpu.registers.cpsr == 0xdfu32,
            r.cpu.registers.r0 == 0 && r.cpu.registers.r1 == 0 && r.cpu.registers.r2 == 0
                && r.cpu.registers.r3 == 0,
            r.cpu.registers.r4 == 0 && r.cpu.registers.r5 == 0 && r.cpu.registers.r6 == 0
                && r.cpu.registers.r7 == 0,
            r.cpu.registers.r13 == 0 && r.cpu.registers.r14 == 0 && r.cpu.registers.r15 == 0,
            r.remaining_cycles == 0,
            r.memory@.bios.len() == 32,
            r.memory@.ext.len() == 32,
            r.memory@.ram.len() == 32,
            r.memory@.io.len() == 32,
            r.memory@.palette.len() == 32,
            r.memory@.vram.len() == 32,
            r.memory@.object.len() == 32,
            r.memory@.rom.len() == 1,
            r.memory@.save.len() == 32,
            forall|i: int| 0 <= i < 32 ==> r.memory@.bios[i] == 0,
            forall|i: int| 0 <= i < 32 ==> r.memory@.ext[i] == 0,
            forall|i: int| 0 <= i < 32 ==> r.memory@.ram[i] == 0,
            forall|i: int| 0 <= i < 32 ==> r.memory@.io[i] == 0,
            forall|i: int| 0 <= i < 32 ==> r.memory@.palette[i] == 0,
            forall|i: int| 0 <= i < 32 ==> r.memory@.vram[i] == 0,
            forall|i: int| 0 <= i < 32 ==> r.memory@.object[i] == 0,
            r.memory@.rom[0] == 0,
            forall|i: int| 0 <= i < 32 ==> r.memory@.save[i] == 0,
    {
        Emulator {
            cpu: Arm7Tdmi::init(),
            memory: Memory::init_small_no_bios(),
            remaining_cycles: 0,
        }
    }

    /// Insert a cartridge: replace the ROM image with the given bytes. The
    /// program counter is unchanged.
    pub fn load_rom(&mut self, rom: &[u8])
        ensures
            final(self).memory@.rom == rom@,
            final(self).memory@.bios == old(self).memory@.bios,
            final(self).memory@.ext == old(self).memory@.ext,
            final(self).memory@.ram == old(self).memory@.ram,
            final(self).memory@.io == old(self).memory@.io,
            final(self).memory@.palette == old(self).memory@.palette,
            final(self).memory@.vram == old(self).memory@.vram,
            final(self).memory@.object == old(self).memory@.object,
            final(self).memory@.save == old(self).memory@.save,
            final(self).cpu == old(self).cpu,
            final(self).remaining_cycles == old(self).remaining_cycles,
    {
        self.memory.rom = vstd::slice::slice_to_vec(rom);
    }

    /// The sixteen general-purpose registers as the current mode sees them.
    pub fn read_registers(&self) -> (r: Vec<u32>)
        requires
            self.wf(),
        ensures
            r@.len() == 16,
            forall|i: int|
                0 <= i < 16 ==> r@[i] == self.cpu.registers.spec_reg(
                    crate::cpu::spec_register_from_bits(i as u32),
                ),
    {
        let mut out: Vec<u32> = Vec::new();
        let mut i: u32 = 0;
        while i < 16
            invariant
                self.wf(),
                i <= 16,
                out@.len() == i as int,
                forall|j: int|
                    0 <= j < i as int ==> out@[j] == self.cpu.registers.spec_reg(
                        crate::cpu::spec_register_from_bits(j as u32),
                    ),
            decreases 16 - i,
        {
            let name = crate::cpu::register_from_bits(i);
            out.push(self.cpu.get_register_value(name));
            i += 1;
        }
        out
    }

    /// The raw CPSR value, with the bit layout of the register file.
    pub fn read_cpsr(&self) -> (r: u32)
        ensures
            r == self.cpu.registers.cpsr,
    {
        self.cpu.registers.cpsr
    }

    /// The raw word at the program counter, as the decoder would fetch it
    /// in ARM state.
    pub fn read_next_instruction(&self) -> (r: u32)
        requires
            self.cpu.registers.r15 % 4 == 0,
        ensures
            r == spec_read_word(self.memory@, self.cpu.registers.r15),
    {
        self.memory.read_word(self.cpu.registers.r15)
    }

    /// Write a handful of pixels and a bitmap display mode, to give the
    /// host something to show.
    pub fn test(&mut self)
        ensures
            final(self).cpu == old(self).cpu,
            final(self).remaining_cycles == old(self).remaining_cycles,
            final(self).memory@ == crate::memory::spec_write_half(
                crate::memory::spec_write_half(
                    crate::memory::spec_write_half(
                        crate::memory::spec_write_half(old(self).memory@, 0x0400_0000, 0x0403),
                        0x0600_96f0,
                        0x03ff,
                    ),
                    0x0600_9710,
                    0x7c16,
                ),
                0x0600_b4f0,
                0x4fe3,
            ),
    {
        // Set the display to a bitmap mode.
        self.memory.write_half_word(0x0400_0000, 0x0403);

        // A few test pixels: the VRAM offset of (x, y) is (x + y * 240) * 2.
        self.memory.write_half_word(0x0600_0000 + (120 + 80 * 240) * 2, 0x03ff);
        self.memory.write_half_word(0x0600_0000 + (136 + 80 * 240) * 2, 0x7c16);
        self.memory.write_half_word(0x0600_0000 + (120 + 96 * 240) * 2, 0x4fe3);
    }
}

/// How one fetched instruction leaves the machine. The word (ARM state) or
/// halfword (Thumb state) at the program counter is fetched, the program
/// counter advances by one instruction before the handler runs - so reads
/// of it inside the handler see the pipeline value - and the handler steps
/// the machine per its own specification.
pub open spec fn spec_step_rel(pre: Emulator, post: Emulator, cycles: u32) -> bool {
    let rs = pre.cpu.registers;
    if rs.cpsr & crate::cpu::THUMB_BIT == 0 {
        let inst = spec_read_word(pre.memory@, rs.r15 & 0xffff_fffc);
        let advanced = pre.spec_with_registers(
            rs.spec_set(RegisterNames::r15, rs.r15.wrapping_add(4)),
        );
        crate::arm::spec_process_rel(advanced, post, inst, cycles)
    } else {
        let inst = crate::memory::spec_read_half(pre.memory@, rs.r15 & 0xffff_fffe);
        let advanced = pre.spec_with_registers(
            rs.spec_set(RegisterNames::r15, rs.r15.wrapping_add(2)),
        );
        crate::thumb::spec_process_rel(advanced, post, inst, cycles)
    }
}

/// A run of the frame loop: `steps` instructions execute one after the
/// other, each stepping the machine per `spec_step_rel` and taking its
/// cycle cost off the carried remainder, saturating at zero.
pub open spec fn spec_frame_run(pre: Emulator, post: Emulator, steps: nat) -> bool
    decreases steps,
{
    if steps == 0 {
        post == pre
    } else {
        exists|mid: Emulator, cycles: u32|
            #[trigger] spec_step_rel(pre, mid, cycles) && spec_frame_run(
                mid.spec_with_remaining(mid.remaining_cycles.saturating_sub(cycles)),
                post,
                (steps - 1) as nat,
            )
    }
}

/// A frame run extends by one instruction: stepping once more from its
/// end state and charging the cost yields a run one step longer.
proof fn lemma_frame_run_extend(
    start: Emulator,
    from: Emulator,
    stepped: Emulator,
    steps: nat,
    cycles: u32,
)
    requires
        spec_frame_run(start, from, steps),
        spec_step_rel(from, stepped, cycles),
    ensures
        spec_frame_run(
            start,
            stepped.spec_with_remaining(stepped.remaining_cycles.saturating_sub(cycles)),
            steps + 1,
        ),
    decreases steps,
{
    let charged = stepped.spec_with_remaining(stepped.remaining_cycles.saturating_sub(cycles));
    if steps == 0 {
        assert(spec_step_rel(start, stepped, cycles));
        assert(spec_frame_run(charged, charged, 0));
    } else {
        let (mid, first_cycles) = choose|mid: Emulator, first_cycles: u32|
            #[trigger] spec_step_rel(start, mid, first_cycles) && spec_frame_run(
                mid.spec_with_remaining(mid.remaining_cycles.saturating_sub(first_cycles)),
                from,
                (steps - 1) as nat,
            );
        lemma_frame_run_extend(
            mid.spec_with_remaining(mid.remaining_cycles.saturating_sub(first_cycles)),
            from,
            stepped,
            (steps - 1) as nat,
            cycles,
        );
    }
}

impl Emulator {
    /// Fetch, decode and execute one instruction, returning the cycles it
    /// used. The fetch address is the program counter forced to the
    /// alignment of the current instruction set.
    pub fn step_instruction(&mut self) -> (r: u32)
        requires
            old(self).wf(),
        ensures
            spec_step_rel(*old(self), *final(self), r),
            final(self).wf(),
            1 <= r <= 5,
    {
        let pc = self.cpu.registers.r15;

        if !self.cpu.get_thumb_bit() {
            proof {
                assert((pc & 0xffff_fffcu32) % 4 == 0) by (bit_vector);
            }
            let instruction = self.memory.read_word(pc & 0xffff_fffc);
            self.cpu.set_register_value(RegisterNames::r15, pc.wrapping_add(4));
            crate::arm::process_instruction(self, instruction)
        } else {
            proof {
                assert((pc & 0xffff_fffeu32) % 2 == 0) by (bit_vector);
            }
            let instruction = self.memory.read_half_word(pc & 0xffff_fffe);
            self.cpu.set_register_value(RegisterNames::r15, pc.wrapping_add(2));
            crate::thumb::process_instruction(self, instruction)
        }
    }

    /// Advance by one frame: add the frame's cycle budget to the carried
    /// remainder and execute instructions until it is spent, saturating at
    /// zero. The run is a chain of `step_instruction` transitions, each
    /// one's cost taken off the remainder, starting from the budgeted
    /// state.
    pub fn step_frame(&mut self)
        requires
            old(self).wf(),
        ensures
            final(self).wf(),
            final(self).remaining_cycles == 0,
            exists|steps: nat|
                spec_frame_run(
                    old(self).spec_with_remaining(
                        old(self).remaining_cycles.saturating_add(CYCLES_PER_FRAME),
                    ),
                    *final(self),
                    steps,
                ),
    {
        self.remaining_cycles = self.remaining_cycles.saturating_add(CYCLES_PER_FRAME);
        let ghost start = *self;
        proof {
            assert(spec_frame_run(start, *self, 0));
        }

        while self.remaining_cycles > 0
            invariant
                self.wf(),
                exists|steps: nat| spec_frame_run(start, *self, steps),
            decreases self.remaining_cycles,
        {
            let ghost before = *self;
            let ghost prior_steps: nat = choose|steps: nat| spec_frame_run(start, before, steps);

            let cycles_used = self.step_instruction();
            let ghost stepped = *self;
            self.remaining_cycles = self.remaining_cycles.saturating_sub(cycles_used);

            proof {
                lemma_frame_run_extend(start, before, stepped, prior_steps, cycles_used);
                assert(spec_frame_run(start, *self, prior_steps + 1));
            }
        }

        proof {
            let steps = choose|steps: nat| spec_frame_run(start, *self, steps);
            assert(start == old(self).spec_with_remaining(
                old(self).remaining_cycles.saturating_add(CYCLES_PER_FRAME),
            ));
            assert(spec_frame_run(
                old(self).spec_with_remaining(
                    old(self).remaining_cycles.saturating_add(CYCLES_PER_FRAME),
                ),
                *self,
                steps,
            ));
        }
    }

    /// Advance by the given number of frames: one budgeted frame run after
    /// another, each executed to a zero remainder.
    pub fn step_frames(&mut self, frames: u32)
        requires
            old(self).wf(),
        ensures
            final(self).wf(),
            frames > 0 ==> final(self).remaining_cycles == 0,
            spec_frames_run(*old(self), *final(self), frames),
    {
        let ghost start = *self;
        proof {
            assert(spec_frames_run(start, *self, 0));
        }
        let mut i: u32 = 0;
        while i < frames
            invariant
                self.wf(),
                i <= frames,
                i > 0 ==> self.remaining_cycles == 0,
                spec_frames_run(start, *self, i),
            decreases frames - i,
        {
            let ghost before = *self;

            self.step_frame();

            proof {
                let steps = choose|steps: nat|
                    spec_frame_run(
                        before.spec_with_remaining(
                            before.remaining_cycles.saturating_add(CYCLES_PER_FRAME),
                        ),
                        *self,
                        steps,
                    );
                lemma_frames_run_extend(start, before, *self, i, steps);
            }
            i += 1;
        }
    }
}

/// A sequence of whole frames: each one adds the frame budget to the
/// carried remainder and runs `step_instruction` transitions until the
/// remainder reaches zero.
pub open spec fn spec_frames_run(pre: Emulator, post: Emulator, frames: u32) -> bool
    decreases frames,
{
    if frames == 0 {
        post == pre
    } else {
        exists|mid: Emulator, steps: nat|
            #[trigger] spec_frame_run(
                pre.spec_with_remaining(pre.remaining_cycles.saturating_add(CYCLES_PER_FRAME)),
                mid,
                steps,
            ) && mid.remaining_cycles == 0 && spec_frames_run(mid, post, (frames - 1) as u32)
    }
}

/// A frame sequence extends by one frame: running one more budgeted frame
/// to a zero remainder from its end state yields a sequence one frame
/// longer.
proof fn lemma_frames_run_extend(
    start: Emulator,
    from: Emulator,
    post: Emulator,
    frames: u32,
    steps: nat,
)
    requires
        frames < 0xffff_ffffu32,
        spec_frames_run(start, from, frames),
        spec_frame_run(
            from.spec_with_remaining(from.remaining_cycles.saturating_add(CYCLES_PER_FRAME)),
            post,
            steps,
        ),
        post.remaining_cycles == 0,
    ensures
        spec_frames_run(start, post, (frames + 1) as u32),
    decreases frames,
{
    if frames == 0 {
        assert(spec_frames_run(post, post, 0));
    } else {
        let (mid, first_steps) = choose|mid: Emulator, first_steps: nat|
            #[trigger] spec_frame_run(
                start.spec_with_remaining(
                    start.remaining_cycles.saturating_add(CYCLES_PER_FRAME),
                ),
                mid,
                first_steps,
            ) && mid.remaining_cycles == 0 && spec_frames_run(mid, from, (frames - 1) as u32);
        lemma_frames_run_extend(mid, from, post, (frames - 1) as u32, steps);
    }
}

} // verus!
