//! A verified core of a Game Boy Advance emulator: the ARM7TDMI CPU with its
//! mode-banked register file, the memory map with per-region access rules, the
//! barrel shifter and load/store addressing modes, and the 32-bit ARM and
//! 16-bit Thumb instruction decoders and handlers.

pub mod arm;
pub mod bits;
pub mod cpu;
pub mod emulator;
pub mod memory;
pub mod thumb;
pub mod utils;
