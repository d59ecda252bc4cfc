//! The Game Boy Advance memory map: byte-addressable regions keyed by the
//! upper bits of the address, with byte, halfword and word access composed
//! little-endian. The BIOS region is read-only; reads outside every region
//! return zero and writes there are discarded.

use vstd::prelude::*;

verus! {

pub const BIOS_SIZE: u32 = 16 * 1024;

pub const BIOS_START: u32 = 0x0000_0000;

pub const BIOS_END: u32 = BIOS_START + BIOS_SIZE;

pub const EXT_SIZE: u32 = 256 * 1024;

pub const EXT_START: u32 = 0x0200_0000;

pub const EXT_END: u32 = EXT_START + EXT_SIZE;

pub const RAM_SIZE: u32 = 32 * 1024;

pub const RAM_START: u32 = 0x0300_0000;

pub const RAM_END: u32 = RAM_START + RAM_SIZE;

pub const IO_SIZE: u32 = 1024;

pub const IO_START: u32 = 0x0400_0000;

pub const IO_END: u32 = IO_START + IO_SIZE;

pub const PALETTE_SIZE: u32 = 1024;

pub const PALETTE_START: u32 = 0x0500_0000;

pub const PALETTE_END: u32 = PALETTE_START + PALETTE_SIZE;

pub const VRAM_SIZE: u32 = 96 * 1024;

pub const VRAM_START: u32 = 0x0600_0000;

pub const VRAM_END: u32 = VRAM_START + VRAM_SIZE;

pub const OBJECT_ATTRIBUTE_SIZE: u32 = 1024;

pub const OBJECT_ATTRIBUTE_START: u32 = 0x0700_0000;

pub const OBJECT_ATTRIBUTE_END: u32 = OBJECT_ATTRIBUTE_START + OBJECT_ATTRIBUTE_SIZE;

pub const ROM_SIZE: u32 = 32 * 1024 * 1024;

pub const ROM_START: u32 = 0x0800_0000;

pub const ROM_END: u32 = ROM_START + ROM_SIZE;

pub const ROM_WAIT1_START: u32 = 0x0a00_0000;

pub const ROM_WAIT1_END: u32 = ROM_WAIT1_START + ROM_SIZE;

pub const ROM_WAIT2_START: u32 = 0x0c00_0000;

pub const ROM_WAIT2_END: u32 = ROM_WAIT2_START + ROM_SIZE;

pub const SAVE_SIZE: u32 = 64 * 1024;

pub const SAVE_START: u32 = 0x0e00_0000;

pub const SAVE_END: u32 = SAVE_START + SAVE_SIZE;

/// The memory of the system, one byte vector per mapped region.
pub struct Memory {
    /// The BIOS of the Game Boy Advance: home of the software interrupt
    /// table. Read-only through the memory map.
    pub bios: Vec<u8>,
    /// The work RAM on the board, outside the CPU package.
    pub ext: Vec<u8>,
    /// The work RAM embedded in the CPU package.
    pub ram: Vec<u8>,
    /// Address space of the memory-mapped IO registers.
    pub io: Vec<u8>,
    /// Colour palette for the display modes that use palettes.
    pub palette: Vec<u8>,
    /// Video memory: background layers or bitmaps depending on the display
    /// mode.
    pub vram: Vec<u8>,
    /// Object attribute memory: the properties of the sprite layer.
    pub object: Vec<u8>,
    /// The ROM image of the currently inserted cartridge; also reachable
    /// through the two wait-state mirrors.
    pub rom: Vec<u8>,
    /// The writable save memory inside the cartridge.
    pub save: Vec<u8>,
}

/// The mathematical view of a `Memory`: one byte sequence per region.
pub struct MemView {
    pub bios: Seq<u8>,
    pub ext: Seq<u8>,
    pub ram: Seq<u8>,
    pub io: Seq<u8>,
    pub palette: Seq<u8>,
    pub vram: Seq<u8>,
    pub object: Seq<u8>,
    pub rom: Seq<u8>,
    pub save: Seq<u8>,
}

impl View for Memory {
    type V = MemView;

    open spec fn view(&self) -> MemView {
        MemView {
            bios: self.bios@,
            ext: self.ext@,
            ram: self.ram@,
            io: self.io@,
            palette: self.palette@,
            vram: self.vram@,
            object: self.object@,
            rom: self.rom@,
            save: self.save@,
        }
    }
}

/// The byte a region holds at an offset; zero beyond the region's backing.
pub open spec fn spec_region_byte(region: Seq<u8>, offset: int) -> u8 {
    if 0 <= offset < region.len() {
        region[offset]
    } else {
        0
    }
}

/// The region with the byte at an offset replaced; unchanged beyond the
/// region's backing.
pub open spec fn spec_region_set(region: Seq<u8>, offset: int, value: u8) -> Seq<u8> {
    if 0 <= offset < region.len() {
        region.update(offset, value)
    } else {
        region
    }
}

/// The byte that a read of `address` returns: region-dispatched, zero
/// outside every mapped region.
pub open spec fn spec_read_byte(m: MemView, address: u32) -> u8 {
    if address < BIOS_END {
        spec_region_byte(m.bios, address - BIOS_START)
    } else if EXT_START <= address && address < EXT_END {
        spec_region_byte(m.ext, address - EXT_START)
    } else if RAM_START <= address && address < RAM_END {
        spec_region_byte(m.ram, address - RAM_START)
    } else if IO_START <= address && address < IO_END {
        spec_region_byte(m.io, address - IO_START)
    } else if PALETTE_START <= address && address < PALETTE_END {
        spec_region_byte(m.palette, address - PALETTE_START)
    } else if VRAM_START <= address && address < VRAM_END {
        spec_region_byte(m.vram, address - VRAM_START)
    } else if OBJECT_ATTRIBUTE_START <= address && address < OBJECT_ATTRIBUTE_END {
        spec_region_byte(m.object, address - OBJECT_ATTRIBUTE_START)
    } else if ROM_START <= address && address < ROM_END {
        spec_region_byte(m.rom, address - ROM_START)
    } else if ROM_WAIT1_START <= address && address < ROM_WAIT1_END {
        spec_region_byte(m.rom, address - ROM_WAIT1_START)
    } else if ROM_WAIT2_START <= address && address < ROM_WAIT2_END {
        spec_region_byte(m.rom, address - ROM_WAIT2_START)
    } else if SAVE_START <= address && address < SAVE_END {
        spec_region_byte(m.save, address - SAVE_START)
    } else {
        0
    }
}

/// The memory after a byte write to `address`. The BIOS is absent on
/// purpose: writes to it, and outside every writable region, are dropped.
pub open spec fn spec_write_byte(m: MemView, address: u32, value: u8) -> MemView {
    if EXT_START <= address && address < EXT_END {
        MemView { ext: spec_region_set(m.ext, address - EXT_START, value), ..m }
    } else if RAM_START <= address && address < RAM_END {
        MemView { ram: spec_region_set(m.ram, address - RAM_START, value), ..m }
    } else if IO_START <= address && address < IO_END {
        MemView { io: spec_region_set(m.io, address - IO_START, value), ..m }
    } else if PALETTE_START <= address && address < PALETTE_END {
        MemView { palette: spec_region_set(m.palette, address - PALETTE_START, value), ..m }
    } else if VRAM_START <= address && address < VRAM_END {
        MemView { vram: spec_region_set(m.vram, address - VRAM_START, value), ..m }
    } else if OBJECT_ATTRIBUTE_START <= address && address < OBJECT_ATTRIBUTE_END {
        MemView { object: spec_region_set(m.object, address - OBJECT_ATTRIBUTE_START, value), ..m }
    } else if ROM_START <= address && address < ROM_END {
        MemView { rom: spec_region_set(m.rom, address - ROM_START, value), ..m }
    } else if ROM_WAIT1_START <= address && address < ROM_WAIT1_END {
        MemView { rom: spec_region_set(m.rom, address - ROM_WAIT1_START, value), ..m }
    } else if ROM_WAIT2_START <= address && address < ROM_WAIT2_END {
        MemView { rom: spec_region_set(m.rom, address - ROM_WAIT2_START, value), ..m }
    } else if SAVE_START <= address && address < SAVE_END {
        MemView { save: spec_region_set(m.save, address - SAVE_START, value), ..m }
    } else {
        m
    }
}

/// The halfword read at an even address, composed little-endian.
pub open spec fn spec_read_half(m: MemView, address: u32) -> u16 {
    (spec_read_byte(m, address) as u16) | ((spec_read_byte(m, (address + 1) as u32) as u16) << 8)
}

/// The word read at a word-aligned address, composed little-endian.
pub open spec fn spec_read_word(m: MemView, address: u32) -> u32 {
    (spec_read_byte(m, address) as u32) | ((spec_read_byte(m, (address + 1) as u32) as u32) << 8)
        | ((spec_read_byte(m, (address + 2) as u32) as u32) << 16) | ((spec_read_byte(
        m,
        (address + 3) as u32,
    ) as u32) << 24)
}

/// The memory after a halfword write at an even address, little-endian.
pub open spec fn spec_write_half(m: MemView, address: u32, value: u16) -> MemView {
    spec_write_byte(
        spec_write_byte(m, address, (value & 0xff) as u8),
        (address + 1) as u32,
        ((value >> 8) & 0xff) as u8,
    )
}

/// The memory after a word write at a word-aligned address, little-endian.
pub open spec fn spec_write_word(m: MemView, address: u32, value: u32) -> MemView {
    spec_write_byte(
        spec_write_byte(
            spec_write_byte(
                spec_write_byte(m, address, (value & 0xff) as u8),
                (address + 1) as u32,
                ((value >> 8) & 0xff) as u8,
            ),
            (address + 2) as u32,
            ((value >> 16) & 0xff) as u8,
        ),
        (address + 3) as u32,
        ((value >> 24) & 0xff) as u8,
    )
}

/// The byte of a region at an offset; zero beyond the backing vector, so
/// that partially sized regions read as zero-filled.
fn region_byte(region: &Vec<u8>, offset: u32) -> (r: u8)
    ensures
        r == spec_region_byte(region@, offset as int),
{
    if (offset as usize) < region.len() {
        region[offset as usize]
    } else {
        0
    }
}

/// Replace the byte of a region at an offset; dropped beyond the backing
/// vector.
fn region_set(region: &mut Vec<u8>, offset: u32, value: u8)
    ensures
        final(region)@ == spec_region_set(old(region)@, offset as int, value),
{
    if (offset as usize) < region.len() {
        region.set(offset as usize, value);
    }
}

/// A zero-filled byte vector of the given length.
fn zeroed(n: usize) -> (v: Vec<u8>)
    ensures
        v@.len() == n,
        forall|i: int| 0 <= i < n ==> v@[i] == 0,
{
    let mut v: Vec<u8> = Vec::new();
    while v.len() < n
        invariant
            v@.len() <= n,
            forall|i: int| 0 <= i < v@.len() ==> v@[i] == 0,
        decreases n - v@.len(),
    {
        v.push(0);
    }
    v
}

impl Memory {
    /// Read one byte, dispatched by region. Reads outside every mapped
    /// region, and beyond a region's backing, return zero.
    pub fn read_byte(&self, address: u32) -> (r: u8)
        ensures
            r == spec_read_byte(self@, address),
    {
        if address < BIOS_END {
            region_byte(&self.bios, address - BIOS_START)
        } else if EXT_START <= address && address < EXT_END {
            region_byte(&self.ext, address - EXT_START)
        } else if RAM_START <= address && address < RAM_END {
            region_byte(&self.ram, address - RAM_START)
        } else if IO_START <= address && address < IO_END {
            region_byte(&self.io, address - IO_START)
        } else if PALETTE_START <= address && address < PALETTE_END {
            region_byte(&self.palette, address - PALETTE_START)
        } else if VRAM_START <= address && address < VRAM_END {
            region_byte(&self.vram, address - VRAM_START)
        } else if OBJECT_ATTRIBUTE_START <= address && address < OBJECT_ATTRIBUTE_END {
            region_byte(&self.object, address - OBJECT_ATTRIBUTE_START)
        } else if ROM_START <= address && address < ROM_END {
            region_byte(&self.rom, address - ROM_START)
        } else if ROM_WAIT1_START <= address && address < ROM_WAIT1_END {
            region_byte(&self.rom, address - ROM_WAIT1_START)
        } else if ROM_WAIT2_START <= address && address < ROM_WAIT2_END {
            region_byte(&self.rom, address - ROM_WAIT2_START)
        } else if SAVE_START <= address && address < SAVE_END {
            region_byte(&self.save, address - SAVE_START)
        } else {
            0
        }
    }

    /// Write one byte, dispatched by region. The BIOS is intentionally
    /// missing: writes to it are silently dropped, as are writes outside
    /// every writable region.
    pub fn write_byte(&mut self, address: u32, value: u8)
        ensures
            final(self)@ == spec_write_byte(old(self)@, address, value),
    {
        if EXT_START <= address && address < EXT_END {
            region_set(&mut self.ext, address - EXT_START, value);
        } else if RAM_START <= address && address < RAM_END {
            region_set(&mut self.ram, address - RAM_START, value);
        } else if IO_START <= address && address < IO_END {
            region_set(&mut self.io, address - IO_START, value);
        } else if PALETTE_START <= address && address < PALETTE_END {
            region_set(&mut self.palette, address - PALETTE_START, value);
        } else if VRAM_START <= address && address < VRAM_END {
            region_set(&mut self.vram, address - VRAM_START, value);
        } else if OBJECT_ATTRIBUTE_START <= address && address < OBJECT_ATTRIBUTE_END {
            region_set(&mut self.object, address - OBJECT_ATTRIBUTE_START, value);
        } else if ROM_START <= address && address < ROM_END {
            region_set(&mut self.rom, address - ROM_START, value);
        } else if ROM_WAIT1_START <= address && address < ROM_WAIT1_END {
            region_set(&mut self.rom, address - ROM_WAIT1_START, value);
        } else if ROM_WAIT2_START <= address && address < ROM_WAIT2_END {
            region_set(&mut self.rom, address - ROM_WAIT2_START, value);
        } else if SAVE_START <= address && address < SAVE_END {
            region_set(&mut self.save, address - SAVE_START, value);
        }
    }

    /// Read a halfword at an even address, composed little-endian.
    pub fn read_half_word(&self, address: u32) -> (r: u16)
        requires
            address % 2 == 0,
        ensures
            r == spec_read_half(self@, address),
    {
        let b0 = self.read_byte(address);
        let b1 = self.read_byte(address + 1);
        (b0 as u16) | ((b1 as u16) << 8)
    }

    /// Write a halfword at an even address, little-endian.
    pub fn write_half_word(&mut self, address: u32, value: u16)
        requires
            address % 2 == 0,
        ensures
            final(self)@ == spec_write_half(old(self)@, address, value),
    {
        proof {
            assert(value & 0xff < 256 && (value >> 8) & 0xff < 256) by (bit_vector);
        }
        self.write_byte(address, (value & 0xff) as u8);
        self.write_byte(address + 1, ((value >> 8) & 0xff) as u8);
    }

    /// Read a word at a word-aligned address, composed little-endian.
    pub fn read_word(&self, address: u32) -> (r: u32)
        requires
            address % 4 == 0,
        ensures
            r == spec_read_word(self@, address),
    {
        let b0 = self.read_byte(address);
        let b1 = self.read_byte(address + 1);
        let b2 = self.read_byte(address + 2);
        let b3 = self.read_byte(address + 3);
        (b0 as u32) | ((b1 as u32) << 8) | ((b2 as u32) << 16) | ((b3 as u32) << 24)
    }

    /// Write a word at a word-aligned address, little-endian.
    pub fn write_word(&mut self, address: u32, value: u32)
        requires
            address % 4 == 0,
        ensures
            final(self)@ == spec_write_word(old(self)@, address, value),
    {
        proof {
            assert(value & 0xff < 256 && (value >> 8) & 0xff < 256 && (value >> 16) & 0xff < 256 && (
            value >> 24) & 0xff < 256) by (bit_vector);
        }
        self.write_byte(address, (value & 0xff) as u8);
        self.write_byte(address + 1, ((value >> 8) & 0xff) as u8);
        self.write_byte(address + 2, ((value >> 16) & 0xff) as u8);
        self.write_byte(address + 3, ((value >> 24) & 0xff) as u8);
    }
}

/// The 548-byte boot image that occupies the front of the BIOS region,
/// as a mathematical sequence.
pub open spec fn spec_bios_image() -> Seq<u8> {
    seq![
        0x06u8, 0x00, 0x00, 0xea, 0xfe, 0xff, 0xff, 0xea, 0x0b, 0x00, 0x00, 0xea,
        0xfe, 0xff, 0xff, 0xea, 0xfe, 0xff, 0xff, 0xea, 0x00, 0x00, 0xa0, 0xe1,
        0x2c, 0x00, 0x00, 0xea, 0xfe, 0xff, 0xff, 0xea, 0x02, 0x03, 0xa0, 0xe3,
        0x03, 0x10, 0xd0, 0xe5, 0xea, 0x00, 0x51, 0xe3, 0xec, 0x01, 0x9f, 0x15,
        0x10, 0xff, 0x2f, 0xe1, 0x00, 0x00, 0x00, 0x00, 0x00, 0xf0, 0x29, 0xe1,
        0x00, 0x00, 0x5d, 0xe3, 0x01, 0xd3, 0xa0, 0x03, 0x20, 0xd0, 0x4d, 0x02,
        0x00, 0x58, 0x2d, 0xe9, 0x02, 0xb0, 0x5e, 0xe5, 0x9c, 0xc0, 0xa0, 0xe3,
        0x0b, 0xb1, 0x9c, 0xe7, 0x00, 0x00, 0x5b, 0xe3, 0x00, 0xc0, 0x4f, 0xe1,
        0x00, 0x10, 0x2d, 0xe9, 0x80, 0xc0, 0x0c, 0xe2, 0x1f, 0xc0, 0x8c, 0xe3,
        0x0c, 0xf0, 0x29, 0xe1, 0x00, 0x40, 0x2d, 0xe9, 0x0f, 0xe0, 0xa0, 0xe1,
        0x1b, 0xff, 0x2f, 0x11, 0x00, 0x40, 0xbd, 0xe8, 0x93, 0xf0, 0x29, 0xe3,
        0x00, 0x10, 0xbd, 0xe8, 0x0c, 0xf0, 0x69, 0xe1, 0x00, 0x58, 0xbd, 0xe8,
        0x0e, 0xf0, 0xb0, 0xe1, 0x00, 0x00, 0x00, 0x00, 0x04, 0x20, 0xa0, 0xe3,
        0x00, 0x00, 0x00, 0x00, 0x00, 0x00, 0x00, 0x00, 0x00, 0x00, 0x00, 0x00,
        0x00, 0x00, 0x00, 0x00, 0xf8, 0x00, 0x00, 0x00, 0xf0, 0x00, 0x00, 0x00,
        0x00, 0x00, 0x00, 0x00, 0x00, 0x00, 0x00, 0x00, 0x00, 0x00, 0x00, 0x00,
        0x00, 0x00, 0x00, 0x00, 0x00, 0x00, 0x00, 0x00, 0x40, 0x01, 0x00, 0x00,
        0xc8, 0x01, 0x00, 0x00, 0x0f, 0x50, 0x2d, 0xe9, 0x01, 0x03, 0xa0, 0xe3,
        0x00, 0xe0, 0x8f, 0xe2, 0x04, 0xf0, 0x10, 0xe5, 0x0f, 0x50, 0xbd, 0xe8,
        0x04, 0xf0, 0x5e, 0xe2, 0x00, 0x00, 0x00, 0x00, 0x02, 0xc0, 0x5e, 0xe5,
        0x01, 0x00, 0xa0, 0xe3, 0x01, 0x10, 0xa0, 0xe3, 0x0c, 0x40, 0x2d, 0xe9,
        0x01, 0xc3, 0xa0, 0xe3, 0x00, 0x00, 0x50, 0xe3, 0x00, 0x00, 0xa0, 0xe3,
        0x01, 0x20, 0xa0, 0xe3, 0x03, 0x00, 0x00, 0x0a, 0xb8, 0x30, 0x5c, 0xe1,
        0x01, 0x30, 0xc3, 0xe1, 0xb8, 0x30, 0x4c, 0xe1, 0x01, 0x03, 0xcc, 0xe5,
        0x08, 0x02, 0xcc, 0xe5, 0xb8, 0x30, 0x5c, 0xe1, 0x01, 0x30, 0x13, 0xe0,
        0x01, 0x30, 0x23, 0x10, 0xb8, 0x30, 0x4c, 0x11, 0x08, 0x22, 0xcc, 0xe5,
        0xf7, 0xff, 0xff, 0x0a, 0x0c, 0x80, 0xbd, 0xe8, 0x00, 0x40, 0x2d, 0xe9,
        0x02, 0x36, 0xa0, 0xe1, 0x01, 0x04, 0x12, 0xe3, 0x0f, 0x00, 0x00, 0x0a,
        0x01, 0x03, 0x12, 0xe3, 0x05, 0x00, 0x00, 0x0a, 0x23, 0x35, 0x81, 0xe0,
        0x04, 0x00, 0xb0, 0xe8, 0x03, 0x00, 0x51, 0xe1, 0x04, 0x00, 0xa1, 0xb8,
        0xfc, 0xff, 0xff, 0xba, 0x14, 0x00, 0x00, 0xea, 0x01, 0x00, 0xc0, 0xe3,
        0x01, 0x10, 0xc1, 0xe3, 0xa3, 0x35, 0x81, 0xe0, 0xb0, 0x20, 0xd0, 0xe1,
        0x03, 0x00, 0x51, 0xe1, 0xb2, 0x20, 0xc1, 0xb0, 0xfc, 0xff, 0xff, 0xba,
        0x0c, 0x00, 0x00, 0xea, 0x01, 0x03, 0x12, 0xe3, 0x05, 0x00, 0x00, 0x0a,
        0x23, 0x35, 0x81, 0xe0, 0x03, 0x00, 0x51, 0xe1, 0x04, 0x00, 0xb0, 0xb8,
        0x04, 0x00, 0xa1, 0xb8, 0xfb, 0xff, 0xff, 0xba, 0x04, 0x00, 0x00, 0xea,
        0xa3, 0x35, 0x81, 0xe0, 0x03, 0x00, 0x51, 0xe1, 0xb2, 0x20, 0xd0, 0xb0,
        0xb2, 0x20, 0xc1, 0xb0, 0xfb, 0xff, 0xff, 0xba, 0x00, 0x80, 0xbd, 0xe8,
        0xf0, 0x47, 0x2d, 0xe9, 0x01, 0x04, 0x12, 0xe3, 0x02, 0x36, 0xa0, 0xe1,
        0x23, 0x25, 0x81, 0xe0, 0x0b, 0x00, 0x00, 0x0a, 0x00, 0x30, 0x90, 0xe5,
        0x03, 0x40, 0xa0, 0xe1, 0x03, 0x50, 0xa0, 0xe1, 0x03, 0x60, 0xa0, 0xe1,
        0x03, 0x70, 0xa0, 0xe1, 0x03, 0x80, 0xa0, 0xe1, 0x03, 0x90, 0xa0, 0xe1,
        0x03, 0xa0, 0xa0, 0xe1, 0x02, 0x00, 0x51, 0xe1, 0xf8, 0x07, 0xa1, 0xb8,
        0xfc, 0xff, 0xff, 0xba, 0x03, 0x00, 0x00, 0xea, 0x02, 0x00, 0x51, 0xe1,
        0xf8, 0x07, 0xb0, 0xb8, 0xf8, 0x07, 0xa1, 0xb8, 0xfb, 0xff, 0xff, 0xba,
        0xf0, 0x87, 0xbd, 0xe8, 0xc0, 0x00, 0x00, 0x02,
    ]
}

/// The 548-byte boot image that occupies the front of the BIOS region.
fn bios_image() -> (v: Vec<u8>)
    ensures
        v@ == spec_bios_image(),
        v@.len() == 548,
        v@[0] == 0x06 && v@[1] == 0x00 && v@[2] == 0x00 && v@[3] == 0xea,
{
    let v: Vec<u8> = vec![
        0x06, 0x00, 0x00, 0xea, 0xfe, 0xff, 0xff, 0xea, 0x0b, 0x00, 0x00, 0xea,
        0xfe, 0xff, 0xff, 0xea, 0xfe, 0xff, 0xff, 0xea, 0x00, 0x00, 0xa0, 0xe1,
        0x2c, 0x00, 0x00, 0xea, 0xfe, 0xff, 0xff, 0xea, 0x02, 0x03, 0xa0, 0xe3,
        0x03, 0x10, 0xd0, 0xe5, 0xea, 0x00, 0x51, 0xe3, 0xec, 0x01, 0x9f, 0x15,
        0x10, 0xff, 0x2f, 0xe1, 0x00, 0x00, 0x00, 0x00, 0x00, 0xf0, 0x29, 0xe1,
        0x00, 0x00, 0x5d, 0xe3, 0x01, 0xd3, 0xa0, 0x03, 0x20, 0xd0, 0x4d, 0x02,
        0x00, 0x58, 0x2d, 0xe9, 0x02, 0xb0, 0x5e, 0xe5, 0x9c, 0xc0, 0xa0, 0xe3,
        0x0b, 0xb1, 0x9c, 0xe7, 0x00, 0x00, 0x5b, 0xe3, 0x00, 0xc0, 0x4f, 0xe1,
        0x00, 0x10, 0x2d, 0xe9, 0x80, 0xc0, 0x0c, 0xe2, 0x1f, 0xc0, 0x8c, 0xe3,
        0x0c, 0xf0, 0x29, 0xe1, 0x00, 0x40, 0x2d, 0xe9, 0x0f, 0xe0, 0xa0, 0xe1,
        0x1b, 0xff, 0x2f, 0x11, 0x00, 0x40, 0xbd, 0xe8, 0x93, 0xf0, 0x29, 0xe3,
        0x00, 0x10, 0xbd, 0xe8, 0x0c, 0xf0, 0x69, 0xe1, 0x00, 0x58, 0xbd, 0xe8,
        0x0e, 0xf0, 0xb0, 0xe1, 0x00, 0x00, 0x00, 0x00, 0x04, 0x20, 0xa0, 0xe3,
        0x00, 0x00, 0x00, 0x00, 0x00, 0x00, 0x00, 0x00, 0x00, 0x00, 0x00, 0x00,
        0x00, 0x00, 0x00, 0x00, 0xf8, 0x00, 0x00, 0x00, 0xf0, 0x00, 0x00, 0x00,
        0x00, 0x00, 0x00, 0x00, 0x00, 0x00, 0x00, 0x00, 0x00, 0x00, 0x00, 0x00,
        0x00, 0x00, 0x00, 0x00, 0x00, 0x00, 0x00, 0x00, 0x40, 0x01, 0x00, 0x00,
        0xc8, 0x01, 0x00, 0x00, 0x0f, 0x50, 0x2d, 0xe9, 0x01, 0x03, 0xa0, 0xe3,
        0x00, 0xe0, 0x8f, 0xe2, 0x04, 0xf0, 0x10, 0xe5, 0x0f, 0x50, 0xbd, 0xe8,
        0x04, 0xf0, 0x5e, 0xe2, 0x00, 0x00, 0x00, 0x00, 0x02, 0xc0, 0x5e, 0xe5,
        0x01, 0x00, 0xa0, 0xe3, 0x01, 0x10, 0xa0, 0xe3, 0x0c, 0x40, 0x2d, 0xe9,
        0x01, 0xc3, 0xa0, 0xe3, 0x00, 0x00, 0x50, 0xe3, 0x00, 0x00, 0xa0, 0xe3,
        0x01, 0x20, 0xa0, 0xe3, 0x03, 0x00, 0x00, 0x0a, 0xb8, 0x30, 0x5c, 0xe1,
        0x01, 0x30, 0xc3, 0xe1, 0xb8, 0x30, 0x4c, 0xe1, 0x01, 0x03, 0xcc, 0xe5,
        0x08, 0x02, 0xcc, 0xe5, 0xb8, 0x30, 0x5c, 0xe1, 0x01, 0x30, 0x13, 0xe0,
        0x01, 0x30, 0x23, 0x10, 0xb8, 0x30, 0x4c, 0x11, 0x08, 0x22, 0xcc, 0xe5,
        0xf7, 0xff, 0xff, 0x0a, 0x0c, 0x80, 0xbd, 0xe8, 0x00, 0x40, 0x2d, 0xe9,
        0x02, 0x36, 0xa0, 0xe1, 0x01, 0x04, 0x12, 0xe3, 0x0f, 0x00, 0x00, 0x0a,
        0x01, 0x03, 0x12, 0xe3, 0x05, 0x00, 0x00, 0x0a, 0x23, 0x35, 0x81, 0xe0,
        0x04, 0x00, 0xb0, 0xe8, 0x03, 0x00, 0x51, 0xe1, 0x04, 0x00, 0xa1, 0xb8,
        0xfc, 0xff, 0xff, 0xba, 0x14, 0x00, 0x00, 0xea, 0x01, 0x00, 0xc0, 0xe3,
        0x01, 0x10, 0xc1, 0xe3, 0xa3, 0x35, 0x81, 0xe0, 0xb0, 0x20, 0xd0, 0xe1,
        0x03, 0x00, 0x51, 0xe1, 0xb2, 0x20, 0xc1, 0xb0, 0xfc, 0xff, 0xff, 0xba,
        0x0c, 0x00, 0x00, 0xea, 0x01, 0x03, 0x12, 0xe3, 0x05, 0x00, 0x00, 0x0a,
        0x23, 0x35, 0x81, 0xe0, 0x03, 0x00, 0x51, 0xe1, 0x04, 0x00, 0xb0, 0xb8,
        0x04, 0x00, 0xa1, 0xb8, 0xfb, 0xff, 0xff, 0xba, 0x04, 0x00, 0x00, 0xea,
        0xa3, 0x35, 0x81, 0xe0, 0x03, 0x00, 0x51, 0xe1, 0xb2, 0x20, 0xd0, 0xb0,
        0xb2, 0x20, 0xc1, 0xb0, 0xfb, 0xff, 0xff, 0xba, 0x00, 0x80, 0xbd, 0xe8,
        0xf0, 0x47, 0x2d, 0xe9, 0x01, 0x04, 0x12, 0xe3, 0x02, 0x36, 0xa0, 0xe1,
        0x23, 0x25, 0x81, 0xe0, 0x0b, 0x00, 0x00, 0x0a, 0x00, 0x30, 0x90, 0xe5,
        0x03, 0x40, 0xa0, 0xe1, 0x03, 0x50, 0xa0, 0xe1, 0x03, 0x60, 0xa0, 0xe1,
        0x03, 0x70, 0xa0, 0xe1, 0x03, 0x80, 0xa0, 0xe1, 0x03, 0x90, 0xa0, 0xe1,
        0x03, 0xa0, 0xa0, 0xe1, 0x02, 0x00, 0x51, 0xe1, 0xf8, 0x07, 0xa1, 0xb8,
        0xfc, 0xff, 0xff, 0xba, 0x03, 0x00, 0x00, 0xea, 0x02, 0x00, 0x51, 0xe1,
        0xf8, 0x07, 0xb0, 0xb8, 0xf8, 0x07, 0xa1, 0xb8, 0xfb, 0xff, 0xff, 0xba,
        0xf0, 0x87, 0xbd, 0xe8, 0xc0, 0x00, 0x00, 0x02,
    ];
    v
}

impl Memory {
    /// Memory at reset: every region zero-filled at its mapped size, the
    /// BIOS populated from the boot image, and the ROM empty until a
    /// cartridge is loaded.
    pub fn init() -> (r: Memory)
        ensures
            r@.bios.len() == BIOS_SIZE as int,
            r@.ext.len() == EXT_SIZE as int,
            r@.ram.len() == RAM_SIZE as int,
            r@.io.len() == IO_SIZE as int,
            r@.palette.len() == PALETTE_SIZE as int,
            r@.vram.len() == VRAM_SIZE as int,
            r@.object.len() == OBJECT_ATTRIBUTE_SIZE as int,
            r@.rom.len() == 1,
            r@.save.len() == SAVE_SIZE as int,
            forall|i: int| 0 <= i < 548 ==> r@.bios[i] == spec_bios_image()[i],
            forall|i: int| 548 <= i < BIOS_SIZE ==> r@.bios[i] == 0,
            forall|i: int| 0 <= i < EXT_SIZE ==> r@.ext[i] == 0,
            forall|i: int| 0 <= i < RAM_SIZE ==> r@.ram[i] == 0,
            forall|i: int| 0 <= i < IO_SIZE ==> r@.io[i] == 0,
            forall|i: int| 0 <= i < PALETTE_SIZE ==> r@.palette[i] == 0,
            forall|i: int| 0 <= i < VRAM_SIZE ==> r@.vram[i] == 0,
            forall|i: int| 0 <= i < OBJECT_ATTRIBUTE_SIZE ==> r@.object[i] == 0,
            r@.rom[0] == 0,
            forall|i: int| 0 <= i < SAVE_SIZE ==> r@.save[i] == 0,
            spec_read_word(r@, 0) == 0xea00_0006,
    {
        let mut bios = bios_image();
        while bios.len() < BIOS_SIZE as usize
            invariant
                548 <= bios@.len() <= BIOS_SIZE,
                forall|i: int| 0 <= i < 548 ==> bios@[i] == spec_bios_image()[i],
                forall|i: int| 548 <= i < bios@.len() ==> bios@[i] == 0,
                bios@[0] == 0x06 && bios@[1] == 0x00 && bios@[2] == 0x00 && bios@[3] == 0xea,
            decreases BIOS_SIZE - bios@.len(),
        {
            bios.push(0);
        }

        let memory = Memory {
            bios,
            ext: zeroed(EXT_SIZE as usize),
            ram: zeroed(RAM_SIZE as usize),
            io: zeroed(IO_SIZE as usize),
            palette: zeroed(PALETTE_SIZE as usize),
            vram: zeroed(VRAM_SIZE as usize),
            object: zeroed(OBJECT_ATTRIBUTE_SIZE as usize),
            rom: zeroed(1),
            save: zeroed(SAVE_SIZE as usize),
        };

        proof {
            assert((0x06u32 | (0x00u32 << 8)) | (0x00u32 << 16) | (0xeau32 << 24) == 0xea00_0006u32)
                by (bit_vector);
        }
        memory
    }

    /// A simplified memory for unit testing: no BIOS image and only a few
    /// bytes per region.
    pub fn init_small_no_bios() -> (r: Memory)
        ensures
            r@.bios.len() == 32,
            r@.ext.len() == 32,
            r@.ram.len() == 32,
            r@.io.len() == 32,
            r@.palette.len() == 32,
            r@.vram.len() == 32,
            r@.object.len() == 32,
            r@.rom.len() == 1,
            r@.save.len() == 32,
            forall|i: int| 0 <= i < 32 ==> r@.bios[i] == 0,
            forall|i: int| 0 <= i < 32 ==> r@.ext[i] == 0,
            forall|i: int| 0 <= i < 32 ==> r@.ram[i] == 0,
            forall|i: int| 0 <= i < 32 ==> r@.io[i] == 0,
            forall|i: int| 0 <= i < 32 ==> r@.palette[i] == 0,
            forall|i: int| 0 <= i < 32 ==> r@.vram[i] == 0,
            forall|i: int| 0 <= i < 32 ==> r@.object[i] == 0,
            forall|i: int| 0 <= i < 32 ==> r@.save[i] == 0,
            r@.rom[0] == 0,
    {
        Memory {
            bios: zeroed(32),
            ext: zeroed(32),
            ram: zeroed(32),
            io: zeroed(32),
            palette: zeroed(32),
            vram: zeroed(32),
            object: zeroed(32),
            rom: zeroed(1),
            save: zeroed(32),
        }
    }
}

/// Whether the `count` bytes from `address` on all fall inside the writable
/// region that starts at `start`, ends at `end`, and is backed by `len`
/// bytes of storage.
pub open spec fn spec_span_in_region(start: u32, end: u32, len: int, address: u32, count: int) -> bool {
    start <= address && address + count <= end && address - start + count <= len
}

/// Whether the `count` bytes from `address` on all land in backed storage of
/// one writable region, so that none of them is dropped or split across
/// regions.
pub open spec fn spec_writable_span(m: MemView, address: u32, count: int) -> bool {
    ||| spec_span_in_region(EXT_START, EXT_END, m.ext.len() as int, address, count)
    ||| spec_span_in_region(RAM_START, RAM_END, m.ram.len() as int, address, count)
    ||| spec_span_in_region(IO_START, IO_END, m.io.len() as int, address, count)
    ||| spec_span_in_region(PALETTE_START, PALETTE_END, m.palette.len() as int, address, count)
    ||| spec_span_in_region(VRAM_START, VRAM_END, m.vram.len() as int, address, count)
    ||| spec_span_in_region(
        OBJECT_ATTRIBUTE_START,
        OBJECT_ATTRIBUTE_END,
        m.object.len() as int,
        address,
        count,
    )
    ||| spec_span_in_region(ROM_START, ROM_END, m.rom.len() as int, address, count)
    ||| spec_span_in_region(ROM_WAIT1_START, ROM_WAIT1_END, m.rom.len() as int, address, count)
    ||| spec_span_in_region(ROM_WAIT2_START, ROM_WAIT2_END, m.rom.len() as int, address, count)
    ||| spec_span_in_region(SAVE_START, SAVE_END, m.save.len() as int, address, count)
}

/// A byte write never changes the length of any region.
proof fn lemma_write_byte_shape(m: MemView, address: u32, value: u8)
    ensures
        spec_write_byte(m, address, value).bios.len() == m.bios.len(),
        spec_write_byte(m, address, value).ext.len() == m.ext.len(),
        spec_write_byte(m, address, value).ram.len() == m.ram.len(),
        spec_write_byte(m, address, value).io.len() == m.io.len(),
        spec_write_byte(m, address, value).palette.len() == m.palette.len(),
        spec_write_byte(m, address, value).vram.len() == m.vram.len(),
        spec_write_byte(m, address, value).object.len() == m.object.len(),
        spec_write_byte(m, address, value).rom.len() == m.rom.len(),
        spec_write_byte(m, address, value).save.len() == m.save.len(),
{
}

/// Inside a writable span, a byte write reads back at its own address and
/// leaves every other address of the span as it was.
proof fn lemma_byte_write_in_span(m: MemView, base: u32, count: int, a: u32, b: u32, value: u8)
    requires
        spec_writable_span(m, base, count),
        base <= a < base + count,
        base <= b < base + count,
    ensures
        spec_read_byte(spec_write_byte(m, a, value), a) == value,
        a != b ==> spec_read_byte(spec_write_byte(m, a, value), b) == spec_read_byte(m, b),
        spec_writable_span(spec_write_byte(m, a, value), base, count),
{
    lemma_write_byte_shape(m, a, value);
}

/// Law: word writes to an aligned, fully backed writable span are read back
/// exactly: `read_word(a)` returns `v` after `write_word(a, v)`.
pub proof fn lemma_word_round_trip(m: MemView, address: u32, value: u32)
    requires
        address % 4 == 0,
        spec_writable_span(m, address, 4),
    ensures
        spec_read_word(spec_write_word(m, address, value), address) == value,
{
    let b0 = (value & 0xff) as u8;
    let b1 = ((value >> 8) & 0xff) as u8;
    let b2 = ((value >> 16) & 0xff) as u8;
    let b3 = ((value >> 24) & 0xff) as u8;
    let m0 = spec_write_byte(m, address, b0);
    let m1 = spec_write_byte(m0, (address + 1) as u32, b1);
    let m2 = spec_write_byte(m1, (address + 2) as u32, b2);
    let m3 = spec_write_byte(m2, (address + 3) as u32, b3);

    assert(address + 4 <= u32::MAX + 1) by (bit_vector)
        requires
            address % 4 == 0,
    ;

    lemma_byte_write_in_span(m, address, 4, address, address, b0);
    lemma_byte_write_in_span(m0, address, 4, (address + 1) as u32, address, b1);
    lemma_byte_write_in_span(m1, address, 4, (address + 2) as u32, address, b2);
    lemma_byte_write_in_span(m1, address, 4, (address + 2) as u32, (address + 1) as u32, b2);
    lemma_byte_write_in_span(m2, address, 4, (address + 3) as u32, address, b3);
    lemma_byte_write_in_span(m2, address, 4, (address + 3) as u32, (address + 1) as u32, b3);
    lemma_byte_write_in_span(m2, address, 4, (address + 3) as u32, (address + 2) as u32, b3);

    assert(spec_read_byte(m3, address) == b0);
    assert(spec_read_byte(m3, (address + 1) as u32) == b1);
    assert(spec_read_byte(m3, (address + 2) as u32) == b2);
    assert(spec_read_byte(m3, (address + 3) as u32) == b3);

    assert((((value & 0xff) as u8 as u32) | ((((value >> 8) & 0xff) as u8 as u32) << 8) | ((((value
        >> 16) & 0xff) as u8 as u32) << 16) | ((((value >> 24) & 0xff) as u8 as u32) << 24))
        == value) by (bit_vector);
}

/// Law: halfword writes to an even, fully backed writable span are read back
/// exactly: `read_half_word(a)` returns `v` after `write_half_word(a, v)`.
pub proof fn lemma_half_round_trip(m: MemView, address: u32, value: u16)
    requires
        address % 2 == 0,
        spec_writable_span(m, address, 2),
    ensures
        spec_read_half(spec_write_half(m, address, value), address) == value,
{
    let b0 = (value & 0xff) as u8;
    let b1 = ((value >> 8) & 0xff) as u8;
    let m0 = spec_write_byte(m, address, b0);
    let m1 = spec_write_byte(m0, (address + 1) as u32, b1);

    assert(address + 2 <= u32::MAX + 1) by (bit_vector)
        requires
            address % 2 == 0,
    ;

    lemma_byte_write_in_span(m, address, 2, address, address, b0);
    lemma_byte_write_in_span(m0, address, 2, (address + 1) as u32, address, b1);

    assert(spec_read_byte(m1, address) == b0);
    assert(spec_read_byte(m1, (address + 1) as u32) == b1);

    assert((((value & 0xff) as u8 as u16) | ((((value >> 8) & 0xff) as u8 as u16) << 8)) == value)
        by (bit_vector);
}

/// Law: writes into the BIOS region are no-ops on the whole memory, so any
/// read - in particular `read_word(0)` - is stable across them.
pub proof fn lemma_bios_write_stable(m: MemView, address: u32, value: u32)
    requires
        address % 4 == 0,
        address + 4 <= BIOS_END,
    ensures
        spec_write_word(m, address, value) == m,
        spec_read_word(spec_write_word(m, address, value), 0) == spec_read_word(m, 0),
{
}

} // verus!
