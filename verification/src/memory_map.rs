//! The 64 KiB address-space intermediary. A flat byte array is authoritative
//! for reads; writes in the video-memory and object-attribute ranges are
//! mirrored into the picture unit's shadow buffers, a write to 0xFF40 is
//! mirrored into its LCD-control register, and a read of 0xFF00 is computed
//! from the joypad matrices and the stored selection bits.

use vstd::prelude::*;

use crate::cardridge::Cardridge;
use crate::renderer::{rend_init, rend_wf, zero_bytes, RendS, Renderer, OAM_LEN, TILE_DATA_LEN};

verus! {

/// The abstract state of the memory map: the cartridge image, the flat
/// array, the picture unit, and the two joypad matrices (low nibble each,
/// bit clear = pressed).
#[verifier::ext_equal]
pub ghost struct MemS {
    pub cart: Seq<u8>,
    pub mem: Seq<u8>,
    pub rend: RendS,
    pub buttons: u8,
    pub dpad: u8,
}

/// Structural bounds: the array spans the full address space, the shadow
/// buffers have their hardware sizes, and the cartridge image is small
/// enough that a program counter two past its end still fits in `usize`.
pub open spec fn mem_wf(m: MemS) -> bool {
    &&& m.mem.len() == 0x10000
    &&& rend_wf(m.rend)
    &&& m.cart.len() <= 0xffff_fff0
}

/// The computed value of the joypad register 0xFF00: the stored selection
/// bits pick which matrix is visible in the low nibble.
pub open spec fn joypad_value(m: MemS) -> u8 {
    let sel = m.mem[0xff00] & 0x30;
    if sel == 0x30 {
        0x3fu8
    } else if sel == 0x20 {
        0x20u8 | (m.dpad & 0x0f)
    } else if sel == 0x10 {
        0x10u8 | (m.buttons & 0x0f)
    } else {
        0x00u8
    }
}

/// What a read of `addr` returns: the joypad computation at 0xFF00, the
/// stored byte everywhere else.
pub open spec fn mem_read(m: MemS, addr: int) -> u8 {
    if addr == 0xff00 {
        joypad_value(m)
    } else {
        m.mem[addr]
    }
}

/// The state after writing `v` at `addr`: the byte is stored in the array,
/// and mirrored into the tile buffer (0x8000..0x9FFF), the OAM buffer
/// (0xFE00..0xFEA0) or the LCD-control register (0xFF40) when `addr` falls
/// in those ranges.
pub open spec fn mem_store(m: MemS, addr: int, v: u8) -> MemS {
    let m1 = MemS { mem: m.mem.update(addr, v), ..m };
    if 0x8000 <= addr < 0x9fff {
        MemS { rend: RendS { tile: m.rend.tile.update(addr - 0x8000, v), ..m.rend }, ..m1 }
    } else if 0xfe00 <= addr < 0xfea0 {
        MemS { rend: RendS { oam: m.rend.oam.update(addr - 0xfe00, v), ..m.rend }, ..m1 }
    } else if addr == 0xff40 {
        MemS { rend: RendS { lcdc: v, ..m.rend }, ..m1 }
    } else {
        m1
    }
}

pub struct MemoryMap {
    pub cardridge: Cardridge,
    pub renderer: Renderer,
    pub memory: Vec<u8>,
    pub buttons: u8,
    pub d_pad: u8,
}

impl View for MemoryMap {
    type V = MemS;

    open spec fn view(&self) -> MemS {
        MemS {
            cart: self.cardridge@,
            mem: self.memory@,
            rend: self.renderer@,
            buttons: self.buttons,
            dpad: self.d_pad,
        }
    }
}

impl MemoryMap {
    pub open spec fn wf(&self) -> bool {
        mem_wf(self@)
    }

    /// A memory map over the given cartridge: zeroed RAM, a fresh picture
    /// unit, both joypad matrices released (all four bits set).
    pub fn new(the_cardridge: Cardridge) -> (m: MemoryMap)
        requires
            the_cardridge@.len() <= 0xffff_fff0,
        ensures
            m.wf(),
            m@ == (MemS {
                cart: the_cardridge@,
                mem: Seq::new(0x10000nat, |i: int| 0u8),
                rend: rend_init(),
                buttons: 0x0fu8,
                dpad: 0x0fu8,
            }),
    {
        MemoryMap {
            cardridge: the_cardridge,
            renderer: Renderer::new(),
            memory: zero_bytes(0x10000),
            buttons: 0x0f,
            d_pad: 0x0f,
        }
    }

    /// Read a zero-page address (0xFF00 | `memory_location`).
    pub fn get_8bit(&self, memory_location: u8) -> (b: u8)
        requires
            self.wf(),
        ensures
            b == mem_read(self@, 0xff00 + memory_location),
    {
        let memory_address = self.get_8bit_address(memory_location);
        self.get_8bit_full_address(memory_address)
    }

    /// Read any address in the 64 KiB space.
    pub fn get_8bit_full_address(&self, memory_location: usize) -> (b: u8)
        requires
            self.wf(),
            memory_location < 0x10000,
        ensures
            b == mem_read(self@, memory_location as int),
    {
        if memory_location == 0xff00 {
            let sel = self.memory[0xff00] & 0x30;
            if sel == 0x30 {
                0x3f
            } else if sel == 0x20 {
                0x20 | (self.d_pad & 0x0f)
            } else if sel == 0x10 {
                0x10 | (self.buttons & 0x0f)
            } else {
                0x00
            }
        } else {
            self.memory[memory_location]
        }
    }

    /// Write a zero-page address (0xFF00 | `memory_location`).
    pub fn store_8bit(&mut self, memory_location: u8, value: u8)
        requires
            old(self).wf(),
        ensures
            final(self).wf(),
            final(self)@ == mem_store(old(self)@, 0xff00 + memory_location, value),
    {
        let memory_address = self.get_8bit_address(memory_location);
        self.store_8bit_full_address(memory_address, value);
    }

    /// Write any address in the 64 KiB space, mirroring into the picture
    /// unit where the address falls in one of its ranges.
    pub fn store_8bit_full_address(&mut self, memory_location: usize, value: u8)
        requires
            old(self).wf(),
            memory_location < 0x10000,
        ensures
            final(self).wf(),
            final(self)@ == mem_store(old(self)@, memory_location as int, value),
    {
        if 0x8000 <= memory_location && memory_location < 0x9fff {
            self.renderer.store(memory_location, value);
        } else if 0xfe00 <= memory_location && memory_location < 0xfea0 {
            self.renderer.store_oam(memory_location, value);
        } else if memory_location == 0xff40 {
            self.renderer.set_lcdc(value);
        }
        self.memory[memory_location] = value;
    }

    /// The full address of a zero-page location.
    fn get_8bit_address(&self, memory_location: u8) -> (addr: usize)
        ensures
            addr == 0xff00 + memory_location,
    {
        let location_16bit: usize = memory_location as usize;
        0xff00 + location_16bit
    }

    /// Update the button matrix (A, B, Select, Start; bit clear = pressed).
    pub fn store_buttons(&mut self, buttons: u8)
        ensures
            final(self)@ == (MemS { buttons, ..old(self)@ }),
    {
        self.buttons = buttons;
    }

    /// Update the d-pad matrix (Right, Left, Up, Down; bit clear = pressed).
    pub fn store_d_pad(&mut self, d_pad: u8)
        ensures
            final(self)@ == (MemS { dpad: d_pad, ..old(self)@ }),
    {
        self.d_pad = d_pad;
    }
}

} // verus!
