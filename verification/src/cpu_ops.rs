//! Load, 16-bit register-pair and accumulator-rotate opcodes. Each handler
//! is proved to effect exactly the corresponding `op_*` function of the
//! abstract machine.

use vstd::prelude::*;

use crate::cpu::Cpu;
use crate::machine::{
    op_add_hl_bc, op_add_hl_de, op_add_hl_hl, op_add_hl_sp, op_add_hl_16bit, op_ccf, op_cpl,
    op_daa, op_decbc, op_decde, op_dechl, op_decsp, op_incbc, op_incde, op_inchl, op_incsp,
    op_ld_a16_a, op_ld_a_a16, op_ld_bc, op_ld_de, op_ld_from_cardridge, op_ld_from_memory,
    op_ld_from_memory_c, op_ld_hl, op_ld_sp, op_ld_to_memory, op_ld_to_memory_c, op_ldabc,
    op_ldade, op_ldahlm, op_ldahlp, op_ldbca, op_lddea, op_ldhlm, op_ldhlp, op_ldrr, op_rcla,
    op_rla, op_rra, op_rrca, op_scf,
};

verus! {

impl Cpu {
    /// 0x01 LD BC, d16.
    pub fn ld_bc(&mut self)
        requires
            old(self).wf(),
            old(self).cycle_counter < crate::CYCLES_PER_FRAME,
            old(self)@.pc + 3 <= old(self)@.mm.cart.len(),
        ensures
            final(self).wf(),
            final(self)@ == op_ld_bc(old(self)@),
            final(self).cycle_counter > old(self).cycle_counter,
    {
        self.memory_counter = self.memory_counter + 1;
        self.b = self.get_from_cardridge();
        self.memory_counter = self.memory_counter + 1;
        self.c = self.get_from_cardridge();
        self.memory_counter = self.memory_counter + 1;
        self.cycle_counter = self.cycle_counter + 12;
    }

    /// 0x11 LD DE, d16.
    pub fn ld_de(&mut self)
        requires
            old(self).wf(),
            old(self).cycle_counter < crate::CYCLES_PER_FRAME,
            old(self)@.pc + 3 <= old(self)@.mm.cart.len(),
        ensures
            final(self).wf(),
            final(self)@ == op_ld_de(old(self)@),
            final(self).cycle_counter > old(self).cycle_counter,
    {
        self.memory_counter = self.memory_counter + 1;
        self.d = self.get_from_cardridge();
        self.memory_counter = self.memory_counter + 1;
        self.e = self.get_from_cardridge();
        self.memory_counter = self.memory_counter + 1;
        self.cycle_counter = self.cycle_counter + 12;
    }

    /// 0x21 LD HL, d16.
    pub fn ld_hl(&mut self)
        requires
            old(self).wf(),
            old(self).cycle_counter < crate::CYCLES_PER_FRAME,
            old(self)@.pc + 3 <= old(self)@.mm.cart.len(),
        ensures
            final(self).wf(),
            final(self)@ == op_ld_hl(old(self)@),
            final(self).cycle_counter > old(self).cycle_counter,
    {
        self.memory_counter = self.memory_counter + 1;
        self.h = self.get_from_cardridge();
        self.memory_counter = self.memory_counter + 1;
        self.l = self.get_from_cardridge();
        self.memory_counter = self.memory_counter + 1;
        self.cycle_counter = self.cycle_counter + 12;
    }

    /// 0x31 LD SP, d16.
    pub fn ld_sp(&mut self)
        requires
            old(self).wf(),
            old(self).cycle_counter < crate::CYCLES_PER_FRAME,
            old(self)@.pc + 3 <= old(self)@.mm.cart.len(),
        ensures
            final(self).wf(),
            final(self)@ == op_ld_sp(old(self)@),
            final(self).cycle_counter > old(self).cycle_counter,
    {
        self.memory_counter = self.memory_counter + 1;
        let mut high: u16 = self.get_from_cardridge() as u16;
        self.memory_counter = self.memory_counter + 1;
        let low: u16 = self.get_from_cardridge() as u16;
        high = high * 256;
        self.stack_counter = high + low;
        self.memory_counter = self.memory_counter + 1;
        self.cycle_counter = self.cycle_counter + 12;
    }

    /// 0xEA LD (a16), A: the immediate bytes are the low then the high byte
    /// of the address.
    pub fn ld_a16_a(&mut self)
        requires
            old(self).wf(),
            old(self).cycle_counter < crate::CYCLES_PER_FRAME,
            old(self)@.pc + 3 <= old(self)@.mm.cart.len(),
        ensures
            final(self).wf(),
            final(self)@ == op_ld_a16_a(old(self)@),
            final(self).cycle_counter > old(self).cycle_counter,
    {
        self.memory_counter = self.memory_counter + 1;
        let low: u16 = self.get_from_cardridge() as u16;
        self.memory_counter = self.memory_counter + 1;
        let high: u16 = self.get_from_cardridge() as u16;
        let address = high * 256 + low;
        self.memory_map.store_8bit_full_address(address as usize, self.a);
        self.memory_counter = self.memory_counter + 1;
        self.cycle_counter = self.cycle_counter + 16;
    }

    /// 0xFA LD A, (a16).
    pub fn ld_a_a16(&mut self)
        requires
            old(self).wf(),
            old(self).cycle_counter < crate::CYCLES_PER_FRAME,
            old(self)@.pc + 3 <= old(self)@.mm.cart.len(),
        ensures
            final(self).wf(),
            final(self)@ == op_ld_a_a16(old(self)@),
            final(self).cycle_counter > old(self).cycle_counter,
    {
        self.memory_counter = self.memory_counter + 1;
        let low: u16 = self.get_from_cardridge() as u16;
        self.memory_counter = self.memory_counter + 1;
        let high: u16 = self.get_from_cardridge() as u16;
        let address = high * 256 + low;
        self.a = self.memory_map.get_8bit_full_address(address as usize);
        self.memory_counter = self.memory_counter + 1;
        self.cycle_counter = self.cycle_counter + 16;
    }

    /// 0x32 LD (HL-), A: store A at HL, then decrement HL with low wrap.
    pub fn ldhlm(&mut self)
        requires
            old(self).wf(),
            old(self).cycle_counter < crate::CYCLES_PER_FRAME,
            old(self)@.pc < old(self)@.mm.cart.len(),
        ensures
            final(self).wf(),
            final(self)@ == op_ldhlm(old(self)@),
            final(self).cycle_counter > old(self).cycle_counter,
    {
        let location = self.get_hl();
        self.memory_map.store_8bit_full_address(location as usize, self.a);
        let old_l = self.l;
        self.l = ((old_l as u16 + 255) % 256) as u8;
        if old_l == 0 {
            self.h = ((self.h as u16 + 255) % 256) as u8;
        }
        self.cycle_counter = self.cycle_counter + 4;
        self.memory_counter = self.memory_counter + 1;
    }

    /// 0x22 LD (HL+), A: store A at HL, then increment HL with low wrap.
    pub fn ldhlp(&mut self)
        requires
            old(self).wf(),
            old(self).cycle_counter < crate::CYCLES_PER_FRAME,
            old(self)@.pc < old(self)@.mm.cart.len(),
        ensures
            final(self).wf(),
            final(self)@ == op_ldhlp(old(self)@),
            final(self).cycle_counter > old(self).cycle_counter,
    {
        let location = self.get_hl();
        self.memory_map.store_8bit_full_address(location as usize, self.a);
        let old_l = self.l;
        self.l = ((old_l as u16 + 1) % 256) as u8;
        if old_l == 255 {
            self.h = ((self.h as u16 + 1) % 256) as u8;
        }
        self.cycle_counter = self.cycle_counter + 4;
        self.memory_counter = self.memory_counter + 1;
    }

    /// 0x02 LD (BC), A.
    pub fn ldbca(&mut self)
        requires
            old(self).wf(),
            old(self).cycle_counter < crate::CYCLES_PER_FRAME,
            old(self)@.pc < old(self)@.mm.cart.len(),
        ensures
            final(self).wf(),
            final(self)@ == op_ldbca(old(self)@),
            final(self).cycle_counter > old(self).cycle_counter,
    {
        let location = self.get_bc();
        self.memory_map.store_8bit_full_address(location as usize, self.a);
        self.cycle_counter = self.cycle_counter + 4;
        self.memory_counter = self.memory_counter + 1;
    }

    /// 0x0A LD A, (BC).
    pub fn ldabc(&mut self)
        requires
            old(self).wf(),
            old(self).cycle_counter < crate::CYCLES_PER_FRAME,
            old(self)@.pc < old(self)@.mm.cart.len(),
        ensures
            final(self).wf(),
            final(self)@ == op_ldabc(old(self)@),
            final(self).cycle_counter > old(self).cycle_counter,
    {
        let location = self.get_bc();
        self.a = self.memory_map.get_8bit_full_address(location as usize);
        self.cycle_counter = self.cycle_counter + 4;
        self.memory_counter = self.memory_counter + 1;
    }

    /// 0x1A LD A, (DE).
    pub fn ldade(&mut self)
        requires
            old(self).wf(),
            old(self).cycle_counter < crate::CYCLES_PER_FRAME,
            old(self)@.pc < old(self)@.mm.cart.len(),
        ensures
            final(self).wf(),
            final(self)@ == op_ldade(old(self)@),
            final(self).cycle_counter > old(self).cycle_counter,
    {
        let location = self.get_de();
        self.a = self.memory_map.get_8bit_full_address(location as usize);
        self.cycle_counter = self.cycle_counter + 4;
        self.memory_counter = self.memory_counter + 1;
    }

    /// 0x2A LD A, (HL+): increment HL, then load A from the new HL.
    pub fn ldahlp(&mut self)
        requires
            old(self).wf(),
            old(self).cycle_counter < crate::CYCLES_PER_FRAME,
            old(self)@.pc < old(self)@.mm.cart.len(),
        ensures
            final(self).wf(),
            final(self)@ == op_ldahlp(old(self)@),
            final(self).cycle_counter > old(self).cycle_counter,
    {
        let old_l = self.l;
        self.l = ((old_l as u16 + 1) % 256) as u8;
        if old_l == 255 {
            self.h = ((self.h as u16 + 1) % 256) as u8;
        }
        let location = self.get_hl();
        self.a = self.memory_map.get_8bit_full_address(location as usize);
        self.cycle_counter = self.cycle_counter + 4;
        self.memory_counter = self.memory_counter + 1;
    }

    /// 0x3A LD A, (HL-): decrement HL, then load A from the new HL.
    pub fn ldahlm(&mut self)
        requires
            old(self).wf(),
            old(self).cycle_counter < crate::CYCLES_PER_FRAME,
            old(self)@.pc < old(self)@.mm.cart.len(),
        ensures
            final(self).wf(),
            final(self)@ == op_ldahlm(old(self)@),
            final(self).cycle_counter > old(self).cycle_counter,
    {
        let old_l = self.l;
        self.l = ((old_l as u16 + 255) % 256) as u8;
        if old_l == 0 {
            self.h = ((self.h as u16 + 255) % 256) as u8;
        }
        let location = self.get_hl();
        self.a = self.memory_map.get_8bit_full_address(location as usize);
        self.cycle_counter = self.cycle_counter + 4;
        self.memory_counter = self.memory_counter + 1;
    }

    /// 0x12 LD (DE), A.
    pub fn lddea(&mut self)
        requires
            old(self).wf(),
            old(self).cycle_counter < crate::CYCLES_PER_FRAME,
            old(self)@.pc < old(self)@.mm.cart.len(),
        ensures
            final(self).wf(),
            final(self)@ == op_lddea(old(self)@),
            final(self).cycle_counter > old(self).cycle_counter,
    {
        let location = self.get_de();
        self.memory_map.store_8bit_full_address(location as usize, self.a);
        self.cycle_counter = self.cycle_counter + 4;
        self.memory_counter = self.memory_counter + 1;
    }

    /// 0xE0 LDH (n), A: store A at 0xFF00 + immediate.
    pub fn ld_to_memory(&mut self)
        requires
            old(self).wf(),
            old(self).cycle_counter < crate::CYCLES_PER_FRAME,
            old(self)@.pc + 2 <= old(self)@.mm.cart.len(),
        ensures
            final(self).wf(),
            final(self)@ == op_ld_to_memory(old(self)@),
            final(self).cycle_counter > old(self).cycle_counter,
    {
        self.memory_counter = self.memory_counter + 1;
        let location = self.get_from_cardridge();
        self.memory_map.store_8bit(location, self.a);
        self.memory_counter = self.memory_counter + 1;
        self.cycle_counter = self.cycle_counter + 12;
    }

    /// 0xE2 LDH (C), A: store A at 0xFF00 + C.
    pub fn ld_to_memory_c(&mut self)
        requires
            old(self).wf(),
            old(self).cycle_counter < crate::CYCLES_PER_FRAME,
            old(self)@.pc < old(self)@.mm.cart.len(),
        ensures
            final(self).wf(),
            final(self)@ == op_ld_to_memory_c(old(self)@),
            final(self).cycle_counter > old(self).cycle_counter,
    {
        self.memory_map.store_8bit(self.c, self.a);
        self.memory_counter = self.memory_counter + 1;
        self.cycle_counter = self.cycle_counter + 8;
    }

    /// 0xF0 LDH A, (n): load A from 0xFF00 + immediate.
    pub fn ld_from_memory(&mut self)
        requires
            old(self).wf(),
            old(self).cycle_counter < crate::CYCLES_PER_FRAME,
            old(self)@.pc + 2 <= old(self)@.mm.cart.len(),
        ensures
            final(self).wf(),
            final(self)@ == op_ld_from_memory(old(self)@),
            final(self).cycle_counter > old(self).cycle_counter,
    {
        self.memory_counter = self.memory_counter + 1;
        let location = self.get_from_cardridge();
        self.a = self.memory_map.get_8bit(location);
        self.memory_counter = self.memory_counter + 1;
        self.cycle_counter = self.cycle_counter + 12;
    }

    /// 0xF2 LDH A, (C): load A from 0xFF00 + C.
    pub fn ld_from_memory_c(&mut self)
        requires
            old(self).wf(),
            old(self).cycle_counter < crate::CYCLES_PER_FRAME,
            old(self)@.pc < old(self)@.mm.cart.len(),
        ensures
            final(self).wf(),
            final(self)@ == op_ld_from_memory_c(old(self)@),
            final(self).cycle_counter > old(self).cycle_counter,
    {
        self.a = self.memory_map.get_8bit(self.c);
        self.memory_counter = self.memory_counter + 1;
        self.cycle_counter = self.cycle_counter + 8;
    }

    /// LD r, d8: immediate into the register encoded in bits 5..3.
    pub fn ld_from_cardridge(&mut self, opcode: u8)
        requires
            old(self).wf(),
            old(self).cycle_counter < crate::CYCLES_PER_FRAME,
            old(self)@.pc + 2 <= old(self)@.mm.cart.len(),
        ensures
            final(self).wf(),
            final(self)@ == op_ld_from_cardridge(old(self)@, opcode),
            final(self).cycle_counter > old(self).cycle_counter,
    {
        self.memory_counter = self.memory_counter + 1;
        let register = (opcode / 8) % 8;
        let value = self.get_from_cardridge();
        self.store_value_into_register(value, register);
        self.memory_counter = self.memory_counter + 1;
        self.cycle_counter = self.cycle_counter + 8;
    }

    /// 0x40..0x7F LD r, r'.
    pub fn ldrr(&mut self, opcode: u8)
        requires
            old(self).wf(),
            old(self).cycle_counter < crate::CYCLES_PER_FRAME,
            old(self)@.pc < old(self)@.mm.cart.len(),
        ensures
            final(self).wf(),
            final(self)@ == op_ldrr(old(self)@, opcode),
            final(self).cycle_counter > old(self).cycle_counter,
    {
        let first = opcode % 8;
        let second = (opcode / 8) % 8;
        let value = self.get_value_from_register(first);
        self.store_value_into_register(value, second);
        self.memory_counter = self.memory_counter + 1;
        self.cycle_counter = self.cycle_counter + 4;
    }

    /// 0x03 INC BC.
    pub fn incbc(&mut self)
        requires
            old(self).wf(),
            old(self).cycle_counter < crate::CYCLES_PER_FRAME,
            old(self)@.pc < old(self)@.mm.cart.len(),
        ensures
            final(self).wf(),
            final(self)@ == op_incbc(old(self)@),
            final(self).cycle_counter > old(self).cycle_counter,
    {
        let old_c = self.c;
        self.c = ((old_c as u16 + 1) % 256) as u8;
        if old_c == 255 {
            self.b = ((self.b as u16 + 1) % 256) as u8;
        }
        self.memory_counter = self.memory_counter + 1;
        self.cycle_counter = self.cycle_counter + 8;
    }

    /// 0x13 INC DE.
    pub fn incde(&mut self)
        requires
            old(self).wf(),
            old(self).cycle_counter < crate::CYCLES_PER_FRAME,
            old(self)@.pc < old(self)@.mm.cart.len(),
        ensures
            final(self).wf(),
            final(self)@ == op_incde(old(self)@),
            final(self).cycle_counter > old(self).cycle_counter,
    {
        let old_e = self.e;
        self.e = ((old_e as u16 + 1) % 256) as u8;
        if old_e == 255 {
            self.d = ((self.d as u16 + 1) % 256) as u8;
        }
        self.memory_counter = self.memory_counter + 1;
        self.cycle_counter = self.cycle_counter + 8;
    }

    /// 0x23 INC HL.
    pub fn inchl(&mut self)
        requires
            old(self).wf(),
            old(self).cycle_counter < crate::CYCLES_PER_FRAME,
            old(self)@.pc < old(self)@.mm.cart.len(),
        ensures
            final(self).wf(),
            final(self)@ == op_inchl(old(self)@),
            final(self).cycle_counter > old(self).cycle_counter,
    {
        let old_l = self.l;
        self.l = ((old_l as u16 + 1) % 256) as u8;
        if old_l == 255 {
            self.h = ((self.h as u16 + 1) % 256) as u8;
        }
        self.memory_counter = self.memory_counter + 1;
        self.cycle_counter = self.cycle_counter + 8;
    }

    /// 0x33 INC SP (16-bit wrap, written back).
    pub fn incsp(&mut self)
        requires
            old(self).wf(),
            old(self).cycle_counter < crate::CYCLES_PER_FRAME,
            old(self)@.pc < old(self)@.mm.cart.len(),
        ensures
            final(self).wf(),
            final(self)@ == op_incsp(old(self)@),
            final(self).cycle_counter > old(self).cycle_counter,
    {
        self.stack_counter = ((self.stack_counter as u32 + 1) % 0x10000) as u16;
        self.memory_counter = self.memory_counter + 1;
        self.cycle_counter = self.cycle_counter + 8;
    }

    /// 0x0B DEC BC.
    pub fn decbc(&mut self)
        requires
            old(self).wf(),
            old(self).cycle_counter < crate::CYCLES_PER_FRAME,
            old(self)@.pc < old(self)@.mm.cart.len(),
        ensures
            final(self).wf(),
            final(self)@ == op_decbc(old(self)@),
            final(self).cycle_counter > old(self).cycle_counter,
    {
        let old_c = self.c;
        self.c = ((old_c as u16 + 255) % 256) as u8;
        if old_c == 0 {
            self.b = ((self.b as u16 + 255) % 256) as u8;
        }
        self.memory_counter = self.memory_counter + 1;
        self.cycle_counter = self.cycle_counter + 8;
    }

    /// 0x1B DEC DE.
    pub fn decde(&mut self)
        requires
            old(self).wf(),
            old(self).cycle_counter < crate::CYCLES_PER_FRAME,
            old(self)@.pc < old(self)@.mm.cart.len(),
        ensures
            final(self).wf(),
            final(self)@ == op_decde(old(self)@),
            final(self).cycle_counter > old(self).cycle_counter,
    {
        let old_e = self.e;
        self.e = ((old_e as u16 + 255) % 256) as u8;
        if old_e == 0 {
            self.d = ((self.d as u16 + 255) % 256) as u8;
        }
        self.memory_counter = self.memory_counter + 1;
        self.cycle_counter = self.cycle_counter + 8;
    }

    /// 0x2B DEC HL.
    pub fn dechl(&mut self)
        requires
            old(self).wf(),
            old(self).cycle_counter < crate::CYCLES_PER_FRAME,
            old(self)@.pc < old(self)@.mm.cart.len(),
        ensures
            final(self).wf(),
            final(self)@ == op_dechl(old(self)@),
            final(self).cycle_counter > old(self).cycle_counter,
    {
        let old_l = self.l;
        self.l = ((old_l as u16 + 255) % 256) as u8;
        if old_l == 0 {
            self.h = ((self.h as u16 + 255) % 256) as u8;
        }
        self.memory_counter = self.memory_counter + 1;
        self.cycle_counter = self.cycle_counter + 8;
    }

    /// 0x3B DEC SP (16-bit wrap, written back).
    pub fn decsp(&mut self)
        requires
            old(self).wf(),
            old(self).cycle_counter < crate::CYCLES_PER_FRAME,
            old(self)@.pc < old(self)@.mm.cart.len(),
        ensures
            final(self).wf(),
            final(self)@ == op_decsp(old(self)@),
            final(self).cycle_counter > old(self).cycle_counter,
    {
        self.stack_counter = ((self.stack_counter as u32 + 0xffff) % 0x10000) as u16;
        self.memory_counter = self.memory_counter + 1;
        self.cycle_counter = self.cycle_counter + 8;
    }

    /// The shared tail of ADD HL, rr: the 16-bit add with flag updates.
    pub fn add_hl_16bit(&mut self, number: u16)
        requires
            old(self).wf(),
            old(self).cycle_counter + 12 <= usize::MAX,
            old(self)@.pc < old(self)@.mm.cart.len(),
        ensures
            final(self).wf(),
            final(self)@ == op_add_hl_16bit(old(self)@, number as int),
            final(self).cycle_counter > old(self).cycle_counter,
    {
        let hl = self.get_hl();
        let high = number / 256;
        let sum: u32 = hl as u32 + number as u32;
        let h_reg = self.h;
        self.set_flag_h_pos(h_reg, high as u8);
        self.set_flag_n(false);
        self.set_flag_c(sum > 0xffff);
        self.set_flag_n(false);
        let wrapped = (sum % 0x10000) as u16;
        self.set_hl(wrapped);
        self.cycle_counter = self.cycle_counter + 8;
        self.memory_counter = self.memory_counter + 1;
    }

    /// 0x09 ADD HL, BC.
    pub fn add_hl_bc(&mut self)
        requires
            old(self).wf(),
            old(self).cycle_counter < crate::CYCLES_PER_FRAME,
            old(self)@.pc < old(self)@.mm.cart.len(),
        ensures
            final(self).wf(),
            final(self)@ == op_add_hl_bc(old(self)@),
            final(self).cycle_counter > old(self).cycle_counter,
    {
        let bc = self.get_bc();
        self.add_hl_16bit(bc);
    }

    /// 0x19 ADD HL, DE.
    pub fn add_hl_de(&mut self)
        requires
            old(self).wf(),
            old(self).cycle_counter < crate::CYCLES_PER_FRAME,
            old(self)@.pc < old(self)@.mm.cart.len(),
        ensures
            final(self).wf(),
            final(self)@ == op_add_hl_de(old(self)@),
            final(self).cycle_counter > old(self).cycle_counter,
    {
        let de = self.get_de();
        self.add_hl_16bit(de);
    }

    /// 0x29 ADD HL, HL.
    pub fn add_hl_hl(&mut self)
        requires
            old(self).wf(),
            old(self).cycle_counter < crate::CYCLES_PER_FRAME,
            old(self)@.pc < old(self)@.mm.cart.len(),
        ensures
            final(self).wf(),
            final(self)@ == op_add_hl_hl(old(self)@),
            final(self).cycle_counter > old(self).cycle_counter,
    {
        let hl = self.get_hl();
        self.add_hl_16bit(hl);
    }

    /// 0x39 ADD HL, SP.
    pub fn add_hl_sp(&mut self)
        requires
            old(self).wf(),
            old(self).cycle_counter < crate::CYCLES_PER_FRAME,
            old(self)@.pc < old(self)@.mm.cart.len(),
        ensures
            final(self).wf(),
            final(self)@ == op_add_hl_sp(old(self)@),
            final(self).cycle_counter > old(self).cycle_counter,
    {
        let sp = self.stack_counter;
        self.add_hl_16bit(sp);
    }

    /// 0x07 RLCA: rotate A left circular; Z, N, H cleared.
    pub fn rcla(&mut self)
        requires
            old(self).wf(),
            old(self).cycle_counter < crate::CYCLES_PER_FRAME,
            old(self)@.pc < old(self)@.mm.cart.len(),
        ensures
            final(self).wf(),
            final(self)@ == op_rcla(old(self)@),
            final(self).cycle_counter > old(self).cycle_counter,
    {
        self.memory_counter = self.memory_counter + 1;
        let bit7 = self.a / 128;
        self.a = ((self.a as u16 * 2) % 256) as u8;
        if bit7 == 1 {
            self.set_flag_c(true);
            self.a = self.a + 1;
        }
        self.set_flag_h(false);
        self.set_flag_n(false);
        self.set_flag_z(false);
        self.cycle_counter = self.cycle_counter + 4;
    }

    /// 0x17 RLA: rotate A left through the carry flag.
    pub fn rla(&mut self)
        requires
            old(self).wf(),
            old(self).cycle_counter < crate::CYCLES_PER_FRAME,
            old(self)@.pc < old(self)@.mm.cart.len(),
        ensures
            final(self).wf(),
            final(self)@ == op_rla(old(self)@),
            final(self).cycle_counter > old(self).cycle_counter,
    {
        self.memory_counter = self.memory_counter + 1;
        let bit7 = self.a / 128;
        self.a = ((self.a as u16 * 2) % 256) as u8;
        if self.get_flag_c() {
            self.a = self.a + 1;
        }
        if bit7 == 1 {
            self.set_flag_c(true);
        }
        self.set_flag_h(false);
        self.set_flag_n(false);
        self.set_flag_z(false);
        self.cycle_counter = self.cycle_counter + 4;
    }

    /// 0x0F RRCA: rotate A right circular.
    pub fn rrca(&mut self)
        requires
            old(self).wf(),
            old(self).cycle_counter < crate::CYCLES_PER_FRAME,
            old(self)@.pc < old(self)@.mm.cart.len(),
        ensures
            final(self).wf(),
            final(self)@ == op_rrca(old(self)@),
            final(self).cycle_counter > old(self).cycle_counter,
    {
        self.memory_counter = self.memory_counter + 1;
        let bit0 = self.a % 2;
        self.a = self.a / 2;
        if bit0 == 1 {
            self.set_flag_c(true);
            self.a = self.a + 0x80;
        }
        self.set_flag_h(false);
        self.set_flag_n(false);
        self.set_flag_z(false);
        self.cycle_counter = self.cycle_counter + 4;
    }

    /// 0x1F RRA: rotate A right through the carry flag.
    pub fn rra(&mut self)
        requires
            old(self).wf(),
            old(self).cycle_counter < crate::CYCLES_PER_FRAME,
            old(self)@.pc < old(self)@.mm.cart.len(),
        ensures
            final(self).wf(),
            final(self)@ == op_rra(old(self)@),
            final(self).cycle_counter > old(self).cycle_counter,
    {
        self.memory_counter = self.memory_counter + 1;
        let bit0 = self.a % 2;
        self.a = self.a / 2;
        if self.get_flag_c() {
            self.a = self.a + 0x80;
        }
        if bit0 == 1 {
            self.set_flag_c(true);
        }
        self.set_flag_h(false);
        self.set_flag_n(false);
        self.set_flag_z(false);
        self.cycle_counter = self.cycle_counter + 4;
    }

    /// 0x37 SCF: C set, N and H cleared.
    pub fn scf(&mut self)
        requires
            old(self).wf(),
            old(self).cycle_counter < crate::CYCLES_PER_FRAME,
            old(self)@.pc < old(self)@.mm.cart.len(),
        ensures
            final(self).wf(),
            final(self)@ == op_scf(old(self)@),
            final(self).cycle_counter > old(self).cycle_counter,
    {
        self.set_flag_c(true);
        self.set_flag_h(false);
        self.set_flag_n(false);
        self.memory_counter = self.memory_counter + 1;
        self.cycle_counter = self.cycle_counter + 4;
    }

    /// 0x2F CPL: A complemented; N and H set.
    pub fn cpl(&mut self)
        requires
            old(self).wf(),
            old(self).cycle_counter < crate::CYCLES_PER_FRAME,
            old(self)@.pc < old(self)@.mm.cart.len(),
        ensures
            final(self).wf(),
            final(self)@ == op_cpl(old(self)@),
            final(self).cycle_counter > old(self).cycle_counter,
    {
        self.a = 255 - self.a;
        self.set_flag_n(true);
        self.set_flag_h(true);
        self.memory_counter = self.memory_counter + 1;
        self.cycle_counter = self.cycle_counter + 4;
    }

    /// 0x3F CCF: C toggled, N and H cleared.
    pub fn ccf(&mut self)
        requires
            old(self).wf(),
            old(self).cycle_counter < crate::CYCLES_PER_FRAME,
            old(self)@.pc < old(self)@.mm.cart.len(),
        ensures
            final(self).wf(),
            final(self)@ == op_ccf(old(self)@),
            final(self).cycle_counter > old(self).cycle_counter,
    {
        self.f = self.f ^ 0x10;
        self.set_flag_n(false);
        self.set_flag_h(false);
        self.memory_counter = self.memory_counter + 1;
        self.cycle_counter = self.cycle_counter + 4;
    }

    /// 0x27 DAA: binary-coded-decimal adjust of A using H, N and C.
    pub fn daa(&mut self)
        requires
            old(self).wf(),
            old(self).cycle_counter < crate::CYCLES_PER_FRAME,
            old(self)@.pc < old(self)@.mm.cart.len(),
        ensures
            final(self).wf(),
            final(self)@ == op_daa(old(self)@),
            final(self).cycle_counter > old(self).cycle_counter,
    {
        let mut overflow = false;
        if self.get_flag_n() {
            if self.get_flag_h() {
                self.a = ((self.a as u16 + 250) % 256) as u8;
            }
            if self.get_flag_c() {
                self.a = ((self.a as u16 + 160) % 256) as u8;
            }
        } else {
            if self.get_flag_h() || self.a % 16 > 9 {
                let bigger: u16 = self.a as u16 + 6;
                if bigger > 255 {
                    overflow = true;
                }
                self.a = (bigger % 256) as u8;
            }
            if self.get_flag_c() || self.a > 0x9f {
                let bigger: u16 = self.a as u16 + 0x60;
                if bigger > 255 {
                    overflow = true;
                }
                self.a = (bigger % 256) as u8;
            }
        }
        let result = self.a;
        self.set_flag_z_value(result);
        self.set_flag_c(overflow);
        self.set_flag_h(false);
        self.memory_counter = self.memory_counter + 1;
        self.cycle_counter = self.cycle_counter + 4;
    }
}

} // verus!
