//! Arithmetic and logic opcodes on the accumulator, 8-bit INC/DEC, and the
//! 0xCB-prefixed rotates and shifts. Each handler is proved to effect
//! exactly the corresponding `op_*` function of the abstract machine.

use vstd::prelude::*;

use crate::cpu::Cpu;
use crate::machine::{
    op_adc, op_add, op_and, op_cp, op_dec, op_inc, op_or, op_rl, op_rlc, op_rr, op_rrc, op_sbc,
    op_sla, op_sra, op_sub, op_xor,
};

verus! {

impl Cpu {
    /// 0x80..0x87 ADD A, r.
    pub fn add(&mut self, opcode: u8)
        requires
            old(self).wf(),
            old(self).cycle_counter < crate::CYCLES_PER_FRAME,
            old(self)@.pc < old(self)@.mm.cart.len(),
        ensures
            final(self).wf(),
            final(self)@ == op_add(old(self)@, opcode),
            final(self).cycle_counter > old(self).cycle_counter,
    {
        let register = opcode % 8;
        let value = self.get_value_from_register(register);
        let sum: u16 = self.a as u16 + value as u16;
        let result = (sum % 256) as u8;
        let a_reg = self.a;
        self.set_flag_z_value(result);
        self.set_flag_n(false);
        self.set_flag_h_pos(a_reg, value);
        self.set_flag_c(sum > 255);
        self.a = result;
        self.memory_counter = self.memory_counter + 1;
        self.cycle_counter = self.cycle_counter + 4;
    }

    /// 0x88..0x8F ADC A, r: adds r and the carry flag; the half-carry and
    /// carry conditions include the carry operand.
    pub fn adc(&mut self, opcode: u8)
        requires
            old(self).wf(),
            old(self).cycle_counter < crate::CYCLES_PER_FRAME,
            old(self)@.pc < old(self)@.mm.cart.len(),
        ensures
            final(self).wf(),
            final(self)@ == op_adc(old(self)@, opcode),
            final(self).cycle_counter > old(self).cycle_counter,
    {
        let register = opcode % 8;
        let value = self.get_value_from_register(register);
        let carry = self.get_c_value();
        let sum: u16 = self.a as u16 + value as u16 + carry as u16;
        let result = (sum % 256) as u8;
        let half = self.a % 16 + value % 16 + carry >= 0x10;
        self.set_flag_z_value(result);
        self.set_flag_n(false);
        self.set_flag_h(half);
        self.set_flag_c(sum > 255);
        self.a = result;
        self.memory_counter = self.memory_counter + 1;
        self.cycle_counter = self.cycle_counter + 4;
    }

    /// 0x90..0x97 SUB A, r.
    pub fn sub(&mut self, opcode: u8)
        requires
            old(self).wf(),
            old(self).cycle_counter < crate::CYCLES_PER_FRAME,
            old(self)@.pc < old(self)@.mm.cart.len(),
        ensures
            final(self).wf(),
            final(self)@ == op_sub(old(self)@, opcode),
            final(self).cycle_counter > old(self).cycle_counter,
    {
        let register = opcode % 8;
        let value = self.get_value_from_register(register);
        let result = (((self.a as u16 + 256) - value as u16) % 256) as u8;
        let a_reg = self.a;
        self.set_flag_z_value(result);
        self.set_flag_n(true);
        self.set_flag_h_neg(a_reg, value);
        self.set_flag_c(value > a_reg);
        self.a = result;
        self.memory_counter = self.memory_counter + 1;
        self.cycle_counter = self.cycle_counter + 4;
    }

    /// 0x98..0x9F SBC A, r: subtracts r and the carry flag; the half-borrow
    /// and borrow conditions include the carry operand.
    pub fn sbc(&mut self, opcode: u8)
        requires
            old(self).wf(),
            old(self).cycle_counter < crate::CYCLES_PER_FRAME,
            old(self)@.pc < old(self)@.mm.cart.len(),
        ensures
            final(self).wf(),
            final(self)@ == op_sbc(old(self)@, opcode),
            final(self).cycle_counter > old(self).cycle_counter,
    {
        let register = opcode % 8;
        let value = self.get_value_from_register(register);
        let carry = self.get_c_value();
        let result = (((self.a as u16 + 512) - value as u16 - carry as u16) % 256) as u8;
        let half = self.a % 16 < value % 16 + carry;
        let borrow = value as u16 + carry as u16 > self.a as u16;
        self.set_flag_z_value(result);
        self.set_flag_n(true);
        self.set_flag_h(half);
        self.set_flag_c(borrow);
        self.a = result;
        self.memory_counter = self.memory_counter + 1;
        self.cycle_counter = self.cycle_counter + 4;
    }

    /// 0xA0..0xA7 AND A, r: Z from the result, H set, N and C cleared.
    pub fn and(&mut self, opcode: u8)
        requires
            old(self).wf(),
            old(self).cycle_counter < crate::CYCLES_PER_FRAME,
            old(self)@.pc < old(self)@.mm.cart.len(),
        ensures
            final(self).wf(),
            final(self)@ == op_and(old(self)@, opcode),
            final(self).cycle_counter > old(self).cycle_counter,
    {
        let register = opcode % 8;
        let value = self.get_value_from_register(register);
        self.a = self.a & value;
        self.f = 0x20;
        let result = self.a;
        self.set_flag_z_value(result);
        self.set_flag_c(false);
        self.set_flag_h(true);
        self.set_flag_n(false);
        self.memory_counter = self.memory_counter + 1;
        self.cycle_counter = self.cycle_counter + 4;
    }

    /// 0xA8..0xAF XOR A, r: Z from the result, all other flags cleared.
    pub fn xor(&mut self, opcode: u8)
        requires
            old(self).wf(),
            old(self).cycle_counter < crate::CYCLES_PER_FRAME,
            old(self)@.pc < old(self)@.mm.cart.len(),
        ensures
            final(self).wf(),
            final(self)@ == op_xor(old(self)@, opcode),
            final(self).cycle_counter > old(self).cycle_counter,
    {
        let register = opcode % 8;
        let value = self.get_value_from_register(register);
        self.a = self.a ^ value;
        self.f = 0x00;
        let result = self.a;
        self.set_flag_z_value(result);
        self.set_flag_c(false);
        self.set_flag_h(false);
        self.set_flag_n(false);
        self.memory_counter = self.memory_counter + 1;
        self.cycle_counter = self.cycle_counter + 4;
    }

    /// 0xB0..0xB7 OR A, r: Z from the result, all other flags cleared.
    pub fn or(&mut self, opcode: u8)
        requires
            old(self).wf(),
            old(self).cycle_counter < crate::CYCLES_PER_FRAME,
            old(self)@.pc < old(self)@.mm.cart.len(),
        ensures
            final(self).wf(),
            final(self)@ == op_or(old(self)@, opcode),
            final(self).cycle_counter > old(self).cycle_counter,
    {
        let register = opcode % 8;
        let value = self.get_value_from_register(register);
        self.a = self.a | value;
        self.f = 0x20;
        let result = self.a;
        self.set_flag_z_value(result);
        self.set_flag_c(false);
        self.set_flag_h(false);
        self.set_flag_n(false);
        self.memory_counter = self.memory_counter + 1;
        self.cycle_counter = self.cycle_counter + 4;
    }

    /// 0xB8..0xBF CP A, r: the flags of SUB with A left unchanged.
    pub fn cp(&mut self, opcode: u8)
        requires
            old(self).wf(),
            old(self).cycle_counter < crate::CYCLES_PER_FRAME,
            old(self)@.pc < old(self)@.mm.cart.len(),
        ensures
            final(self).wf(),
            final(self)@ == op_cp(old(self)@, opcode),
            final(self).cycle_counter > old(self).cycle_counter,
    {
        let register = opcode % 8;
        let value = self.get_value_from_register(register);
        let result = (((self.a as u16 + 256) - value as u16) % 256) as u8;
        let a_reg = self.a;
        self.set_flag_z_value(result);
        self.set_flag_n(true);
        self.set_flag_h_neg(a_reg, value);
        self.set_flag_c(value > a_reg);
        self.memory_counter = self.memory_counter + 1;
        self.cycle_counter = self.cycle_counter + 4;
    }

    /// INC r: Z from the result, N cleared, H on low-nibble carry; the
    /// carry flag is untouched.
    pub fn inc(&mut self, opcode: u8)
        requires
            old(self).wf(),
            old(self).cycle_counter < crate::CYCLES_PER_FRAME,
            old(self)@.pc < old(self)@.mm.cart.len(),
        ensures
            final(self).wf(),
            final(self)@ == op_inc(old(self)@, opcode),
            final(self).cycle_counter > old(self).cycle_counter,
    {
        let register = (opcode / 8) % 8;
        let value = self.get_value_from_register(register);
        let result = ((value as u16 + 1) % 256) as u8;
        self.set_flag_z_value(result);
        self.set_flag_n(false);
        self.set_flag_h_pos(value, 1);
        self.store_value_into_register(result, register);
        self.memory_counter = self.memory_counter + 1;
        self.cycle_counter = self.cycle_counter + 4;
    }

    /// DEC r: Z from the result, N set, H on low-nibble borrow; the carry
    /// flag is untouched.
    pub fn dec(&mut self, opcode: u8)
        requires
            old(self).wf(),
            old(self).cycle_counter < crate::CYCLES_PER_FRAME,
            old(self)@.pc < old(self)@.mm.cart.len(),
        ensures
            final(self).wf(),
            final(self)@ == op_dec(old(self)@, opcode),
            final(self).cycle_counter > old(self).cycle_counter,
    {
        let register = (opcode / 8) % 8;
        let value = self.get_value_from_register(register);
        let result = ((value as u16 + 255) % 256) as u8;
        self.set_flag_z_value(result);
        self.set_flag_n(true);
        self.set_flag_h_neg(value, 1);
        self.store_value_into_register(result, register);
        self.memory_counter = self.memory_counter + 1;
        self.cycle_counter = self.cycle_counter + 4;
    }

    /// RLC r (CB 0x00..0x07): rotate left circular; Z is taken from the
    /// rotated-out bit, C is set when that bit is 1 and left alone otherwise.
    pub fn rlc(&mut self, opcode: u8)
        requires
            old(self).wf(),
            old(self).cycle_counter < crate::CYCLES_PER_FRAME,
            old(self)@.pc < old(self)@.mm.cart.len(),
        ensures
            final(self).wf(),
            final(self)@ == op_rlc(old(self)@, opcode),
            final(self).cycle_counter > old(self).cycle_counter,
    {
        self.memory_counter = self.memory_counter + 1;
        let register = opcode % 8;
        let value = self.get_value_from_register(register);
        let bit7 = value / 128;
        let mut new_value = ((value as u16 * 2) % 256) as u8;
        if bit7 == 1 {
            self.set_flag_c(true);
            new_value = new_value + 1;
        }
        self.store_value_into_register(new_value, register);
        self.set_flag_h(false);
        self.set_flag_n(false);
        self.set_flag_z_value(bit7);
        self.cycle_counter = self.cycle_counter + 4;
    }

    /// RRC r (CB 0x08..0x0F): rotate right circular.
    pub fn rrc(&mut self, opcode: u8)
        requires
            old(self).wf(),
            old(self).cycle_counter < crate::CYCLES_PER_FRAME,
            old(self)@.pc < old(self)@.mm.cart.len(),
        ensures
            final(self).wf(),
            final(self)@ == op_rrc(old(self)@, opcode),
            final(self).cycle_counter > old(self).cycle_counter,
    {
        self.memory_counter = self.memory_counter + 1;
        let register = opcode % 8;
        let value = self.get_value_from_register(register);
        let bit0 = value % 2;
        let mut new_value = value / 2;
        if bit0 == 1 {
            self.set_flag_c(true);
            new_value = new_value + 0x80;
        }
        self.store_value_into_register(new_value, register);
        self.set_flag_h(false);
        self.set_flag_n(false);
        self.set_flag_z_value(new_value);
        self.cycle_counter = self.cycle_counter + 4;
    }

    /// RL r (CB 0x10..0x17): rotate left through the carry flag.
    pub fn rl(&mut self, opcode: u8)
        requires
            old(self).wf(),
            old(self).cycle_counter < crate::CYCLES_PER_FRAME,
            old(self)@.pc < old(self)@.mm.cart.len(),
        ensures
            final(self).wf(),
            final(self)@ == op_rl(old(self)@, opcode),
            final(self).cycle_counter > old(self).cycle_counter,
    {
        self.memory_counter = self.memory_counter + 1;
        let register = opcode % 8;
        let value = self.get_value_from_register(register);
        let bit7 = value / 128;
        let mut new_value = ((value as u16 * 2) % 256) as u8;
        if self.get_flag_c() {
            new_value = new_value + 1;
        }
        if bit7 == 1 {
            self.set_flag_c(true);
        }
        self.set_flag_h(false);
        self.set_flag_n(false);
        self.set_flag_z_value(new_value);
        self.store_value_into_register(new_value, register);
        self.cycle_counter = self.cycle_counter + 4;
    }

    /// RR r (CB 0x18..0x1F): rotate right through the carry flag.
    pub fn rr(&mut self, opcode: u8)
        requires
            old(self).wf(),
            old(self).cycle_counter < crate::CYCLES_PER_FRAME,
            old(self)@.pc < old(self)@.mm.cart.len(),
        ensures
            final(self).wf(),
            final(self)@ == op_rr(old(self)@, opcode),
            final(self).cycle_counter > old(self).cycle_counter,
    {
        self.memory_counter = self.memory_counter + 1;
        let register = opcode % 8;
        let value = self.get_value_from_register(register);
        let bit0 = value % 2;
        let mut new_value = value / 2;
        if self.get_flag_c() {
            new_value = new_value + 0x80;
        }
        if bit0 == 1 {
            self.set_flag_c(true);
        }
        self.set_flag_h(false);
        self.set_flag_n(false);
        self.set_flag_z_value(new_value);
        self.store_value_into_register(new_value, register);
        self.cycle_counter = self.cycle_counter + 4;
    }

    /// SLA r (CB 0x20..0x27): shift left arithmetic.
    pub fn sla(&mut self, opcode: u8)
        requires
            old(self).wf(),
            old(self).cycle_counter < crate::CYCLES_PER_FRAME,
            old(self)@.pc < old(self)@.mm.cart.len(),
        ensures
            final(self).wf(),
            final(self)@ == op_sla(old(self)@, opcode),
            final(self).cycle_counter > old(self).cycle_counter,
    {
        self.memory_counter = self.memory_counter + 1;
        let register = opcode % 8;
        let value = self.get_value_from_register(register);
        let bit7 = value / 128;
        let new_value = ((value as u16 * 2) % 256) as u8;
        if bit7 == 1 {
            self.set_flag_c(true);
        }
        self.set_flag_h(false);
        self.set_flag_n(false);
        self.set_flag_z_value(new_value);
        self.store_value_into_register(new_value, register);
        self.cycle_counter = self.cycle_counter + 4;
    }

    /// SRA r (CB 0x28..0x2F): shift right with the sign bit kept.
    pub fn sra(&mut self, opcode: u8)
        requires
            old(self).wf(),
            old(self).cycle_counter < crate::CYCLES_PER_FRAME,
            old(self)@.pc < old(self)@.mm.cart.len(),
        ensures
            final(self).wf(),
            final(self)@ == op_sra(old(self)@, opcode),
            final(self).cycle_counter > old(self).cycle_counter,
    {
        self.memory_counter = self.memory_counter + 1;
        let register = opcode % 8;
        let value = self.get_value_from_register(register);
        let bit7 = value / 128;
        let bit0 = value % 2;
        let new_value = value / 2 + bit7 * 128;
        if bit0 == 1 {
            self.set_flag_c(true);
        }
        self.set_flag_h(false);
        self.set_flag_n(false);
        self.set_flag_z_value(new_value);
        self.store_value_into_register(new_value, register);
        self.cycle_counter = self.cycle_counter + 4;
    }
}

} // verus!
