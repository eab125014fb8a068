//! The instruction engine: the register file, flag arithmetic, cycle
//! accounting, and the fetch/decode/execute loop. Every operation is proved
//! to match the abstract machine in the `machine` module, so `run_opcode`
//! follows `step_op` exactly and `start_cycle` follows `frame_fn`.

use vstd::prelude::*;

use crate::cardridge::Cardridge;
use crate::machine::{
    bc_of, c_value, cpu_init, cpu_wf, de_of, frame_fn, frame_loop, frame_measure, get_c, get_h,
    get_n, get_z, hl_of, op_default, op_nop, op_operands, op_prefix_cb, op_stop, reg_read_state,
    reg_store, reg_val, set_c, set_h, set_h_neg, set_h_pos, set_n, set_z, set_z_value, step_op,
    CpuS,
};
use crate::memory_map::{mem_read, mem_store, MemoryMap};

verus! {

pub struct Cpu {
    pub b: u8,
    pub c: u8,
    pub d: u8,
    pub e: u8,
    pub h: u8,
    pub l: u8,
    pub a: u8,
    pub f: u8,
    pub cycle_counter: usize,
    pub memory_counter: usize,
    pub stack_counter: u16,
    pub stopped: bool,
    pub memory_map: MemoryMap,
}

impl View for Cpu {
    type V = CpuS;

    open spec fn view(&self) -> CpuS {
        CpuS {
            b: self.b,
            c: self.c,
            d: self.d,
            e: self.e,
            h: self.h,
            l: self.l,
            a: self.a,
            f: self.f,
            cycle: self.cycle_counter as int,
            pc: self.memory_counter as int,
            sp: self.stack_counter,
            stopped: self.stopped,
            mm: self.memory_map@,
        }
    }
}

impl Cpu {
    pub open spec fn wf(&self) -> bool {
        cpu_wf(self@)
    }

    /// A processor over the given cartridge: zeroed registers, a fresh
    /// memory map, and the joypad selection bits initialized to 0x30.
    pub fn new(the_cardridge: Cardridge) -> (cpu: Cpu)
        requires
            the_cardridge@.len() <= 0xffff_fff0,
        ensures
            cpu.wf(),
            cpu@ == cpu_init(the_cardridge@),
    {
        let mut cpu = Cpu {
            b: 0,
            c: 0,
            d: 0,
            e: 0,
            h: 0,
            l: 0,
            a: 0,
            f: 0,
            memory_counter: 0,
            cycle_counter: 0,
            stack_counter: 0,
            stopped: false,
            memory_map: MemoryMap::new(the_cardridge),
        };
        cpu.init();
        cpu
    }

    /// Initialization writes 0x30 to the joypad register.
    fn init(&mut self)
        requires
            old(self).wf(),
        ensures
            final(self).wf(),
            final(self)@ == (CpuS { mm: mem_store(old(self)@.mm, 0xff00, 0x30), ..old(self)@ }),
    {
        self.memory_map.store_8bit_full_address(0xff00, 0x30);
    }

    /// The instruction byte at the program counter.
    pub fn get_from_cardridge(&self) -> (b: u8)
        requires
            self@.pc < self@.mm.cart.len(),
        ensures
            b == self@.mm.cart[self@.pc],
    {
        self.memory_map.cardridge.get(self.memory_counter)
    }

    /// How many operand bytes the opcode reads after its own byte.
    pub fn operand_count(opcode: u8) -> (n: usize)
        ensures
            n == op_operands(opcode),
    {
        if opcode == 0x01 || opcode == 0x11 || opcode == 0x21 || opcode == 0x31 || opcode == 0xea
            || opcode == 0xfa {
            2
        } else if opcode == 0xcb || opcode == 0xe0 || opcode == 0xf0 {
            1
        } else if opcode & 0xc7 == 0x06 {
            1
        } else {
            0
        }
    }

    /// Run a frame's worth of instructions: a no-op when the processor is
    /// stopped; otherwise opcodes are dispatched until the program counter
    /// leaves the cartridge, an instruction's operand bytes would lie past
    /// its end, or the cycle budget is crossed — in which case the cycle
    /// counter resets to zero before returning.
    pub fn start_cycle(&mut self)
        requires
            old(self).wf(),
        ensures
            final(self).wf(),
            final(self)@ == frame_fn(old(self)@),
    {
        if !self.stopped {
            loop
                invariant
                    self.wf(),
                    frame_loop(self@) == frame_loop(old(self)@),
                    !old(self)@.stopped,
                decreases frame_measure(self@),
            {
                if self.memory_counter >= self.memory_map.cardridge.len() {
                    return ;
                }
                if self.cycle_counter >= crate::CYCLES_PER_FRAME {
                    proof {
                        assert(frame_loop(self@) == (CpuS { cycle: 0, ..self@ }));
                    }
                    self.cycle_counter = 0;
                    return ;
                }
                let number = self.get_from_cardridge();
                let operands = Cpu::operand_count(number);
                if self.memory_counter + 1 + operands > self.memory_map.cardridge.len() {
                    return ;
                }
                self.run_opcode(number);
            }
        }
    }

    /// Dispatch one opcode: the effect is exactly `step_op` of the abstract
    /// machine, and at least one cycle is consumed.
    pub fn run_opcode(&mut self, opcode: u8)
        requires
            old(self).wf(),
            old(self).cycle_counter < crate::CYCLES_PER_FRAME,
            old(self)@.pc < old(self)@.mm.cart.len(),
            old(self)@.pc + 1 + op_operands(opcode) <= old(self)@.mm.cart.len(),
        ensures
            final(self).wf(),
            final(self)@ == step_op(old(self)@, opcode),
            final(self).cycle_counter > old(self).cycle_counter,
    {
        if opcode == 0x00 {
            self.nop();
        } else if opcode == 0x01 {
            self.ld_bc();
        } else if opcode == 0x02 {
            self.ldbca();
        } else if opcode == 0x03 {
            self.incbc();
        } else if opcode == 0x07 {
            self.rcla();
        } else if opcode == 0x09 {
            self.add_hl_bc();
        } else if opcode == 0x0a {
            self.ldabc();
        } else if opcode == 0x0b {
            self.decbc();
        } else if opcode == 0x0f {
            self.rrca();
        } else if opcode == 0x10 {
            self.stop();
        } else if opcode == 0x11 {
            self.ld_de();
        } else if opcode == 0x12 {
            self.lddea();
        } else if opcode == 0x13 {
            self.incde();
        } else if opcode == 0x17 {
            self.rla();
        } else if opcode == 0x19 {
            self.add_hl_de();
        } else if opcode == 0x1a {
            self.ldade();
        } else if opcode == 0x1b {
            self.decde();
        } else if opcode == 0x1f {
            self.rra();
        } else if opcode == 0x21 {
            self.ld_hl();
        } else if opcode == 0x22 {
            self.ldhlp();
        } else if opcode == 0x23 {
            self.inchl();
        } else if opcode == 0x27 {
            self.daa();
        } else if opcode == 0x29 {
            self.add_hl_hl();
        } else if opcode == 0x2a {
            self.ldahlp();
        } else if opcode == 0x2b {
            self.dechl();
        } else if opcode == 0x2f {
            self.cpl();
        } else if opcode == 0x31 {
            self.ld_sp();
        } else if opcode == 0x32 {
            self.ldhlm();
        } else if opcode == 0x33 {
            self.incsp();
        } else if opcode == 0x39 {
            self.add_hl_sp();
        } else if opcode == 0x37 {
            self.scf();
        } else if opcode == 0x3a {
            self.ldahlm();
        } else if opcode == 0x3b {
            self.decsp();
        } else if opcode == 0x3f {
            self.ccf();
        } else if opcode == 0xcb {
            self.prefix_cb();
        } else if opcode == 0xe0 {
            self.ld_to_memory();
        } else if opcode == 0xe2 {
            self.ld_to_memory_c();
        } else if opcode == 0xea {
            self.ld_a16_a();
        } else if opcode == 0xf0 {
            self.ld_from_memory();
        } else if opcode == 0xf2 {
            self.ld_from_memory_c();
        } else if opcode == 0xfa {
            self.ld_a_a16();
        } else if 0x40 <= opcode && opcode <= 0x7f {
            self.ldrr(opcode);
        } else if 0x80 <= opcode && opcode <= 0x87 {
            self.add(opcode);
        } else if 0x88 <= opcode && opcode <= 0x8f {
            self.adc(opcode);
        } else if 0x90 <= opcode && opcode <= 0x97 {
            self.sub(opcode);
        } else if 0x98 <= opcode && opcode <= 0x9f {
            self.sbc(opcode);
        } else if 0xa0 <= opcode && opcode <= 0xa7 {
            self.and(opcode);
        } else if 0xa8 <= opcode && opcode <= 0xaf {
            self.xor(opcode);
        } else if 0xb0 <= opcode && opcode <= 0xb7 {
            self.or(opcode);
        } else if 0xb8 <= opcode && opcode <= 0xbf {
            self.cp(opcode);
        } else if opcode & 0xc7 == 0x06 {
            self.ld_from_cardridge(opcode);
        } else if opcode & 0xc7 == 0x04 {
            self.inc(opcode);
        } else if opcode & 0xc7 == 0x05 {
            self.dec(opcode);
        } else {
            self.default(opcode);
        }
    }

    /// 0xCB prefix: fetch the next byte and dispatch the bit operation.
    pub fn prefix_cb(&mut self)
        requires
            old(self).wf(),
            old(self).cycle_counter < crate::CYCLES_PER_FRAME,
            old(self)@.pc + 2 <= old(self)@.mm.cart.len(),
        ensures
            final(self).wf(),
            final(self)@ == op_prefix_cb(old(self)@),
            final(self).cycle_counter > old(self).cycle_counter,
    {
        self.memory_counter = self.memory_counter + 1;
        let opcode = self.get_from_cardridge();
        if opcode <= 0x07 {
            self.rlc(opcode);
        } else if opcode <= 0x0f {
            self.rrc(opcode);
        } else if opcode <= 0x17 {
            self.rl(opcode);
        } else if opcode <= 0x1f {
            self.rr(opcode);
        } else if opcode <= 0x27 {
            self.sla(opcode);
        } else if opcode <= 0x2f {
            self.sra(opcode);
        } else {
            self.default(opcode);
        }
        self.cycle_counter = self.cycle_counter + 4;
    }

    // -----------------------------------------------------------------------
    // Flags.
    // -----------------------------------------------------------------------

    pub fn set_flag_z(&mut self, set: bool)
        ensures
            final(self)@ == (CpuS { f: set_z(old(self)@.f, set), ..old(self)@ }),
    {
        if set {
            self.f = self.f | 0x80;
        } else {
            self.f = self.f & 0x7f;
        }
    }

    /// Z set exactly when the result byte is zero.
    pub fn set_flag_z_value(&mut self, result: u8)
        ensures
            final(self)@ == (CpuS { f: set_z_value(old(self)@.f, result), ..old(self)@ }),
    {
        if result == 0 {
            self.f = self.f | 0x80;
        } else {
            self.f = self.f & 0x7f;
        }
    }

    pub fn set_flag_n(&mut self, set: bool)
        ensures
            final(self)@ == (CpuS { f: set_n(old(self)@.f, set), ..old(self)@ }),
    {
        if set {
            self.f = self.f | 0x40;
        } else {
            self.f = self.f & 0xbf;
        }
    }

    /// H from an addition: set when the low nibbles sum to 0x10 or more.
    pub fn set_flag_h_pos(&mut self, first: u8, second: u8)
        ensures
            final(self)@ == (CpuS { f: set_h_pos(old(self)@.f, first, second), ..old(self)@ }),
    {
        if first % 16 + second % 16 >= 0x10 {
            self.f = self.f | 0x20;
        } else {
            self.f = self.f & 0xdf;
        }
    }

    /// H from a subtraction: set when the first low nibble is smaller.
    pub fn set_flag_h_neg(&mut self, first: u8, second: u8)
        ensures
            final(self)@ == (CpuS { f: set_h_neg(old(self)@.f, first, second), ..old(self)@ }),
    {
        if first % 16 < second % 16 {
            self.f = self.f | 0x20;
        } else {
            self.f = self.f & 0xdf;
        }
    }

    pub fn set_flag_h(&mut self, set: bool)
        ensures
            final(self)@ == (CpuS { f: set_h(old(self)@.f, set), ..old(self)@ }),
    {
        if set {
            self.f = self.f | 0x20;
        } else {
            self.f = self.f & 0xdf;
        }
    }

    pub fn set_flag_c(&mut self, set: bool)
        ensures
            final(self)@ == (CpuS { f: set_c(old(self)@.f, set), ..old(self)@ }),
    {
        if set {
            self.f = self.f | 0x10;
        } else {
            self.f = self.f & 0xef;
        }
    }

    pub fn get_flag_z(&self) -> (r: bool)
        ensures
            r == get_z(self@.f),
    {
        let num = self.f & 0x80;
        num == 0x80
    }

    pub fn get_flag_n(&self) -> (r: bool)
        ensures
            r == get_n(self@.f),
    {
        let num = self.f & 0x40;
        num == 0x40
    }

    pub fn get_flag_h(&self) -> (r: bool)
        ensures
            r == get_h(self@.f),
    {
        let num = self.f & 0x20;
        num == 0x20
    }

    pub fn get_flag_c(&self) -> (r: bool)
        ensures
            r == get_c(self@.f),
    {
        let num = self.f & 0x10;
        num == 0x10
    }

    /// The carry flag as the 0-or-1 operand of ADC and SBC.
    pub fn get_c_value(&self) -> (r: u8)
        ensures
            r == c_value(self@.f),
    {
        if self.get_flag_c() {
            return 1;
        }
        0
    }

    // -----------------------------------------------------------------------
    // The register file and the register pairs.
    // -----------------------------------------------------------------------

    /// Read the register with the given 3-bit index; index 6 reads the byte
    /// at HL through the memory map and charges four cycles.
    pub fn get_value_from_register(&mut self, register: u8) -> (v: u8)
        requires
            old(self).wf(),
            register < 8,
            old(self).cycle_counter + 4 <= usize::MAX,
        ensures
            final(self).wf(),
            v == reg_val(old(self)@, register),
            final(self)@ == reg_read_state(old(self)@, register),
    {
        if register == 0 {
            self.b
        } else if register == 1 {
            self.c
        } else if register == 2 {
            self.d
        } else if register == 3 {
            self.e
        } else if register == 4 {
            self.h
        } else if register == 5 {
            self.l
        } else if register == 6 {
            self.get_memory_hl()
        } else {
            self.a
        }
    }

    /// Write the register with the given 3-bit index; index 6 writes the
    /// byte at HL through the memory map and charges four cycles.
    pub fn store_value_into_register(&mut self, value: u8, register: u8)
        requires
            old(self).wf(),
            register < 8,
            old(self).cycle_counter + 4 <= usize::MAX,
        ensures
            final(self).wf(),
            final(self)@ == reg_store(old(self)@, register, value),
    {
        if register == 0 {
            self.b = value;
        } else if register == 1 {
            self.c = value;
        } else if register == 2 {
            self.d = value;
        } else if register == 3 {
            self.e = value;
        } else if register == 4 {
            self.h = value;
        } else if register == 5 {
            self.l = value;
        } else if register == 6 {
            self.store_hl_memory(value);
        } else {
            self.a = value;
        }
    }

    /// The byte at HL (+4 cycles for the pair read).
    pub fn get_memory_hl(&mut self) -> (v: u8)
        requires
            old(self).wf(),
            old(self).cycle_counter + 4 <= usize::MAX,
        ensures
            final(self).wf(),
            v == mem_read(old(self)@.mm, hl_of(old(self)@)),
            final(self)@ == (CpuS { cycle: old(self)@.cycle + 4, ..old(self)@ }),
    {
        let hl = self.get_hl();
        self.memory_map.get_8bit_full_address(hl as usize)
    }

    /// Store a byte at HL (+4 cycles for the pair read).
    pub fn store_hl_memory(&mut self, value: u8)
        requires
            old(self).wf(),
            old(self).cycle_counter + 4 <= usize::MAX,
        ensures
            final(self).wf(),
            final(self)@ == (CpuS {
                cycle: old(self)@.cycle + 4,
                mm: mem_store(old(self)@.mm, hl_of(old(self)@), value),
                ..old(self)@
            }),
    {
        let hl = self.get_hl();
        self.memory_map.store_8bit_full_address(hl as usize, value);
    }

    /// The BC pair as a big-endian 16-bit value (+4 cycles).
    pub fn get_bc(&mut self) -> (r: u16)
        requires
            old(self).cycle_counter + 4 <= usize::MAX,
        ensures
            r == bc_of(old(self)@),
            final(self)@ == (CpuS { cycle: old(self)@.cycle + 4, ..old(self)@ }),
    {
        let mut b16: u16 = self.b as u16;
        b16 = b16 * 256;
        let c16: u16 = self.c as u16;
        self.cycle_counter = self.cycle_counter + 4;
        b16 + c16
    }

    /// The DE pair as a big-endian 16-bit value (+4 cycles).
    pub fn get_de(&mut self) -> (r: u16)
        requires
            old(self).cycle_counter + 4 <= usize::MAX,
        ensures
            r == de_of(old(self)@),
            final(self)@ == (CpuS { cycle: old(self)@.cycle + 4, ..old(self)@ }),
    {
        let mut d16: u16 = self.d as u16;
        d16 = d16 * 256;
        let e16: u16 = self.e as u16;
        self.cycle_counter = self.cycle_counter + 4;
        d16 + e16
    }

    /// The HL pair as a big-endian 16-bit value (+4 cycles).
    pub fn get_hl(&mut self) -> (r: u16)
        requires
            old(self).cycle_counter + 4 <= usize::MAX,
        ensures
            r == hl_of(old(self)@),
            final(self)@ == (CpuS { cycle: old(self)@.cycle + 4, ..old(self)@ }),
    {
        let mut h16: u16 = self.h as u16;
        h16 = h16 * 256;
        let l16: u16 = self.l as u16;
        self.cycle_counter = self.cycle_counter + 4;
        h16 + l16
    }

    /// Split a 16-bit value into H (high byte) and L (low byte).
    pub fn set_hl(&mut self, hl: u16)
        ensures
            final(self)@ == (CpuS {
                h: (hl / 256) as u8,
                l: (hl % 256) as u8,
                ..old(self)@
            }),
    {
        let high = hl / 256;
        let low = hl % 256;
        self.h = high as u8;
        self.l = low as u8;
    }

    // -----------------------------------------------------------------------
    // Trivial opcodes.
    // -----------------------------------------------------------------------

    /// 0x00 NOP.
    pub fn nop(&mut self)
        requires
            old(self).wf(),
            old(self).cycle_counter < crate::CYCLES_PER_FRAME,
            old(self)@.pc < old(self)@.mm.cart.len(),
        ensures
            final(self).wf(),
            final(self)@ == op_nop(old(self)@),
            final(self).cycle_counter > old(self).cycle_counter,
    {
        self.cycle_counter = self.cycle_counter + 4;
        self.memory_counter = self.memory_counter + 1;
    }

    /// 0x10 STOP: consumes two bytes; the stopped flag is left to the host.
    pub fn stop(&mut self)
        requires
            old(self).wf(),
            old(self).cycle_counter < crate::CYCLES_PER_FRAME,
            old(self)@.pc < old(self)@.mm.cart.len(),
        ensures
            final(self).wf(),
            final(self)@ == op_stop(old(self)@),
            final(self).cycle_counter > old(self).cycle_counter,
    {
        self.cycle_counter = self.cycle_counter + 4;
        self.memory_counter = self.memory_counter + 2;
    }

    /// Undefined opcode: store the byte into A and advance by one.
    pub fn default(&mut self, byte: u8)
        requires
            old(self).wf(),
            old(self).cycle_counter < crate::CYCLES_PER_FRAME,
            old(self)@.pc < old(self)@.mm.cart.len(),
        ensures
            final(self).wf(),
            final(self)@ == op_default(old(self)@, byte),
            final(self).cycle_counter > old(self).cycle_counter,
    {
        self.a = byte;
        self.memory_counter = self.memory_counter + 1;
        self.cycle_counter = self.cycle_counter + 1;
    }
}

} // verus!
