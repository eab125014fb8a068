//! The abstract machine: a ghost state for the whole console and one spec
//! function per opcode giving its exact effect. The executable engine in the
//! `cpu` module is proved to follow these functions step for step, so every
//! contract about execution is stated here, over plain mathematical values.

use vstd::prelude::*;

use crate::memory_map::{mem_read, mem_store, mem_wf, MemS};
use crate::renderer::rend_init;

verus! {

/// The abstract processor state: the seven data registers, the flag
/// register, the cycle and program counters, the stack pointer, the stopped
/// flag, and the whole memory map.
#[verifier::ext_equal]
pub ghost struct CpuS {
    pub b: u8,
    pub c: u8,
    pub d: u8,
    pub e: u8,
    pub h: u8,
    pub l: u8,
    pub a: u8,
    pub f: u8,
    pub cycle: int,
    pub pc: int,
    pub sp: u16,
    pub stopped: bool,
    pub mm: MemS,
}

/// The structural invariant of a machine state: a well-formed memory map
/// and counters that are indices (the executable state keeps them in
/// `usize`, so they are never negative).
pub open spec fn cpu_wf(s: CpuS) -> bool {
    &&& mem_wf(s.mm)
    &&& 0 <= s.cycle
    &&& 0 <= s.pc
}

/// The machine right after construction: zeroed registers and counters, a
/// fresh memory map over the cartridge, and 0x30 written to the joypad
/// register so that neither matrix is selected.
pub open spec fn cpu_init(cart: Seq<u8>) -> CpuS {
    let mm0 = MemS {
        cart,
        mem: Seq::new(0x10000nat, |i: int| 0u8),
        rend: rend_init(),
        buttons: 0x0fu8,
        dpad: 0x0fu8,
    };
    CpuS {
        b: 0,
        c: 0,
        d: 0,
        e: 0,
        h: 0,
        l: 0,
        a: 0,
        f: 0,
        cycle: 0,
        pc: 0,
        sp: 0,
        stopped: false,
        mm: mem_store(mm0, 0xff00, 0x30),
    }
}

// ---------------------------------------------------------------------------
// Flags. Bit 7 = Z, bit 6 = N, bit 5 = H, bit 4 = C; the low nibble is
// untouched by every flag operation.
// ---------------------------------------------------------------------------

pub open spec fn get_z(f: u8) -> bool {
    f & 0x80 == 0x80
}

pub open spec fn get_n(f: u8) -> bool {
    f & 0x40 == 0x40
}

pub open spec fn get_h(f: u8) -> bool {
    f & 0x20 == 0x20
}

pub open spec fn get_c(f: u8) -> bool {
    f & 0x10 == 0x10
}

pub open spec fn set_z(f: u8, on: bool) -> u8 {
    if on {
        f | 0x80
    } else {
        f & 0x7f
    }
}

pub open spec fn set_n(f: u8, on: bool) -> u8 {
    if on {
        f | 0x40
    } else {
        f & 0xbf
    }
}

pub open spec fn set_h(f: u8, on: bool) -> u8 {
    if on {
        f | 0x20
    } else {
        f & 0xdf
    }
}

pub open spec fn set_c(f: u8, on: bool) -> u8 {
    if on {
        f | 0x10
    } else {
        f & 0xef
    }
}

/// Z set exactly when the 8-bit result is zero.
pub open spec fn set_z_value(f: u8, result: u8) -> u8 {
    set_z(f, result == 0)
}

/// Half-carry of an addition: low nibbles sum to 0x10 or more.
pub open spec fn set_h_pos(f: u8, first: u8, second: u8) -> u8 {
    set_h(f, first % 16 + second % 16 >= 0x10)
}

/// Half-borrow of a subtraction: the first low nibble is smaller.
pub open spec fn set_h_neg(f: u8, first: u8, second: u8) -> u8 {
    set_h(f, first % 16 < second % 16)
}

/// The carry flag as the 0-or-1 operand of ADC and SBC.
pub open spec fn c_value(f: u8) -> u8 {
    if get_c(f) {
        1u8
    } else {
        0u8
    }
}

// ---------------------------------------------------------------------------
// Register pairs and the register file. Index 6 denotes the byte at HL in
// the memory map; reading or writing it charges four extra cycles.
// ---------------------------------------------------------------------------

pub open spec fn bc_of(s: CpuS) -> int {
    s.b * 256 + s.c
}

pub open spec fn de_of(s: CpuS) -> int {
    s.d * 256 + s.e
}

pub open spec fn hl_of(s: CpuS) -> int {
    s.h * 256 + s.l
}

/// The value read for a 3-bit register index.
pub open spec fn reg_val(s: CpuS, idx: u8) -> u8 {
    if idx == 0 {
        s.b
    } else if idx == 1 {
        s.c
    } else if idx == 2 {
        s.d
    } else if idx == 3 {
        s.e
    } else if idx == 4 {
        s.h
    } else if idx == 5 {
        s.l
    } else if idx == 6 {
        mem_read(s.mm, hl_of(s))
    } else {
        s.a
    }
}

/// The state after reading a register index: index 6 costs four cycles.
pub open spec fn reg_read_state(s: CpuS, idx: u8) -> CpuS {
    if idx == 6 {
        CpuS { cycle: s.cycle + 4, ..s }
    } else {
        s
    }
}

/// The state after writing `v` at a register index; index 6 writes the byte
/// at HL through the memory map and costs four cycles.
pub open spec fn reg_store(s: CpuS, idx: u8, v: u8) -> CpuS {
    if idx == 0 {
        CpuS { b: v, ..s }
    } else if idx == 1 {
        CpuS { c: v, ..s }
    } else if idx == 2 {
        CpuS { d: v, ..s }
    } else if idx == 3 {
        CpuS { e: v, ..s }
    } else if idx == 4 {
        CpuS { h: v, ..s }
    } else if idx == 5 {
        CpuS { l: v, ..s }
    } else if idx == 6 {
        CpuS { cycle: s.cycle + 4, mm: mem_store(s.mm, hl_of(s), v), ..s }
    } else {
        CpuS { a: v, ..s }
    }
}

// ---------------------------------------------------------------------------
// Opcode effects. Each function gives the exact machine state after one
// dispatched opcode, program counter and cycle accounting included.
// ---------------------------------------------------------------------------

/// 0x00 NOP.
pub open spec fn op_nop(s: CpuS) -> CpuS {
    CpuS { pc: s.pc + 1, cycle: s.cycle + 4, ..s }
}

/// 0x10 STOP: consumes two bytes.
pub open spec fn op_stop(s: CpuS) -> CpuS {
    CpuS { pc: s.pc + 2, cycle: s.cycle + 4, ..s }
}

/// Undefined opcode: the byte is stored into A and the program counter
/// advances by one.
pub open spec fn op_default(s: CpuS, byte: u8) -> CpuS {
    CpuS { a: byte, pc: s.pc + 1, cycle: s.cycle + 1, ..s }
}

/// 0x01 LD BC, d16 (high byte first).
pub open spec fn op_ld_bc(s: CpuS) -> CpuS {
    CpuS { b: s.mm.cart[s.pc + 1], c: s.mm.cart[s.pc + 2], pc: s.pc + 3, cycle: s.cycle + 12, ..s }
}

/// 0x11 LD DE, d16 (high byte first).
pub open spec fn op_ld_de(s: CpuS) -> CpuS {
    CpuS { d: s.mm.cart[s.pc + 1], e: s.mm.cart[s.pc + 2], pc: s.pc + 3, cycle: s.cycle + 12, ..s }
}

/// 0x21 LD HL, d16 (high byte first).
pub open spec fn op_ld_hl(s: CpuS) -> CpuS {
    CpuS { h: s.mm.cart[s.pc + 1], l: s.mm.cart[s.pc + 2], pc: s.pc + 3, cycle: s.cycle + 12, ..s }
}

/// 0x31 LD SP, d16 (high byte first).
pub open spec fn op_ld_sp(s: CpuS) -> CpuS {
    CpuS {
        sp: (s.mm.cart[s.pc + 1] * 256 + s.mm.cart[s.pc + 2]) as u16,
        pc: s.pc + 3,
        cycle: s.cycle + 12,
        ..s
    }
}

/// 0x02 LD (BC), A.
pub open spec fn op_ldbca(s: CpuS) -> CpuS {
    CpuS { mm: mem_store(s.mm, bc_of(s), s.a), pc: s.pc + 1, cycle: s.cycle + 8, ..s }
}

/// 0x12 LD (DE), A.
pub open spec fn op_lddea(s: CpuS) -> CpuS {
    CpuS { mm: mem_store(s.mm, de_of(s), s.a), pc: s.pc + 1, cycle: s.cycle + 8, ..s }
}

/// 0x0A LD A, (BC).
pub open spec fn op_ldabc(s: CpuS) -> CpuS {
    CpuS { a: mem_read(s.mm, bc_of(s)), pc: s.pc + 1, cycle: s.cycle + 8, ..s }
}

/// 0x1A LD A, (DE).
pub open spec fn op_ldade(s: CpuS) -> CpuS {
    CpuS { a: mem_read(s.mm, de_of(s)), pc: s.pc + 1, cycle: s.cycle + 8, ..s }
}

/// 0x22 LD (HL+), A: store A at HL, then HL += 1 with low-byte wrap into
/// the high byte.
pub open spec fn op_ldhlp(s: CpuS) -> CpuS {
    let m1 = mem_store(s.mm, hl_of(s), s.a);
    let l1 = ((s.l + 1) % 256) as u8;
    let h1 = if s.l == 255 {
        ((s.h + 1) % 256) as u8
    } else {
        s.h
    };
    CpuS { h: h1, l: l1, mm: m1, pc: s.pc + 1, cycle: s.cycle + 8, ..s }
}

/// 0x32 LD (HL-), A: store A at HL, then HL -= 1 with low-byte wrap.
pub open spec fn op_ldhlm(s: CpuS) -> CpuS {
    let m1 = mem_store(s.mm, hl_of(s), s.a);
    let l1 = ((s.l + 255) % 256) as u8;
    let h1 = if s.l == 0 {
        ((s.h + 255) % 256) as u8
    } else {
        s.h
    };
    CpuS { h: h1, l: l1, mm: m1, pc: s.pc + 1, cycle: s.cycle + 8, ..s }
}

/// 0x2A LD A, (HL+): HL += 1, then load A from the new HL.
pub open spec fn op_ldahlp(s: CpuS) -> CpuS {
    let l1 = ((s.l + 1) % 256) as u8;
    let h1 = if s.l == 255 {
        ((s.h + 1) % 256) as u8
    } else {
        s.h
    };
    let s1 = CpuS { h: h1, l: l1, ..s };
    CpuS { a: mem_read(s.mm, hl_of(s1)), pc: s.pc + 1, cycle: s.cycle + 8, ..s1 }
}

/// 0x3A LD A, (HL-): HL -= 1, then load A from the new HL.
pub open spec fn op_ldahlm(s: CpuS) -> CpuS {
    let l1 = ((s.l + 255) % 256) as u8;
    let h1 = if s.l == 0 {
        ((s.h + 255) % 256) as u8
    } else {
        s.h
    };
    let s1 = CpuS { h: h1, l: l1, ..s };
    CpuS { a: mem_read(s.mm, hl_of(s1)), pc: s.pc + 1, cycle: s.cycle + 8, ..s1 }
}

/// 0x03 INC BC: 16-bit increment with carry from the low into the high byte.
pub open spec fn op_incbc(s: CpuS) -> CpuS {
    let low = ((s.c + 1) % 256) as u8;
    let high = if s.c == 255 {
        ((s.b + 1) % 256) as u8
    } else {
        s.b
    };
    CpuS { b: high, c: low, pc: s.pc + 1, cycle: s.cycle + 8, ..s }
}

/// 0x13 INC DE.
pub open spec fn op_incde(s: CpuS) -> CpuS {
    let low = ((s.e + 1) % 256) as u8;
    let high = if s.e == 255 {
        ((s.d + 1) % 256) as u8
    } else {
        s.d
    };
    CpuS { d: high, e: low, pc: s.pc + 1, cycle: s.cycle + 8, ..s }
}

/// 0x23 INC HL.
pub open spec fn op_inchl(s: CpuS) -> CpuS {
    let low = ((s.l + 1) % 256) as u8;
    let high = if s.l == 255 {
        ((s.h + 1) % 256) as u8
    } else {
        s.h
    };
    CpuS { h: high, l: low, pc: s.pc + 1, cycle: s.cycle + 8, ..s }
}

/// 0x33 INC SP (16-bit wrap).
pub open spec fn op_incsp(s: CpuS) -> CpuS {
    CpuS { sp: ((s.sp + 1) % 0x10000) as u16, pc: s.pc + 1, cycle: s.cycle + 8, ..s }
}

/// 0x0B DEC BC.
pub open spec fn op_decbc(s: CpuS) -> CpuS {
    let low = ((s.c + 255) % 256) as u8;
    let high = if s.c == 0 {
        ((s.b + 255) % 256) as u8
    } else {
        s.b
    };
    CpuS { b: high, c: low, pc: s.pc + 1, cycle: s.cycle + 8, ..s }
}

/// 0x1B DEC DE.
pub open spec fn op_decde(s: CpuS) -> CpuS {
    let low = ((s.e + 255) % 256) as u8;
    let high = if s.e == 0 {
        ((s.d + 255) % 256) as u8
    } else {
        s.d
    };
    CpuS { d: high, e: low, pc: s.pc + 1, cycle: s.cycle + 8, ..s }
}

/// 0x2B DEC HL.
pub open spec fn op_dechl(s: CpuS) -> CpuS {
    let low = ((s.l + 255) % 256) as u8;
    let high = if s.l == 0 {
        ((s.h + 255) % 256) as u8
    } else {
        s.h
    };
    CpuS { h: high, l: low, pc: s.pc + 1, cycle: s.cycle + 8, ..s }
}

/// 0x3B DEC SP (16-bit wrap).
pub open spec fn op_decsp(s: CpuS) -> CpuS {
    CpuS { sp: ((s.sp + 0xffff) % 0x10000) as u16, pc: s.pc + 1, cycle: s.cycle + 8, ..s }
}

/// 0x09/0x19/0x29/0x39 ADD HL, rr: N cleared, H from the low nibbles of the
/// high bytes, C on 16-bit overflow; Z untouched. The cycle cost of reading
/// the operand pair is charged before this step.
pub open spec fn op_add_hl_16bit(s: CpuS, number: int) -> CpuS {
    let high = number / 256;
    let sum = hl_of(s) + number;
    let f1 = set_n(set_c(set_n(set_h_pos(s.f, s.h, high as u8), false), sum > 0xffff), false);
    let wrapped = sum % 0x10000;
    CpuS {
        h: (wrapped / 256) as u8,
        l: (wrapped % 256) as u8,
        f: f1,
        pc: s.pc + 1,
        cycle: s.cycle + 12,
        ..s
    }
}

/// 0x09 ADD HL, BC (reading BC charges four more cycles).
pub open spec fn op_add_hl_bc(s: CpuS) -> CpuS {
    op_add_hl_16bit(CpuS { cycle: s.cycle + 4, ..s }, bc_of(s))
}

/// 0x19 ADD HL, DE.
pub open spec fn op_add_hl_de(s: CpuS) -> CpuS {
    op_add_hl_16bit(CpuS { cycle: s.cycle + 4, ..s }, de_of(s))
}

/// 0x29 ADD HL, HL.
pub open spec fn op_add_hl_hl(s: CpuS) -> CpuS {
    op_add_hl_16bit(CpuS { cycle: s.cycle + 4, ..s }, hl_of(s))
}

/// 0x39 ADD HL, SP (no pair read, so no extra charge).
pub open spec fn op_add_hl_sp(s: CpuS) -> CpuS {
    op_add_hl_16bit(s, s.sp as int)
}

/// 0x07 RLCA: rotate A left circular; Z, N, H cleared; C set when bit 7
/// was set (and left alone otherwise).
pub open spec fn op_rcla(s: CpuS) -> CpuS {
    let bit7 = s.a / 128;
    let a1 = ((s.a * 2) % 256) as u8;
    let a2 = if bit7 == 1 {
        (a1 + 1) as u8
    } else {
        a1
    };
    let f1 = if bit7 == 1 {
        set_c(s.f, true)
    } else {
        s.f
    };
    let f2 = set_z(set_n(set_h(f1, false), false), false);
    CpuS { a: a2, f: f2, pc: s.pc + 1, cycle: s.cycle + 4, ..s }
}

/// 0x17 RLA: rotate A left through the carry flag.
pub open spec fn op_rla(s: CpuS) -> CpuS {
    let bit7 = s.a / 128;
    let a1 = ((s.a * 2) % 256) as u8;
    let a2 = if get_c(s.f) {
        (a1 + 1) as u8
    } else {
        a1
    };
    let f1 = if bit7 == 1 {
        set_c(s.f, true)
    } else {
        s.f
    };
    let f2 = set_z(set_n(set_h(f1, false), false), false);
    CpuS { a: a2, f: f2, pc: s.pc + 1, cycle: s.cycle + 4, ..s }
}

/// 0x0F RRCA: rotate A right circular.
pub open spec fn op_rrca(s: CpuS) -> CpuS {
    let bit0 = s.a % 2;
    let a1 = s.a / 2;
    let a2 = if bit0 == 1 {
        (a1 + 0x80) as u8
    } else {
        a1
    };
    let f1 = if bit0 == 1 {
        set_c(s.f, true)
    } else {
        s.f
    };
    let f2 = set_z(set_n(set_h(f1, false), false), false);
    CpuS { a: a2, f: f2, pc: s.pc + 1, cycle: s.cycle + 4, ..s }
}

/// 0x1F RRA: rotate A right through the carry flag.
pub open spec fn op_rra(s: CpuS) -> CpuS {
    let bit0 = s.a % 2;
    let a1 = s.a / 2;
    let a2 = if get_c(s.f) {
        (a1 + 0x80) as u8
    } else {
        a1
    };
    let f1 = if bit0 == 1 {
        set_c(s.f, true)
    } else {
        s.f
    };
    let f2 = set_z(set_n(set_h(f1, false), false), false);
    CpuS { a: a2, f: f2, pc: s.pc + 1, cycle: s.cycle + 4, ..s }
}

/// 0x27 DAA: binary-coded-decimal adjust of A using H, N and C.
pub open spec fn op_daa(s: CpuS) -> CpuS {
    if get_n(s.f) {
        let a1 = if get_h(s.f) {
            ((s.a + 250) % 256) as u8
        } else {
            s.a
        };
        let a2 = if get_c(s.f) {
            ((a1 + 160) % 256) as u8
        } else {
            a1
        };
        let f1 = set_h(set_c(set_z_value(s.f, a2), false), false);
        CpuS { a: a2, f: f1, pc: s.pc + 1, cycle: s.cycle + 4, ..s }
    } else {
        let adjust_low = get_h(s.f) || s.a % 16 > 9;
        let a1 = if adjust_low {
            ((s.a + 6) % 256) as u8
        } else {
            s.a
        };
        let ov1 = adjust_low && s.a + 6 > 255;
        let adjust_high = get_c(s.f) || a1 > 0x9f;
        let a2 = if adjust_high {
            ((a1 + 0x60) % 256) as u8
        } else {
            a1
        };
        let ov2 = ov1 || (adjust_high && a1 + 0x60 > 255);
        let f1 = set_h(set_c(set_z_value(s.f, a2), ov2), false);
        CpuS { a: a2, f: f1, pc: s.pc + 1, cycle: s.cycle + 4, ..s }
    }
}

/// 0x2F CPL: A is complemented; N and H set.
pub open spec fn op_cpl(s: CpuS) -> CpuS {
    let f1 = set_h(set_n(s.f, true), true);
    CpuS { a: (255 - s.a) as u8, f: f1, pc: s.pc + 1, cycle: s.cycle + 4, ..s }
}

/// 0x37 SCF: C set, N and H cleared.
pub open spec fn op_scf(s: CpuS) -> CpuS {
    let f1 = set_n(set_h(set_c(s.f, true), false), false);
    CpuS { f: f1, pc: s.pc + 1, cycle: s.cycle + 4, ..s }
}

/// 0x3F CCF: C toggled, N and H cleared.
pub open spec fn op_ccf(s: CpuS) -> CpuS {
    let f1 = set_h(set_n(s.f ^ 0x10, false), false);
    CpuS { f: f1, pc: s.pc + 1, cycle: s.cycle + 4, ..s }
}

/// 0x40..0x7F LD r, r': source in bits 2..0, destination in bits 5..3.
pub open spec fn op_ldrr(s: CpuS, opcode: u8) -> CpuS {
    let src = opcode % 8;
    let dest = (opcode / 8) % 8;
    let v = reg_val(s, src);
    let s1 = reg_read_state(s, src);
    let s2 = reg_store(s1, dest, v);
    CpuS { pc: s2.pc + 1, cycle: s2.cycle + 4, ..s2 }
}

/// LD r, d8 (opcode & 0xC7 == 0x06): immediate into the register encoded
/// in bits 5..3.
pub open spec fn op_ld_from_cardridge(s: CpuS, opcode: u8) -> CpuS {
    let dest = (opcode / 8) % 8;
    let v = s.mm.cart[s.pc + 1];
    let s1 = reg_store(s, dest, v);
    CpuS { pc: s1.pc + 2, cycle: s1.cycle + 8, ..s1 }
}

/// 0x80..0x87 ADD A, r: Z from the result, N cleared, H on low-nibble
/// carry, C on byte overflow.
pub open spec fn op_add(s: CpuS, opcode: u8) -> CpuS {
    let idx = opcode % 8;
    let v = reg_val(s, idx);
    let s1 = reg_read_state(s, idx);
    let sum = s.a + v;
    let result = (sum % 256) as u8;
    let f1 = set_c(set_h_pos(set_n(set_z_value(s.f, result), false), s.a, v), sum > 255);
    CpuS { a: result, f: f1, pc: s1.pc + 1, cycle: s1.cycle + 4, ..s1 }
}

/// 0x88..0x8F ADC A, r: adds r and the carry flag; H and C include the
/// carry operand.
pub open spec fn op_adc(s: CpuS, opcode: u8) -> CpuS {
    let idx = opcode % 8;
    let v = reg_val(s, idx);
    let s1 = reg_read_state(s, idx);
    let cin = c_value(s.f);
    let sum = s.a + v + cin;
    let result = (sum % 256) as u8;
    let f1 = set_c(
        set_h(set_n(set_z_value(s.f, result), false), s.a % 16 + v % 16 + cin >= 0x10),
        sum > 255,
    );
    CpuS { a: result, f: f1, pc: s1.pc + 1, cycle: s1.cycle + 4, ..s1 }
}

/// 0x90..0x97 SUB A, r: Z from the result, N set, H on low-nibble borrow,
/// C when r exceeds A.
pub open spec fn op_sub(s: CpuS, opcode: u8) -> CpuS {
    let idx = opcode % 8;
    let v = reg_val(s, idx);
    let s1 = reg_read_state(s, idx);
    let result = ((s.a + 256 - v) % 256) as u8;
    let f1 = set_c(set_h_neg(set_n(set_z_value(s.f, result), true), s.a, v), v > s.a);
    CpuS { a: result, f: f1, pc: s1.pc + 1, cycle: s1.cycle + 4, ..s1 }
}

/// 0x98..0x9F SBC A, r: subtracts r and the carry flag; H and C include
/// the carry operand.
pub open spec fn op_sbc(s: CpuS, opcode: u8) -> CpuS {
    let idx = opcode % 8;
    let v = reg_val(s, idx);
    let s1 = reg_read_state(s, idx);
    let cin = c_value(s.f);
    let result = ((s.a + 512 - v - cin) % 256) as u8;
    let f1 = set_c(
        set_h(set_n(set_z_value(s.f, result), true), s.a % 16 < v % 16 + cin),
        v + cin > s.a,
    );
    CpuS { a: result, f: f1, pc: s1.pc + 1, cycle: s1.cycle + 4, ..s1 }
}

/// 0xA0..0xA7 AND A, r: Z from the result, N and C cleared, H set.
pub open spec fn op_and(s: CpuS, opcode: u8) -> CpuS {
    let idx = opcode % 8;
    let v = reg_val(s, idx);
    let s1 = reg_read_state(s, idx);
    let result = s.a & v;
    let f1 = set_n(set_h(set_c(set_z_value(0x20u8, result), false), true), false);
    CpuS { a: result, f: f1, pc: s1.pc + 1, cycle: s1.cycle + 4, ..s1 }
}

/// 0xA8..0xAF XOR A, r: Z from the result, all other flags cleared.
pub open spec fn op_xor(s: CpuS, opcode: u8) -> CpuS {
    let idx = opcode % 8;
    let v = reg_val(s, idx);
    let s1 = reg_read_state(s, idx);
    let result = s.a ^ v;
    let f1 = set_n(set_h(set_c(set_z_value(0x00u8, result), false), false), false);
    CpuS { a: result, f: f1, pc: s1.pc + 1, cycle: s1.cycle + 4, ..s1 }
}

/// 0xB0..0xB7 OR A, r: Z from the result, all other flags cleared.
pub open spec fn op_or(s: CpuS, opcode: u8) -> CpuS {
    let idx = opcode % 8;
    let v = reg_val(s, idx);
    let s1 = reg_read_state(s, idx);
    let result = s.a | v;
    let f1 = set_n(set_h(set_c(set_z_value(0x20u8, result), false), false), false);
    CpuS { a: result, f: f1, pc: s1.pc + 1, cycle: s1.cycle + 4, ..s1 }
}

/// 0xB8..0xBF CP A, r: the flags of SUB with A left unchanged.
pub open spec fn op_cp(s: CpuS, opcode: u8) -> CpuS {
    let idx = opcode % 8;
    let v = reg_val(s, idx);
    let s1 = reg_read_state(s, idx);
    let result = ((s.a + 256 - v) % 256) as u8;
    let f1 = set_c(set_h_neg(set_n(set_z_value(s.f, result), true), s.a, v), v > s.a);
    CpuS { f: f1, pc: s1.pc + 1, cycle: s1.cycle + 4, ..s1 }
}

/// INC r (opcode & 0xC7 == 0x04): Z from the result, N cleared, H on
/// low-nibble carry; C untouched.
pub open spec fn op_inc(s: CpuS, opcode: u8) -> CpuS {
    let idx = (opcode / 8) % 8;
    let v = reg_val(s, idx);
    let s1 = reg_read_state(s, idx);
    let result = ((v + 1) % 256) as u8;
    let f1 = set_h_pos(set_n(set_z_value(s1.f, result), false), v, 1);
    let s2 = reg_store(CpuS { f: f1, ..s1 }, idx, result);
    CpuS { pc: s2.pc + 1, cycle: s2.cycle + 4, ..s2 }
}

/// DEC r (opcode & 0xC7 == 0x05): Z from the result, N set, H on
/// low-nibble borrow; C untouched.
pub open spec fn op_dec(s: CpuS, opcode: u8) -> CpuS {
    let idx = (opcode / 8) % 8;
    let v = reg_val(s, idx);
    let s1 = reg_read_state(s, idx);
    let result = ((v + 255) % 256) as u8;
    let f1 = set_h_neg(set_n(set_z_value(s1.f, result), true), v, 1);
    let s2 = reg_store(CpuS { f: f1, ..s1 }, idx, result);
    CpuS { pc: s2.pc + 1, cycle: s2.cycle + 4, ..s2 }
}

/// 0xE0 LDH (n), A: store A at 0xFF00 + immediate.
pub open spec fn op_ld_to_memory(s: CpuS) -> CpuS {
    let n = s.mm.cart[s.pc + 1];
    CpuS { mm: mem_store(s.mm, 0xff00 + n, s.a), pc: s.pc + 2, cycle: s.cycle + 12, ..s }
}

/// 0xE2 LDH (C), A: store A at 0xFF00 + C.
pub open spec fn op_ld_to_memory_c(s: CpuS) -> CpuS {
    CpuS { mm: mem_store(s.mm, 0xff00 + s.c, s.a), pc: s.pc + 1, cycle: s.cycle + 8, ..s }
}

/// 0xF0 LDH A, (n): load A from 0xFF00 + immediate.
pub open spec fn op_ld_from_memory(s: CpuS) -> CpuS {
    let n = s.mm.cart[s.pc + 1];
    CpuS { a: mem_read(s.mm, 0xff00 + n), pc: s.pc + 2, cycle: s.cycle + 12, ..s }
}

/// 0xF2 LDH A, (C): load A from 0xFF00 + C.
pub open spec fn op_ld_from_memory_c(s: CpuS) -> CpuS {
    CpuS { a: mem_read(s.mm, 0xff00 + s.c), pc: s.pc + 1, cycle: s.cycle + 8, ..s }
}

/// 0xEA LD (a16), A: the two immediate bytes are the low and the high byte
/// of the address, in that order.
pub open spec fn op_ld_a16_a(s: CpuS) -> CpuS {
    let low = s.mm.cart[s.pc + 1];
    let high = s.mm.cart[s.pc + 2];
    CpuS { mm: mem_store(s.mm, high * 256 + low, s.a), pc: s.pc + 3, cycle: s.cycle + 16, ..s }
}

/// 0xFA LD A, (a16).
pub open spec fn op_ld_a_a16(s: CpuS) -> CpuS {
    let low = s.mm.cart[s.pc + 1];
    let high = s.mm.cart[s.pc + 2];
    CpuS { a: mem_read(s.mm, high * 256 + low), pc: s.pc + 3, cycle: s.cycle + 16, ..s }
}

// ---------------------------------------------------------------------------
// 0xCB-prefixed bit operations on the register encoded in the low 3 bits.
// C is set when the rotated-out bit is 1 and left alone otherwise.
// ---------------------------------------------------------------------------

/// RLC r (0x00..0x07 after the prefix); Z is taken from the rotated-out bit.
pub open spec fn op_rlc(s: CpuS, opcode: u8) -> CpuS {
    let idx = opcode % 8;
    let v = reg_val(s, idx);
    let s1 = reg_read_state(CpuS { pc: s.pc + 1, ..s }, idx);
    let bit7 = v / 128;
    let v1 = ((v * 2) % 256) as u8;
    let v2 = if bit7 == 1 {
        (v1 + 1) as u8
    } else {
        v1
    };
    let f1 = if bit7 == 1 {
        set_c(s1.f, true)
    } else {
        s1.f
    };
    let s2 = reg_store(CpuS { f: f1, ..s1 }, idx, v2);
    let f2 = set_z_value(set_n(set_h(s2.f, false), false), bit7 as u8);
    CpuS { f: f2, cycle: s2.cycle + 4, ..s2 }
}

/// RRC r (0x08..0x0F after the prefix).
pub open spec fn op_rrc(s: CpuS, opcode: u8) -> CpuS {
    let idx = opcode % 8;
    let v = reg_val(s, idx);
    let s1 = reg_read_state(CpuS { pc: s.pc + 1, ..s }, idx);
    let bit0 = v % 2;
    let v1 = v / 2;
    let v2 = if bit0 == 1 {
        (v1 + 0x80) as u8
    } else {
        v1
    };
    let f1 = if bit0 == 1 {
        set_c(s1.f, true)
    } else {
        s1.f
    };
    let s2 = reg_store(CpuS { f: f1, ..s1 }, idx, v2);
    let f2 = set_z_value(set_n(set_h(s2.f, false), false), v2);
    CpuS { f: f2, cycle: s2.cycle + 4, ..s2 }
}

/// RL r (0x10..0x17 after the prefix): rotate left through the carry flag.
pub open spec fn op_rl(s: CpuS, opcode: u8) -> CpuS {
    let idx = opcode % 8;
    let v = reg_val(s, idx);
    let s1 = reg_read_state(CpuS { pc: s.pc + 1, ..s }, idx);
    let bit7 = v / 128;
    let v1 = ((v * 2) % 256) as u8;
    let v2 = if get_c(s1.f) {
        (v1 + 1) as u8
    } else {
        v1
    };
    let f1 = if bit7 == 1 {
        set_c(s1.f, true)
    } else {
        s1.f
    };
    let f2 = set_z_value(set_n(set_h(f1, false), false), v2);
    let s2 = reg_store(CpuS { f: f2, ..s1 }, idx, v2);
    CpuS { cycle: s2.cycle + 4, ..s2 }
}

/// RR r (0x18..0x1F after the prefix): rotate right through the carry flag.
pub open spec fn op_rr(s: CpuS, opcode: u8) -> CpuS {
    let idx = opcode % 8;
    let v = reg_val(s, idx);
    let s1 = reg_read_state(CpuS { pc: s.pc + 1, ..s }, idx);
    let bit0 = v % 2;
    let v1 = v / 2;
    let v2 = if get_c(s1.f) {
        (v1 + 0x80) as u8
    } else {
        v1
    };
    let f1 = if bit0 == 1 {
        set_c(s1.f, true)
    } else {
        s1.f
    };
    let f2 = set_z_value(set_n(set_h(f1, false), false), v2);
    let s2 = reg_store(CpuS { f: f2, ..s1 }, idx, v2);
    CpuS { cycle: s2.cycle + 4, ..s2 }
}

/// SLA r (0x20..0x27 after the prefix): shift left arithmetic.
pub open spec fn op_sla(s: CpuS, opcode: u8) -> CpuS {
    let idx = opcode % 8;
    let v = reg_val(s, idx);
    let s1 = reg_read_state(CpuS { pc: s.pc + 1, ..s }, idx);
    let bit7 = v / 128;
    let v1 = ((v * 2) % 256) as u8;
    let f1 = if bit7 == 1 {
        set_c(s1.f, true)
    } else {
        s1.f
    };
    let f2 = set_z_value(set_n(set_h(f1, false), false), v1);
    let s2 = reg_store(CpuS { f: f2, ..s1 }, idx, v1);
    CpuS { cycle: s2.cycle + 4, ..s2 }
}

/// SRA r (0x28..0x2F after the prefix): shift right with the sign bit kept.
pub open spec fn op_sra(s: CpuS, opcode: u8) -> CpuS {
    let idx = opcode % 8;
    let v = reg_val(s, idx);
    let s1 = reg_read_state(CpuS { pc: s.pc + 1, ..s }, idx);
    let bit7 = v / 128;
    let bit0 = v % 2;
    let v1 = (v / 2 + bit7 * 128) as u8;
    let f1 = if bit0 == 1 {
        set_c(s1.f, true)
    } else {
        s1.f
    };
    let f2 = set_z_value(set_n(set_h(f1, false), false), v1);
    let s2 = reg_store(CpuS { f: f2, ..s1 }, idx, v1);
    CpuS { cycle: s2.cycle + 4, ..s2 }
}

/// 0xCB prefix: fetch the next byte and dispatch the bit operation; bytes
/// 0x30 and above fall back to the undefined-opcode rule.
pub open spec fn op_prefix_cb(s: CpuS) -> CpuS {
    let inner = s.mm.cart[s.pc + 1];
    let s0 = CpuS { pc: s.pc + 1, ..s };
    let s1 = if inner <= 0x07 {
        op_rlc(s0, inner)
    } else if inner <= 0x0f {
        op_rrc(s0, inner)
    } else if inner <= 0x17 {
        op_rl(s0, inner)
    } else if inner <= 0x1f {
        op_rr(s0, inner)
    } else if inner <= 0x27 {
        op_sla(s0, inner)
    } else if inner <= 0x2f {
        op_sra(s0, inner)
    } else {
        op_default(s0, inner)
    };
    CpuS { cycle: s1.cycle + 4, ..s1 }
}

// ---------------------------------------------------------------------------
// Dispatch, operand lengths and the frame loop.
// ---------------------------------------------------------------------------

/// How many operand bytes the dispatcher reads from the cartridge after the
/// opcode byte itself.
pub open spec fn op_operands(opcode: u8) -> int {
    if opcode == 0x01 || opcode == 0x11 || opcode == 0x21 || opcode == 0x31 || opcode == 0xea
        || opcode == 0xfa {
        2
    } else if opcode == 0xcb || opcode == 0xe0 || opcode == 0xf0 {
        1
    } else if opcode & 0xc7 == 0x06 {
        1
    } else {
        0
    }
}

/// The exact effect of dispatching one opcode.
pub open spec fn step_op(s: CpuS, opcode: u8) -> CpuS {
    if opcode == 0x00 {
        op_nop(s)
    } else if opcode == 0x01 {
        op_ld_bc(s)
    } else if opcode == 0x02 {
        op_ldbca(s)
    } else if opcode == 0x03 {
        op_incbc(s)
    } else if opcode == 0x07 {
        op_rcla(s)
    } else if opcode == 0x09 {
        op_add_hl_bc(s)
    } else if opcode == 0x0a {
        op_ldabc(s)
    } else if opcode == 0x0b {
        op_decbc(s)
    } else if opcode == 0x0f {
        op_rrca(s)
    } else if opcode == 0x10 {
        op_stop(s)
    } else if opcode == 0x11 {
        op_ld_de(s)
    } else if opcode == 0x12 {
        op_lddea(s)
    } else if opcode == 0x13 {
        op_incde(s)
    } else if opcode == 0x17 {
        op_rla(s)
    } else if opcode == 0x19 {
        op_add_hl_de(s)
    } else if opcode == 0x1a {
        op_ldade(s)
    } else if opcode == 0x1b {
        op_decde(s)
    } else if opcode == 0x1f {
        op_rra(s)
    } else if opcode == 0x21 {
        op_ld_hl(s)
    } else if opcode == 0x22 {
        op_ldhlp(s)
    } else if opcode == 0x23 {
        op_inchl(s)
    } else if opcode == 0x27 {
        op_daa(s)
    } else if opcode == 0x29 {
        op_add_hl_hl(s)
    } else if opcode == 0x2a {
        op_ldahlp(s)
    } else if opcode == 0x2b {
        op_dechl(s)
    } else if opcode == 0x2f {
        op_cpl(s)
    } else if opcode == 0x31 {
        op_ld_sp(s)
    } else if opcode == 0x32 {
        op_ldhlm(s)
    } else if opcode == 0x33 {
        op_incsp(s)
    } else if opcode == 0x39 {
        op_add_hl_sp(s)
    } else if opcode == 0x37 {
        op_scf(s)
    } else if opcode == 0x3a {
        op_ldahlm(s)
    } else if opcode == 0x3b {
        op_decsp(s)
    } else if opcode == 0x3f {
        op_ccf(s)
    } else if opcode == 0xcb {
        op_prefix_cb(s)
    } else if opcode == 0xe0 {
        op_ld_to_memory(s)
    } else if opcode == 0xe2 {
        op_ld_to_memory_c(s)
    } else if opcode == 0xea {
        op_ld_a16_a(s)
    } else if opcode == 0xf0 {
        op_ld_from_memory(s)
    } else if opcode == 0xf2 {
        op_ld_from_memory_c(s)
    } else if opcode == 0xfa {
        op_ld_a_a16(s)
    } else if 0x40 <= opcode <= 0x7f {
        op_ldrr(s, opcode)
    } else if 0x80 <= opcode <= 0x87 {
        op_add(s, opcode)
    } else if 0x88 <= opcode <= 0x8f {
        op_adc(s, opcode)
    } else if 0x90 <= opcode <= 0x97 {
        op_sub(s, opcode)
    } else if 0x98 <= opcode <= 0x9f {
        op_sbc(s, opcode)
    } else if 0xa0 <= opcode <= 0xa7 {
        op_and(s, opcode)
    } else if 0xa8 <= opcode <= 0xaf {
        op_xor(s, opcode)
    } else if 0xb0 <= opcode <= 0xb7 {
        op_or(s, opcode)
    } else if 0xb8 <= opcode <= 0xbf {
        op_cp(s, opcode)
    } else if opcode & 0xc7 == 0x06 {
        op_ld_from_cardridge(s, opcode)
    } else if opcode & 0xc7 == 0x04 {
        op_inc(s, opcode)
    } else if opcode & 0xc7 == 0x05 {
        op_dec(s, opcode)
    } else {
        op_default(s, opcode)
    }
}

/// The remaining budget, as the loop's termination measure.
pub open spec fn frame_measure(s: CpuS) -> nat {
    if s.cycle >= crate::CYCLES_PER_FRAME {
        0nat
    } else {
        (crate::CYCLES_PER_FRAME - s.cycle) as nat
    }
}

/// One frame of execution from state `s`: opcodes are dispatched until the
/// program counter leaves the cartridge, an instruction's operand bytes
/// would lie past its end, or the cycle budget is crossed — in which case
/// the counter resets to zero. Every dispatched opcode consumes at least
/// one cycle, which is what makes the recursion well-founded; the final
/// branch is never reached.
pub open spec fn frame_loop(s: CpuS) -> CpuS
    decreases frame_measure(s),
{
    if s.pc >= s.mm.cart.len() {
        s
    } else if s.cycle >= crate::CYCLES_PER_FRAME {
        CpuS { cycle: 0, ..s }
    } else if s.pc + 1 + op_operands(s.mm.cart[s.pc]) > s.mm.cart.len() {
        s
    } else {
        let s2 = step_op(s, s.mm.cart[s.pc]);
        if s2.cycle > s.cycle {
            frame_loop(s2)
        } else {
            s2
        }
    }
}

/// A full `start_cycle` call: a no-op when the processor is stopped, one
/// frame of the loop otherwise.
pub open spec fn frame_fn(s: CpuS) -> CpuS {
    if s.stopped {
        s
    } else {
        frame_loop(s)
    }
}

} // verus!
