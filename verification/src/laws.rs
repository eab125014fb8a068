//! Laws of the instruction engine, proved once and for all over the
//! abstract machine: the register file round-trips, register-to-register
//! loads touch nothing else, the arithmetic and logic opcodes set the
//! accumulator and every flag exactly as specified, and the sprite sort
//! orders by ascending x.
//!
//! The laws are stated over the `op_*` functions of the `machine` module,
//! not over the executable handlers, so they hold for every machine state
//! with no precondition at all. The handlers carry dispatch preconditions
//! (well-formed buffers, cycle budget, program counter inside the
//! cartridge — what `start_cycle` establishes before dispatching), and each
//! ends in an exact equality `final(self)@ == op_*(old(self)@)`, which
//! transfers every law here to the executable engine.

use vstd::prelude::*;

use crate::machine::{
    get_c, get_h, get_n, get_z, op_add, op_and, op_ldrr, op_or, op_sub, op_xor, reg_store,
    reg_val, set_c, set_h, set_n, set_z, CpuS,
};
use crate::memory_map::{mem_read, MemS};
use crate::renderer::{insert_sprite, sort_sprites, sorted_by_x, SpriteS};

verus! {

/// Setting Z changes exactly the Z bit and leaves the other flag bits and
/// the low nibble alone.
pub proof fn lemma_set_z(f: u8, on: bool)
    by (bit_vector)
    ensures
        get_z(set_z(f, on)) == on,
        get_n(set_z(f, on)) == get_n(f),
        get_h(set_z(f, on)) == get_h(f),
        get_c(set_z(f, on)) == get_c(f),
        set_z(f, on) & 0x0f == f & 0x0f,
{
}

/// Setting N changes exactly the N bit.
pub proof fn lemma_set_n(f: u8, on: bool)
    by (bit_vector)
    ensures
        get_z(set_n(f, on)) == get_z(f),
        get_n(set_n(f, on)) == on,
        get_h(set_n(f, on)) == get_h(f),
        get_c(set_n(f, on)) == get_c(f),
        set_n(f, on) & 0x0f == f & 0x0f,
{
}

/// Setting H changes exactly the H bit.
pub proof fn lemma_set_h(f: u8, on: bool)
    by (bit_vector)
    ensures
        get_z(set_h(f, on)) == get_z(f),
        get_n(set_h(f, on)) == get_n(f),
        get_h(set_h(f, on)) == on,
        get_c(set_h(f, on)) == get_c(f),
        set_h(f, on) & 0x0f == f & 0x0f,
{
}

/// Setting C changes exactly the C bit.
pub proof fn lemma_set_c(f: u8, on: bool)
    by (bit_vector)
    ensures
        get_z(set_c(f, on)) == get_z(f),
        get_n(set_c(f, on)) == get_n(f),
        get_h(set_c(f, on)) == get_h(f),
        get_c(set_c(f, on)) == on,
        set_c(f, on) & 0x0f == f & 0x0f,
{
}

/// Storing a value at a data-register index and reading the same index
/// yields that value, for every register index other than 110 (which
/// denotes the byte at HL, not a register).
pub proof fn lemma_register_roundtrip(s: CpuS, idx: u8, v: u8)
    requires
        idx < 8,
        idx != 6,
    ensures
        reg_val(reg_store(s, idx, v), idx) == v,
{
}

/// LD r, r' with neither index 110: the destination register takes the
/// source's value, every other data register keeps its value, and running
/// the same load a second time changes no data register further.
pub proof fn lemma_ldrr(s: CpuS, opcode: u8)
    requires
        0x40 <= opcode <= 0x7f,
        opcode % 8 != 6,
        (opcode / 8) % 8 != 6,
    ensures
        reg_val(op_ldrr(s, opcode), (opcode / 8) % 8) == reg_val(s, opcode % 8),
        forall|j: u8|
            j < 8 && j != 6 && j != (opcode / 8) % 8 ==> #[trigger] reg_val(op_ldrr(s, opcode), j)
                == reg_val(s, j),
        forall|j: u8|
            j < 8 && j != 6 ==> #[trigger] reg_val(op_ldrr(op_ldrr(s, opcode), opcode), j)
                == reg_val(op_ldrr(s, opcode), j),
{
}

/// ADD A, r: the accumulator becomes (A + r) mod 256; Z holds exactly when
/// the result is zero, N is cleared, H holds exactly when the low nibbles
/// of A and r sum to 0x10 or more, and C exactly when A + r reaches 256.
pub proof fn lemma_add_flags(s: CpuS, opcode: u8)
    requires
        0x80 <= opcode <= 0x87,
    ensures
        op_add(s, opcode).a == (s.a + reg_val(s, opcode % 8)) % 256,
        get_z(op_add(s, opcode).f) <==> op_add(s, opcode).a == 0,
        !get_n(op_add(s, opcode).f),
        get_h(op_add(s, opcode).f) <==> s.a % 16 + reg_val(s, opcode % 8) % 16 >= 0x10,
        get_c(op_add(s, opcode).f) <==> s.a + reg_val(s, opcode % 8) >= 256,
{
    let v = reg_val(s, opcode % 8);
    let result = ((s.a + v) % 256) as u8;
    let f0 = set_z(s.f, result == 0);
    let f1 = set_n(f0, false);
    let f2 = set_h(f1, s.a % 16 + v % 16 >= 0x10);
    lemma_set_z(s.f, result == 0);
    lemma_set_n(f0, false);
    lemma_set_h(f1, s.a % 16 + v % 16 >= 0x10);
    lemma_set_c(f2, s.a + v > 255);
}

/// SUB A, r: the accumulator becomes (A - r) mod 256; Z holds exactly when
/// the result is zero, N is set, H holds exactly when the low nibble of A
/// is smaller than the low nibble of r, and C exactly when r exceeds A.
pub proof fn lemma_sub_flags(s: CpuS, opcode: u8)
    requires
        0x90 <= opcode <= 0x97,
    ensures
        op_sub(s, opcode).a == (s.a - reg_val(s, opcode % 8)) % 256,
        get_z(op_sub(s, opcode).f) <==> op_sub(s, opcode).a == 0,
        get_n(op_sub(s, opcode).f),
        get_h(op_sub(s, opcode).f) <==> s.a % 16 < reg_val(s, opcode % 8) % 16,
        get_c(op_sub(s, opcode).f) <==> reg_val(s, opcode % 8) > s.a,
{
    let v = reg_val(s, opcode % 8);
    let result = ((s.a + 256 - v) % 256) as u8;
    vstd::arithmetic::div_mod::lemma_mod_add_multiples_vanish(s.a - v, 256);
    let f0 = set_z(s.f, result == 0);
    let f1 = set_n(f0, true);
    let f2 = set_h(f1, s.a % 16 < v % 16);
    lemma_set_z(s.f, result == 0);
    lemma_set_n(f0, true);
    lemma_set_h(f1, s.a % 16 < v % 16);
    lemma_set_c(f2, v > s.a);
}

/// AND A, r leaves the flag register equal to 0x20 with the Z bit from the
/// result or'd in: H is always set, N and C always clear.
pub proof fn lemma_and_flags(s: CpuS, opcode: u8)
    requires
        0xa0 <= opcode <= 0xa7,
    ensures
        op_and(s, opcode).a == (s.a & reg_val(s, opcode % 8)),
        op_and(s, opcode).f == (0x20u8 | (if op_and(s, opcode).a == 0 {
            0x80u8
        } else {
            0x00u8
        })),
{
    let result = s.a & reg_val(s, opcode % 8);
    if result == 0 {
        assert(set_n(set_h(set_c(set_z(0x20u8, true), false), true), false) == (0x20u8 | 0x80u8))
            by (bit_vector);
    } else {
        assert(set_n(set_h(set_c(set_z(0x20u8, false), false), true), false) == (0x20u8 | 0x00u8))
            by (bit_vector);
    }
}

/// OR A, r leaves the flag register equal to 0x00 with the Z bit from the
/// result or'd in: H, N and C always clear.
pub proof fn lemma_or_flags(s: CpuS, opcode: u8)
    requires
        0xb0 <= opcode <= 0xb7,
    ensures
        op_or(s, opcode).a == (s.a | reg_val(s, opcode % 8)),
        op_or(s, opcode).f == (0x00u8 | (if op_or(s, opcode).a == 0 {
            0x80u8
        } else {
            0x00u8
        })),
{
    let result = s.a | reg_val(s, opcode % 8);
    if result == 0 {
        assert(set_n(set_h(set_c(set_z(0x20u8, true), false), false), false) == (0x00u8 | 0x80u8))
            by (bit_vector);
    } else {
        assert(set_n(set_h(set_c(set_z(0x20u8, false), false), false), false) == (0x00u8
            | 0x00u8)) by (bit_vector);
    }
}

/// XOR A, r leaves the flag register equal to 0x00 with the Z bit from the
/// result or'd in: H, N and C always clear.
pub proof fn lemma_xor_flags(s: CpuS, opcode: u8)
    requires
        0xa8 <= opcode <= 0xaf,
    ensures
        op_xor(s, opcode).a == (s.a ^ reg_val(s, opcode % 8)),
        op_xor(s, opcode).f == (0x00u8 | (if op_xor(s, opcode).a == 0 {
            0x80u8
        } else {
            0x00u8
        })),
{
    let result = s.a ^ reg_val(s, opcode % 8);
    if result == 0 {
        assert(set_n(set_h(set_c(set_z(0x00u8, true), false), false), false) == (0x00u8 | 0x80u8))
            by (bit_vector);
    } else {
        assert(set_n(set_h(set_c(set_z(0x00u8, false), false), false), false) == (0x00u8
            | 0x00u8)) by (bit_vector);
    }
}

/// Every element of an insertion is the inserted sprite or one of the
/// original elements.
proof fn lemma_insert_sprite_elements(sorted: Seq<SpriteS>, sp: SpriteS, k: int)
    requires
        0 <= k < insert_sprite(sorted, sp).len(),
    ensures
        insert_sprite(sorted, sp)[k] == sp || exists|m: int|
            0 <= m < sorted.len() && insert_sprite(sorted, sp)[k] == sorted[m],
    decreases sorted.len(),
{
    if sorted.len() == 0 {
    } else if sorted.last().x > sp.x {
        let inner = insert_sprite(sorted.drop_last(), sp);
        if k < inner.len() {
            lemma_insert_sprite_elements(sorted.drop_last(), sp, k);
            if inner[k] != sp {
                let m = choose|m: int|
                    0 <= m < sorted.drop_last().len() && inner[k] == sorted.drop_last()[m];
                assert(insert_sprite(sorted, sp)[k] == sorted[m]);
            }
        } else {
            assert(insert_sprite(sorted, sp)[k] == sorted[sorted.len() - 1]);
        }
    } else {
        if k < sorted.len() {
            assert(insert_sprite(sorted, sp)[k] == sorted[k]);
        }
    }
}

/// Inserting into a list sorted by ascending x keeps it sorted.
proof fn lemma_insert_sprite_sorted(sorted: Seq<SpriteS>, sp: SpriteS)
    requires
        sorted_by_x(sorted),
    ensures
        sorted_by_x(insert_sprite(sorted, sp)),
    decreases sorted.len(),
{
    if sorted.len() == 0 {
    } else if sorted.last().x > sp.x {
        lemma_insert_sprite_sorted(sorted.drop_last(), sp);
        let inner = insert_sprite(sorted.drop_last(), sp);
        assert forall|i: int| 0 <= i < inner.len() implies inner[i].x <= sorted.last().x by {
            lemma_insert_sprite_elements(sorted.drop_last(), sp, i);
        }
    } else {
    }
}

/// The sprite sort orders its output by ascending on-screen x, so the
/// priority scan really sees lower-x sprites first.
pub proof fn lemma_sort_sprites_sorted(sprites: Seq<SpriteS>)
    ensures
        sorted_by_x(sort_sprites(sprites)),
    decreases sprites.len(),
{
    if sprites.len() == 0 {
    } else {
        lemma_sort_sprites_sorted(sprites.drop_last());
        lemma_insert_sprite_sorted(sort_sprites(sprites.drop_last()), sprites.last());
    }
}

/// With the button matrix selected (selection bits 0x10 stored at 0xFF00)
/// and a 4-bit pattern in the matrix, reading 0xFF00 yields 0x10 | pattern.
pub proof fn lemma_joypad_buttons(m: MemS, p: u8)
    requires
        m.mem[0xff00] & 0x30 == 0x10,
        p <= 0x0f,
    ensures
        mem_read(MemS { buttons: p, ..m }, 0xff00) == (0x10u8 | p),
{
    assert(p & 0x0f == p) by (bit_vector)
        requires
            p <= 0x0f,
    ;
}

} // verus!
