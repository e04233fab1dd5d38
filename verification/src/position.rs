//! Block positions packed in one 64-bit word: 26 bits of `x`, 26 bits of `z`, 12 bits
//! of `y`, from the most significant end.

use vstd::prelude::*;

use crate::wire::{
    be_bytes, be_value, lemma_be_bytes_of_be_value, be_value_of_front, lemma_be_value_of_be_bytes, lemma_pow256_8, pow256,
    push_be_unsigned, take_front,
};

verus! {

/// The word that `write_position` packs: the low 26 bits of `x` at bit 38, the low 26
/// bits of `z` at bit 12 and the low 12 bits of `y` at bit 0.
pub open spec fn position_word(x: int, y: int, z: int) -> int {
    (x % 0x400_0000) * 0x40_0000_0000 + (z % 0x400_0000) * 0x1000 + (y % 0x1000)
}

/// A 26-bit field read as a two's complement number.
pub open spec fn signed26(v: int) -> int {
    if v >= 0x200_0000 {
        v - 0x400_0000
    } else {
        v
    }
}

/// A 12-bit field read as a two's complement number.
pub open spec fn signed12(v: int) -> int {
    if v >= 0x800 {
        v - 0x1000
    } else {
        v
    }
}

/// The `(x, y, z)` that `read_position` unpacks from the word `p`.
pub open spec fn position_of(p: int) -> (int, int, int) {
    (signed26(p / 0x40_0000_0000), signed12(p % 0x1000), signed26((p / 0x1000) % 0x400_0000))
}

/// `v` modulo `m` (`m` positive), computed on a non-negative magnitude.
fn low_part(v: i32, m: i64) -> (r: i64)
    requires
        0 < m <= 0x1_0000_0000,
    ensures
        r == v as int % m as int,
        0 <= r < m,
{
    let w = v as i64;
    if w >= 0 {
        w % m
    } else {
        let a: i64 = -(w + 1);
        proof {
            let k = a as int / m as int;
            let b = a as int % m as int;
            vstd::arithmetic::div_mod::lemma_fundamental_div_mod(a as int, m as int);
            let mi = m as int;
            let wi = w as int;
            let ai = a as int;
            assert(wi == mi * (-k - 1) + (mi - 1 - b)) by (nonlinear_arith)
                requires
                    ai == mi * k + b,
                    wi == -ai - 1,
            ;
            vstd::arithmetic::div_mod::lemma_fundamental_div_mod_converse(
                w as int,
                m as int,
                -k - 1,
                m - 1 - b,
            );
        }
        m - 1 - a % m
    }
}

/// Appends the block position `(x, y, z)` as eight big-endian bytes of its packed word.
pub fn write_position(buffer: &mut Vec<u8>, x: i32, y: i32, z: i32)
    ensures
        final(buffer)@ == old(buffer)@ + be_bytes(position_word(x as int, y as int, z as int), 8),
{
    let xm = low_part(x, 0x400_0000) as u64;
    let zm = low_part(z, 0x400_0000) as u64;
    let ym = low_part(y, 0x1000) as u64;
    assert(xm * 0x40_0000_0000 + zm * 0x1000 + ym <= u64::MAX) by (nonlinear_arith)
        requires
            xm < 0x400_0000,
            zm < 0x400_0000,
            ym < 0x1000,
    ;
    let pos: u64 = xm * 0x40_0000_0000 + zm * 0x1000 + ym;
    push_be_unsigned(buffer, pos as u128, 8);
}

/// Removes the first eight bytes of `buffer` and unpacks the block position they hold.
pub fn read_position(buffer: &mut Vec<u8>) -> (r: (i32, i32, i32))
    requires
        old(buffer)@.len() >= 8,
    ensures
        (r.0 as int, r.1 as int, r.2 as int) == position_of(be_value(old(buffer)@.take(8)) as int),
        final(buffer)@ == old(buffer)@.skip(8),
{
    let head = take_front(buffer, 8);
    proof {
        lemma_pow256_8();
    }
    let readpos = be_value_of_front(&head, 8) as u64;
    assert(head@.take(8) =~= head@);
    let mut x = (readpos / 0x40_0000_0000) as i32;
    let mut y = (readpos % 0x1000) as i32;
    let mut z = ((readpos / 0x1000) % 0x400_0000) as i32;
    if x >= 0x200_0000 {
        x -= 0x400_0000
    }
    if y >= 0x800 {
        y -= 0x1000
    }
    if z >= 0x200_0000 {
        z -= 0x400_0000
    }
    (x, y, z)
}

/// A block position written with `write_position` reads back unchanged with
/// `read_position` when its coordinates fit their fields: `x` and `z` in 26 bits, `y`
/// in 12 bits, two's complement.
pub proof fn lemma_position_read_after_write(x: int, y: int, z: int)
    requires
        -0x200_0000 <= x < 0x200_0000,
        -0x800 <= y < 0x800,
        -0x200_0000 <= z < 0x200_0000,
    ensures
        be_bytes(position_word(x, y, z), 8).len() == 8,
        position_of(be_value(be_bytes(position_word(x, y, z), 8)) as int) == (x, y, z),
{
    let xm = x % 0x400_0000;
    let zm = z % 0x400_0000;
    let ym = y % 0x1000;
    let p = position_word(x, y, z);
    assert(0 <= p < 0x1_0000_0000_0000_0000) by (nonlinear_arith)
        requires
            p == xm * 0x40_0000_0000 + zm * 0x1000 + ym,
            0 <= xm < 0x400_0000,
            0 <= zm < 0x400_0000,
            0 <= ym < 0x1000,
    ;
    lemma_be_value_of_be_bytes(p, 8);
    lemma_pow256_8();
    vstd::arithmetic::div_mod::lemma_fundamental_div_mod_converse(
        p,
        0x40_0000_0000,
        xm,
        zm * 0x1000 + ym,
    );
    vstd::arithmetic::div_mod::lemma_fundamental_div_mod_converse(
        p,
        0x1000,
        xm * 0x400_0000 + zm,
        ym,
    );
    vstd::arithmetic::div_mod::lemma_fundamental_div_mod_converse(
        xm * 0x400_0000 + zm,
        0x400_0000,
        xm,
        zm,
    );
}


/// Any eight bytes read with `read_position` and written back with `write_position`
/// come out unchanged: every 64-bit word is the packed form of the position it reads
/// as, and that position fits the `i32` coordinates.
pub proof fn lemma_position_write_after_read(b: Seq<u8>)
    requires
        b.len() == 8,
    ensures
        ({
            let (x, y, z) = position_of(be_value(b) as int);
            &&& i32::MIN <= x <= i32::MAX
            &&& i32::MIN <= y <= i32::MAX
            &&& i32::MIN <= z <= i32::MAX
            &&& be_bytes(position_word(x, y, z), 8) == b
        }),
{
    lemma_be_bytes_of_be_value(b);
    lemma_pow256_8();
    let p = be_value(b) as int;
    let xr = p / 0x40_0000_0000;
    let yr = p % 0x1000;
    let q = p / 0x1000;
    let zr = q % 0x400_0000;
    vstd::arithmetic::div_mod::lemma_div_denominator(p, 0x1000, 0x400_0000);
    assert(q / 0x400_0000 == xr);
    vstd::arithmetic::div_mod::lemma_fundamental_div_mod(q, 0x400_0000);
    vstd::arithmetic::div_mod::lemma_fundamental_div_mod(p, 0x1000);
    assert(0 <= xr < 0x400_0000);
    let (x, y, z) = position_of(p);
    assert(x % 0x400_0000 == xr);
    assert(y % 0x1000 == yr);
    assert(z % 0x400_0000 == zr);
    assert(position_word(x, y, z) == p) by (nonlinear_arith)
        requires
            position_word(x, y, z) == xr * 0x40_0000_0000 + zr * 0x1000 + yr,
            q == 0x400_0000 * xr + zr,
            p == 0x1000 * q + yr,
    ;
}


/// The eight bytes written for `(x, y, z)` spell, big-endian, a word that holds the low
/// 26 bits of `x` from bit 38 up, the low 26 bits of `z` in bits 12 to 37, and the low
/// 12 bits of `y` in bits 0 to 11.
pub proof fn lemma_position_layout(x: int, y: int, z: int)
    ensures
        be_value(be_bytes(position_word(x, y, z), 8)) / 0x40_0000_0000 == x % 0x400_0000,
        (be_value(be_bytes(position_word(x, y, z), 8)) / 0x1000) % 0x400_0000 == z % 0x400_0000,
        be_value(be_bytes(position_word(x, y, z), 8)) % 0x1000 == y % 0x1000,
{
    let xm = x % 0x400_0000;
    let zm = z % 0x400_0000;
    let ym = y % 0x1000;
    let p = position_word(x, y, z);
    assert(0 <= p < 0x1_0000_0000_0000_0000) by (nonlinear_arith)
        requires
            p == xm * 0x40_0000_0000 + zm * 0x1000 + ym,
            0 <= xm < 0x400_0000,
            0 <= zm < 0x400_0000,
            0 <= ym < 0x1000,
    ;
    lemma_be_value_of_be_bytes(p, 8);
    lemma_pow256_8();
    assert(be_value(be_bytes(p, 8)) == p);
    vstd::arithmetic::div_mod::lemma_fundamental_div_mod_converse(
        p,
        0x40_0000_0000,
        xm,
        zm * 0x1000 + ym,
    );
    vstd::arithmetic::div_mod::lemma_fundamental_div_mod_converse(
        p,
        0x1000,
        xm * 0x400_0000 + zm,
        ym,
    );
    vstd::arithmetic::div_mod::lemma_fundamental_div_mod_converse(
        xm * 0x400_0000 + zm,
        0x400_0000,
        xm,
        zm,
    );
}

/// Of any eight bytes, `read_position` takes x from the top 26 bits of their big-endian
/// word, z from the next 26 and y from the low 12, each read as a two's complement
/// number: x and z in `-2^25..2^25` and y in `-2^11..2^11`, with those low bits.
pub proof fn lemma_position_fields(b: Seq<u8>)
    requires
        b.len() == 8,
    ensures
        ({
            let p = be_value(b) as int;
            let (x, y, z) = position_of(p);
            &&& -0x200_0000 <= x < 0x200_0000
            &&& -0x800 <= y < 0x800
            &&& -0x200_0000 <= z < 0x200_0000
            &&& x % 0x400_0000 == p / 0x40_0000_0000
            &&& z % 0x400_0000 == (p / 0x1000) % 0x400_0000
            &&& y % 0x1000 == p % 0x1000
        }),
{
    lemma_be_bytes_of_be_value(b);
    lemma_pow256_8();
    let p = be_value(b) as int;
    let xr = p / 0x40_0000_0000;
    assert(0 <= xr < 0x400_0000);
}

} // verus!
