//! Fixed-width big-endian integers and byte slicing on the front of a buffer.

use vstd::prelude::*;

verus! {

/// The `n` bytes of `v` taken modulo `256^n`, most significant first: what `to_be_bytes`
/// gives for an integer type of `n` bytes (two's complement for negative values).
pub open spec fn be_bytes(v: int, n: nat) -> Seq<u8>
    decreases n,
{
    if n == 0 {
        Seq::empty()
    } else {
        be_bytes(v / 256, (n - 1) as nat).push((v % 256) as u8)
    }
}

/// The unsigned number that `bytes` spell, most significant byte first.
pub open spec fn be_value(bytes: Seq<u8>) -> nat
    decreases bytes.len(),
{
    if bytes.len() == 0 {
        0
    } else {
        be_value(bytes.drop_last()) * 256 + bytes.last() as nat
    }
}

/// `256` raised to the power `n`.
pub open spec fn pow256(n: nat) -> nat
    decreases n,
{
    if n == 0 {
        1
    } else {
        256 * pow256((n - 1) as nat)
    }
}

/// Appends the `n` low bytes of the two's complement of `v`, most significant first.
pub fn push_be_signed(buffer: &mut Vec<u8>, v: i64, n: usize)
    ensures
        final(buffer)@ == old(buffer)@ + be_bytes(v as int, n as nat),
    decreases n,
{
    if n == 0 {
        assert(old(buffer)@ + be_bytes(v as int, 0) =~= old(buffer)@);
        return ;
    }
    // floor division by 256 and the matching remainder, on a non-negative magnitude
    let q: i64;
    let r: u8;
    if v >= 0 {
        q = v / 256;
        r = (v % 256) as u8;
    } else {
        let m: i64 = -(v + 1);
        q = -(m / 256) - 1;
        r = (255 - m % 256) as u8;
    }
    assert(q as int == v as int / 256 && r as int == v as int % 256);
    push_be_signed(buffer, q, n - 1);
    buffer.push(r);
    assert(final(buffer)@ =~= old(buffer)@ + be_bytes(v as int, n as nat)) by {
        assert(be_bytes(v as int, n as nat) == be_bytes(q as int, (n - 1) as nat).push(r));
    }
}

/// Appends the `n` low bytes of `v`, most significant first.
pub fn push_be_unsigned(buffer: &mut Vec<u8>, v: u128, n: usize)
    ensures
        final(buffer)@ == old(buffer)@ + be_bytes(v as int, n as nat),
    decreases n,
{
    if n == 0 {
        assert(old(buffer)@ + be_bytes(v as int, 0) =~= old(buffer)@);
        return ;
    }
    let q = v / 256;
    let r = (v % 256) as u8;
    push_be_unsigned(buffer, q, n - 1);
    buffer.push(r);
    assert(final(buffer)@ =~= old(buffer)@ + be_bytes(v as int, n as nat)) by {
        assert(be_bytes(v as int, n as nat) == be_bytes(q as int, (n - 1) as nat).push(r));
    }
}

/// The unsigned value of the first `n` bytes of `buffer`, most significant first.
pub fn be_value_of_front(buffer: &Vec<u8>, n: usize) -> (v: u128)
    requires
        n <= buffer@.len(),
        n <= 16,
    ensures
        v == be_value(buffer@.take(n as int)),
        v < pow256(n as nat),
{
    let mut v: u128 = 0;
    let mut i: usize = 0;
    while i < n
        invariant
            i <= n <= buffer@.len(),
            n <= 16,
            v == be_value(buffer@.take(i as int)),
            v < pow256(i as nat),
        decreases n - i,
    {
        proof {
            assert(buffer@.take(i + 1).drop_last() =~= buffer@.take(i as int));
            lemma_pow256_bound(i as nat);
            assert(v * 256 + 255 < pow256((i + 1) as nat)) by (nonlinear_arith)
                requires
                    v < pow256(i as nat),
                    pow256((i + 1) as nat) == 256 * pow256(i as nat),
            ;
        }
        v = v * 256 + buffer[i] as u128;
        i = i + 1;
    }
    v
}

proof fn lemma_pow256_bound(i: nat)
    requires
        i < 16,
    ensures
        pow256(i) * 256 == pow256(i + 1),
        pow256(i + 1) <= 0x1_0000_0000_0000_0000_0000_0000_0000_0000,
{
    lemma_pow256_monotone((i + 1) as nat, 16);
    assert(pow256(16) == 0x1_0000_0000_0000_0000_0000_0000_0000_0000) by {
        reveal_with_fuel(pow256, 17);
    }
}

proof fn lemma_pow256_monotone(a: nat, b: nat)
    requires
        a <= b,
    ensures
        pow256(a) <= pow256(b),
    decreases b,
{
    if a < b {
        lemma_pow256_monotone(a, (b - 1) as nat);
    }
}

/// Splits off the first `n` bytes of `buffer` and returns them.
pub fn take_front(buffer: &mut Vec<u8>, n: usize) -> (head: Vec<u8>)
    requires
        n <= old(buffer)@.len(),
    ensures
        head@ == old(buffer)@.take(n as int),
        final(buffer)@ == old(buffer)@.skip(n as int),
{
    let mut tail = buffer.split_off(n);
    std::mem::swap(buffer, &mut tail);
    tail
}


/// Reading back `n` big-endian bytes gives the value they were made from, modulo `256^n`:
/// for a negative value, the bytes are its two's complement in `n` bytes.
pub proof fn lemma_be_value_of_be_bytes(v: int, n: nat)
    ensures
        be_value(be_bytes(v, n)) == v % (pow256(n) as int),
        be_bytes(v, n).len() == n,
    decreases n,
{
    if n == 0 {
        assert(v % 1 == 0);
    } else {
        let q = v / 256;
        let r = v % 256;
        let p = pow256((n - 1) as nat) as int;
        lemma_be_value_of_be_bytes(q, (n - 1) as nat);
        lemma_pow256_positive((n - 1) as nat);
        let bytes = be_bytes(v, n);
        assert(bytes.drop_last() == be_bytes(q, (n - 1) as nat));
        let a = q / p;
        let b = q % p;
        assert(q == p * a + b) by {
            vstd::arithmetic::div_mod::lemma_fundamental_div_mod(q, p);
        }
        assert(v == (256 * p) * a + (256 * b + r)) by (nonlinear_arith)
            requires
                v == 256 * q + r,
                q == p * a + b,
        ;
        assert(0 <= 256 * b + r < 256 * p) by (nonlinear_arith)
            requires
                0 <= b < p,
                0 <= r < 256,
        ;
        vstd::arithmetic::div_mod::lemma_fundamental_div_mod_converse(
            v,
            256 * p,
            a,
            256 * b + r,
        );
    }
}

proof fn lemma_pow256_positive(n: nat)
    ensures
        pow256(n) >= 1,
    decreases n,
{
    if n > 0 {
        lemma_pow256_positive((n - 1) as nat);
    }
}

/// `256^8`, the number of values of eight bytes.
pub proof fn lemma_pow256_8()
    ensures
        pow256(8) == 0x1_0000_0000_0000_0000,
        pow256(4) == 0x1_0000_0000,
        pow256(2) == 0x1_0000,
        pow256(1) == 0x100,
{
    reveal_with_fuel(pow256, 9);
}


/// Writing back the value that `n` big-endian bytes spell gives those bytes again.
pub proof fn lemma_be_bytes_of_be_value(b: Seq<u8>)
    ensures
        be_bytes(be_value(b) as int, b.len()) == b,
        be_value(b) < pow256(b.len()),
    decreases b.len(),
{
    if b.len() > 0 {
        let rest = b.drop_last();
        lemma_be_bytes_of_be_value(rest);
        let v = be_value(b) as int;
        let r = be_value(rest) as int;
        assert(v == r * 256 + b.last());
        assert(v / 256 == r && v % 256 == b.last() as int);
        assert(be_bytes(v, b.len()) =~= b);
        assert(pow256(b.len()) == 256 * pow256(rest.len()));
    } else {
        assert(be_bytes(0, 0) =~= b);
    }
}


/// Removes the first `n` bytes of `buffer` and returns their unsigned big-endian value.
pub fn take_be_front(buffer: &mut Vec<u8>, n: usize) -> (v: u128)
    requires
        n <= old(buffer)@.len(),
        n <= 16,
    ensures
        v == be_value(old(buffer)@.take(n as int)),
        final(buffer)@ == old(buffer)@.skip(n as int),
        v < pow256(n as nat),
{
    let head = take_front(buffer, n);
    assert(head@.take(n as int) =~= head@);
    be_value_of_front(&head, n)
}

} // verus!
