//! Variable-length integers: seven bits per byte, lowest group first, high bit set on
//! every byte that is followed by another.

use vstd::prelude::*;

verus! {

/// The bytes that `write_var_int` appends for `v`: the low seven bits first, with the
/// high bit set on every byte but the last; the last byte is emitted once the value
/// that remains (its sign included) fits in seven bits, that is lies in `-64..64`.
pub open spec fn var_int_encoding(v: int) -> Seq<u8>
    decreases (if v < 0 { -v } else { v }),
{
    if -64 <= v < 64 {
        seq![(v % 128) as u8]
    } else {
        seq![(v % 128 + 128) as u8] + var_int_encoding(v / 128)
    }
}

/// Appends the var-int encoding of `value2` to `buffer`.
pub fn write_var_int(buffer: &mut Vec<u8>, value2: i32)
    ensures
        final(buffer)@ == old(buffer)@ + var_int_encoding(value2 as int),
{
    let mut val: i64 = value2 as i64;
    loop
        invariant
            i32::MIN <= val <= i32::MAX,
            buffer@ + var_int_encoding(val as int) == old(buffer)@ + var_int_encoding(
                value2 as int,
            ),
        decreases (if val < 0 { -(val as int) } else { val as int }),
    {
        // The low seven bits and the value that remains, computed on a non-negative
        // magnitude so that only non-negative division is involved.
        let low: u8;
        let rest: i64;
        if val >= 0 {
            low = (val % 128) as u8;
            rest = val / 128;
        } else {
            let m: i64 = -val - 1;
            low = (127 - m % 128) as u8;
            rest = -(m / 128) - 1;
        }
        assert(low as int == val as int % 128 && rest as int == val as int / 128);
        if -64 <= val && val < 64 {
            buffer.push(low);
            return ;
        }
        let ghost before = buffer@;
        buffer.push(low + 128);
        assert(var_int_encoding(val as int) == seq![(low + 128) as u8] + var_int_encoding(
            rest as int,
        ));
        assert(before + var_int_encoding(val as int) =~= buffer@ + var_int_encoding(rest as int));
        val = rest;
    }
}


/// `128` raised to the power `n`.
pub open spec fn pow128(n: nat) -> nat
    decreases n,
{
    if n == 0 {
        1
    } else {
        128 * pow128((n - 1) as nat)
    }
}

/// Number of bytes of the var-int at the front of `buf`: one past the first byte whose
/// high bit is clear, or 0 when no byte of `buf` has it clear.
pub open spec fn var_int_size(buf: Seq<u8>) -> nat
    decreases buf.len(),
{
    if buf.len() == 0 {
        0
    } else if buf[0] < 128 {
        1
    } else if var_int_size(buf.drop_first()) == 0 {
        0
    } else {
        var_int_size(buf.drop_first()) + 1
    }
}

/// The number spelled by the seven-bit groups of `bytes`, lowest group first.
pub open spec fn var_int_digits(bytes: Seq<u8>) -> nat
    decreases bytes.len(),
{
    if bytes.len() == 0 {
        0
    } else {
        (bytes[0] % 128) as nat + 128 * var_int_digits(bytes.drop_first())
    }
}

/// The front of `buf` holds a var-int that ends within five bytes: the inputs on which
/// the var-int readers neither run out of bytes nor overflow their shift.
pub open spec fn var_int_readable(buf: Seq<u8>) -> bool {
    1 <= var_int_size(buf) <= 5
}

/// The value of the var-int at the front of `buf`, kept to its low 32 bits.
pub open spec fn var_int_value(buf: Seq<u8>) -> u32 {
    (var_int_digits(buf.take(var_int_size(buf) as int)) % 0x1_0000_0000) as u32
}

proof fn lemma_overlong_not_readable(buf: Seq<u8>)
    ensures
        var_int_overlong(buf) ==> !var_int_readable(buf),
{
    if var_int_overlong(buf) && var_int_size(buf) >= 1 {
        lemma_size_shape(buf);
        if var_int_size(buf) <= 5 {
            assert(buf[var_int_size(buf) - 1] >= 128);
        }
    }
}

/// The bytes of an unfinished var-int: at most five so far, each with its high bit set.
pub open spec fn var_int_unfinished(bytes: Seq<u8>) -> bool {
    &&& bytes.len() <= 5
    &&& forall|j: int| 0 <= j < bytes.len() ==> bytes[j] >= 128
}

/// A var-int at the front of `buf` lies within `buf`, ends at a byte without the high
/// bit, and every byte before that one has it.
pub proof fn lemma_size_shape(buf: Seq<u8>)
    requires
        var_int_size(buf) >= 1,
    ensures
        var_int_size(buf) <= buf.len(),
        buf[var_int_size(buf) - 1] < 128,
        forall|j: int| 0 <= j < var_int_size(buf) - 1 ==> buf[j] >= 128,
    decreases buf.len(),
{
    if buf[0] >= 128 {
        let rest = buf.drop_first();
        lemma_size_shape(rest);
        assert forall|j: int| 0 <= j < var_int_size(buf) - 1 implies buf[j] >= 128 by {
            if j > 0 {
                assert(buf[j] == rest[j - 1]);
            }
        }
    }
}

proof fn lemma_size_of_prefix(buf: Seq<u8>, k: int)
    requires
        0 <= k < buf.len(),
        buf[k] < 128,
        forall|j: int| 0 <= j < k ==> buf[j] >= 128,
    ensures
        var_int_size(buf) == k + 1,
    decreases k,
{
    if k > 0 {
        lemma_size_of_prefix(buf.drop_first(), k - 1);
    }
}

proof fn lemma_digits_push(s: Seq<u8>, b: u8)
    ensures
        var_int_digits(s.push(b)) == var_int_digits(s) + (b % 128) as nat * pow128(s.len()),
    decreases s.len(),
{
    let d = (b % 128) as nat;
    if s.len() == 0 {
        assert(s.push(b).drop_first() =~= s);
        assert(pow128(0) == 1);
        assert(var_int_digits(s.push(b)) == d + 128 * var_int_digits(s));
    } else {
        let rest = s.drop_first();
        assert(s.push(b).drop_first() =~= rest.push(b));
        lemma_digits_push(rest, b);
        let p = pow128(rest.len());
        assert(pow128(s.len()) == 128 * p);
        assert(128 * (d * p) == d * (128 * p)) by (nonlinear_arith);
        assert(var_int_digits(s.push(b)) == (s[0] % 128) as nat + 128 * var_int_digits(
            rest.push(b),
        ));
    }
}

/// The first six bytes of `buf` all have the high bit set: a var-int longer than the
/// five bytes that 32 bits need.
pub open spec fn var_int_overlong(buf: Seq<u8>) -> bool {
    &&& buf.len() >= 6
    &&& forall|j: int| 0 <= j < 6 ==> buf[j] >= 128
}

/// Removes the var-int at the front of `buffer` and returns its value.
///
/// The high bit of a byte says that another follows; the value is kept to 32 bits. When
/// the sixth byte too says that another follows, the six bytes are removed and the
/// var-int is refused. A var-int whose fifth continuation byte is followed by a last
/// byte, or that runs past the end of `buffer`, is not taken.
pub fn read_var_int_buf(buffer: &mut Vec<u8>) -> (res: Result<u32, &'static str>)
    requires
        var_int_readable(old(buffer)@) || var_int_overlong(old(buffer)@),
    ensures
        var_int_readable(old(buffer)@) ==> res == Ok::<u32, &'static str>(
            var_int_value(old(buffer)@),
        ) && final(buffer)@ == old(buffer)@.skip(var_int_size(old(buffer)@) as int),
        var_int_overlong(old(buffer)@) ==> res == Err::<u32, &'static str>("something badding")
            && final(buffer)@ == old(buffer)@.skip(6),
{
    proof {
        lemma_overlong_not_readable(buffer@);
    }
    if var_int_size_of_front(buffer).is_none() {
        let _ = crate::wire::take_front(buffer, 6);
        return Err("something badding");
    }
    let ghost buf = buffer@;
    proof {
        lemma_size_shape(buf);
    }
    let mut value: u64 = 0;
    let mut scale: u64 = 1;
    let mut i: usize = 0;
    loop
        invariant_except_break
            value == var_int_digits(buf.take(i as int)),
            value < scale,
        invariant
            buffer@ == buf,
            var_int_readable(buf),
            var_int_size(buf) <= buf.len(),
            buf[var_int_size(buf) - 1] < 128,
            forall|j: int| 0 <= j < var_int_size(buf) - 1 ==> buf[j] >= 128,
            i < var_int_size(buf),
            scale == pow128(i as nat),
        ensures
            i == var_int_size(buf) - 1,
            value == var_int_digits(buf.take(var_int_size(buf) as int)),
        decreases var_int_size(buf) - i,
    {
        let b = buffer[i];
        proof {
            assert(buf.take(i as int).push(b) =~= buf.take(i + 1));
            lemma_digits_push(buf.take(i as int), b);
            lemma_pow128_small(i as nat);
            let d = (b % 128) as nat;
            assert(d * scale <= 127 * scale) by (nonlinear_arith)
                requires
                    d < 128,
            ;
        }
        value = value + (b % 128) as u64 * scale;
        if b < 128 {
            break ;
        }
        i = i + 1;
        scale = scale * 128;
    }
    let rest = buffer.split_off(i + 1);
    *buffer = rest;
    assert(buffer@ =~= buf.skip(var_int_size(buf) as int));
    Ok((value % 0x1_0000_0000) as u32)
}


proof fn lemma_encoding_shape(v: int, k: nat)
    requires
        -64 * pow128(k) <= v < 64 * pow128(k),
    ensures
        1 <= var_int_encoding(v).len() <= k + 1,
        var_int_encoding(v)[var_int_encoding(v).len() - 1] < 128,
        forall|j: int| 0 <= j < var_int_encoding(v).len() - 1 ==> var_int_encoding(v)[j] >= 128,
        v >= 0 ==> var_int_digits(var_int_encoding(v)) == v,
    decreases k,
{
    if -64 <= v < 64 {
        let e = var_int_encoding(v);
        assert(e.drop_first() =~= Seq::<u8>::empty());
        assert(var_int_digits(e.drop_first()) == 0);
    } else {
        if k == 0 {
            assert(pow128(0) == 1);
        }
        let p = pow128((k - 1) as nat);
        assert(pow128(k) == 128 * p);
        let q = v / 128;
        lemma_encoding_shape(q, (k - 1) as nat);
        let e = var_int_encoding(v);
        let tail = var_int_encoding(q);
        assert(e == seq![(v % 128 + 128) as u8] + tail);
        assert(e.drop_first() =~= tail);
        assert forall|j: int| 0 <= j < e.len() - 1 implies e[j] >= 128 by {
            if j > 0 {
                assert(e[j] == tail[j - 1]);
            }
        }
        assert(e[e.len() - 1] == tail[tail.len() - 1]);
        if v >= 0 {
            assert(var_int_digits(e) == (e[0] % 128) as nat + 128 * var_int_digits(tail));
            assert(e[0] % 128 == v % 128);
        }
    }
}

/// Every `i32` that `write_var_int` writes can be read back: its encoding ends within
/// five bytes, whatever follows it.
pub proof fn lemma_var_int_encoding_readable(v: i32, rest: Seq<u8>)
    ensures
        var_int_readable(var_int_encoding(v as int) + rest),
        var_int_size(var_int_encoding(v as int) + rest) == var_int_encoding(v as int).len(),
{
    lemma_pow128_small(4);
    lemma_encoding_shape(v as int, 4);
    let e = var_int_encoding(v as int);
    let buf = e + rest;
    assert forall|j: int| 0 <= j < e.len() - 1 implies buf[j] >= 128 by {
        assert(buf[j] == e[j]);
    }
    assert(buf[e.len() - 1] == e[e.len() - 1]);
    lemma_size_of_prefix(buf, e.len() - 1);
}

/// A non-negative value written with `write_var_int` reads back unchanged with
/// `read_var_int_buf`, whatever bytes follow it.
pub proof fn lemma_var_int_read_after_write(v: i32, rest: Seq<u8>)
    requires
        v >= 0,
    ensures
        var_int_readable(var_int_encoding(v as int) + rest),
        var_int_size(var_int_encoding(v as int) + rest) == var_int_encoding(v as int).len(),
        var_int_value(var_int_encoding(v as int) + rest) == v as u32,
{
    lemma_var_int_encoding_readable(v, rest);
    lemma_pow128_small(4);
    lemma_encoding_shape(v as int, 4);
    let e = var_int_encoding(v as int);
    assert((e + rest).take(e.len() as int) =~= e);
}


/// What a var-int reader over a byte stream has taken so far: it is fed one byte at a
/// time and answers with the value once the last byte has come.
pub struct VarIntDecoder {
    value: u64,
    scale: u64,
    count: usize,
    seen: Ghost<Seq<u8>>,
}

impl View for VarIntDecoder {
    type V = Seq<u8>;

    /// The bytes fed so far.
    closed spec fn view(&self) -> Seq<u8> {
        self.seen@
    }
}

impl VarIntDecoder {
    #[verifier::type_invariant]
    spec fn well_formed(self) -> bool {
        &&& var_int_unfinished(self.seen@)
        &&& self.value == var_int_digits(self.seen@)
        &&& self.scale == pow128(self.seen@.len())
        &&& self.value < self.scale
        &&& self.count == self.seen@.len()
    }

    /// A reader that has taken nothing yet.
    pub fn new() -> (d: Self)
        ensures
            d@ == Seq::<u8>::empty(),
    {
        assert(pow128(0) == 1);
        VarIntDecoder { value: 0, scale: 1, count: 0, seen: Ghost(Seq::empty()) }
    }

    /// How many bytes have been fed so far.
    pub fn bytes_read(&self) -> (n: usize)
        ensures
            n == self@.len(),
            var_int_unfinished(self@),
    {
        proof {
            use_type_invariant(self);
        }
        self.count
    }

    /// Takes the next byte of the stream: the value of the var-int when this byte ends
    /// it, `None` when another byte must follow. A sixth byte overflows the shift, so at
    /// most five may be fed.
    pub fn feed(&mut self, byte: u8) -> (r: Option<u32>)
        requires
            old(self)@.len() < 5,
        ensures
            byte < 128 ==> r == Some(var_int_value(old(self)@.push(byte))) && final(self)@ == old(
                self,
            )@,
            byte >= 128 ==> r is None && final(self)@ == old(self)@.push(byte),
            var_int_unfinished(final(self)@),
    {
        proof {
            use_type_invariant(&*self);
        }
        let ghost seen = self.seen@;
        let d = (byte % 128) as u64;
        proof {
            lemma_digits_push(seen, byte);
            assert(self.scale <= 0x1000_0000) by {
                lemma_pow128_small(seen.len());
            }
            assert(d * self.scale <= 127 * self.scale) by (nonlinear_arith)
                requires
                    d < 128,
            ;
        }
        let value = self.value + d * self.scale;
        if byte < 128 {
            proof {
                let buf = seen.push(byte);
                assert forall|j: int| 0 <= j < seen.len() implies buf[j] >= 128 by {
                    assert(buf[j] == seen[j]);
                }
                lemma_size_of_prefix(buf, seen.len() as int);
                assert(buf.take(buf.len() as int) =~= buf);
            }
            Some((value % 0x1_0000_0000) as u32)
        } else {
            let ghost next = seen.push(byte);
            assert(pow128(next.len()) == 128 * pow128(seen.len()));
            *self = VarIntDecoder {
                value,
                scale: self.scale * 128,
                count: self.count + 1,
                seen: Ghost(next),
            };
            None
        }
    }
}

proof fn lemma_pow128_small(n: nat)
    requires
        n <= 4,
    ensures
        pow128(n) <= 0x1000_0000,
        pow128(4) == 0x1000_0000,
{
    assert(pow128(0) == 1);
    assert(pow128(1) == 128);
    assert(pow128(2) == 128 * 128);
    assert(pow128(3) == 128 * 128 * 128);
    assert(pow128(4) == 128 * 128 * 128 * 128);
}

/// Fed the bytes of a buffer one at a time, a `VarIntDecoder` answers `None` to each of
/// the bytes before the last of the var-int (all of them unfinished and at most four),
/// and to the last one the value that `read_var_int_buf` reads from the buffer.
pub proof fn lemma_var_int_stream_matches_buffer(buf: Seq<u8>)
    requires
        var_int_readable(buf),
    ensures
        var_int_unfinished(buf.take(var_int_size(buf) - 1)),
        var_int_size(buf) - 1 < 5,
        buf[var_int_size(buf) - 1] < 128,
        var_int_value(buf.take(var_int_size(buf) - 1).push(buf[var_int_size(buf) - 1]))
            == var_int_value(buf),
{
    lemma_size_shape(buf);
    let n = var_int_size(buf) - 1;
    let head = buf.take(n).push(buf[n]);
    assert(head =~= buf.take(n + 1));
    assert forall|j: int| 0 <= j < n implies head[j] >= 128 by {
        assert(head[j] == buf[j]);
    }
    lemma_size_of_prefix(head, n);
    assert(head.take(n + 1) =~= head);
}


/// The number of bytes of the var-int at the front of `buffer` when it is readable,
/// `None` otherwise (no byte without the high bit among the first five).
pub fn var_int_size_of_front(buffer: &Vec<u8>) -> (n: Option<usize>)
    ensures
        n is Some <==> var_int_readable(buffer@),
        n matches Some(k) ==> k == var_int_size(buffer@) && k <= buffer@.len(),
{
    let mut i: usize = 0;
    while i < buffer.len() && i < 5
        invariant
            i <= buffer@.len(),
            i <= 5,
            forall|j: int| 0 <= j < i ==> buffer@[j] >= 128,
        decreases buffer@.len() - i,
    {
        if buffer[i] < 128 {
            proof {
                lemma_size_of_prefix(buffer@, i as int);
            }
            return Some(i + 1);
        }
        i = i + 1;
    }
    proof {
        if var_int_size(buffer@) >= 1 {
            lemma_size_shape(buffer@);
            let k = var_int_size(buffer@) - 1;
            if k < i {
                assert(buffer@[k] >= 128);
            }
        }
    }
    None
}

/// Removes the var-int at the front of `buffer` and returns its value when it is
/// readable; otherwise returns `None` and leaves `buffer` as it was.
pub fn try_read_var_int_buf(buffer: &mut Vec<u8>) -> (r: Option<u32>)
    ensures
        r is Some <==> var_int_readable(old(buffer)@),
        r matches Some(v) ==> v == var_int_value(old(buffer)@) && final(buffer)@ == old(
            buffer,
        )@.skip(var_int_size(old(buffer)@) as int),
        r is None ==> final(buffer)@ == old(buffer)@,
{
    match var_int_size_of_front(buffer) {
        Some(_) => {
            proof {
                lemma_overlong_not_readable(buffer@);
            }
            match read_var_int_buf(buffer) {
                Ok(v) => Some(v),
                Err(_) => None,
            }
        },
        None => None,
    }
}

} // verus!
