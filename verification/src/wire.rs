//! Big-endian integers as sequences of bytes: the one number format of the
//! protocol, stated over mathematical integers, and the two routines that
//! read and write it.

use crate::buffer::{
    buffer_byte_at, buffer_contents, buffer_put_u8, bytes_contents, bytes_get_u8,
};
use bytes::{Bytes, BytesMut};
use vstd::arithmetic::div_mod::lemma_mod_breakdown;
use vstd::prelude::*;

verus! {

/// 256 to the power `n`: the number of values that `n` bytes can hold.
pub open spec fn radix(n: nat) -> nat
    decreases n,
{
    if n == 0 {
        1
    } else {
        256 * radix((n - 1) as nat)
    }
}

/// The number that `s` spells when read as big-endian digits to the base 256.
pub open spec fn be_value(s: Seq<u8>) -> nat
    decreases s.len(),
{
    if s.len() == 0 {
        0
    } else {
        256 * be_value(s.drop_last()) + s.last() as nat
    }
}

/// The `n` lowest-order bytes of `v`, most significant first.
pub open spec fn be_bytes(v: nat, n: nat) -> Seq<u8>
    decreases n,
{
    if n == 0 {
        Seq::empty()
    } else {
        be_bytes(v / 256, (n - 1) as nat).push((v % 256) as u8)
    }
}

/// The radix is positive, and the widths that the protocol uses have the
/// radices of the machine integers.
pub proof fn lemma_radix_values()
    ensures
        radix(0) == 1,
        radix(1) == 0x100,
        radix(2) == 0x1_0000,
        radix(3) == 0x100_0000,
        radix(4) == 0x1_0000_0000,
        radix(5) == 0x100_0000_0000,
        radix(6) == 0x1_0000_0000_0000,
        radix(7) == 0x100_0000_0000_0000,
        radix(8) == 0x1_0000_0000_0000_0000,
{
    reveal_with_fuel(radix, 10);
}

/// The radix is never zero and grows with the width.
pub proof fn lemma_radix_positive(n: nat)
    ensures
        radix(n) >= 1,
    decreases n,
{
    if n > 0 {
        lemma_radix_positive((n - 1) as nat);
    }
}

/// `be_bytes` yields exactly `n` bytes.
pub proof fn lemma_be_bytes_len(v: nat, n: nat)
    ensures
        be_bytes(v, n).len() == n,
    decreases n,
{
    if n > 0 {
        lemma_be_bytes_len(v / 256, (n - 1) as nat);
    }
}

/// What `n` bytes spell is below the radix of `n`.
pub proof fn lemma_be_value_bound(s: Seq<u8>)
    ensures
        be_value(s) < radix(s.len()),
    decreases s.len(),
{
    if s.len() > 0 {
        lemma_be_value_bound(s.drop_last());
    }
}

/// Reading back the `n` lowest-order bytes of `v` gives `v` modulo the radix
/// of `n`: the bytes above are lost, the rest is kept.
pub proof fn lemma_be_value_of_bytes(v: nat, n: nat)
    ensures
        be_value(be_bytes(v, n)) == v % radix(n),
    decreases n,
{
    if n == 0 {
    } else {
        let m = (n - 1) as nat;
        let front = be_bytes(v / 256, m);
        lemma_be_value_of_bytes(v / 256, m);
        lemma_be_bytes_len(v / 256, m);
        lemma_radix_positive(m);
        let s = be_bytes(v, n);
        assert(s.drop_last() =~= front);
        assert(s.last() == (v % 256) as u8);
        lemma_mod_breakdown(v as int, 256, radix(m) as int);
    }
}

/// Writing out what `s` spells, at the width of `s`, gives `s` back.
pub proof fn lemma_be_bytes_of_value(s: Seq<u8>)
    ensures
        be_bytes(be_value(s), s.len()) == s,
    decreases s.len(),
{
    if s.len() > 0 {
        let front = s.drop_last();
        lemma_be_bytes_of_value(front);
        let v = be_value(s);
        assert(v / 256 == be_value(front));
        assert(v % 256 == s.last() as nat);
        assert(be_bytes(v, s.len()) =~= front.push(s.last()));
        assert(front.push(s.last()) =~= s);
    }
}

/// A value below the radix of `n` survives a trip through `n` bytes.
pub proof fn lemma_be_round_trip(v: nat, n: nat)
    requires
        v < radix(n),
    ensures
        be_value(be_bytes(v, n)) == v,
{
    lemma_be_value_of_bytes(v, n);
    lemma_radix_positive(n);
    vstd::arithmetic::div_mod::lemma_small_mod(v, radix(n));
}

/// Reads an unsigned big-endian integer of `n` bytes from the front of
/// `data`, and drops those bytes.
pub fn read_be(data: &mut Bytes, n: usize) -> (value: u64)
    requires
        n <= 8,
        n <= bytes_contents(*old(data)).len(),
    ensures
        value == be_value(bytes_contents(*old(data)).take(n as int)),
        bytes_contents(*final(data)) == bytes_contents(*old(data)).skip(n as int),
{
    let ghost start = bytes_contents(*data);
    let mut acc: u64 = 0;
    let mut i: usize = 0;
    proof {
        lemma_radix_values();
        assert(start.skip(0) =~= start);
    }
    while i < n
        invariant
            i <= n <= 8,
            n <= start.len(),
            bytes_contents(*data) == start.skip(i as int),
            acc == be_value(start.take(i as int)),
            acc < radix(i as nat),
        decreases n - i,
    {
        let byte = bytes_get_u8(data);
        proof {
            let next = start.take(i + 1);
            assert(next.drop_last() =~= start.take(i as int));
            assert(next.last() == start[i as int]);
            assert(start.skip(i as int).skip(1) =~= start.skip(i + 1));
            lemma_radix_values();
            lemma_be_value_bound(next);
        }
        acc = acc * 256 + byte as u64;
        i = i + 1;
    }
    acc
}

/// Reads an unsigned big-endian integer of `n` bytes at the front of
/// `buffer`, and leaves the buffer as it is.
pub fn peek_be(buffer: &BytesMut, n: usize) -> (value: u64)
    requires
        n <= 8,
        n <= buffer_contents(*buffer).len(),
    ensures
        value == be_value(buffer_contents(*buffer).take(n as int)),
{
    let ghost start = buffer_contents(*buffer);
    let mut acc: u64 = 0;
    let mut i: usize = 0;
    proof {
        lemma_radix_values();
    }
    while i < n
        invariant
            i <= n <= 8,
            n <= start.len(),
            start == buffer_contents(*buffer),
            acc == be_value(start.take(i as int)),
            acc < radix(i as nat),
        decreases n - i,
    {
        let byte = buffer_byte_at(buffer, i);
        proof {
            let next = start.take(i + 1);
            assert(next.drop_last() =~= start.take(i as int));
            assert(next.last() == start[i as int]);
            lemma_radix_values();
            lemma_be_value_bound(next);
        }
        acc = acc * 256 + byte as u64;
        i = i + 1;
    }
    acc
}

/// Appends the `n` lowest-order bytes of `value` to `buffer`, most
/// significant first.
pub fn write_be(buffer: &mut BytesMut, value: u64, n: usize)
    requires
        n <= 8,
    ensures
        buffer_contents(*final(buffer)) == buffer_contents(*old(buffer)) + be_bytes(
            value as nat,
            n as nat,
        ),
    decreases n,
{
    if n > 0 {
        write_be(buffer, value / 256, n - 1);
        buffer_put_u8(buffer, (value % 256) as u8);
    }
    assert(buffer_contents(*buffer) =~= buffer_contents(*old(buffer)) + be_bytes(
        value as nat,
        n as nat,
    ));
}

} // verus!
