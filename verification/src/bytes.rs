//! Byte-level helpers: big-endian integers and verified buffer copies.

use vstd::prelude::*;
use vstd::arithmetic::div_mod::lemma_div_denominator;
use vstd::arithmetic::div_mod::lemma_div_is_ordered;
use vstd::arithmetic::div_mod::lemma_fundamental_div_mod;

verus! {

/// The four bytes of `x` in big-endian order.
pub open spec fn u32_be_bytes(x: u32) -> Seq<u8> {
    seq![
        (x / 0x1000000) as u8,
        ((x / 0x10000) % 0x100) as u8,
        ((x / 0x100) % 0x100) as u8,
        (x % 0x100) as u8,
    ]
}

/// The integer a four-byte big-endian buffer denotes.
pub open spec fn u32_from_be(s: Seq<u8>) -> int
    recommends
        s.len() == 4,
{
    s[0] * 0x1000000 + s[1] * 0x10000 + s[2] * 0x100 + s[3]
}

/// Reading back the big-endian bytes of `x` gives `x` again.
pub proof fn lemma_u32_be_round_trip(x: u32)
    ensures
        u32_from_be(u32_be_bytes(x)) == x,
{
    lemma_fundamental_div_mod(x as int, 0x100);
    lemma_fundamental_div_mod(x as int / 0x100, 0x100);
    lemma_fundamental_div_mod(x as int / 0x10000, 0x100);
    lemma_div_denominator(x as int, 0x100, 0x100);
    lemma_div_denominator(x as int, 0x10000, 0x100);
    lemma_div_is_ordered(x as int, u32::MAX as int, 0x1000000);
}

/// Append the big-endian bytes of `x` to `w`.
pub fn write_u32_be(w: &mut Vec<u8>, x: u32)
    ensures
        final(w)@ == old(w)@ + u32_be_bytes(x),
{
    w.push((x / 0x1000000) as u8);
    w.push(((x / 0x10000) % 0x100) as u8);
    w.push(((x / 0x100) % 0x100) as u8);
    w.push((x % 0x100) as u8);
    assert(w@ =~= old(w)@ + u32_be_bytes(x));
}

/// Read a big-endian `u32` from `buf` at offset `at`.
pub fn read_u32_be(buf: &[u8], at: usize) -> (x: u32)
    requires
        at + 4 <= buf@.len(),
    ensures
        x == u32_from_be(buf@.subrange(at as int, at + 4)),
{
    let b0 = buf[at];
    let b1 = buf[at + 1];
    let b2 = buf[at + 2];
    let b3 = buf[at + 3];
    let x = (b0 as u32) * 0x1000000 + (b1 as u32) * 0x10000 + (b2 as u32) * 0x100 + (b3 as u32);
    proof {
        let s = buf@.subrange(at as int, at + 4);
        assert(s[0] == b0 && s[1] == b1 && s[2] == b2 && s[3] == b3);
    }
    x
}

/// Copy `buf[start..end]` into a fresh vector.
pub fn copy_range(buf: &[u8], start: usize, end: usize) -> (v: Vec<u8>)
    requires
        start <= end <= buf@.len(),
    ensures
        v@ == buf@.subrange(start as int, end as int),
{
    let mut v: Vec<u8> = Vec::new();
    let mut i: usize = start;
    while i < end
        invariant
            start <= i <= end <= buf@.len(),
            v@ == buf@.subrange(start as int, i as int),
        decreases end - i,
    {
        v.push(buf[i]);
        proof {
            assert(v@ =~= buf@.subrange(start as int, i + 1));
        }
        i = i + 1;
    }
    v
}

/// Append all of `b` to `w`.
pub fn append_bytes(w: &mut Vec<u8>, b: &[u8])
    ensures
        final(w)@ == old(w)@ + b@,
{
    let mut i: usize = 0;
    while i < b.len()
        invariant
            i <= b@.len(),
            w@ == old(w)@ + b@.subrange(0, i as int),
        decreases b@.len() - i,
    {
        w.push(b[i]);
        proof {
            assert(w@ =~= old(w)@ + b@.subrange(0, i + 1));
        }
        i = i + 1;
    }
    proof {
        assert(w@ =~= old(w)@ + b@);
    }
}

/// A vector of `n` zero bytes.
pub fn zeroed(n: usize) -> (v: Vec<u8>)
    ensures
        v@ == Seq::new(n as nat, |i: int| 0u8),
{
    let mut v: Vec<u8> = Vec::new();
    let mut i: usize = 0;
    while i < n
        invariant
            i <= n,
            v@ == Seq::new(i as nat, |j: int| 0u8),
        decreases n - i,
    {
        v.push(0u8);
        proof {
            assert(v@ =~= Seq::new((i + 1) as nat, |j: int| 0u8));
        }
        i = i + 1;
    }
    v
}

} // verus!
