//! Fixed-width integers as byte sequences: the mathematical model that the
//! encoder and the decoders are stated over, with the facts that tie the
//! two directions together.
use vstd::prelude::*;
use vstd::arithmetic::div_mod::{lemma_div_denominator, lemma_mod_breakdown};
use bytes::BytesMut;
use crate::buffers::{bytes_mut_extend, bytes_mut_view};

verus! {

/// `256` to the power `n`.
pub open spec fn pow256(n: nat) -> nat
    decreases n,
{
    if n == 0 {
        1
    } else {
        pow256((n - 1) as nat) * 256
    }
}

/// The `n` least significant bytes of `v`, least significant first
/// (what `to_le_bytes` gives, cut to `n` bytes).
pub open spec fn le_bytes(v: nat, n: nat) -> Seq<u8>
    decreases n,
{
    if n == 0 {
        Seq::empty()
    } else {
        le_bytes(v, (n - 1) as nat).push(((v / pow256((n - 1) as nat)) % 256) as u8)
    }
}

/// The number that `s` spells, least significant byte first.
pub open spec fn le_value(s: Seq<u8>) -> nat
    decreases s.len(),
{
    if s.len() == 0 {
        0
    } else {
        le_value(s.drop_last()) + pow256((s.len() - 1) as nat) * (s.last() as nat)
    }
}

/// The number that `s` spells, most significant byte first.
pub open spec fn be_value(s: Seq<u8>) -> nat
    decreases s.len(),
{
    if s.len() == 0 {
        0
    } else {
        be_value(s.drop_last()) * 256 + (s.last() as nat)
    }
}

/// Powers of 256 are positive.
pub proof fn lemma_pow256_pos(n: nat)
    ensures
        pow256(n) > 0,
    decreases n,
{
    if n > 0 {
        lemma_pow256_pos((n - 1) as nat);
    }
}

/// `le_bytes(v, n)` has `n` bytes.
pub proof fn lemma_le_bytes_len(v: nat, n: nat)
    ensures
        le_bytes(v, n).len() == n,
    decreases n,
{
    if n > 0 {
        lemma_le_bytes_len(v, (n - 1) as nat);
    }
}

/// Reading back the `n` bytes written for `v` gives `v` modulo `256^n`.
pub proof fn lemma_le_roundtrip(v: nat, n: nat)
    ensures
        le_value(le_bytes(v, n)) == v % pow256(n),
    decreases n,
{
    if n == 0 {
    } else {
        let p = pow256((n - 1) as nat);
        lemma_pow256_pos((n - 1) as nat);
        lemma_le_roundtrip(v, (n - 1) as nat);
        lemma_le_bytes_len(v, (n - 1) as nat);
        let s = le_bytes(v, n);
        assert(s.drop_last() =~= le_bytes(v, (n - 1) as nat));
        lemma_mod_breakdown(v as int, p as int, 256);
    }
}

/// Reading back the `n` bytes written for a `v` below `256^n` gives `v`.
pub proof fn lemma_le_roundtrip_small(v: nat, n: nat)
    requires
        v < pow256(n),
    ensures
        le_value(le_bytes(v, n)) == v,
{
    lemma_le_roundtrip(v, n);
    vstd::arithmetic::div_mod::lemma_small_mod(v, pow256(n));
}

/// A two-byte little-endian number, digit by digit.
pub proof fn lemma_le_value_2(t: Seq<u8>)
    requires
        t.len() == 2,
    ensures
        le_value(t) == t[0] as nat + 256 * (t[1] as nat),
{
    reveal_with_fuel(pow256, 2);
    let t1 = t.drop_last();
    assert(t1.drop_last() =~= Seq::<u8>::empty());
    assert(t1.last() == t[0]);
    assert(le_value(t1.drop_last()) == 0);
    assert(le_value(t1) == le_value(t1.drop_last()) + pow256(0) * (t1.last() as nat));
    assert(pow256(0) == 1);
    assert(pow256(1) == 256);
    let d0 = t1.last() as nat;
    let p0 = pow256(0);
    assert(p0 * d0 == d0) by (nonlinear_arith)
        requires
            p0 == 1,
    ;
    assert(le_value(t1) == t[0] as nat);
    assert(le_value(t) == le_value(t1) + pow256(1) * (t.last() as nat));
}

/// A three-byte little-endian number, digit by digit.
pub proof fn lemma_le_value_3(t: Seq<u8>)
    requires
        t.len() == 3,
    ensures
        le_value(t) == t[0] as nat + 256 * (t[1] as nat) + 0x1_0000 * (t[2] as nat),
{
    reveal_with_fuel(pow256, 3);
    lemma_le_value_2(t.drop_last());
}

/// A four-byte big-endian number, digit by digit.
pub proof fn lemma_be_value_4(t: Seq<u8>)
    requires
        t.len() == 4,
    ensures
        be_value(t) == 0x100_0000 * (t[0] as nat) + 0x1_0000 * (t[1] as nat) + 256 * (t[2]
            as nat) + t[3] as nat,
{
    let t3 = t.drop_last();
    let t2 = t3.drop_last();
    let t1 = t2.drop_last();
    assert(t1.drop_last() =~= Seq::<u8>::empty());
    assert(t1.last() == t[0]);
    assert(be_value(t1.drop_last()) == 0);
    assert(be_value(t1) == be_value(t1.drop_last()) * 256 + t1.last() as nat);
    assert(be_value(t1) == t[0] as nat);
    assert(be_value(t2) == be_value(t1) * 256 + t[1] as nat);
    assert(be_value(t3) == be_value(t2) * 256 + t[2] as nat);
}

/// Appends the `n` least significant bytes of `v` to `buf`, least
/// significant first.
pub fn extend_le(buf: &mut BytesMut, v: u64, n: usize)
    requires
        n <= 8,
        bytes_mut_view(*old(buf)).len() + n <= isize::MAX,
    ensures
        bytes_mut_view(*final(buf)) == bytes_mut_view(*old(buf)) + le_bytes(v as nat, n as nat),
{
    let mut r: u64 = v;
    let mut i: usize = 0;
    proof {
        assert(bytes_mut_view(*buf) =~= bytes_mut_view(*old(buf)) + le_bytes(v as nat, 0));
        assert(pow256(0) == 1);
        assert((v as nat) / 1 == v as nat);
    }
    while i < n
        invariant
            i <= n,
            n <= 8,
            bytes_mut_view(*old(buf)).len() + n <= isize::MAX,
            r as nat == (v as nat) / pow256(i as nat),
            bytes_mut_view(*buf) == bytes_mut_view(*old(buf)) + le_bytes(v as nat, i as nat),
        decreases n - i,
    {
        let byte: u8 = (r % 256) as u8;
        proof {
            lemma_le_bytes_len(v as nat, i as nat);
        }
        bytes_mut_extend(buf, &[byte]);
        proof {
            lemma_pow256_pos(i as nat);
            lemma_div_denominator(v as int, pow256(i as nat) as int, 256);
            assert(bytes_mut_view(*buf) =~= bytes_mut_view(*old(buf)) + le_bytes(
                v as nat,
                (i + 1) as nat,
            ));
        }
        r = r / 256;
        i = i + 1;
    }
}

} // verus!
