//! Canonical byte encodings: fixed-width little-endian integers and the
//! compact (variable-length) integer form.
use parity_scale_codec::{Compact, Decode, Encode};
use vstd::prelude::*;

verus! {

/// `k` little-endian bytes of `n` (the bits of `n` above `8 * k` are dropped).
pub open spec fn le_bytes(n: nat, k: nat) -> Seq<u8>
    decreases k,
{
    if k == 0 {
        Seq::empty()
    } else {
        seq![(n % 256) as u8] + le_bytes(n / 256, (k - 1) as nat)
    }
}

/// The integer that a little-endian byte sequence denotes.
pub open spec fn le_value(s: Seq<u8>) -> nat
    decreases s.len(),
{
    if s.len() == 0 {
        0
    } else {
        s[0] as nat + 256 * le_value(s.drop_first())
    }
}

/// The number of bytes that `n` needs, at least one.
pub open spec fn byte_count(n: nat) -> nat
    decreases n,
{
    if n < 256 {
        1
    } else {
        1 + byte_count(n / 256)
    }
}

/// The compact form of `n`: one, two or four bytes holding `n` shifted left
/// by two with the mode in the low bits, or a header byte giving the byte
/// count followed by `n` in little-endian order.
pub open spec fn compact_bytes(n: nat) -> Seq<u8> {
    if n < 0x40 {
        seq![(4 * n) as u8]
    } else if n < 0x4000 {
        le_bytes(4 * n + 1, 2)
    } else if n < 0x4000_0000 {
        le_bytes(4 * n + 2, 4)
    } else {
        seq![(4 * (byte_count(n) - 4) + 3) as u8] + le_bytes(n, byte_count(n))
    }
}

/// `256` to the power `k`.
pub open spec fn pow256(k: nat) -> nat
    decreases k,
{
    if k == 0 {
        1
    } else {
        256 * pow256((k - 1) as nat)
    }
}

/// Reads a compact integer at the start of `s`: its value and the number of
/// bytes it takes, or `None` when `s` is too short for the form its first
/// byte announces.
pub open spec fn compact_prefix(s: Seq<u8>) -> Option<(nat, nat)> {
    if s.len() == 0 {
        None
    } else if s[0] % 4 == 0 {
        Some(((s[0] / 4) as nat, 1))
    } else if s[0] % 4 == 1 {
        if s.len() >= 2 {
            Some((le_value(s.take(2)) / 4, 2))
        } else {
            None
        }
    } else if s[0] % 4 == 2 {
        if s.len() >= 4 {
            Some((le_value(s.take(4)) / 4, 4))
        } else {
            None
        }
    } else {
        let k = (s[0] / 4) as nat + 4;
        if s.len() >= 1 + k {
            Some((le_value(s.subrange(1, (1 + k) as int)), (1 + k) as nat))
        } else {
            None
        }
    }
}

/// `k` little-endian bytes of a value below `256^k` read back as that value.
pub proof fn lemma_le_round_trip(m: nat, k: nat)
    requires
        m < pow256(k),
    ensures
        le_bytes(m, k).len() == k,
        le_value(le_bytes(m, k)) == m,
    decreases k,
{
    if k > 0 {
        let p = pow256((k - 1) as nat);
        assert(m / 256 < p) by (nonlinear_arith)
            requires
                m < 256 * p,
        ;
        lemma_le_round_trip(m / 256, (k - 1) as nat);
        let s = le_bytes(m, k);
        assert(s.drop_first() == le_bytes(m / 256, (k - 1) as nat));
    }
}

/// A compact integer of at most 32 bits, followed by anything, reads back as
/// its value and its own length.
pub proof fn lemma_compact_prefix(n: nat, rest: Seq<u8>)
    requires
        n <= 0xffff_ffff,
    ensures
        compact_prefix(compact_bytes(n) + rest) == Some((n, compact_bytes(n).len())),
{
    let c = compact_bytes(n);
    let s = c + rest;
    assert(pow256(2) == 0x1_0000) by {
        reveal_with_fuel(pow256, 3);
    }
    assert(pow256(4) == 0x1_0000_0000) by {
        reveal_with_fuel(pow256, 5);
    }
    if n < 0x40 {
        assert(s[0] == (4 * n) as u8);
    } else if n < 0x4000 {
        lemma_le_round_trip(4 * n + 1, 2);
        assert(s.take(2) == c);
        assert(c[0] == ((4 * n + 1) % 256) as u8);
        assert(((4 * n + 1) % 256) % 4 == 1) by (nonlinear_arith);
    } else if n < 0x4000_0000 {
        lemma_le_round_trip(4 * n + 2, 4);
        assert(s.take(4) == c);
        assert(c[0] == ((4 * n + 2) % 256) as u8);
        assert(((4 * n + 2) % 256) % 4 == 2) by (nonlinear_arith);
    } else {
        assert(byte_count(n) == 4) by {
            assert(n / 256 >= 256);
            assert(n / 256 / 256 >= 256);
            assert(n / 256 / 256 / 256 < 256);
            reveal_with_fuel(byte_count, 5);
        }
        lemma_le_round_trip(n, 4);
        assert(c == seq![3u8] + le_bytes(n, 4));
        assert(s.subrange(1, 5) == le_bytes(n, 4));
    }
}

/// Relies on parity_scale_codec's `Encode` for `Compact<u32>`.
#[verifier::external_body]
pub(crate) fn encode_compact_u32(n: u32) -> (r: Vec<u8>)
    ensures
        r@ == compact_bytes(n as nat),
{
    Compact(n).encode()
}

/// Relies on parity_scale_codec's `Encode` for `Compact<u128>`.
#[verifier::external_body]
pub(crate) fn encode_compact_u128(n: u128) -> (r: Vec<u8>)
    ensures
        r@ == compact_bytes(n as nat),
{
    Compact(n).encode()
}

/// Relies on parity_scale_codec's `Encode` for `u32`: four little-endian bytes.
#[verifier::external_body]
pub(crate) fn encode_u32(n: u32) -> (r: Vec<u8>)
    ensures
        r@ == le_bytes(n as nat, 4),
{
    n.encode()
}

/// Relies on parity_scale_codec's `Encode` for `u16`: two little-endian bytes.
#[verifier::external_body]
pub(crate) fn encode_u16(n: u16) -> (r: Vec<u8>)
    ensures
        r@ == le_bytes(n as nat, 2),
{
    n.encode()
}

/// Relies on parity_scale_codec's `Decode` for `u32`: it reads the first four
/// bytes as a little-endian integer and fails when fewer are there.
#[verifier::external_body]
pub(crate) fn decode_u32(b: &[u8]) -> (r: Option<u32>)
    ensures
        b@.len() < 4 ==> r.is_none(),
        b@.len() >= 4 ==> r == Some(le_value(b@.take(4)) as u32),
{
    let mut input: &[u8] = b;
    u32::decode(&mut input).ok()
}

/// Appends the bytes of `b` to `out`.
pub fn append_bytes(out: &mut Vec<u8>, b: &[u8])
    ensures
        final(out)@ == old(out)@ + b@,
{
    let ghost start = out@;
    let mut i: usize = 0;
    while i < b.len()
        invariant
            0 <= i <= b@.len(),
            out@ == start + b@.take(i as int),
        decreases b@.len() - i,
    {
        out.push(b[i]);
        i = i + 1;
        assert(b@.take(i as int) == b@.take(i - 1) + seq![b@[i - 1]]);
    }
    assert(b@.take(b@.len() as int) == b@);
}

} // verus!
