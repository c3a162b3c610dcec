//! SCALE encodings of the integers and byte arrays that an extrinsic carries.

use vstd::prelude::*;

use parity_scale_codec::{Compact, Decode, Encode};

verus! {

/// Little-endian bytes of a 16-bit integer.
pub open spec fn le_u16(v: u16) -> Seq<u8> {
    seq![(v % 256) as u8, (v / 256) as u8]
}

/// Little-endian bytes of a 32-bit integer.
pub open spec fn le_u32(v: u32) -> Seq<u8> {
    seq![
        (v % 0x100) as u8,
        ((v / 0x100) % 0x100) as u8,
        ((v / 0x1_0000) % 0x100) as u8,
        (v / 0x100_0000) as u8,
    ]
}

/// The compact (variable-length) encoding of a 32-bit integer: the two low
/// bits of the first byte give the mode, the rest holds the value.
pub open spec fn compact_u32(v: u32) -> Seq<u8> {
    if v < 0x40 {
        seq![(v * 4) as u8]
    } else if v < 0x4000 {
        le_u16((v * 4 + 1) as u16)
    } else if v < 0x4000_0000 {
        le_u32((v * 4 + 2) as u32)
    } else {
        seq![3u8] + le_u32(v)
    }
}

/// The first byte of a compact encoding names its length in its two low
/// bits.
pub proof fn lemma_compact_mode(v: u32)
    ensures
        compact_u32(v).len() == if v < 0x40 {
            1int
        } else if v < 0x4000 {
            2int
        } else if v < 0x4000_0000 {
            4int
        } else {
            5int
        },
        compact_u32(v)[0] % 4 == if v < 0x40 {
            0int
        } else if v < 0x4000 {
            1int
        } else if v < 0x4000_0000 {
            2int
        } else {
            3int
        },
{
}

/// Equal compact encodings hold equal values.
pub proof fn lemma_compact_injective(m: u32, n: u32)
    requires
        compact_u32(m) == compact_u32(n),
    ensures
        m == n,
{
    lemma_compact_mode(m);
    lemma_compact_mode(n);
    let c = compact_u32(m);
    if m < 0x40 {
    } else if m < 0x4000 {
        assert(c[0] == compact_u32(n)[0] && c[1] == compact_u32(n)[1]);
    } else if m < 0x4000_0000 {
        assert(c[0] == compact_u32(n)[0] && c[1] == compact_u32(n)[1]);
        assert(c[2] == compact_u32(n)[2] && c[3] == compact_u32(n)[3]);
    } else {
        assert(c[1] == compact_u32(n)[1] && c[2] == compact_u32(n)[2]);
        assert(c[3] == compact_u32(n)[3] && c[4] == compact_u32(n)[4]);
    }
}

/// A byte string starts with the compact encoding of at most one value.
pub proof fn lemma_compact_prefix_unique(m: u32, n: u32, b: Seq<u8>)
    requires
        compact_u32(m).len() <= b.len(),
        compact_u32(m) == b.subrange(0, compact_u32(m).len() as int),
        compact_u32(n).len() <= b.len(),
        compact_u32(n) == b.subrange(0, compact_u32(n).len() as int),
    ensures
        m == n,
{
    lemma_compact_mode(m);
    lemma_compact_mode(n);
    assert(compact_u32(m)[0] == b[0]);
    assert(compact_u32(n)[0] == b[0]);
    lemma_compact_injective(m, n);
}

/// Appends the bytes of an array.
pub(crate) fn push_array<const N: usize>(out: &mut Vec<u8>, a: &[u8; N])
    ensures
        final(out)@ == old(out)@ + a@,
{
    let mut i: usize = 0;
    while i < N
        invariant
            i <= N,
            a@.len() == N,
            out@ == old(out)@ + a@.subrange(0, i as int),
        decreases N - i,
    {
        out.push(a[i]);
        proof {
            assert(a@.subrange(0, i + 1) =~= a@.subrange(0, i as int).push(a@[i as int]));
        }
        i = i + 1;
    }
    proof {
        assert(a@.subrange(0, N as int) =~= a@);
    }
}

/// Reads an array from `b` at `at`.
pub(crate) fn read_array<const N: usize>(b: &[u8], at: usize) -> (r: [u8; N])
    requires
        at + N <= b@.len(),
    ensures
        r@ == b@.subrange(at as int, at + N),
{
    let mut r: [u8; N] = [0u8; N];
    let mut i: usize = 0;
    while i < N
        invariant
            i <= N,
            at + N <= b.len(),
            r@.len() == N,
            forall|j: int| 0 <= j < i ==> r@[j] == b@[at + j],
        decreases N - i,
    {
        r[i] = b[at + i];
        i = i + 1;
    }
    proof {
        assert(r@ =~= b@.subrange(at as int, at + N));
    }
    r
}

/// Relies on `<u16 as Encode>::encode`: two bytes, little-endian.
#[verifier::external_body]
pub(crate) fn encode_u16(v: u16) -> (r: Vec<u8>)
    ensures
        r@ == le_u16(v),
{
    v.encode()
}

/// Relies on `<u32 as Encode>::encode`: four bytes, little-endian.
#[verifier::external_body]
pub(crate) fn encode_u32(v: u32) -> (r: Vec<u8>)
    ensures
        r@ == le_u32(v),
{
    v.encode()
}

/// Relies on `<Compact<u32> as Encode>::encode`: the compact encoding.
#[verifier::external_body]
pub(crate) fn encode_compact_u32(v: u32) -> (r: Vec<u8>)
    ensures
        r@ == compact_u32(v),
{
    Compact(v).encode()
}

/// Relies on `<Compact<u32> as Decode>::decode`, which reads one value and
/// accepts only its canonical (shortest) form. The result is the value and
/// the number of bytes that were read.
#[verifier::external_body]
pub(crate) fn decode_compact_u32(b: &[u8]) -> (r: Option<(u32, usize)>)
    ensures
        forall|v: u32|
            compact_u32(v).len() <= b@.len() && #[trigger] compact_u32(v) == b@.subrange(
                0,
                compact_u32(v).len() as int,
            ) ==> r == Some((v, compact_u32(v).len() as usize)),
        r matches Some((v, n)) ==> n == compact_u32(v).len() && n <= b@.len() && b@.subrange(
            0,
            n as int,
        ) == compact_u32(v),
{
    let mut input = b;
    match Compact::<u32>::decode(&mut input) {
        Ok(c) => Some((c.0, b.len() - input.len())),
        Err(_) => None,
    }
}

} // verus!
