//! Replay protection and chain binding: the era and nonce of a transaction,
//! and the data that ties its signature to one chain and runtime.

use vstd::prelude::*;
use vstd::std_specs::bits::{axiom_u64_trailing_zeros, u64_trailing_zeros};

use crate::scale::{
    compact_u32, encode_compact_u32, encode_u16, encode_u32, le_u16, le_u32, push_array,
};

verus! {

/// A 32-byte block hash.
pub type BlockHash = [u8; 32];

/// The lifetime of a transaction.
#[derive(Clone, Copy, Debug, PartialEq, Eq, Structural)]
pub enum Era {
    /// Valid at every block.
    Immortal,
    /// Valid within a window of `period` blocks, starting at the block whose
    /// number is `phase` modulo `period`.
    Mortal(u64, u64),
}

/// The two-byte code of a mortal era: the low four bits hold the period's
/// binary logarithm less one (kept within 1..=15), the rest the phase
/// divided by the quantisation factor `max(period >> 12, 1)`.
pub open spec fn mortal_code(period: u64, phase: u64) -> u16 {
    let quantize: u64 = if (period >> 12u64) >= 1 {
        period >> 12u64
    } else {
        1
    };
    let log = u64_trailing_zeros(period) as int - 1;
    let low: u16 = if log < 1 {
        1
    } else if log > 15 {
        15
    } else {
        log as u16
    };
    low | (((phase / quantize) << 4u64) as u16)
}

/// The factor by which a mortal era's phase is quantised.
pub open spec fn quantize(period: u64) -> u64 {
    if (period >> 12u64) >= 1 {
        period >> 12u64
    } else {
        1
    }
}

/// A mortal era that its two-byte code describes exactly: the period is a
/// power of two from 4 to 65536, and the phase is below it and a multiple of
/// the quantisation factor.
pub open spec fn is_canonical_mortal(period: u64, phase: u64) -> bool {
    &&& 4 <= period <= 65536
    &&& period & ((period - 1) as u64) == 0
    &&& phase < period
    &&& phase % quantize(period) == 0
}

/// The code of a canonical mortal era gives back its period and phase.
pub proof fn lemma_mortal_code(period: u64, phase: u64)
    requires
        is_canonical_mortal(period, phase),
    ensures
        ({
            let c = mortal_code(period, phase);
            &&& 1 <= c % 16 <= 15
            &&& period == 2u64 << ((c % 16) as u64)
            &&& phase == ((c >> 4u16) as u64) * quantize(period)
        }),
{
    axiom_u64_trailing_zeros(period);
    let t = u64_trailing_zeros(period) as u64;
    assert(period != 0 && period & ((period - 1) as u64) == 0 && t < 64 && (period >> t) & 1u64 == 1u64
        ==> period == 1u64 << t) by (bit_vector);
    assert(t < 64 && period == 1u64 << t && 4 <= period <= 65536 ==> 2 <= t <= 16)
        by (bit_vector);
    let q = quantize(period);
    let y = phase / q;
    if period >= 4096 {
        assert(period == 1u64 << t && t < 64 && period >= 4096 ==> period >> 12u64 == period / 4096
            && period % 4096 == 0) by (bit_vector);
        assert(y < 4096) by (nonlinear_arith)
            requires
                phase < period,
                period == 4096 * q,
                q > 0,
                y == phase / q,
        ;
    } else {
        assert(period < 4096 ==> period >> 12u64 == 0) by (bit_vector);
    }
    let low = (t - 1) as u16;
    assert(mortal_code(period, phase) == low | ((y << 4u64) as u16));
    assert(1 <= low <= 15 && y < 4096 ==> (low | ((y << 4u64) as u16)) % 16 == low && (low | ((
    y << 4u64) as u16)) >> 4u16 == y as u16) by (bit_vector);
    assert(2 <= t <= 16 && low == (t - 1) as u16 ==> 2u64 << (low as u64) == 1u64 << t)
        by (bit_vector);
    vstd::arithmetic::div_mod::lemma_fundamental_div_mod(phase as int, q as int);
    assert(phase == y * q) by (nonlinear_arith)
        requires
            phase == q * (phase / q) + phase % q,
            phase % q == 0,
            y == phase / q,
    ;
}

impl Era {
    /// The encoding of the era: one zero byte when immortal, else the
    /// little-endian two-byte code.
    pub open spec fn bytes(self) -> Seq<u8> {
        match self {
            Era::Immortal => seq![0u8],
            Era::Mortal(period, phase) => le_u16(mortal_code(period, phase)),
        }
    }

    /// Immortal, or mortal with a period and phase that the code describes
    /// exactly.
    pub open spec fn is_canonical(self) -> bool {
        match self {
            Era::Immortal => true,
            Era::Mortal(period, phase) => is_canonical_mortal(period, phase),
        }
    }

    pub fn encode(&self) -> (r: Vec<u8>)
        ensures
            r@ == self.bytes(),
    {
        match self {
            Era::Immortal => {
                let mut r: Vec<u8> = Vec::new();
                r.push(0u8);
                proof {
                    assert(r@ =~= seq![0u8]);
                }
                r
            },
            Era::Mortal(period, phase) => {
                let quantize: u64 = if (*period >> 12u64) >= 1 {
                    *period >> 12u64
                } else {
                    1
                };
                let tz: u32 = period.trailing_zeros();
                let low: u16 = if tz < 2 {
                    1
                } else if tz > 16 {
                    15
                } else {
                    (tz - 1) as u16
                };
                let code: u16 = low | (((*phase / quantize) << 4u64) as u16);
                encode_u16(code)
            },
        }
    }
}

impl Era {
    /// Reads an era from the front of `b`, with the number of bytes read.
    /// A mortal code is accepted only in the form that `encode` writes.
    pub fn decode(b: &[u8]) -> (r: Option<(Era, usize)>)
        ensures
            r matches Some((e, n)) ==> n == e.bytes().len() && n <= b@.len() && b@.subrange(
                0,
                n as int,
            ) == e.bytes(),
            r matches Some((e, _)) ==> (e == Era::Immortal <==> b@[0] == 0),
            forall|e: Era|
                e.is_canonical() && e.bytes().len() <= b@.len() && #[trigger] e.bytes()
                    == b@.subrange(0, e.bytes().len() as int) ==> r == Some(
                    (e, e.bytes().len() as usize),
                ),
    {
        if b.len() == 0 {
            return None;
        }
        if b[0] == 0 {
            proof {
                assert(b@.subrange(0, 1) =~= seq![0u8]);
                assert forall|e: Era|
                    e.is_canonical() && e.bytes().len() <= b@.len() && #[trigger] e.bytes()
                        == b@.subrange(0, e.bytes().len() as int) implies e == Era::Immortal by {
                    lemma_era_first_byte(e);
                    assert(e.bytes()[0] == b@[0]);
                }
            }
            return Some((Era::Immortal, 1));
        }
        if b.len() < 2 {
            proof {
                assert forall|e: Era|
                    e.is_canonical() && e.bytes().len() <= b@.len() && #[trigger] e.bytes()
                        == b@.subrange(0, e.bytes().len() as int) implies false by {
                    assert(e.bytes()[0] == b@[0]);
                }
            }
            return None;
        }
        let code: u16 = (b[0] as u16) | ((b[1] as u16) << 8u16);
        let period: u64 = 2u64 << ((code % 16) as u64);
        let quantize: u64 = if (period >> 12u64) >= 1 {
            period >> 12u64
        } else {
            1
        };
        proof {
            lemma_mortal_prefix(b@, code);
        }
        let phase: u64 = match ((code >> 4u16) as u64).checked_mul(quantize) {
            Some(p) => p,
            None => {
                proof {
                    assert forall|e: Era|
                        e.is_canonical() && e.bytes().len() <= b@.len() && #[trigger] e.bytes()
                            == b@.subrange(0, e.bytes().len() as int) implies false by {
                        if let Era::Mortal(p, f) = e {
                            lemma_mortal_code(p, f);
                        }
                    }
                }
                return None;
            },
        };
        let era = Era::Mortal(period, phase);
        proof {
            assert forall|e: Era|
                e.is_canonical() && e.bytes().len() <= b@.len() && #[trigger] e.bytes()
                    == b@.subrange(0, e.bytes().len() as int) implies e == era by {
                if let Era::Mortal(p, f) = e {
                    lemma_mortal_code(p, f);
                }
            }
        }
        let e = era.encode();
        if e[0] == b[0] && e[1] == b[1] {
            proof {
                assert(b@.subrange(0, 2) =~= e@);
            }
            Some((era, 2))
        } else {
            proof {
                assert forall|x: Era|
                    x.is_canonical() && x.bytes().len() <= b@.len() && #[trigger] x.bytes()
                        == b@.subrange(0, x.bytes().len() as int) implies false by {
                    assert(x.bytes()[0] == b@[0]);
                    assert(x.bytes()[1] == b@[1]);
                }
            }
            None
        }
    }
}

/// A canonical era's first byte is zero exactly when it is immortal.
proof fn lemma_era_first_byte(e: Era)
    requires
        e.is_canonical(),
    ensures
        e.bytes()[0] == 0 <==> e == Era::Immortal,
{
    if let Era::Mortal(period, phase) = e {
        lemma_mortal_code(period, phase);
    }
}

/// The bytes of a code, read back in little-endian order, give the code.
proof fn lemma_le_u16_read(c: u16)
    ensures
        (le_u16(c)[0] as u16) | ((le_u16(c)[1] as u16) << 8u16) == c,
{
    let lo = (c % 256) as u8;
    let hi = (c / 256) as u8;
    assert((lo as u16) | ((hi as u16) << 8u16) == c) by (bit_vector)
        requires
            lo == (c % 256) as u8,
            hi == (c / 256) as u8,
    ;
}

/// Where `b` starts with a canonical mortal era, `code` read from its first
/// two bytes is that era's code.
proof fn lemma_mortal_prefix(b: Seq<u8>, code: u16)
    requires
        b.len() >= 2,
        code == (b[0] as u16) | ((b[1] as u16) << 8u16),
    ensures
        forall|e: Era|
            e.is_canonical() && e.bytes().len() <= b.len() && #[trigger] e.bytes() == b.subrange(
                0,
                e.bytes().len() as int,
            ) && b[0] != 0 ==> (e matches Era::Mortal(period, phase) && code == mortal_code(
                period,
                phase,
            )),
{
    assert forall|e: Era|
        e.is_canonical() && e.bytes().len() <= b.len() && #[trigger] e.bytes() == b.subrange(
            0,
            e.bytes().len() as int,
        ) && b[0] != 0 implies (e matches Era::Mortal(period, phase) && code == mortal_code(
        period,
        phase,
    )) by {
        assert(e.bytes()[0] == b[0]);
        if let Era::Mortal(period, phase) = e {
            let c = mortal_code(period, phase);
            assert(le_u16(c)[0] == b[0] && le_u16(c)[1] == b[1]);
            lemma_le_u16_read(c);
        }
    }
}

/// A byte string starts with the encoding of at most one canonical era.
pub proof fn lemma_era_prefix_unique(e1: Era, e2: Era, b: Seq<u8>)
    requires
        e1.is_canonical(),
        e2.is_canonical(),
        e1.bytes().len() <= b.len(),
        e1.bytes() == b.subrange(0, e1.bytes().len() as int),
        e2.bytes().len() <= b.len(),
        e2.bytes() == b.subrange(0, e2.bytes().len() as int),
    ensures
        e1 == e2,
{
    lemma_era_first_byte(e1);
    lemma_era_first_byte(e2);
    assert(e1.bytes()[0] == b[0]);
    assert(e2.bytes()[0] == b[0]);
    if let (Era::Mortal(p1, f1), Era::Mortal(p2, f2)) = (e1, e2) {
        let c1 = mortal_code(p1, f1);
        let c2 = mortal_code(p2, f2);
        assert(le_u16(c1)[1] == b[1] && le_u16(c2)[1] == b[1]);
        lemma_le_u16_read(c1);
        lemma_le_u16_read(c2);
        lemma_mortal_code(p1, f1);
        lemma_mortal_code(p2, f2);
    }
}

/// Era and nonce: what orders a transaction and bounds its lifetime.
#[derive(Clone, Copy, Debug, PartialEq, Eq, Structural)]
pub struct GenericExtra {
    pub era: Era,
    pub nonce: u32,
}

impl GenericExtra {
    /// The era's encoding followed by the nonce in compact form.
    pub open spec fn bytes(self) -> Seq<u8> {
        self.era.bytes() + compact_u32(self.nonce)
    }

    pub fn new(era: Era, nonce: u32) -> (r: GenericExtra)
        ensures
            r == (GenericExtra { era, nonce }),
    {
        GenericExtra { era, nonce }
    }

    pub fn encode(&self) -> (r: Vec<u8>)
        ensures
            r@ == self.bytes(),
    {
        let mut r = self.era.encode();
        let mut n = encode_compact_u32(self.nonce);
        r.append(&mut n);
        r
    }
}

/// The version of the runtime that a chain runs.
#[derive(Clone, Copy, Debug, PartialEq, Eq, Structural)]
pub struct RuntimeVersion {
    pub spec_version: u32,
    pub transaction_version: u32,
}

/// Data that the signature covers but the transaction does not carry: the
/// runtime's versions, the genesis hash and the hash of the block the era
/// starts at. Three empty slots follow them, which encode to nothing.
#[derive(Clone, Copy, Debug, PartialEq, Eq)]
pub struct AdditionalSigned {
    pub spec_version: u32,
    pub transaction_version: u32,
    pub genesis_hash: BlockHash,
    pub checkpoint_hash: BlockHash,
}

impl AdditionalSigned {
    /// The fields in order: two little-endian integers and two raw hashes.
    pub open spec fn bytes(self) -> Seq<u8> {
        le_u32(self.spec_version) + le_u32(self.transaction_version) + self.genesis_hash@
            + self.checkpoint_hash@
    }

    pub fn new(
        spec_version: u32,
        transaction_version: u32,
        genesis_hash: BlockHash,
        checkpoint_hash: BlockHash,
    ) -> (r: AdditionalSigned)
        ensures
            r == (AdditionalSigned { spec_version, transaction_version, genesis_hash, checkpoint_hash }),
    {
        AdditionalSigned { spec_version, transaction_version, genesis_hash, checkpoint_hash }
    }

    pub fn encode(&self) -> (r: Vec<u8>)
        ensures
            r@ == self.bytes(),
    {
        let mut r = encode_u32(self.spec_version);
        let mut t = encode_u32(self.transaction_version);
        r.append(&mut t);
        push_array(&mut r, &self.genesis_hash);
        push_array(&mut r, &self.checkpoint_hash);
        r
    }
}

} // verus!
