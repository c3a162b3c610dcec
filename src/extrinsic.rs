//! Signatures and the transaction that carries them, with its wire format.

use vstd::prelude::*;
use vstd::slice::slice_to_vec;

use crate::account::AccountId;
use crate::era::{lemma_era_prefix_unique, Era, GenericExtra};
use crate::scale::{
    compact_u32, decode_compact_u32, lemma_compact_prefix_unique, push_array, read_array,
};

verus! {

/// Raw signature bytes, tagged with the scheme that made them.
#[derive(Clone, Copy, Debug, PartialEq, Eq)]
pub enum MultiSignature {
    Ed25519([u8; 64]),
    Sr25519([u8; 64]),
    Ecdsa([u8; 65]),
}

impl MultiSignature {
    /// The scheme's tag byte (0, 1 or 2) followed by the raw bytes.
    pub open spec fn bytes(self) -> Seq<u8> {
        match self {
            MultiSignature::Ed25519(s) => seq![0u8] + s@,
            MultiSignature::Sr25519(s) => seq![1u8] + s@,
            MultiSignature::Ecdsa(s) => seq![2u8] + s@,
        }
    }
}

/// Who signed, what they signed with, and the era and nonce they signed.
pub type SignaturePart = (AccountId, MultiSignature, GenericExtra);

/// A transaction ready for a node's pool: an optional signature and the
/// call, held in its own SCALE encoding.
#[derive(Clone, Debug, PartialEq, Eq)]
pub struct UncheckedExtrinsic {
    pub signature: Option<SignaturePart>,
    pub function: Vec<u8>,
}

/// The value of a transaction, with the call as a sequence of bytes.
pub struct ExtrinsicView {
    pub signature: Option<SignaturePart>,
    pub function: Seq<u8>,
}

/// The version byte of a signed transaction: format 4 with the high bit set.
pub const SIGNED_VERSION: u8 = 0x84;

/// The version byte of an unsigned transaction.
pub const UNSIGNED_VERSION: u8 = 0x04;

impl ExtrinsicView {
    /// The wire format: the version byte; when signed, the signer's identity,
    /// the signature and the era and nonce; then the call.
    pub open spec fn bytes(self) -> Seq<u8> {
        match self.signature {
            None => seq![UNSIGNED_VERSION] + self.function,
            Some((from, sig, extra)) => seq![SIGNED_VERSION] + from@ + sig.bytes() + extra.bytes()
                + self.function,
        }
    }

    /// Unsigned, or signed with an era that its code describes exactly.
    pub open spec fn has_canonical_era(self) -> bool {
        match self.signature {
            None => true,
            Some((_, _, extra)) => extra.era.is_canonical(),
        }
    }
}

impl View for UncheckedExtrinsic {
    type V = ExtrinsicView;

    open spec fn view(&self) -> ExtrinsicView {
        ExtrinsicView { signature: self.signature, function: self.function@ }
    }
}

impl MultiSignature {
    pub fn encode(&self) -> (r: Vec<u8>)
        ensures
            r@ == self.bytes(),
    {
        let mut r: Vec<u8> = Vec::new();
        match self {
            MultiSignature::Ed25519(s) => {
                r.push(0u8);
                push_array(&mut r, s);
            },
            MultiSignature::Sr25519(s) => {
                r.push(1u8);
                push_array(&mut r, s);
            },
            MultiSignature::Ecdsa(s) => {
                r.push(2u8);
                push_array(&mut r, s);
            },
        }
        r
    }

    /// Reads a signature from the front of `b`, with the number of bytes read.
    pub fn decode(b: &[u8]) -> (r: Option<(MultiSignature, usize)>)
        ensures
            r matches Some((s, n)) ==> n == s.bytes().len() && n <= b@.len() && b@.subrange(
                0,
                n as int,
            ) == s.bytes(),
            forall|s: MultiSignature|
                s.bytes().len() <= b@.len() && #[trigger] s.bytes() == b@.subrange(
                    0,
                    s.bytes().len() as int,
                ) ==> r == Some((s, s.bytes().len() as usize)),
    {
        if b.len() == 0 {
            return None;
        }
        let tag = b[0];
        if (tag == 0 || tag == 1) && b.len() >= 65 {
            let a: [u8; 64] = read_array(b, 1);
            let s = if tag == 0 {
                MultiSignature::Ed25519(a)
            } else {
                MultiSignature::Sr25519(a)
            };
            proof {
                assert(b@.subrange(0, 65) =~= s.bytes());
                assert forall|t: MultiSignature|
                    t.bytes().len() <= b@.len() && #[trigger] t.bytes() == b@.subrange(
                        0,
                        t.bytes().len() as int,
                    ) implies t == s by {
                    assert(t.bytes()[0] == tag);
                    match t {
                        MultiSignature::Ed25519(x) => {
                            assert(x@ =~= t.bytes().subrange(1, 65));
                            assert(x@ =~= a@);
                            assert(x =~= a);
                        },
                        MultiSignature::Sr25519(x) => {
                            assert(x@ =~= t.bytes().subrange(1, 65));
                            assert(x@ =~= a@);
                            assert(x =~= a);
                        },
                        MultiSignature::Ecdsa(x) => {},
                    }
                }
            }
            Some((s, 65))
        } else if tag == 2 && b.len() >= 66 {
            let a: [u8; 65] = read_array(b, 1);
            let s = MultiSignature::Ecdsa(a);
            proof {
                assert(b@.subrange(0, 66) =~= s.bytes());
                assert forall|t: MultiSignature|
                    t.bytes().len() <= b@.len() && #[trigger] t.bytes() == b@.subrange(
                        0,
                        t.bytes().len() as int,
                    ) implies t == s by {
                    assert(t.bytes()[0] == tag);
                    if let MultiSignature::Ecdsa(x) = t {
                        assert(x@ =~= t.bytes().subrange(1, 66));
                        assert(x@ =~= a@);
                        assert(x =~= a);
                    }
                }
            }
            Some((s, 66))
        } else {
            proof {
                assert forall|t: MultiSignature|
                    t.bytes().len() <= b@.len() && #[trigger] t.bytes() == b@.subrange(
                        0,
                        t.bytes().len() as int,
                    ) implies false by {
                    assert(t.bytes()[0] == b@[0]);
                }
            }
            None
        }
    }
}

/// Where the parts of a signed transaction stand in its encoding: the
/// version byte, 32 bytes of identity, then signature, era, nonce and call,
/// each read from the front of what the previous part leaves.
proof fn lemma_signed_layout(v: ExtrinsicView, b: Seq<u8>)
    requires
        v.signature is Some,
        v.bytes() == b,
    ensures
        ({
            let (from, sig, extra) = v.signature->Some_0;
            let s1 = b.subrange(33, b.len() as int);
            let n1 = sig.bytes().len() as int;
            let s2 = s1.subrange(n1, s1.len() as int);
            let n2 = extra.era.bytes().len() as int;
            let s3 = s2.subrange(n2, s2.len() as int);
            let n3 = compact_u32(extra.nonce).len() as int;
            &&& b.len() >= 33
            &&& b[0] == SIGNED_VERSION
            &&& b.subrange(1, 33) == from@
            &&& n1 <= s1.len()
            &&& s1.subrange(0, n1) == sig.bytes()
            &&& n2 <= s2.len()
            &&& s2.subrange(0, n2) == extra.era.bytes()
            &&& n3 <= s3.len()
            &&& s3.subrange(0, n3) == compact_u32(extra.nonce)
            &&& s3.subrange(n3, s3.len() as int) == v.function
        }),
{
    let (from, sig, extra) = v.signature->Some_0;
    let s1 = b.subrange(33, b.len() as int);
    let n1 = sig.bytes().len() as int;
    let s2 = s1.subrange(n1, s1.len() as int);
    let eb = extra.era.bytes();
    let s3 = s2.subrange(eb.len() as int, s2.len() as int);
    let c = compact_u32(extra.nonce);
    assert(from@.len() == 32);
    assert(b.subrange(1, 33) =~= from@);
    assert(s1 =~= sig.bytes() + eb + c + v.function);
    assert(s1.subrange(0, n1) =~= sig.bytes());
    assert(s2 =~= eb + c + v.function);
    assert(s2.subrange(0, eb.len() as int) =~= eb);
    assert(s3 =~= c + v.function);
    assert(s3.subrange(0, c.len() as int) =~= c);
    assert(s3.subrange(c.len() as int, s3.len() as int) =~= v.function);
}

/// A byte string starts with the encoding of at most one signature.
proof fn lemma_signature_prefix_unique(s: MultiSignature, t: MultiSignature, b: Seq<u8>)
    requires
        s.bytes().len() <= b.len(),
        s.bytes() == b.subrange(0, s.bytes().len() as int),
        t.bytes().len() <= b.len(),
        t.bytes() == b.subrange(0, t.bytes().len() as int),
    ensures
        s == t,
{
    assert(s.bytes()[0] == b[0]);
    assert(t.bytes()[0] == b[0]);
    match (s, t) {
        (MultiSignature::Ed25519(x), MultiSignature::Ed25519(y)) => {
            assert(x@ =~= s.bytes().subrange(1, 65));
            assert(y@ =~= t.bytes().subrange(1, 65));
            assert(x@ =~= b.subrange(1, 65));
            assert(y@ =~= b.subrange(1, 65));
            assert(x =~= y);
        },
        (MultiSignature::Sr25519(x), MultiSignature::Sr25519(y)) => {
            assert(x@ =~= s.bytes().subrange(1, 65));
            assert(y@ =~= t.bytes().subrange(1, 65));
            assert(x@ =~= b.subrange(1, 65));
            assert(y@ =~= b.subrange(1, 65));
            assert(x =~= y);
        },
        (MultiSignature::Ecdsa(x), MultiSignature::Ecdsa(y)) => {
            assert(x@ =~= s.bytes().subrange(1, 66));
            assert(y@ =~= t.bytes().subrange(1, 66));
            assert(x@ =~= b.subrange(1, 66));
            assert(y@ =~= b.subrange(1, 66));
            assert(x =~= y);
        },
        _ => {},
    }
}

/// Round trip: the encoding of a transaction that is unsigned or has a
/// canonical era determines it, so reading it back gives the transaction
/// that was written.
pub proof fn lemma_encoding_determines_transaction(v: ExtrinsicView, w: ExtrinsicView)
    requires
        v.has_canonical_era(),
        w.has_canonical_era(),
        v.bytes() == w.bytes(),
    ensures
        v == w,
{
    let b = v.bytes();
    if v.signature is Some && w.signature is Some {
        lemma_signed_layout(v, b);
        lemma_signed_layout(w, b);
        let (vf, vs, ve) = v.signature->Some_0;
        let (wf, ws, we) = w.signature->Some_0;
        assert(vf.bytes =~= wf.bytes);
        let s1 = b.subrange(33, b.len() as int);
        lemma_signature_prefix_unique(vs, ws, s1);
        let s2 = s1.subrange(vs.bytes().len() as int, s1.len() as int);
        lemma_era_prefix_unique(ve.era, we.era, s2);
        let s3 = s2.subrange(ve.era.bytes().len() as int, s2.len() as int);
        lemma_compact_prefix_unique(ve.nonce, we.nonce, s3);
        assert(v.function =~= w.function);
    } else if v.signature is Some {
        lemma_signed_layout(v, b);
        assert(w.bytes()[0] == UNSIGNED_VERSION);
    } else if w.signature is Some {
        lemma_signed_layout(w, b);
        assert(v.bytes()[0] == UNSIGNED_VERSION);
    } else {
        assert(v.function =~= b.subrange(1, b.len() as int));
        assert(w.function =~= b.subrange(1, b.len() as int));
    }
}

impl UncheckedExtrinsic {
    pub fn encode(&self) -> (r: Vec<u8>)
        ensures
            r@ == self@.bytes(),
    {
        let mut r: Vec<u8> = Vec::new();
        match &self.signature {
            None => {
                r.push(UNSIGNED_VERSION);
            },
            Some((from, sig, extra)) => {
                r.push(SIGNED_VERSION);
                push_array(&mut r, &from.bytes);
                let mut s = sig.encode();
                r.append(&mut s);
                let mut e = extra.encode();
                r.append(&mut e);
            },
        }
        let mut f = self.function.clone();
        proof {
            assert(f@ =~= self.function@);
        }
        r.append(&mut f);
        proof {
            assert(r@ =~= self@.bytes());
        }
        r
    }

    /// Reads a transaction that fills `b` whole. Every transaction that is
    /// unsigned or has a canonical era is read back as it was written.
    pub fn decode(b: &[u8]) -> (r: Option<UncheckedExtrinsic>)
        ensures
            r matches Some(x) ==> x@.bytes() == b@,
            forall|v: ExtrinsicView|
                v.has_canonical_era() && #[trigger] v.bytes() == b@ ==> (r matches Some(x) && x@ == v),
    {
        if b.len() == 0 {
            return None;
        }
        if b[0] == UNSIGNED_VERSION {
            let (_, rest) = b.split_at(1);
            let function = slice_to_vec(rest);
            let x = UncheckedExtrinsic { signature: None, function };
            proof {
                assert(b@ =~= seq![UNSIGNED_VERSION] + function@);
                assert forall|v: ExtrinsicView|
                    v.has_canonical_era() && #[trigger] v.bytes() == b@ implies x@ == v by {
                    if v.signature is Some {
                        lemma_signed_layout(v, b@);
                    }
                    assert(v.function =~= function@);
                }
            }
            return Some(x);
        }
        if b[0] != SIGNED_VERSION || b.len() < 33 {
            proof {
                assert forall|v: ExtrinsicView|
                    v.has_canonical_era() && #[trigger] v.bytes() == b@ implies false by {
                    if v.signature is Some {
                        lemma_signed_layout(v, b@);
                    }
                }
            }
            return None;
        }
        let from = AccountId { bytes: read_array(b, 1) };
        let (_, rest1) = b.split_at(33);
        let (sig, n1) = match MultiSignature::decode(rest1) {
            Some(p) => p,
            None => {
                proof {
                    assert forall|v: ExtrinsicView|
                        v.has_canonical_era() && #[trigger] v.bytes() == b@ implies false by {
                        if v.signature is Some {
                            lemma_signed_layout(v, b@);
                        }
                    }
                }
                return None;
            },
        };
        let (_, rest2) = rest1.split_at(n1);
        let (era, n2) = match Era::decode(rest2) {
            Some(p) => p,
            None => {
                proof {
                    assert forall|v: ExtrinsicView|
                        v.has_canonical_era() && #[trigger] v.bytes() == b@ implies false by {
                        if v.signature is Some {
                            lemma_signed_layout(v, b@);
                        }
                    }
                }
                return None;
            },
        };
        let (_, rest3) = rest2.split_at(n2);
        let (nonce, n3) = match decode_compact_u32(rest3) {
            Some(p) => p,
            None => {
                proof {
                    assert forall|v: ExtrinsicView|
                        v.has_canonical_era() && #[trigger] v.bytes() == b@ implies false by {
                        if v.signature is Some {
                            lemma_signed_layout(v, b@);
                            let extra = v.signature->Some_0.2;
                            assert(compact_u32(extra.nonce) == rest3@.subrange(
                                0,
                                compact_u32(extra.nonce).len() as int,
                            ));
                        }
                    }
                }
                return None;
            },
        };
        let (_, rest4) = rest3.split_at(n3);
        let function = slice_to_vec(rest4);
        let extra = GenericExtra { era, nonce };
        let x = UncheckedExtrinsic { signature: Some((from, sig, extra)), function };
        proof {
            assert(rest1@ =~= rest1@.subrange(0, n1 as int) + rest2@);
            assert(rest2@ =~= rest2@.subrange(0, n2 as int) + rest3@);
            assert(rest3@ =~= rest3@.subrange(0, n3 as int) + rest4@);
            assert(b@ =~= seq![SIGNED_VERSION] + from@ + rest1@);
            assert(b@ =~= x@.bytes());
            assert forall|v: ExtrinsicView|
                v.has_canonical_era() && #[trigger] v.bytes() == b@ implies x@ == v by {
                if v.signature is Some {
                    lemma_signed_layout(v, b@);
                    let (vf, vs, ve) = v.signature->Some_0;
                    assert(compact_u32(ve.nonce) == rest3@.subrange(
                        0,
                        compact_u32(ve.nonce).len() as int,
                    ));
                    assert(vf.bytes =~= from.bytes);
                    assert(vf == from);
                    assert(v.function =~= function@);
                } else {
                    assert(v.bytes()[0] == UNSIGNED_VERSION);
                }
            }
        }
        Some(x)
    }
}

} // verus!
