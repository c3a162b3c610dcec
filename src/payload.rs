//! The signing preimage: call, era and nonce, and the chain-binding data.

use vstd::prelude::*;

use crate::era::{AdditionalSigned, GenericExtra};

verus! {

/// What a signer signs: the call, then the era and nonce, then the data
/// that binds the signature to one chain and runtime.
pub struct SignedPayload {
    pub call: Vec<u8>,
    pub extra: GenericExtra,
    pub additional: AdditionalSigned,
}

/// The bytes of a signing preimage, in that fixed order.
pub open spec fn payload_bytes(call: Seq<u8>, extra: GenericExtra, additional: AdditionalSigned) -> Seq<u8> {
    call + extra.bytes() + additional.bytes()
}

impl SignedPayload {
    pub fn new(call: Vec<u8>, extra: GenericExtra, additional: AdditionalSigned) -> (r: SignedPayload)
        ensures
            r.call@ == call@,
            r.extra == extra,
            r.additional == additional,
    {
        SignedPayload { call, extra, additional }
    }

    /// The preimage as bytes.
    pub fn encode(&self) -> (r: Vec<u8>)
        ensures
            r@ == payload_bytes(self.call@, self.extra, self.additional),
    {
        let mut r = self.call.clone();
        proof {
            assert(r@ =~= self.call@);
        }
        let mut e = self.extra.encode();
        r.append(&mut e);
        let mut a = self.additional.encode();
        r.append(&mut a);
        proof {
            assert(r@ =~= payload_bytes(self.call@, self.extra, self.additional));
        }
        r
    }
}

/// The preimage depends on nothing but its three parts: equal parts give
/// equal bytes.
pub proof fn lemma_payload_deterministic(
    c1: Seq<u8>,
    e1: GenericExtra,
    a1: AdditionalSigned,
    c2: Seq<u8>,
    e2: GenericExtra,
    a2: AdditionalSigned,
)
    requires
        c1 == c2,
        e1 == e2,
        a1 == a2,
    ensures
        payload_bytes(c1, e1, a1) == payload_bytes(c2, e2, a2),
{
}

} // verus!
