use extrinsic::account::{public_into_account, AccountId, PublicKey};
use extrinsic::api::{
    account_result, nonce_result, AccountInfo, Api, ClientError, RpcClient, Signer,
};
use extrinsic::era::{AdditionalSigned, BlockHash, Era, GenericExtra, RuntimeVersion};
use extrinsic::extrinsic::{MultiSignature, UncheckedExtrinsic};
use extrinsic::payload::SignedPayload;
use parity_scale_codec::{Compact, Encode};
use sp_core::Hasher;

struct TestSigner {
    key: PublicKey,
    fail_sign: bool,
}

impl Signer for TestSigner {
    fn public(&self) -> Result<PublicKey, ClientError> {
        Ok(self.key)
    }

    fn sign(&self, payload: &[u8]) -> Result<MultiSignature, ClientError> {
        if self.fail_sign {
            return Err(ClientError::Signing("key unavailable".to_string()));
        }
        let mut s = [0u8; 64];
        s[0] = 0xAB;
        s[1] = payload.len() as u8;
        Ok(MultiSignature::Sr25519(s))
    }
}

struct TestClient {
    info: Result<Option<AccountInfo>, ClientError>,
}

impl RpcClient for TestClient {
    fn account_info(
        &self,
        _account: &AccountId,
        _at: Option<BlockHash>,
    ) -> Result<Option<AccountInfo>, ClientError> {
        self.info.clone()
    }
}

const GENESIS: BlockHash = [7u8; 32];

fn version() -> RuntimeVersion {
    RuntimeVersion { spec_version: 9430, transaction_version: 24 }
}

fn api(signer: Option<TestSigner>, info: Result<Option<AccountInfo>, ClientError>) -> Api<TestSigner, TestClient> {
    Api { signer, client: TestClient { info }, genesis_hash: GENESIS, runtime_version: version() }
}

fn sr_signer() -> TestSigner {
    TestSigner { key: PublicKey::Sr25519([1u8; 32]), fail_sign: false }
}

/// A balance transfer to `to` of `amount`: pallet 5, call 0, then the
/// destination and the compact amount.
fn transfer(to: [u8; 32], amount: u128) -> Vec<u8> {
    (5u8, 0u8, to, Compact(amount)).encode()
}

#[test]
fn unsigned_transfer_has_no_signature() {
    let call = transfer([9u8; 32], 10);
    let xt = api(None, Ok(None)).create_xt(call.clone()).unwrap();
    assert_eq!(xt, UncheckedExtrinsic { signature: None, function: call });
}

#[test]
fn unsigned_ignores_lookup_failure() {
    let call = vec![1u8, 2, 3];
    let xt = api(None, Err(ClientError::Rpc("down".to_string()))).create_xt(call.clone()).unwrap();
    assert!(xt.signature.is_none());
    assert_eq!(xt.function, call);
}

#[test]
fn signed_transfer_carries_looked_up_nonce() {
    let call = transfer([9u8; 32], 10);
    let a = api(Some(sr_signer()), Ok(Some(AccountInfo { nonce: 5 })));
    let xt = a.create_xt(call.clone()).unwrap();
    let (from, _, extra) = xt.signature.unwrap();
    assert_eq!(extra, GenericExtra { era: Era::Immortal, nonce: 5 });
    assert_eq!(from, AccountId { bytes: [1u8; 32] });
    assert_eq!(xt.function, call);
}

#[test]
fn changing_nonce_changes_only_nonce() {
    let call = transfer([9u8; 32], 10);
    let x5 = api(Some(sr_signer()), Ok(Some(AccountInfo { nonce: 5 }))).create_xt(call.clone()).unwrap();
    let x6 = api(Some(sr_signer()), Ok(Some(AccountInfo { nonce: 6 }))).create_xt(call.clone()).unwrap();
    let (f5, s5, e5) = x5.signature.unwrap();
    let (f6, s6, e6) = x6.signature.unwrap();
    assert_eq!(f5, f6);
    assert_eq!(s5, s6);
    assert_eq!(e5.era, e6.era);
    assert_eq!(e5.nonce, 5);
    assert_eq!(e6.nonce, 6);
    assert_eq!(x5.function, x6.function);
}

#[test]
fn signed_without_account_fails() {
    let r = api(Some(sr_signer()), Ok(None)).create_xt(vec![0u8]);
    assert_eq!(r, Err(ClientError::SignerAccountDoesNotExist));
}

#[test]
fn signed_lookup_failure_is_forwarded() {
    let r = api(Some(sr_signer()), Err(ClientError::Rpc("timeout".to_string()))).create_xt(vec![0u8]);
    assert_eq!(r, Err(ClientError::Rpc("timeout".to_string())));
}

#[test]
fn signing_failure_is_forwarded() {
    let signer = TestSigner { key: PublicKey::Ed25519([2u8; 32]), fail_sign: true };
    let r = api(Some(signer), Ok(Some(AccountInfo { nonce: 1 }))).create_xt(vec![0u8]);
    assert_eq!(r, Err(ClientError::Signing("key unavailable".to_string())));
}

#[test]
fn signature_covers_whole_preimage() {
    let call = vec![1u8, 2, 3];
    let xt = api(Some(sr_signer()), Ok(Some(AccountInfo { nonce: 5 }))).create_xt(call).unwrap();
    let (_, sig, _) = xt.signature.unwrap();
    // call (3) + era (1) + compact nonce (1) + versions (8) + two hashes (64)
    match sig {
        MultiSignature::Sr25519(s) => assert_eq!(s[1], 77),
        _ => panic!("unexpected scheme"),
    }
}

#[test]
fn nonce_fails_without_account() {
    let a = api(Some(sr_signer()), Ok(None));
    assert_eq!(a.nonce(), Err(ClientError::SignerAccountDoesNotExist));
    assert_eq!(nonce_result(Ok(None)), Err(ClientError::SignerAccountDoesNotExist));
}

#[test]
fn nonce_returns_record_nonce() {
    let a = api(Some(sr_signer()), Ok(Some(AccountInfo { nonce: 42 })));
    assert_eq!(a.nonce(), Ok(42));
    assert_eq!(nonce_result(Ok(Some(AccountInfo { nonce: 7 }))), Ok(7));
    assert_eq!(nonce_result(Err(ClientError::Rpc("x".to_string()))), Err(ClientError::Rpc("x".to_string())));
}

#[test]
fn nonce_without_signer_fails() {
    assert_eq!(api(None, Ok(Some(AccountInfo { nonce: 1 }))).nonce(), Err(ClientError::NoSigner));
}

#[test]
fn signer_account_without_signer() {
    assert_eq!(api(None, Ok(None)).signer_account(), Err(ClientError::NoSigner));
}

#[test]
fn signer_account_from_public_key() {
    assert_eq!(api(Some(sr_signer()), Ok(None)).signer_account(), Ok(AccountId { bytes: [1u8; 32] }));
    assert_eq!(
        account_result(Ok(PublicKey::Ed25519([3u8; 32]))),
        Ok(AccountId { bytes: [3u8; 32] })
    );
    assert_eq!(
        account_result(Err(ClientError::Signing("locked".to_string()))),
        Err(ClientError::Signing("locked".to_string()))
    );
}

#[test]
fn ecdsa_account_is_blake2_of_key() {
    let mut k = [4u8; 33];
    k[0] = 2;
    let expected = sp_core::Blake2Hasher::hash(&k).0;
    let a = public_into_account(&PublicKey::Ecdsa(k));
    assert_eq!(a.bytes, expected);
    assert_ne!(a.bytes[..], k[..32]);
}

#[test]
fn compact_nonce_encodings() {
    let enc = |n: u32| GenericExtra::new(Era::Immortal, n).encode();
    assert_eq!(enc(0), vec![0, 0]);
    assert_eq!(enc(5), vec![0, 20]);
    assert_eq!(enc(63), vec![0, 252]);
    assert_eq!(enc(64), vec![0, 1, 1]);
    assert_eq!(enc(16383), vec![0, 253, 255]);
    assert_eq!(enc(16384), vec![0, 2, 0, 1, 0]);
    assert_eq!(enc(1 << 30), vec![0, 3, 0, 0, 0, 64]);
    assert_eq!(enc(u32::MAX), vec![0, 3, 255, 255, 255, 255]);
}

#[test]
fn mortal_era_encoding() {
    assert_eq!(Era::Immortal.encode(), vec![0]);
    // period 64: log 6, low nibble 5; phase 42 shifted by four
    assert_eq!(Era::Mortal(64, 42).encode(), vec![0xA5, 0x02]);
    // period 2^16: quantised by 16, low nibble 15
    assert_eq!(Era::Mortal(65536, 32768).encode(), ((2048u16 << 4) | 15).to_le_bytes().to_vec());
}

#[test]
fn mortal_era_decodes() {
    assert_eq!(Era::decode(&[0xA5, 0x02]), Some((Era::Mortal(64, 42), 2)));
    assert_eq!(Era::decode(&[0, 9]), Some((Era::Immortal, 1)));
    assert_eq!(Era::decode(&[0xA0, 0x02]), None);
    assert_eq!(Era::decode(&[]), None);
}

#[test]
fn additional_signed_encoding() {
    let a = AdditionalSigned::new(1, 2, [7u8; 32], [8u8; 32]);
    let mut expected = vec![1u8, 0, 0, 0, 2, 0, 0, 0];
    expected.extend_from_slice(&[7u8; 32]);
    expected.extend_from_slice(&[8u8; 32]);
    assert_eq!(a.encode(), expected);
}

#[test]
fn payload_layout_and_determinism() {
    let call = transfer([9u8; 32], 10);
    let a = api(Some(sr_signer()), Ok(None));
    let p = a.signing_payload(&call, 5);
    assert_eq!(p.extra, GenericExtra { era: Era::Immortal, nonce: 5 });
    assert_eq!(p.additional.genesis_hash, p.additional.checkpoint_hash);
    assert_eq!(p.additional.genesis_hash, GENESIS);
    let mut expected = call.clone();
    expected.extend_from_slice(&[0, 20]);
    expected.extend_from_slice(&9430u32.to_le_bytes());
    expected.extend_from_slice(&24u32.to_le_bytes());
    expected.extend_from_slice(&GENESIS);
    expected.extend_from_slice(&GENESIS);
    assert_eq!(p.encode(), expected);
    let q = SignedPayload::new(call.clone(), p.extra, p.additional);
    assert_eq!(q.encode(), p.encode());
}

#[test]
fn signed_transaction_round_trip() {
    let call = transfer([9u8; 32], 10);
    let xt = api(Some(sr_signer()), Ok(Some(AccountInfo { nonce: 300 }))).create_xt(call).unwrap();
    let bytes = xt.encode();
    assert_eq!(bytes[0], 0x84);
    assert_eq!(UncheckedExtrinsic::decode(&bytes), Some(xt));
}

#[test]
fn unsigned_transaction_round_trip() {
    let xt = UncheckedExtrinsic { signature: None, function: vec![5, 0, 1] };
    let bytes = xt.encode();
    assert_eq!(bytes, vec![0x04, 5, 0, 1]);
    assert_eq!(UncheckedExtrinsic::decode(&bytes), Some(xt));
}

#[test]
fn ecdsa_signed_round_trip() {
    let xt = UncheckedExtrinsic {
        signature: Some((
            AccountId { bytes: [3u8; 32] },
            MultiSignature::Ecdsa([6u8; 65]),
            GenericExtra { era: Era::Immortal, nonce: 1 << 30 },
        )),
        function: vec![],
    };
    let bytes = xt.encode();
    assert_eq!(bytes.len(), 1 + 32 + 66 + 1 + 5);
    assert_eq!(UncheckedExtrinsic::decode(&bytes), Some(xt));
}

#[test]
fn malformed_transactions_rejected() {
    assert_eq!(UncheckedExtrinsic::decode(&[]), None);
    assert_eq!(UncheckedExtrinsic::decode(&[0x05, 1]), None);
    assert_eq!(UncheckedExtrinsic::decode(&[0x84, 1, 2]), None);
    let mut bad_tag = vec![0x84u8];
    bad_tag.extend_from_slice(&[0u8; 32]);
    bad_tag.push(7);
    bad_tag.extend_from_slice(&[0u8; 64]);
    assert_eq!(UncheckedExtrinsic::decode(&bad_tag), None);
}

#[test]
fn signature_encoding() {
    let e = MultiSignature::Ed25519([1u8; 64]).encode();
    assert_eq!(e.len(), 65);
    assert_eq!(e[0], 0);
    assert_eq!(MultiSignature::decode(&e), Some((MultiSignature::Ed25519([1u8; 64]), 65)));
    let k = MultiSignature::Ecdsa([2u8; 65]).encode();
    assert_eq!(k[0], 2);
    assert_eq!(MultiSignature::decode(&k[..10]), None);
}

#[test]
fn signed_xt_uses_given_nonce() {
    let call = transfer([9u8; 32], 10);
    let a = api(Some(sr_signer()), Err(ClientError::Rpc("unused".to_string())));
    let xt = a.create_signed_xt(call.clone(), 77).unwrap();
    let (from, _, extra) = xt.signature.unwrap();
    assert_eq!(extra, GenericExtra { era: Era::Immortal, nonce: 77 });
    assert_eq!(from, AccountId { bytes: [1u8; 32] });
    assert_eq!(xt.function, call);
}

#[test]
fn signed_xt_without_signer_fails() {
    let r = api(None, Ok(Some(AccountInfo { nonce: 1 }))).create_signed_xt(vec![1u8], 1);
    assert_eq!(r, Err(ClientError::NoSigner));
}

#[test]
fn mortal_signed_round_trip() {
    let xt = UncheckedExtrinsic {
        signature: Some((
            AccountId { bytes: [3u8; 32] },
            MultiSignature::Ed25519([6u8; 64]),
            GenericExtra { era: Era::Mortal(8192, 4094), nonce: 64 },
        )),
        function: vec![5, 0],
    };
    let bytes = xt.encode();
    assert_eq!(bytes.len(), 1 + 32 + 65 + 2 + 2 + 2);
    assert_eq!(UncheckedExtrinsic::decode(&bytes), Some(xt));
}

#[test]
fn non_canonical_mortal_era_reads_back_quantised() {
    // a phase of 1 under a quantisation factor of 2 is not kept by the code
    let bytes = Era::Mortal(8192, 1).encode();
    assert_eq!(Era::decode(&bytes), Some((Era::Mortal(8192, 0), 2)));
}
