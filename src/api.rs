//! The assembler: resolves signer and nonce, builds the preimage, signs it
//! and wraps the result into a transaction.

use vstd::prelude::*;

use crate::account::{account_of, public_into_account, AccountId, PublicKey};
use crate::era::{AdditionalSigned, BlockHash, Era, GenericExtra, RuntimeVersion};
use crate::extrinsic::{ExtrinsicView, MultiSignature, UncheckedExtrinsic};
use crate::payload::SignedPayload;

verus! {

/// Why a transaction could not be built.
#[derive(Clone, Debug, PartialEq, Eq)]
pub enum ClientError {
    /// A signed operation was asked for with no signer configured.
    NoSigner,
    /// The chain holds no account for the signer's identity.
    SignerAccountDoesNotExist,
    /// The signer failed, with its message.
    Signing(String),
    /// The account-state lookup failed, with its message.
    Rpc(String),
}

/// A signing capability.
pub trait Signer {
    /// The public key that signatures verify against.
    fn public(&self) -> Result<PublicKey, ClientError>;

    /// Signs the given bytes.
    fn sign(&self, payload: &[u8]) -> Result<MultiSignature, ClientError>;
}

/// The state that the chain holds for an account.
#[derive(Clone, Copy, Debug, PartialEq, Eq, Structural)]
pub struct AccountInfo {
    /// The number of transactions the account has sent.
    pub nonce: u32,
}

/// Access to the chain's account state.
pub trait RpcClient {
    /// The account's state at the given block, or at the best block when
    /// `at` is `None`; `None` where the chain holds no such account.
    fn account_info(&self, account: &AccountId, at: Option<BlockHash>) -> Result<
        Option<AccountInfo>,
        ClientError,
    >;
}

/// The account identity of the key a signer reported, or its failure.
pub fn account_result(public: Result<PublicKey, ClientError>) -> (r: Result<AccountId, ClientError>)
    ensures
        match public {
            Ok(k) => r matches Ok(a) && a@ == account_of(k),
            Err(e) => r == Err::<AccountId, ClientError>(e),
        },
{
    match public {
        Ok(k) => Ok(public_into_account(&k)),
        Err(e) => Err(e),
    }
}

/// The nonce held in the outcome of an account-state lookup.
pub fn nonce_result(info: Result<Option<AccountInfo>, ClientError>) -> (r: Result<u32, ClientError>)
    ensures
        match info {
            Ok(Some(i)) => r == Ok::<u32, ClientError>(i.nonce),
            Ok(None) => r == Err::<u32, ClientError>(ClientError::SignerAccountDoesNotExist),
            Err(e) => r == Err::<u32, ClientError>(e),
        },
{
    match info {
        Ok(Some(i)) => Ok(i.nonce),
        Ok(None) => Err(ClientError::SignerAccountDoesNotExist),
        Err(e) => Err(e),
    }
}

/// Wraps a signature, the era and nonce it was made over, and the call
/// into a signed transaction.
pub fn assemble_signed(from: AccountId, sig: MultiSignature, extra: GenericExtra, call: Vec<u8>) -> (r:
    UncheckedExtrinsic)
    ensures
        r@ == (ExtrinsicView { signature: Some((from, sig, extra)), function: call@ }),
{
    UncheckedExtrinsic { signature: Some((from, sig, extra)), function: call }
}

/// A client of one chain, with an optional signer.
pub struct Api<S, C> {
    pub signer: Option<S>,
    pub client: C,
    pub genesis_hash: BlockHash,
    pub runtime_version: RuntimeVersion,
}

impl<S: Signer, C: RpcClient> Api<S, C> {
    /// The preimage of an immortal transaction with the given nonce: the
    /// checkpoint hash is the genesis hash.
    pub fn signing_payload(&self, call: &Vec<u8>, nonce: u32) -> (r: SignedPayload)
        ensures
            r.call@ == call@,
            r.extra == (GenericExtra { era: Era::Immortal, nonce }),
            r.additional == (AdditionalSigned {
                spec_version: self.runtime_version.spec_version,
                transaction_version: self.runtime_version.transaction_version,
                genesis_hash: self.genesis_hash,
                checkpoint_hash: self.genesis_hash,
            }),
    {
        let extra = GenericExtra::new(Era::Immortal, nonce);
        let additional = AdditionalSigned::new(
            self.runtime_version.spec_version,
            self.runtime_version.transaction_version,
            self.genesis_hash,
            self.genesis_hash,
        );
        let c = call.clone();
        proof {
            assert(c@ =~= call@);
        }
        SignedPayload::new(c, extra, additional)
    }

    /// The account identity of the configured signer.
    pub fn signer_account(&self) -> (r: Result<AccountId, ClientError>)
        ensures
            self.signer is None ==> r == Err::<AccountId, ClientError>(ClientError::NoSigner),
            r matches Ok(a) ==> exists|k: PublicKey| a@ == account_of(k),
    {
        match &self.signer {
            Some(signer) => account_result(signer.public()),
            None => Err(ClientError::NoSigner),
        }
    }

    /// The signer's current nonce, as the chain's account state holds it.
    pub fn nonce(&self) -> (r: Result<u32, ClientError>)
        ensures
            self.signer is None ==> r == Err::<u32, ClientError>(ClientError::NoSigner),
    {
        let acct = self.signer_account()?;
        nonce_result(self.client.account_info(&acct, None))
    }

    /// Creates a transaction for the encoded call, signed by the configured
    /// signer with an immortal era and the given nonce.
    pub fn create_signed_xt(&self, call: Vec<u8>, nonce: u32) -> (r: Result<
        UncheckedExtrinsic,
        ClientError,
    >)
        ensures
            self.signer is None ==> r == Err::<UncheckedExtrinsic, ClientError>(
                ClientError::NoSigner,
            ),
            r matches Ok(x) ==> x@.function == call@ && (x@.signature matches Some((from, _, extra))
                && extra == (GenericExtra { era: Era::Immortal, nonce }) && exists|k: PublicKey|
                from@ == account_of(k)),
    {
        match &self.signer {
            None => Err(ClientError::NoSigner),
            Some(signer) => {
                let payload = self.signing_payload(&call, nonce);
                let from = account_result(signer.public())?;
                let bytes = payload.encode();
                let sig = signer.sign(bytes.as_slice())?;
                Ok(assemble_signed(from, sig, payload.extra, call))
            },
        }
    }

    /// Creates a transaction for the encoded call: unsigned where no signer
    /// is configured, else signed with an immortal era and the signer's
    /// current nonce.
    pub fn create_xt(&self, call: Vec<u8>) -> (r: Result<UncheckedExtrinsic, ClientError>)
        ensures
            self.signer is None ==> (r matches Ok(x) && x@ == (ExtrinsicView {
                signature: None,
                function: call@,
            })),
            self.signer is Some ==> (r matches Ok(x) ==> x@.function == call@ && (
            x@.signature matches Some((from, _, extra)) && extra.era == Era::Immortal && exists|
                k: PublicKey,
            | from@ == account_of(k))),
    {
        match &self.signer {
            None => Ok(UncheckedExtrinsic { signature: None, function: call }),
            Some(_) => {
                let nonce = self.nonce()?;
                self.create_signed_xt(call, nonce)
            },
        }
    }
}

} // verus!
