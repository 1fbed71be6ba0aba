//! The signer: one secp256k1 key, signatures over 32-byte digests, and the
//! recovery of the signing address from a signature.
use crate::codec::Address;
use crate::error::SynapseError;
use crate::word::{be_value, U256};
use vstd::prelude::*;

verus! {

/// The address that belongs to a 32-byte secret key, as
/// `ethers::signers::LocalWallet::from_bytes` derives it; `None` where the
/// bytes are no valid key.
pub uninterp spec fn key_address(key: Seq<u8>) -> Option<Seq<u8>>;

/// The secret key that a text holds in hexadecimal, as the `FromStr` impl of
/// `ethers::signers::LocalWallet` reads it, or the message of its error.
pub uninterp spec fn secret_key_of(text: Seq<char>) -> std::result::Result<Seq<u8>, Seq<char>>;

/// The 65 bytes `r ‖ s ‖ v` that `ethers::signers::LocalWallet::sign_hash`
/// returns for a key and a digest, or the message of its error.
pub uninterp spec fn ecdsa_signature(key: Seq<u8>, digest: Seq<u8>) -> std::result::Result<
    Seq<u8>,
    Seq<char>,
>;

/// The address that `ethers::types::Signature::recover` returns for a digest
/// and a 65-byte signature; `None` where it fails.
pub uninterp spec fn ecdsa_recover(digest: Seq<u8>, signature: Seq<u8>) -> Option<Seq<u8>>;

/// Half the order of the secp256k1 group, rounded down: the largest `s` of a
/// signature in low-`s` form.
pub open spec fn half_order_value() -> nat {
    0x7FFF_FFFF_FFFF_FFFF_FFFF_FFFF_FFFF_FFFF_5D57_6E73_57A4_501D_DFE9_2F46_681B_20A0nat
}

/// Whether a signature has the form that goes over the wire: 65 bytes
/// `r ‖ s ‖ v` with `v` 27 or 28 and `s` in the lower half of the group order.
pub open spec fn canonical_signature(signature: Seq<u8>) -> bool {
    &&& signature.len() == 65
    &&& (signature[64] == 27 || signature[64] == 28)
    &&& be_value(signature.subrange(32, 64)) <= half_order_value()
}

/// Whether a signature is canonical and recovers, over the digest, to the
/// address `who`.
pub open spec fn recovers_to(digest: Seq<u8>, signature: Seq<u8>, who: Seq<u8>) -> bool {
    canonical_signature(signature) && ecdsa_recover(digest, signature) == Some(who)
}

/// Calls `ethers::signers::LocalWallet::from_bytes` and reads the wallet's
/// address. The contract claims only that the outcome is a function of the key
/// bytes.
#[verifier::external_body]
fn wallet_address(key: &[u8; 32]) -> (r: Option<Address>)
    ensures
        match r {
            Some(a) => key_address(key@) == Some(a@),
            None => key_address(key@) is None,
        },
{
    let wallet = ethers::signers::LocalWallet::from_bytes(key).ok()?;
    Some(Address(ethers::signers::Signer::address(&wallet).0))
}

/// Parses a hexadecimal key with the `FromStr` impl of
/// `ethers::signers::LocalWallet` and returns the 32 bytes of the key it
/// holds. The contract claims only that the outcome is a function of the
/// text.
#[verifier::external_body]
fn parse_secret_key(text: &str) -> (r: std::result::Result<[u8; 32], String>)
    ensures
        match r {
            Ok(k) => secret_key_of(text@) == Ok::<Seq<u8>, Seq<char>>(k@),
            Err(e) => secret_key_of(text@) == Err::<Seq<u8>, Seq<char>>(e@),
        },
{
    let wallet: ethers::signers::LocalWallet = text.parse().map_err(
        |e: ethers::signers::WalletError| e.to_string(),
    )?;
    Ok(wallet.signer().to_bytes().into())
}

/// Calls `ethers::signers::LocalWallet::sign_hash` with the wallet of the
/// key, on the digest as it stands (no message prefix), and returns the 65
/// bytes of the signature. Signing is deterministic there (RFC 6979); the
/// contract claims only that the outcome is a function of key and digest.
#[verifier::external_body]
fn sign_prehash(key: &[u8; 32], digest: &[u8; 32]) -> (r: std::result::Result<[u8; 65], String>)
    ensures
        match r {
            Ok(s) => ecdsa_signature(key@, digest@) == Ok::<Seq<u8>, Seq<char>>(s@),
            Err(e) => ecdsa_signature(key@, digest@) == Err::<Seq<u8>, Seq<char>>(e@),
        },
{
    let wallet = ethers::signers::LocalWallet::from_bytes(key).map_err(|e| e.to_string())?;
    let signature = wallet.sign_hash(ethers::types::H256(*digest)).map_err(|e| e.to_string())?;
    Ok(<[u8; 65]>::from(&signature))
}

/// Calls `ethers::types::Signature::recover` on the signature that the 65
/// bytes hold, with the digest as a precomputed hash. The contract claims
/// only that the outcome is a function of digest and signature.
#[verifier::external_body]
fn recover_signer(digest: &[u8; 32], signature: &[u8; 65]) -> (r: Option<Address>)
    ensures
        match r {
            Some(a) => ecdsa_recover(digest@, signature@) == Some(a@),
            None => ecdsa_recover(digest@, signature@) is None,
        },
{
    let parsed = ethers::types::Signature::try_from(&signature[..]).ok()?;
    parsed.recover(ethers::types::H256(*digest)).ok().map(|a| Address(a.0))
}

/// Half the order of the secp256k1 group, rounded down.
pub fn half_order() -> (r: U256)
    ensures
        r@ == half_order_value(),
{
    U256 {
        w3: 0x7FFF_FFFF_FFFF_FFFF,
        w2: 0xFFFF_FFFF_FFFF_FFFF,
        w1: 0x5D57_6E73_57A4_501D,
        w0: 0xDFE9_2F46_681B_20A0,
    }
}

/// Whether a signature has the form that goes over the wire.
pub fn is_canonical(signature: &[u8; 65]) -> (r: bool)
    ensures
        r == canonical_signature(signature@),
{
    let v = signature[64];
    if v != 27 && v != 28 {
        return false;
    }
    let mut s_bytes: [u8; 32] = [0u8; 32];
    let mut i: usize = 0;
    while i < 32
        invariant
            i <= 32,
            forall|j: int| 0 <= j < i ==> s_bytes@[j] == signature@[32 + j],
        decreases 32 - i,
    {
        s_bytes[i] = signature[32 + i];
        i += 1;
    }
    assert(s_bytes@ =~= signature@.subrange(32, 64));
    let s = U256::from_be_bytes(&s_bytes);
    let half = half_order();
    s.le(&half)
}

/// The address that signed `digest`, where the signature is canonical and a
/// key can be recovered from it.
pub open spec fn recovered_address(digest: Seq<u8>, signature: Seq<u8>) -> Option<Seq<u8>> {
    if canonical_signature(signature) {
        ecdsa_recover(digest, signature)
    } else {
        None
    }
}

/// Recovers the address that signed `digest`. Recovery is against the digest
/// as it stands. Fails with `InvalidSignature` where the signature is not
/// canonical or no key can be recovered from it.
pub fn recover(digest: &[u8; 32], signature: &[u8; 65]) -> (r: std::result::Result<
    Address,
    SynapseError,
>)
    ensures
        match r {
            Ok(a) => recovered_address(digest@, signature@) == Some(a@),
            Err(e) => e is InvalidSignature && recovered_address(digest@, signature@) is None,
        },
{
    if !is_canonical(signature) {
        return Err(SynapseError::InvalidSignature);
    }
    match recover_signer(digest, signature) {
        Some(a) => Ok(a),
        None => Err(SynapseError::InvalidSignature),
    }
}

/// Checks that a signature over `digest` is canonical and was made by
/// `expected`.
pub fn verify(digest: &[u8; 32], signature: &[u8; 65], expected: &Address) -> (r:
    std::result::Result<(), SynapseError>)
    ensures
        r is Ok <==> recovers_to(digest@, signature@, expected@),
        r matches Err(e) ==> e is InvalidSignature,
{
    match recover(digest, signature) {
        Ok(a) => {
            if a == *expected {
                Ok(())
            } else {
                Err(SynapseError::InvalidSignature)
            }
        },
        Err(e) => Err(e),
    }
}

/// What comes of a signing attempt: the signature that the key gives over
/// the digest, provided that it is canonical and recovers to `address`.
pub open spec fn signing_outcome(key: Seq<u8>, address: Seq<u8>, digest: Seq<u8>) -> Option<
    Seq<u8>,
> {
    match ecdsa_signature(key, digest) {
        Ok(s) => if recovers_to(digest, s, address) {
            Some(s)
        } else {
            None
        },
        Err(_) => None,
    }
}

/// A secp256k1 key with the address that belongs to it. The key does not
/// change after construction.
pub struct Signer {
    key: [u8; 32],
    address: Address,
}

impl Signer {
    /// The bytes of the secret key.
    pub closed spec fn key(&self) -> Seq<u8> {
        self.key@
    }

    /// The account of the signer.
    pub closed spec fn account(&self) -> Address {
        self.address
    }

    /// The bytes of the signer's address.
    pub open spec fn spec_address(&self) -> Seq<u8> {
        self.account()@
    }

    /// The address held is the one that belongs to the key.
    pub open spec fn wf(&self) -> bool {
        key_address(self.key()) == Some(self.spec_address())
    }

    /// The signer for a 32-byte secret key; `None` where the bytes are no
    /// valid key.
    pub fn from_key(key: [u8; 32]) -> (r: Option<Signer>)
        ensures
            match r {
                Some(s) => s.wf() && s.key() == key@,
                None => key_address(key@) is None,
            },
    {
        match wallet_address(&key) {
            Some(address) => Some(Signer { key, address }),
            None => None,
        }
    }

    /// The signer for a key written in hexadecimal; the error is a message
    /// that says why the text holds no key.
    pub fn from_hex(text: &str) -> (r: std::result::Result<Signer, String>)
        ensures
            match r {
                Ok(s) => s.wf() && secret_key_of(text@) == Ok::<Seq<u8>, Seq<char>>(s.key()),
                Err(e) => match secret_key_of(text@) {
                    Ok(k) => key_address(k) is None,
                    Err(m) => e@ == m,
                },
            },
    {
        match parse_secret_key(text) {
            Ok(key) => match Signer::from_key(key) {
                Some(s) => Ok(s),
                None => Err("the key is not a valid secp256k1 secret key".to_owned()),
            },
            Err(e) => Err(e),
        }
    }

    /// The address of the key.
    pub fn address(&self) -> (r: Address)
        ensures
            r == self.account(),
    {
        self.address
    }

    /// Signs a 32-byte digest as it stands and returns `r ‖ s ‖ v`. The
    /// signature returned is canonical and recovers to the signer's address;
    /// where the key gives no such signature the result is `WalletError`.
    pub fn sign_digest(&self, digest: &[u8; 32]) -> (r: std::result::Result<
        [u8; 65],
        SynapseError,
    >)
        ensures
            match r {
                Ok(s) => signing_outcome(self.key(), self.spec_address(), digest@) == Some(s@),
                Err(e) => e is WalletError && signing_outcome(
                    self.key(),
                    self.spec_address(),
                    digest@,
                ) is None,
            },
    {
        match sign_prehash(&self.key, digest) {
            Ok(signature) => {
                match verify(digest, &signature, &self.address) {
                    Ok(()) => Ok(signature),
                    Err(_) => Err(
                        SynapseError::WalletError(
                            "the signature does not recover to the signer".to_owned(),
                        ),
                    ),
                }
            },
            Err(message) => Err(SynapseError::WalletError(message)),
        }
    }
}

/// A signature that a signer returns recovers to that signer's address.
pub proof fn lemma_signing_sound(key: Seq<u8>, address: Seq<u8>, digest: Seq<u8>)
    ensures
        signing_outcome(key, address, digest) matches Some(s) ==> recovers_to(
            digest,
            s,
            address,
        ),
{
}

} // verus!
