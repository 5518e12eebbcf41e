use crate::error::FillError;
use crate::intent::UnsignedIntent;
use crate::ledger::encode_subintent;
use crate::ledger::ledger_subintent;
use crate::ledger::ledger_subintent_of;
use crate::ledger::prepare_subintent_hash;
use crate::ledger::accepts_secret;
use crate::ledger::secp256k1_signature;
use crate::ledger::sign_hash;
use crate::ledger::subintent_hash_of;
use crate::ledger::subintent_payload;
use radix_common::prelude::EncodeError;
use vstd::prelude::*;

verus! {

/// The content hash of an intent's canonical form. Only hashing makes one,
/// so that whatever is signed is a hash and never raw bytes.
#[derive(Clone, Copy, Debug, PartialEq, Eq)]
pub struct ContentHash {
    bytes: [u8; 32],
}

impl View for ContentHash {
    type V = Seq<u8>;

    closed spec fn view(&self) -> Seq<u8> {
        self.bytes@
    }
}

impl ContentHash {
    /// The 32 bytes of the hash.
    pub fn bytes(&self) -> (bytes: [u8; 32])
        ensures
            bytes@ == self@,
    {
        self.bytes
    }
}

/// A signature together with the tag of the algorithm that made it. One
/// algorithm is supported. Its view is the signature's bytes.
#[derive(Clone, Copy, Debug, PartialEq, Eq)]
pub enum Signature {
    /// A recoverable ECDSA signature over secp256k1: the recovery id, then
    /// the compact signature.
    Secp256k1 { signature: [u8; 65] },
}

impl View for Signature {
    type V = Seq<u8>;

    open spec fn view(&self) -> Seq<u8> {
        match self {
            Signature::Secp256k1 { signature } => signature@,
        }
    }
}

/// The number that `bytes` stand for, most significant byte first.
pub open spec fn big_endian(bytes: Seq<u8>) -> int
    decreases bytes.len(),
{
    if bytes.len() == 0 {
        0
    } else {
        256 * big_endian(bytes.drop_last()) + bytes.last() as int
    }
}

/// The order of the secp256k1 curve.
pub open spec fn curve_order() -> int {
    0xffff_ffff_ffff_ffff_ffff_ffff_ffff_fffe_baae_dce6_af48_a03b_bfd2_5e8c_d036_4141int
}

/// Whether `secret` is the scalar of a secp256k1 private key: 32 bytes that
/// stand for a number above zero and below the order of the curve.
pub open spec fn is_valid_secret(secret: Seq<u8>) -> bool {
    secret.len() == 32 && 0 < big_endian(secret) < curve_order()
}

/// A decoded secp256k1 private key. Every key holds a valid secret scalar;
/// its view is that scalar's 32 bytes, most significant first.
pub struct SigningKey {
    secret: [u8; 32],
}

impl View for SigningKey {
    type V = Seq<u8>;

    closed spec fn view(&self) -> Seq<u8> {
        self.secret@
    }
}

impl SigningKey {
    #[verifier::type_invariant]
    spec fn holds_valid_secret(self) -> bool {
        is_valid_secret(self.secret@)
    }

    /// The key with the secret scalar `secret`, where secp256k1 takes it.
    pub fn from_bytes(secret: [u8; 32]) -> (key: Option<SigningKey>)
        ensures
            key is Some <==> is_valid_secret(secret@),
            key matches Some(k) ==> k@ == secret@,
    {
        if accepts_secret(&secret) {
            Some(SigningKey { secret })
        } else {
            None
        }
    }
}

/// The content hash of `intent`: the hash that the ledger's preparation
/// rules give the payload of the ledger's encoding of the intent; `None`
/// where the ledger cannot encode the intent or the rules reject the payload.
pub open spec fn content_hash_of(intent: UnsignedIntent) -> Option<Seq<u8>> {
    match subintent_payload(ledger_subintent_of(intent)) {
        None => None,
        Some(raw) => subintent_hash_of(raw),
    }
}

/// The hash of an encoded intent, or the failure that its encoding or its
/// preparation came to: a payload is hashed by the ledger's preparation
/// rules, and every failure is a serialization error.
pub open spec fn hash_outcome(encoded: Result<Vec<u8>, EncodeError>, r: Result<ContentHash, FillError>)
    -> bool {
    match encoded {
        Err(_) => r == Err::<ContentHash, FillError>(FillError::Serialization),
        Ok(raw) => match subintent_hash_of(raw@) {
            None => r == Err::<ContentHash, FillError>(FillError::Serialization),
            Some(hash) => r matches Ok(content) && content@ == hash,
        },
    }
}

/// Hashes the payload that encoding an intent gave, if it gave one.
pub fn hash_encoded(encoded: Result<Vec<u8>, EncodeError>) -> (r: Result<ContentHash, FillError>)
    ensures
        hash_outcome(encoded, r),
{
    match encoded {
        Err(_) => Err(FillError::Serialization),
        Ok(raw) => match prepare_subintent_hash(&raw) {
            Err(_) => Err(FillError::Serialization),
            Ok(bytes) => Ok(ContentHash { bytes }),
        },
    }
}

/// Computes the content hash of an unsigned intent: the intent is encoded in
/// the ledger's canonical form and the payload hashed by the ledger's
/// preparation rules.
///
/// Fails exactly where the intent has no content hash, with a serialization
/// error.
pub fn content_hash(intent: &UnsignedIntent) -> (r: Result<ContentHash, FillError>)
    ensures
        match content_hash_of(*intent) {
            None => r == Err::<ContentHash, FillError>(FillError::Serialization),
            Some(hash) => r matches Ok(content) && content@ == hash,
        },
{
    let subintent = ledger_subintent(intent);
    let encoded = encode_subintent(&subintent);
    hash_encoded(encoded)
}

/// Signs a content hash with the caller's private key, and tags the
/// signature with its algorithm.
pub fn sign_content_hash(private_key: &SigningKey, hash: &ContentHash) -> (signature: Signature)
    ensures
        signature@ == secp256k1_signature(private_key@, hash@),
{
    proof {
        use_type_invariant(private_key);
    }
    Signature::Secp256k1 { signature: sign_hash(&private_key.secret, &hash.bytes) }
}

/// The signature over the content hash of `intent` under the key `secret`,
/// where the intent has a content hash.
pub open spec fn signature_of(intent: UnsignedIntent, secret: Seq<u8>) -> Option<Seq<u8>> {
    match content_hash_of(intent) {
        None => None,
        Some(hash) => Some(secp256k1_signature(secret, hash)),
    }
}

/// Hashes an unsigned intent and signs the hash.
///
/// Fails exactly where the intent has no content hash, with a serialization
/// error; signing itself does not fail. What is signed is the content hash
/// of this intent, never its bytes.
pub fn sign_subintent(intent: &UnsignedIntent, private_key: &SigningKey) -> (r: Result<
    Signature,
    FillError,
>)
    ensures
        match signature_of(*intent, private_key@) {
            None => r == Err::<Signature, FillError>(FillError::Serialization),
            Some(bytes) => r matches Ok(signature) && signature@ == bytes,
        },
{
    match content_hash(intent) {
        Err(e) => Err(e),
        Ok(hash) => Ok(sign_content_hash(private_key, &hash)),
    }
}

} // verus!
