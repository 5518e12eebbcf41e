//! The calls into the ledger's transaction model. Nothing in this module is
//! proved: each item states what is taken on trust from the ledger's crates.
use crate::intent::IntentMessage;
use crate::intent::UnsignedIntent;
use crate::signing::is_valid_secret;
use crate::signing::Signature;
use radix_common::crypto::Secp256k1PrivateKey;
use radix_common::crypto::Secp256k1Signature;
use radix_common::prelude::EncodeError;
use radix_common::time::Instant;
use radix_common::types::Epoch;
use radix_transactions::model::HasSubintentHash;
use radix_transactions::model::IntentCoreV2;
use radix_transactions::model::IntentHeaderV2;
use radix_transactions::model::IntentSignatureV1;
use radix_transactions::model::IntentSignaturesV2;
use radix_transactions::model::MessageV2;
use radix_transactions::model::NonRootSubintentSignaturesV2;
use radix_transactions::model::NonRootSubintentsV2;
use radix_transactions::model::PartialTransactionV2;
use radix_transactions::model::PreparationSettings;
use radix_transactions::model::PrepareError;
use radix_transactions::model::PreparedSubintentV2;
use radix_transactions::model::PreparedTransaction;
use radix_transactions::model::RawSubintent;
use radix_transactions::model::SignatureWithPublicKeyV1;
use radix_transactions::model::SignedPartialTransactionV2;
use radix_transactions::model::SubintentManifestV2;
use radix_transactions::model::SubintentV2;
use radix_transactions::model::TransactionPayload;
use vstd::prelude::*;

verus! {

/// The ledger's subintent manifest: instructions, blobs and references to
/// child intents. The venue's instruction builder makes one from the
/// operations of a [`crate::manifest::Manifest`]; here it is carried through
/// unread.
#[verifier::external_type_specification]
#[verifier::external_body]
pub struct ExSubintentManifestV2(SubintentManifestV2);

/// The ledger's subintent: an intent core under its header.
#[verifier::external_type_specification]
#[verifier::external_body]
pub struct ExSubintentV2(SubintentV2);

/// The ledger's error for a value that cannot be encoded.
#[verifier::external_type_specification]
#[verifier::external_body]
pub struct ExEncodeError(EncodeError);

/// The ledger's error for a payload that breaks the preparation rules.
#[verifier::external_type_specification]
#[verifier::external_body]
pub struct ExPrepareError(PrepareError);

/// The ledger's `SubintentV2` that stands for `intent`: the header's fields
/// one for one, the message, and the instructions, blobs and children that
/// `SubintentManifestV2::for_intent` takes out of the manifest.
pub uninterp spec fn ledger_subintent_of(intent: UnsignedIntent) -> SubintentV2;

/// The payload bytes that `SubintentV2::to_raw` gives `subintent`; `None`
/// where the ledger cannot encode it.
pub uninterp spec fn subintent_payload(subintent: SubintentV2) -> Option<Seq<u8>>;

/// The content hash that the ledger's preparation rules, in their Cuttlefish
/// version, give the raw subintent payload `raw`; `None` where the rules
/// reject the payload.
pub uninterp spec fn subintent_hash_of(raw: Seq<u8>) -> Option<Seq<u8>>;

/// The payload bytes that `SignedPartialTransactionV2::to_raw` gives the
/// transaction with the root subintent `root`, the subintents `others`
/// below it, the secp256k1 signatures `root_signatures` over the root and,
/// for each subintent below it, the batch of `other_signatures`; `None`
/// where the ledger cannot encode it.
pub uninterp spec fn signed_payload(
    root: SubintentV2,
    others: Seq<SubintentV2>,
    root_signatures: Seq<Seq<u8>>,
    other_signatures: Seq<Seq<Seq<u8>>>,
) -> Option<Seq<u8>>;

/// The bytes of each signature of `signatures`, in order.
pub open spec fn signature_views(signatures: Seq<Signature>) -> Seq<Seq<u8>> {
    Seq::new(signatures.len(), |i: int| signatures[i]@)
}

/// The bytes of each signature of each batch of `batches`, in order.
pub open spec fn batch_views(batches: Seq<Vec<Signature>>) -> Seq<Seq<Seq<u8>>> {
    Seq::new(batches.len(), |i: int| signature_views(batches[i]@))
}

/// Builds the ledger's `SubintentV2` from an unsigned intent: each field of
/// the header and the message go over one for one, and the manifest is taken
/// apart by `SubintentManifestV2::for_intent`.
///
/// Trusted: the result is a function of the intent alone, named
/// [`ledger_subintent_of`].
#[verifier::external_body]
pub(crate) fn ledger_subintent(intent: &UnsignedIntent) -> (subintent: SubintentV2)
    ensures
        subintent == ledger_subintent_of(*intent),
{
    let (instructions, blobs, children) = intent.manifest.clone().for_intent();
    let message = match intent.message {
        IntentMessage::Empty => MessageV2::None,
    };
    let header = IntentHeaderV2 {
        network_id: intent.header.network_id,
        start_epoch_inclusive: Epoch::of(intent.header.start_epoch_inclusive),
        end_epoch_exclusive: Epoch::of(intent.header.end_epoch_exclusive),
        min_proposer_timestamp_inclusive: intent.header.min_proposer_timestamp_inclusive.map(Instant::new),
        max_proposer_timestamp_exclusive: intent.header.max_proposer_timestamp_exclusive.map(Instant::new),
        intent_discriminator: intent.header.intent_discriminator,
    };
    SubintentV2 { intent_core: IntentCoreV2 { header, blobs, message, children, instructions } }
}

/// Calls `SubintentV2::to_raw`: the subintent's payload bytes.
///
/// Trusted: the outcome is a function of the subintent alone, named
/// [`subintent_payload`]; an `Ok` carries the payload, an `Err` means the
/// ledger could not encode the subintent.
#[verifier::external_body]
pub(crate) fn encode_subintent(subintent: &SubintentV2) -> (r: Result<Vec<u8>, EncodeError>)
    ensures
        r matches Ok(raw) ==> subintent_payload(*subintent) == Some(raw@),
        r is Err ==> subintent_payload(*subintent) is None,
{
    subintent.to_raw().map(|raw| raw.to_vec())
}

/// Calls `PreparedSubintentV2::prepare` under the Cuttlefish preparation
/// settings, and `subintent_hash` on what it prepared.
///
/// Trusted: the outcome is a function of the payload alone, named
/// [`subintent_hash_of`]; an `Ok` carries the 32 bytes of the hash, an `Err`
/// means the rules rejected the payload.
#[verifier::external_body]
pub(crate) fn prepare_subintent_hash(raw: &Vec<u8>) -> (r: Result<[u8; 32], PrepareError>)
    ensures
        r matches Ok(hash) ==> subintent_hash_of(raw@) == Some(hash@),
        r is Err ==> subintent_hash_of(raw@) is None,
{
    let raw = RawSubintent::from_slice(raw);
    let prepared = PreparedSubintentV2::prepare(&raw, &PreparationSettings::cuttlefish());
    prepared.map(|subintent| radix_common::crypto::Hash::from(subintent.subintent_hash()).0)
}

/// The signature that `Secp256k1PrivateKey::sign` gives the 32-byte `hash`
/// under the key whose secret scalar is `secret`: ECDSA over secp256k1 with
/// the nonce of RFC 6979, as the recovery id followed by the compact
/// signature.
pub uninterp spec fn secp256k1_signature(secret: Seq<u8>, hash: Seq<u8>) -> Seq<u8>;

/// Calls `Secp256k1PrivateKey::from_bytes` and tells whether it took the
/// bytes.
///
/// Trusted: secp256k1 takes a 32-byte secret exactly when, read most
/// significant byte first, it is not zero and below the order of the curve.
#[verifier::external_body]
pub(crate) fn accepts_secret(secret: &[u8; 32]) -> (accepted: bool)
    ensures
        accepted == is_valid_secret(secret@),
{
    Secp256k1PrivateKey::from_bytes(secret).is_ok()
}

/// Calls `Secp256k1PrivateKey::sign` on a 32-byte hash, with the key that
/// `Secp256k1PrivateKey::from_bytes` makes of the secret.
///
/// Trusted: the 65 bytes are a function of the secret and the hash alone,
/// named [`secp256k1_signature`]; the nonce is derived from both, not drawn.
#[verifier::external_body]
pub(crate) fn sign_hash(secret: &[u8; 32], hash: &[u8; 32]) -> (signature: [u8; 65])
    requires
        is_valid_secret(secret@),
    ensures
        signature@ == secp256k1_signature(secret@, hash@),
{
    let key = Secp256k1PrivateKey::from_bytes(secret).expect("valid secret key");
    key.sign(&radix_common::crypto::Hash(*hash)).0
}

/// Builds the ledger's `SignedPartialTransactionV2` from its four parts,
/// each signature under the secp256k1 tag, and calls `to_raw` on it: the
/// transaction's payload bytes.
///
/// Trusted: the outcome is a function of the parts alone, named
/// [`signed_payload`]; an `Ok` carries the payload, which begins with the
/// encoding's prefix byte and so is not empty, an `Err` means the ledger
/// could not encode the transaction.
#[verifier::external_body]
pub(crate) fn encode_signed_transaction(
    root: SubintentV2,
    others: Vec<SubintentV2>,
    root_signatures: &Vec<Signature>,
    other_signatures: &Vec<Vec<Signature>>,
) -> (r: Result<Vec<u8>, EncodeError>)
    ensures
        r matches Ok(payload) ==> payload@.len() > 0 && signed_payload(
            root,
            others@,
            signature_views(root_signatures@),
            batch_views(other_signatures@),
        ) == Some(payload@),
        r is Err ==> signed_payload(
            root,
            others@,
            signature_views(root_signatures@),
            batch_views(other_signatures@),
        ) is None,
{
    let batch = |signatures: &Vec<Signature>| IntentSignaturesV2 {
        signatures: signatures.iter().map(|Signature::Secp256k1 { signature }| {
            let signature = Secp256k1Signature(*signature);
            IntentSignatureV1(SignatureWithPublicKeyV1::Secp256k1 { signature })
        }).collect(),
    };
    let transaction = SignedPartialTransactionV2 {
        partial_transaction: PartialTransactionV2 { root_subintent: root, non_root_subintents: NonRootSubintentsV2(others) },
        root_subintent_signatures: batch(root_signatures),
        non_root_subintent_signatures: NonRootSubintentSignaturesV2 { by_subintent: other_signatures.iter().map(batch).collect() },
    };
    transaction.to_raw().map(|raw| raw.to_vec())
}

} // verus!
