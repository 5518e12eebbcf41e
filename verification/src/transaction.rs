use crate::error::FillError;
use crate::hex::hex_lower;
use crate::hex::to_hex;
use crate::intent::UnsignedIntent;
use crate::ledger::batch_views;
use crate::ledger::encode_signed_transaction;
use crate::ledger::ledger_subintent;
use crate::ledger::ledger_subintent_of;
use crate::ledger::signature_views;
use crate::ledger::signed_payload;
use crate::signing::Signature;
use radix_common::prelude::EncodeError;
use radix_transactions::model::SubintentV2;
use vstd::prelude::*;

verus! {

/// A fully signed single-intent transaction: the unit of transmission.
///
/// It holds the root intent, the set of signatures over the root, which is
/// exactly one signature, and the containers for further subintents and
/// their signatures, which stay empty. Nothing changes it once assembled.
pub struct SignedTransaction {
    intent: UnsignedIntent,
    root_signatures: Vec<Signature>,
    non_root_subintents: Vec<UnsignedIntent>,
    non_root_signatures: Vec<Vec<Signature>>,
}

impl SignedTransaction {
    /// The root intent.
    pub closed spec fn intent(&self) -> UnsignedIntent {
        self.intent
    }

    /// The signatures over the root intent.
    pub closed spec fn root_signatures(&self) -> Seq<Signature> {
        self.root_signatures@
    }

    /// The subintents below the root.
    pub closed spec fn non_root_subintents(&self) -> Seq<UnsignedIntent> {
        self.non_root_subintents@
    }

    /// The signatures over the subintents below the root, one batch for
    /// each.
    pub closed spec fn non_root_signatures(&self) -> Seq<Vec<Signature>> {
        self.non_root_signatures@
    }

    /// Whether this is a single-intent transaction: one signature over the
    /// root, and nothing below the root.
    pub open spec fn wf(&self) -> bool {
        &&& self.root_signatures().len() == 1
        &&& self.non_root_subintents().len() == 0
        &&& self.non_root_signatures().len() == 0
    }

    /// The root intent.
    pub fn root_intent(&self) -> (intent: &UnsignedIntent)
        ensures
            *intent == self.intent(),
    {
        &self.intent
    }

    /// The number of signatures over the root intent.
    pub fn root_signature_count(&self) -> (n: usize)
        ensures
            n == self.root_signatures().len(),
    {
        self.root_signatures.len()
    }

    /// The signature over the root intent.
    pub fn root_signature(&self) -> (signature: Signature)
        requires
            self.wf(),
        ensures
            signature == self.root_signatures()[0],
    {
        self.root_signatures[0]
    }

    /// The number of subintents below the root.
    pub fn non_root_subintent_count(&self) -> (n: usize)
        ensures
            n == self.non_root_subintents().len(),
    {
        self.non_root_subintents.len()
    }

    /// The number of signature batches for subintents below the root.
    pub fn non_root_signature_count(&self) -> (n: usize)
        ensures
            n == self.non_root_signatures().len(),
    {
        self.non_root_signatures.len()
    }

    /// Serialises the transaction to the ledger's binary encoding and
    /// renders it in lowercase hexadecimal.
    ///
    /// Fails exactly where the ledger cannot encode the transaction, with a
    /// serialization error. The rendering is never empty.
    pub fn to_hex(&self) -> (r: Result<String, FillError>)
        requires
            self.wf(),
        ensures
            match single_signed_payload(self.intent(), self.root_signatures()[0]@) {
                None => r == Err::<String, FillError>(FillError::Serialization),
                Some(payload) => r matches Ok(text) && text@ == hex_lower(payload) && text@.len()
                    > 0,
            },
    {
        let root = ledger_subintent(&self.intent);
        let others: Vec<SubintentV2> = Vec::new();
        proof {
            assert(others@ =~= Seq::<SubintentV2>::empty());
            assert(signature_views(self.root_signatures@) =~= seq![self.root_signatures()[0]@]);
            assert(batch_views(self.non_root_signatures@) =~= Seq::<Seq<Seq<u8>>>::empty());
        }
        let encoded = encode_signed_transaction(
            root,
            others,
            &self.root_signatures,
            &self.non_root_signatures,
        );
        hex_of_encoded(encoded)
    }
}

/// The payload of the single-intent transaction of `intent` under
/// `signature`: the ledger's encoding of the intent as root, that one
/// signature over it, and nothing below the root; `None` where the ledger
/// cannot encode it.
pub open spec fn single_signed_payload(intent: UnsignedIntent, signature: Seq<u8>) -> Option<
    Seq<u8>,
> {
    signed_payload(
        ledger_subintent_of(intent),
        Seq::<SubintentV2>::empty(),
        seq![signature],
        Seq::<Seq<Seq<u8>>>::empty(),
    )
}

/// Assembles the signed transaction from an unsigned intent and the
/// signature over its content hash.
pub fn create_signed_partial_transaction(subintent: UnsignedIntent, signature: Signature) -> (signed:
    SignedTransaction)
    ensures
        signed.wf(),
        signed.intent() == subintent,
        signed.root_signatures() == seq![signature],
        signed.non_root_subintents() == Seq::<UnsignedIntent>::empty(),
        signed.non_root_signatures() == Seq::<Vec<Signature>>::empty(),
{
    let mut root_signatures: Vec<Signature> = Vec::new();
    root_signatures.push(signature);
    let signed = SignedTransaction {
        intent: subintent,
        root_signatures,
        non_root_subintents: Vec::new(),
        non_root_signatures: Vec::new(),
    };
    assert(signed.root_signatures() =~= seq![signature]);
    assert(signed.non_root_subintents() =~= Seq::<UnsignedIntent>::empty());
    assert(signed.non_root_signatures() =~= Seq::<Vec<Signature>>::empty());
    signed
}

/// What a transaction's encoding comes to: the payload in lowercase
/// hexadecimal, or a serialization error where the ledger could not encode
/// the transaction.
pub open spec fn hex_outcome(encoded: Result<Vec<u8>, EncodeError>, r: Result<String, FillError>)
    -> bool {
    match encoded {
        Err(_) => r == Err::<String, FillError>(FillError::Serialization),
        Ok(payload) => r matches Ok(text) && text@ == hex_lower(payload@),
    }
}

/// Renders the payload that encoding a transaction gave, if it gave one.
pub fn hex_of_encoded(encoded: Result<Vec<u8>, EncodeError>) -> (r: Result<String, FillError>)
    ensures
        hex_outcome(encoded, r),
{
    match encoded {
        Err(_) => Err(FillError::Serialization),
        Ok(payload) => Ok(to_hex(&payload)),
    }
}

} // verus!
