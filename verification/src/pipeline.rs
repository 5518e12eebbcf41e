use crate::amount::decimal_from_str;
use crate::amount::MAX_DECIMAL_TEXT;
use crate::error::FillError;
use crate::fees::FeeSchedule;
use crate::hex::hex_lower;
use crate::intent::clock_seconds;
use crate::intent::fill_intent_of;
use crate::intent::fill_subintent_at;
use crate::intent::UnsignedIntent;
use crate::intent::EPOCH_WINDOW;
use crate::intent::LATEST_CLOCK_SECONDS;
use crate::manifest::can_fund;
use crate::manifest::create_fill_manifest;
use crate::manifest::fill_manifest;
use crate::manifest::funding_fits;
use crate::manifest::manifest_result_view;
use crate::manifest::Account;
use crate::manifest::AccountView;
use crate::manifest::Manifest;
use crate::manifest::OperationView;
use crate::order::order_outcome;
use crate::order::requested_order;
use crate::order::InputStruct;
use crate::order::RequestedOrderView;
use crate::signing::sign_subintent;
use crate::signing::signature_of;
use crate::signing::SigningKey;
use crate::transaction::create_signed_partial_transaction;
use crate::transaction::single_signed_payload;
use crate::transaction::SignedTransaction;
use radix_transactions::model::SubintentManifestV2;
use rand::rngs::ThreadRng;
use rand::RngCore;
use vstd::prelude::*;

verus! {

/// The expiry window of a fill intent, in seconds. The venue asks for ten
/// at least.
pub const EXPIRE_AFTER_SECS: i64 = 15;

/// The outbound response: the signed transaction in lowercase hexadecimal.
#[derive(Debug, PartialEq, Eq)]
pub struct ReturnStruct {
    pub data: String,
}

/// Calls `ThreadRng::default().next_u64()` of rand: 64 bits from the
/// thread-local generator, which is seeded from the operating system and
/// shared with no other thread.
///
/// Trusted, with nothing claimed of the bits: two draws may differ. (The
/// generator panics where the operating system gives it no seed.)
#[verifier::external_body]
fn random_nonce() -> u64 {
    ThreadRng::default().next_u64()
}

/// The manifest planned for an order, where there is an order.
pub open spec fn planned_manifest(
    fees: Map<Seq<char>, int>,
    account: AccountView,
    order: Result<RequestedOrderView, FillError>,
    use_funding: bool,
) -> Option<Result<Seq<OperationView>, FillError>> {
    match order {
        Err(e) => Some(Err(e)),
        Ok(order) => if use_funding && account.funding_credential is Some && !funding_fits(
            fees,
            order,
        ) {
            None
        } else {
            Some(fill_manifest(fees, account, order, use_funding))
        },
    }
}

/// The view of what [`plan_fill`] returns.
pub open spec fn plan_view(r: Option<Result<Manifest, FillError>>) -> Option<
    Result<Seq<OperationView>, FillError>,
> {
    match r {
        None => None,
        Some(planned) => Some(manifest_result_view(planned)),
    }
}

/// The first half of a fill: reads the order out of the request and
/// composes the manifest that fills it.
///
/// Each amount of the request has fewer than [`MAX_DECIMAL_TEXT`]
/// characters. A request whose amounts do not parse is a parse failure. The
/// result is
/// `None` where funding is asked for and can be granted, but the amount to
/// fund does not fit the ledger's decimal; otherwise it is what
/// [`create_fill_manifest`] makes of the order.
pub fn plan_fill(input: &InputStruct, fees: &FeeSchedule, account: &Account, use_funding: bool) -> (r:
    Option<Result<Manifest, FillError>>)
    requires
        fees.wf(),
        input.buy_amount@.len() < MAX_DECIMAL_TEXT,
        input.sell_amount@.len() < MAX_DECIMAL_TEXT,
    ensures
        plan_view(r) == planned_manifest(
            fees@,
            account@,
            order_outcome(
                input.buy_symbol@,
                decimal_from_str(input.buy_amount@),
                input.sell_symbol@,
                decimal_from_str(input.sell_amount@),
            ),
            use_funding,
        ),
{
    match requested_order(input) {
        Err(e) => Some(Err(e)),
        Ok(order) => {
            if use_funding && account.funding_credential.is_some() && !can_fund(fees, &order) {
                None
            } else {
                Some(create_fill_manifest(fees, account, order, use_funding))
            }
        },
    }
}

/// What sealing `intent` with the key `secret` comes to: where the intent
/// has a content hash, the single-intent transaction of that very intent
/// under the key's signature over that hash; otherwise a serialization
/// error.
pub open spec fn is_seal_outcome(
    r: Result<SignedTransaction, FillError>,
    intent: UnsignedIntent,
    secret: Seq<u8>,
) -> bool {
    match signature_of(intent, secret) {
        None => r matches Err(e) && e == FillError::Serialization,
        Some(bytes) => {
            &&& r matches Ok(signed)
            &&& signed.wf()
            &&& signed.intent() == intent
            &&& signed.root_signatures()[0]@ == bytes
        },
    }
}

/// What sealing `intent` with the key `secret` and serialising the result
/// comes to: where the intent has a content hash and the ledger can encode
/// the signed transaction, the payload in lowercase hexadecimal, which is
/// not empty; otherwise a serialization error, and no response.
pub open spec fn is_response_outcome(
    r: Result<ReturnStruct, FillError>,
    intent: UnsignedIntent,
    secret: Seq<u8>,
) -> bool {
    match signature_of(intent, secret) {
        None => r matches Err(e) && e == FillError::Serialization,
        Some(bytes) => match single_signed_payload(intent, bytes) {
            None => r matches Err(e) && e == FillError::Serialization,
            Some(payload) => {
                &&& r matches Ok(response)
                &&& response.data@ == hex_lower(payload)
                &&& response.data@.len() > 0
            },
        },
    }
}

/// Seals the fill intent made of `manifest` at the second `now` under
/// `nonce`: wraps the manifest's instructions in an intent that expires
/// [`EXPIRE_AFTER_SECS`] seconds later, signs the intent's content hash and
/// assembles the signed transaction of that intent.
///
/// Fails exactly where the intent has no content hash, with a serialization
/// error.
pub fn seal_fill_at(
    network_id: u8,
    manifest: SubintentManifestV2,
    now: i64,
    nonce: u64,
    cur_epoch: u64,
    private_key: &SigningKey,
) -> (r: Result<SignedTransaction, FillError>)
    requires
        cur_epoch + EPOCH_WINDOW <= u64::MAX,
        now + EXPIRE_AFTER_SECS <= i64::MAX,
    ensures
        is_seal_outcome(
            r,
            fill_intent_of(network_id, manifest, now, EXPIRE_AFTER_SECS, cur_epoch, nonce),
            private_key@,
        ),
{
    let subintent = fill_subintent_at(
        network_id,
        manifest,
        now,
        EXPIRE_AFTER_SECS,
        cur_epoch,
        nonce,
    );
    match sign_subintent(&subintent, private_key) {
        Ok(signature) => Ok(create_signed_partial_transaction(subintent, signature)),
        Err(e) => Err(e),
    }
}

/// Seals a fill made now: draws a fresh random nonce, reads the clock, and
/// seals as [`seal_fill_at`] does for that nonce and that second.
pub fn seal_fill(
    network_id: u8,
    manifest: SubintentManifestV2,
    cur_epoch: u64,
    private_key: &SigningKey,
) -> (r: Result<SignedTransaction, FillError>)
    requires
        cur_epoch + EPOCH_WINDOW <= u64::MAX,
    ensures
        exists|now: i64, nonce: u64|
            0 <= now <= LATEST_CLOCK_SECONDS && is_seal_outcome(
                r,
                #[trigger] fill_intent_of(
                    network_id,
                    manifest,
                    now,
                    EXPIRE_AFTER_SECS,
                    cur_epoch,
                    nonce,
                ),
                private_key@,
            ),
{
    let nonce = random_nonce();
    let now = clock_seconds();
    seal_fill_at(network_id, manifest, now, nonce, cur_epoch, private_key)
}

/// The second half of a fill: seals the manifest's instructions into a
/// signed transaction, as [`seal_fill`] does, and serialises it.
///
/// For the second read from the clock and the nonce drawn, the call fails
/// exactly where the intent has no content hash or the ledger cannot encode
/// the signed transaction, with a serialization error and no response;
/// otherwise the response carries the transaction's payload in lowercase
/// hexadecimal.
pub fn execute(
    network_id: u8,
    manifest: SubintentManifestV2,
    cur_epoch: u64,
    private_key: &SigningKey,
) -> (r: Result<ReturnStruct, FillError>)
    requires
        cur_epoch + EPOCH_WINDOW <= u64::MAX,
    ensures
        exists|now: i64, nonce: u64|
            0 <= now <= LATEST_CLOCK_SECONDS && is_response_outcome(
                r,
                #[trigger] fill_intent_of(
                    network_id,
                    manifest,
                    now,
                    EXPIRE_AFTER_SECS,
                    cur_epoch,
                    nonce,
                ),
                private_key@,
            ),
{
    let sealed = seal_fill(network_id, manifest, cur_epoch, private_key);
    let ghost (now, nonce) = choose|now: i64, nonce: u64|
        0 <= now <= LATEST_CLOCK_SECONDS && is_seal_outcome(
            sealed,
            #[trigger] fill_intent_of(
                network_id,
                manifest,
                now,
                EXPIRE_AFTER_SECS,
                cur_epoch,
                nonce,
            ),
            private_key@,
        );
    let r = match sealed {
        Err(e) => Err(e),
        Ok(signed) => match signed.to_hex() {
            Ok(data) => Ok(ReturnStruct { data }),
            Err(e) => Err(e),
        },
    };
    assert(is_response_outcome(
        r,
        fill_intent_of(network_id, manifest, now, EXPIRE_AFTER_SECS, cur_epoch, nonce),
        private_key@,
    ));
    r
}

} // verus!
