use chrono::Utc;
use radix_transactions::model::SubintentManifestV2;
use vstd::prelude::*;

verus! {

/// The number of epochs for which a fill intent stays valid: short enough to
/// bound the exposure to fee and price changes, long enough to survive
/// propagation delay.
pub const EPOCH_WINDOW: u64 = 2;

/// The latest second that the system clock can report, counted from the Unix
/// epoch: the last second of the year 262142.
pub const LATEST_CLOCK_SECONDS: i64 = 8_210_266_876_799;

/// The header of an intent: where and for how long it is valid, and the
/// nonce that tells it from an otherwise identical intent.
#[derive(Clone, Copy, Debug, PartialEq, Eq, Structural)]
pub struct IntentHeader {
    pub network_id: u8,
    pub start_epoch_inclusive: u64,
    pub end_epoch_exclusive: u64,
    pub min_proposer_timestamp_inclusive: Option<i64>,
    pub max_proposer_timestamp_exclusive: Option<i64>,
    pub intent_discriminator: u64,
}

/// The message attached to an intent. A fill intent carries none.
#[derive(Clone, Copy, Debug, PartialEq, Eq, Structural)]
pub enum IntentMessage {
    Empty,
}

/// An intent that is not signed yet: the header, the message and the
/// manifest's instructions.
pub struct UnsignedIntent {
    pub header: IntentHeader,
    pub message: IntentMessage,
    pub manifest: SubintentManifestV2,
}

/// The fill intent made of `manifest` at the second `now`, in epoch
/// `cur_epoch`, to expire after `expire_after_secs` seconds, under `nonce`:
/// its header is the one that [`is_fill_header`] describes, and it carries no
/// message.
pub open spec fn fill_intent_of(
    network_id: u8,
    manifest: SubintentManifestV2,
    now: i64,
    expire_after_secs: i64,
    cur_epoch: u64,
    nonce: u64,
) -> UnsignedIntent {
    UnsignedIntent {
        header: IntentHeader {
            network_id,
            start_epoch_inclusive: cur_epoch,
            end_epoch_exclusive: (cur_epoch + EPOCH_WINDOW) as u64,
            min_proposer_timestamp_inclusive: None,
            max_proposer_timestamp_exclusive: Some((now + expire_after_secs) as i64),
            intent_discriminator: nonce,
        },
        message: IntentMessage::Empty,
        manifest,
    }
}

/// The header of a fill intent made at the second `now`, in epoch
/// `cur_epoch`, to expire after `expire_after_secs` seconds.
///
/// The intent is valid from the current epoch for [`EPOCH_WINDOW`] epochs, has
/// no earliest timestamp, and expires at `now + expire_after_secs`.
pub open spec fn is_fill_header(
    header: IntentHeader,
    network_id: u8,
    now: int,
    expire_after_secs: int,
    cur_epoch: int,
    nonce: u64,
) -> bool {
    &&& header.network_id == network_id
    &&& header.start_epoch_inclusive == cur_epoch
    &&& header.end_epoch_exclusive == cur_epoch + EPOCH_WINDOW
    &&& header.min_proposer_timestamp_inclusive is None
    &&& header.max_proposer_timestamp_exclusive matches Some(expiry)
    &&& expiry == now + expire_after_secs
    &&& header.intent_discriminator == nonce
}

/// Calls `Utc::now().timestamp()` of chrono: the system clock in whole
/// seconds since the Unix epoch.
///
/// Trusted: the reading lies between the epoch and the last second that
/// chrono's `DateTime` can hold. (`Utc::now` panics on a clock set before
/// the epoch.) Two readings may differ.
#[verifier::external_body]
pub(crate) fn clock_seconds() -> (now: i64)
    ensures
        0 <= now <= LATEST_CLOCK_SECONDS,
{
    Utc::now().timestamp()
}

/// Wraps a manifest in the envelope of a fill intent made at the second
/// `now`. The expiry window is positive, so that the intent expires after it
/// was made.
pub fn fill_subintent_at(
    network_id: u8,
    manifest: SubintentManifestV2,
    now: i64,
    expire_after_secs: i64,
    cur_epoch: u64,
    nonce: u64,
) -> (intent: UnsignedIntent)
    requires
        cur_epoch + EPOCH_WINDOW <= u64::MAX,
        0 < expire_after_secs,
        now + expire_after_secs <= i64::MAX,
    ensures
        intent == fill_intent_of(network_id, manifest, now, expire_after_secs, cur_epoch, nonce),
        is_fill_header(
            intent.header,
            network_id,
            now as int,
            expire_after_secs as int,
            cur_epoch as int,
            nonce,
        ),
{
    UnsignedIntent {
        header: IntentHeader {
            network_id,
            start_epoch_inclusive: cur_epoch,
            end_epoch_exclusive: cur_epoch + EPOCH_WINDOW,
            min_proposer_timestamp_inclusive: None,
            max_proposer_timestamp_exclusive: Some(now + expire_after_secs),
            intent_discriminator: nonce,
        },
        message: IntentMessage::Empty,
        manifest,
    }
}

/// Wraps a manifest in the envelope of a fill intent made now.
///
/// The intent is that of [`fill_subintent_at`] for the second that the
/// system clock reports during the call.
pub fn create_fill_subintent(
    network_id: u8,
    manifest: SubintentManifestV2,
    expire_after_secs: i64,
    cur_epoch: u64,
    nonce: u64,
) -> (intent: UnsignedIntent)
    requires
        cur_epoch + EPOCH_WINDOW <= u64::MAX,
        0 < expire_after_secs <= i64::MAX - LATEST_CLOCK_SECONDS,
    ensures
        exists|now: i64|
            0 <= now <= LATEST_CLOCK_SECONDS && intent == #[trigger] fill_intent_of(
                network_id,
                manifest,
                now,
                expire_after_secs,
                cur_epoch,
                nonce,
            ),
{
    let now = clock_seconds();
    fill_subintent_at(network_id, manifest, now, expire_after_secs, cur_epoch, nonce)
}

/// The intent that [`fill_intent_of`] gives has the header of a fill intent,
/// wherever the end of its epoch window and its expiry can be held.
pub proof fn lemma_fill_intent_header(
    network_id: u8,
    manifest: SubintentManifestV2,
    now: i64,
    expire_after_secs: i64,
    cur_epoch: u64,
    nonce: u64,
)
    requires
        cur_epoch + EPOCH_WINDOW <= u64::MAX,
        i64::MIN <= now + expire_after_secs <= i64::MAX,
    ensures
        is_fill_header(
            fill_intent_of(network_id, manifest, now, expire_after_secs, cur_epoch, nonce).header,
            network_id,
            now as int,
            expire_after_secs as int,
            cur_epoch as int,
            nonce,
        ),
        fill_intent_of(network_id, manifest, now, expire_after_secs, cur_epoch, nonce).manifest
            == manifest,
{
}

/// Fill intents made under different nonces differ, whatever else they
/// share: each carries its own nonce as its discriminator.
pub proof fn lemma_nonce_tells_intents_apart(
    network_id: u8,
    manifest: SubintentManifestV2,
    now: i64,
    expire_after_secs: i64,
    cur_epoch: u64,
    first: u64,
    second: u64,
)
    requires
        first != second,
    ensures
        fill_intent_of(
            network_id,
            manifest,
            now,
            expire_after_secs,
            cur_epoch,
            first,
        ).header.intent_discriminator == first,
        fill_intent_of(
            network_id,
            manifest,
            now,
            expire_after_secs,
            cur_epoch,
            second,
        ).header.intent_discriminator == second,
        fill_intent_of(network_id, manifest, now, expire_after_secs, cur_epoch, first)
            != fill_intent_of(network_id, manifest, now, expire_after_secs, cur_epoch, second),
{
}

/// The validity window of every fill intent: it ends exactly
/// [`EPOCH_WINDOW`] epochs after it starts, so after it starts; and it
/// expires exactly `expire_after_secs` seconds after it was made, so after it
/// was made wherever the expiry window is positive.
pub proof fn lemma_validity_window(
    header: IntentHeader,
    network_id: u8,
    now: int,
    expire_after_secs: int,
    cur_epoch: int,
    nonce: u64,
)
    requires
        is_fill_header(header, network_id, now, expire_after_secs, cur_epoch, nonce),
    ensures
        header.end_epoch_exclusive == header.start_epoch_inclusive + 2,
        header.end_epoch_exclusive > header.start_epoch_inclusive,
        header.max_proposer_timestamp_exclusive is Some,
        header.max_proposer_timestamp_exclusive->Some_0 - now == expire_after_secs,
        expire_after_secs > 0 ==> header.max_proposer_timestamp_exclusive->Some_0 > now,
{
}

} // verus!
