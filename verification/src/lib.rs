//! Construction of signed, time-bounded fill subintents.
//!
//! A fill takes the opposite side of a counterparty's resting order. The
//! pipeline runs in one direction: a requested order becomes a manifest of
//! ledger operations, the manifest's instructions are wrapped in an intent
//! envelope, the envelope's content hash is signed, and the signed
//! transaction is serialised to lowercase hexadecimal.
pub mod amount;
pub mod error;
pub mod fees;
pub mod hex;
pub mod intent;
pub mod ledger;
pub mod manifest;
pub mod order;
pub mod pipeline;
pub mod signing;
pub mod transaction;

pub use amount::Amount;
pub use error::FillError;
pub use fees::FeeSchedule;
pub use intent::create_fill_subintent;
pub use intent::fill_subintent_at;
pub use intent::IntentHeader;
pub use intent::IntentMessage;
pub use intent::UnsignedIntent;
pub use manifest::create_fill_manifest;
pub use manifest::Account;
pub use manifest::Manifest;
pub use manifest::ManifestBuilder;
pub use manifest::Operation;
pub use order::InputStruct;
pub use order::RequestedOrder;
pub use order::TokenAmount;
pub use pipeline::execute;
pub use pipeline::plan_fill;
pub use pipeline::seal_fill;
pub use pipeline::seal_fill_at;
pub use pipeline::ReturnStruct;
pub use signing::content_hash;
pub use signing::sign_content_hash;
pub use signing::sign_subintent;
pub use signing::ContentHash;
pub use signing::Signature;
pub use signing::SigningKey;
pub use transaction::create_signed_partial_transaction;
pub use transaction::SignedTransaction;
