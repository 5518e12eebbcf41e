use fill_intent::amount::Amount;
use fill_intent::error::FillError;
use fill_intent::fees::FeeSchedule;
use fill_intent::manifest::Account;
use fill_intent::manifest::Operation;
use fill_intent::order::requested_order;
use fill_intent::order::order_from_parsed;
use fill_intent::order::InputStruct;
use fill_intent::order::RequestedOrder;
use fill_intent::order::TokenAmount;
use fill_intent::pipeline::execute;
use fill_intent::pipeline::plan_fill;
use fill_intent::pipeline::seal_fill;
use fill_intent::pipeline::seal_fill_at;
use fill_intent::pipeline::EXPIRE_AFTER_SECS;
use fill_intent::signing::SigningKey;
use radix_common::crypto::verify_secp256k1;
use radix_common::crypto::Secp256k1PrivateKey;
use radix_transactions::manifest::YieldToParent;
use radix_transactions::model::HasSubintentHash;
use radix_transactions::model::InstructionV2;
use radix_transactions::model::PreparationSettings;
use radix_transactions::model::RawSignedPartialTransaction;
use radix_transactions::model::SignatureWithPublicKeyV1;
use radix_transactions::model::SignedPartialTransactionV2;
use radix_transactions::model::SubintentManifestV2;
use radix_transactions::model::TransactionPayload;
use std::time::SystemTime;
use std::time::UNIX_EPOCH;

fn input(buy_symbol: &str, buy_amount: &str, sell_symbol: &str, sell_amount: &str) -> InputStruct {
    InputStruct {
        buy_symbol: buy_symbol.to_string(),
        buy_amount: buy_amount.to_string(),
        sell_symbol: sell_symbol.to_string(),
        sell_amount: sell_amount.to_string(),
    }
}

fn token(symbol: &str, text: &str) -> TokenAmount {
    TokenAmount { symbol: symbol.to_string(), amount: Amount::parse(text).unwrap() }
}

fn schedule() -> FeeSchedule {
    let mut fees = FeeSchedule::new();
    fees.set("xUSDC".to_string(), Amount::parse("0.10").unwrap());
    fees.set("xwBTC".to_string(), Amount::parse("0.000001").unwrap());
    fees
}

fn account() -> Account {
    Account { address: "account_tdx_2_filler".to_string(), funding_credential: Some("#7#".to_string()) }
}

fn signing_key() -> SigningKey {
    let ledger_key = Secp256k1PrivateKey::from_u64(7).unwrap();
    SigningKey::from_bytes(ledger_key.to_bytes().try_into().unwrap()).unwrap()
}

fn public_key() -> radix_common::crypto::Secp256k1PublicKey {
    Secp256k1PrivateKey::from_u64(7).unwrap().public_key()
}

fn yielding_manifest() -> SubintentManifestV2 {
    SubintentManifestV2 {
        instructions: vec![InstructionV2::YieldToParent(YieldToParent::empty())],
        ..Default::default()
    }
}

fn decode(hex: &str) -> SignedPartialTransactionV2 {
    let raw = RawSignedPartialTransaction::from_hex(hex).unwrap();
    SignedPartialTransactionV2::from_raw(&raw).unwrap()
}

#[test]
fn request_becomes_the_order_it_names() {
    let order = requested_order(&input("xwBTC", "0.001", "xUSDC", "95.85")).unwrap();
    assert_eq!(
        order,
        RequestedOrder { buy: token("xwBTC", "0.001"), sell: token("xUSDC", "95.85") }
    );
}

#[test]
fn malformed_amount_is_a_parse_error() {
    assert_eq!(requested_order(&input("xwBTC", "one", "xUSDC", "95.85")), Err(FillError::Parse));
    assert_eq!(requested_order(&input("xwBTC", "0.001", "xUSDC", "")), Err(FillError::Parse));
    assert_eq!(requested_order(&input("xwBTC", "1,5", "xUSDC", "9 5")), Err(FillError::Parse));
}

#[test]
fn order_needs_both_amounts() {
    let one = Amount::from_subunits(1);
    let built = order_from_parsed("a".to_string(), Ok(one), "b".to_string(), Ok(Amount::zero()));
    assert_eq!(
        built,
        Ok(RequestedOrder {
            buy: TokenAmount { symbol: "a".to_string(), amount: one },
            sell: TokenAmount { symbol: "b".to_string(), amount: Amount::zero() },
        })
    );
    assert_eq!(
        order_from_parsed("a".to_string(), Err(FillError::Parse), "b".to_string(), Ok(one)),
        Err(FillError::Parse)
    );
    assert_eq!(
        order_from_parsed("a".to_string(), Ok(one), "b".to_string(), Err(FillError::Parse)),
        Err(FillError::Parse)
    );
}

#[test]
fn plan_for_a_request_without_funding_is_the_inverse_fill() {
    let request = input("xwBTC", "0.001", "xUSDC", "95.85");
    let manifest = plan_fill(&request, &schedule(), &account(), false).unwrap().unwrap();
    assert_eq!(manifest.len(), 1);
    assert_eq!(
        manifest.operation(0),
        &Operation::Fill {
            account: "account_tdx_2_filler".to_string(),
            sell: token("xwBTC", "0.001"),
            buy: token("xUSDC", "95.85"),
            settlement_fee: Amount::parse("0.000001").unwrap(),
            venue_fee: Amount::zero(),
        }
    );
}

#[test]
fn plan_with_funding_funds_sale_and_fees() {
    let request = input("xUSDC", "95.85", "xwBTC", "0.001");
    let manifest = plan_fill(&request, &schedule(), &account(), true).unwrap().unwrap();
    assert_eq!(manifest.len(), 2);
    assert_eq!(
        manifest.operation(0),
        &Operation::Funding {
            account: "account_tdx_2_filler".to_string(),
            credential: "#7#".to_string(),
            amount: token("xUSDC", "95.95"),
        }
    );
}

#[test]
fn plan_reports_each_failure() {
    let fees = schedule();
    let bad = input("xUSDC", "95,85", "xwBTC", "0.001");
    assert_eq!(plan_fill(&bad, &fees, &account(), true), Some(Err(FillError::Parse)));
    let unknown = input("xETH", "1", "xwBTC", "0.001");
    assert_eq!(plan_fill(&unknown, &fees, &account(), true), Some(Err(FillError::Configuration)));
    let bare = Account { address: "a".to_string(), funding_credential: None };
    let request = input("xUSDC", "95.85", "xwBTC", "0.001");
    assert_eq!(plan_fill(&request, &fees, &bare, true), Some(Err(FillError::MissingCredential)));
}

#[test]
fn plan_is_withheld_where_the_funding_amount_does_not_fit() {
    let largest = "3138550867693340381917894711603833208051.177722232017256447";
    let request = input("xUSDC", largest, "xwBTC", "0.001");
    assert_eq!(plan_fill(&request, &schedule(), &account(), true), None);
    let unfunded = plan_fill(&request, &schedule(), &account(), false).unwrap().unwrap();
    assert_eq!(unfunded.len(), 1);
    let bare = Account { address: "a".to_string(), funding_credential: None };
    assert_eq!(
        plan_fill(&request, &schedule(), &bare, true),
        Some(Err(FillError::MissingCredential))
    );
}

#[test]
fn execute_returns_a_signed_transaction_in_hex() {
    let key = signing_key();
    let before = SystemTime::now().duration_since(UNIX_EPOCH).unwrap().as_secs() as i64;
    let response = execute(2, yielding_manifest(), 100, &key).unwrap();
    let after = SystemTime::now().duration_since(UNIX_EPOCH).unwrap().as_secs() as i64;
    assert!(response.data.chars().all(|c| c.is_ascii_digit() || ('a'..='f').contains(&c)));

    let decoded = decode(&response.data);
    let subintent = &decoded.partial_transaction.root_subintent;
    let header = &subintent.intent_core.header;
    assert_eq!(header.network_id, 2);
    assert_eq!(header.start_epoch_inclusive.number(), 100);
    assert_eq!(header.end_epoch_exclusive.number(), 102);
    assert_eq!(header.min_proposer_timestamp_inclusive, None);
    let expiry = header.max_proposer_timestamp_exclusive.unwrap().seconds_since_unix_epoch;
    assert_eq!(EXPIRE_AFTER_SECS, 15);
    assert!(before + 15 <= expiry && expiry <= after + 15);
    assert_eq!(subintent.intent_core.instructions.0, yielding_manifest().instructions);

    assert_eq!(decoded.root_subintent_signatures.signatures.len(), 1);
    assert!(decoded.partial_transaction.non_root_subintents.0.is_empty());
    assert!(decoded.non_root_subintent_signatures.by_subintent.is_empty());
    let hash = subintent.prepare(PreparationSettings::latest_ref()).unwrap().subintent_hash();
    let signature = match decoded.root_subintent_signatures.signatures[0].0 {
        SignatureWithPublicKeyV1::Secp256k1 { signature } => signature,
        other => panic!("expected a secp256k1 signature, got {:?}", other),
    };
    assert!(verify_secp256k1(
        &radix_common::crypto::Hash::from(hash),
        &public_key(),
        &signature
    ));
}

#[test]
fn two_fills_in_succession_differ_in_nonce_and_hash() {
    let key = signing_key();
    let first = decode(&execute(2, yielding_manifest(), 100, &key).unwrap().data);
    let second = decode(&execute(2, yielding_manifest(), 100, &key).unwrap().data);
    let first_root = &first.partial_transaction.root_subintent;
    let second_root = &second.partial_transaction.root_subintent;
    assert_ne!(
        first_root.intent_core.header.intent_discriminator,
        second_root.intent_core.header.intent_discriminator
    );
    let first_hash = first_root.prepare(PreparationSettings::latest_ref()).unwrap().subintent_hash();
    let second_hash =
        second_root.prepare(PreparationSettings::latest_ref()).unwrap().subintent_hash();
    assert_ne!(first_hash, second_hash);
}

#[test]
fn execute_refuses_an_oversized_manifest() {
    let key = signing_key();
    let mut manifest = yielding_manifest();
    for i in 0..65u8 {
        let content = vec![i];
        manifest.blobs.insert(radix_common::crypto::hash(&content), content);
    }
    assert_eq!(execute(2, manifest, 100, &key), Err(FillError::Serialization));
}

#[test]
fn sealed_fill_is_one_signed_intent_in_its_window() {
    let key = signing_key();
    let before = SystemTime::now().duration_since(UNIX_EPOCH).unwrap().as_secs() as i64;
    let signed = seal_fill(2, yielding_manifest(), u64::MAX - 2, &key).unwrap();
    let after = SystemTime::now().duration_since(UNIX_EPOCH).unwrap().as_secs() as i64;
    assert_eq!(signed.root_signature_count(), 1);
    assert_eq!(signed.non_root_subintent_count(), 0);
    assert_eq!(signed.non_root_signature_count(), 0);
    let intent = signed.root_intent();
    assert_eq!(intent.manifest, yielding_manifest());
    assert_eq!(intent.header.network_id, 2);
    assert_eq!(intent.header.start_epoch_inclusive, u64::MAX - 2);
    assert_eq!(intent.header.end_epoch_exclusive, u64::MAX);
    assert_eq!(intent.header.min_proposer_timestamp_inclusive, None);
    let expiry = intent.header.max_proposer_timestamp_exclusive.unwrap();
    assert!(before + 15 <= expiry && expiry <= after + 15);
    assert_eq!(fill_intent::signing::sign_subintent(intent, &key), Ok(signed.root_signature()));
}

#[test]
fn sealing_at_a_given_second_and_nonce_fixes_the_intent() {
    let key = signing_key();
    let signed = seal_fill_at(2, yielding_manifest(), 1_700_000_000, 42, 100, &key).unwrap();
    let intent = signed.root_intent();
    assert_eq!(intent.header.network_id, 2);
    assert_eq!(intent.header.start_epoch_inclusive, 100);
    assert_eq!(intent.header.end_epoch_exclusive, 102);
    assert_eq!(intent.header.min_proposer_timestamp_inclusive, None);
    assert_eq!(intent.header.max_proposer_timestamp_exclusive, Some(1_700_000_015));
    assert_eq!(intent.header.intent_discriminator, 42);
    assert_eq!(intent.manifest, yielding_manifest());
    assert_eq!(signed.root_signature_count(), 1);
    assert_eq!(signed.non_root_subintent_count(), 0);
    assert_eq!(signed.non_root_signature_count(), 0);

    let hash = fill_intent::signing::content_hash(intent).unwrap();
    let expected = Secp256k1PrivateKey::from_u64(7)
        .unwrap()
        .sign(&radix_common::crypto::Hash(hash.bytes()));
    assert_eq!(
        signed.root_signature(),
        fill_intent::signing::Signature::Secp256k1 { signature: expected.0 }
    );

    let decoded = decode(&signed.to_hex().unwrap());
    let root = &decoded.partial_transaction.root_subintent;
    assert_eq!(root.intent_core.header.intent_discriminator, 42);
    let ledger_hash = root.prepare(PreparationSettings::latest_ref()).unwrap().subintent_hash();
    assert_eq!(radix_common::crypto::Hash::from(ledger_hash).0, hash.bytes());
}

#[test]
fn sealing_is_a_function_of_second_nonce_and_key() {
    let key = signing_key();
    let first = seal_fill_at(2, yielding_manifest(), 1_700_000_000, 42, 100, &key).unwrap();
    let again = seal_fill_at(2, yielding_manifest(), 1_700_000_000, 42, 100, &key).unwrap();
    assert_eq!(first.to_hex().unwrap(), again.to_hex().unwrap());
    assert!(!first.to_hex().unwrap().is_empty());
}

#[test]
fn fills_under_different_nonces_carry_their_own_nonce() {
    let key = signing_key();
    let first = seal_fill_at(2, yielding_manifest(), 1_700_000_000, 1, 100, &key).unwrap();
    let second = seal_fill_at(2, yielding_manifest(), 1_700_000_000, 2, 100, &key).unwrap();
    assert_eq!(first.root_intent().header.intent_discriminator, 1);
    assert_eq!(second.root_intent().header.intent_discriminator, 2);
    let first_hash = fill_intent::signing::content_hash(first.root_intent()).unwrap();
    let second_hash = fill_intent::signing::content_hash(second.root_intent()).unwrap();
    assert_ne!(first_hash, second_hash);
    assert_ne!(first.root_signature(), second.root_signature());
    assert_ne!(first.to_hex().unwrap(), second.to_hex().unwrap());
}

#[test]
fn sealing_an_oversized_manifest_fails_and_returns_no_transaction() {
    let key = signing_key();
    let mut manifest = yielding_manifest();
    for i in 0..65u8 {
        let content = vec![i];
        manifest.blobs.insert(radix_common::crypto::hash(&content), content);
    }
    let sealed = seal_fill_at(2, manifest, 1_700_000_000, 42, 100, &key);
    assert!(matches!(sealed, Err(FillError::Serialization)));
}
