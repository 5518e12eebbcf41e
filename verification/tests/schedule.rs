use fill_intent::amount::Amount;
use fill_intent::fees::FeeSchedule;
use fill_intent::order::TokenAmount;

#[test]
fn empty_schedule_has_no_fee() {
    let fees = FeeSchedule::new();
    assert_eq!(fees.settlement_fee(&"xUSDC".to_string()), None);
}

#[test]
fn schedule_returns_the_fee_that_was_set() {
    let mut fees = FeeSchedule::new();
    fees.set("xUSDC".to_string(), Amount::from_subunits(100_000_000_000_000_000));
    fees.set("xwBTC".to_string(), Amount::from_subunits(1_000_000_000_000));
    assert_eq!(
        fees.settlement_fee(&"xUSDC".to_string()),
        Some(Amount::from_subunits(100_000_000_000_000_000))
    );
    assert_eq!(
        fees.settlement_fee(&"xwBTC".to_string()),
        Some(Amount::from_subunits(1_000_000_000_000))
    );
    assert_eq!(fees.settlement_fee(&"xETH".to_string()), None);
    assert_eq!(fees.settlement_fee(&"xusdc".to_string()), None);
}

#[test]
fn setting_a_fee_again_replaces_it() {
    let mut fees = FeeSchedule::new();
    fees.set("xUSDC".to_string(), Amount::from_subunits(1));
    fees.set("xwBTC".to_string(), Amount::from_subunits(2));
    fees.set("xUSDC".to_string(), Amount::from_subunits(3));
    assert_eq!(fees.settlement_fee(&"xUSDC".to_string()), Some(Amount::from_subunits(3)));
    assert_eq!(fees.settlement_fee(&"xwBTC".to_string()), Some(Amount::from_subunits(2)));
}

#[test]
fn venue_fee_is_zero() {
    let fees = FeeSchedule::new();
    let sold = TokenAmount { symbol: "xUSDC".to_string(), amount: Amount::from_subunits(5) };
    assert_eq!(fees.venue_fee(&sold), Amount::zero());
}
