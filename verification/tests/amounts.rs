use fill_intent::amount::Amount;
use fill_intent::error::FillError;

#[test]
fn parses_a_decimal_into_subunits() {
    let parsed = Amount::parse("95.85").unwrap();
    assert_eq!(parsed, Amount::from_subunits(95_850_000_000_000_000_000));
    assert_eq!(parsed, Amount { lo: 3616279631452241920, mid: 5, hi: 0 });
}

#[test]
fn parses_a_small_fraction() {
    let parsed = Amount::parse("0.001").unwrap();
    assert_eq!(parsed, Amount::from_subunits(1_000_000_000_000_000));
    assert_eq!(parsed, Amount { lo: 1_000_000_000_000_000, mid: 0, hi: 0 });
}

#[test]
fn parses_a_negative_decimal() {
    let parsed = Amount::parse("-0.5").unwrap();
    assert_eq!(parsed, Amount::from_subunits(-500_000_000_000_000_000));
    assert_eq!(parsed.hi, u64::MAX);
    assert_eq!(parsed.mid, u64::MAX);
    assert_eq!(parsed.lo, 0u64.wrapping_sub(500_000_000_000_000_000));
}

#[test]
fn rejects_malformed_decimals() {
    assert_eq!(Amount::parse("abc"), Err(FillError::Parse));
    assert_eq!(Amount::parse(""), Err(FillError::Parse));
    assert_eq!(Amount::parse("1.2.3"), Err(FillError::Parse));
    assert_eq!(Amount::parse(".5"), Err(FillError::Parse));
    assert_eq!(Amount::parse("1."), Err(FillError::Parse));
    assert_eq!(Amount::parse("0.1234567890123456789"), Err(FillError::Parse));
}

#[test]
fn zero_is_zero_subunits() {
    assert_eq!(Amount::zero(), Amount::from_subunits(0));
    assert_eq!(Amount::zero(), Amount::parse("0").unwrap());
}

#[test]
fn from_subunits_covers_the_signed_range() {
    assert_eq!(Amount::from_subunits(-1), Amount { lo: u64::MAX, mid: u64::MAX, hi: u64::MAX });
    assert_eq!(Amount::from_subunits(i128::MAX), Amount { lo: u64::MAX, mid: u64::MAX >> 1, hi: 0 });
    assert_eq!(Amount::from_subunits(i128::MIN), Amount { lo: 0, mid: 1 << 63, hi: u64::MAX });
    assert_eq!(Amount::from_subunits(1 << 64), Amount { lo: 0, mid: 1, hi: 0 });
}

#[test]
fn adds_exactly() {
    let sold = Amount::parse("95.85").unwrap();
    let fee = Amount::parse("0.10").unwrap();
    assert_eq!(sold.checked_add(fee), Some(Amount::parse("95.95").unwrap()));
    assert_eq!(sold.checked_add(Amount::zero()), Some(sold));
    let minus_one = Amount::from_subunits(-1);
    assert_eq!(Amount::from_subunits(1).checked_add(minus_one), Some(Amount::zero()));
}

#[test]
fn addition_carries_between_limbs() {
    let a = Amount { lo: u64::MAX, mid: u64::MAX, hi: 0 };
    let one = Amount::from_subunits(1);
    assert_eq!(a.checked_add(one), Some(Amount { lo: 0, mid: 0, hi: 1 }));
}

#[test]
fn addition_refuses_overflow() {
    let largest = Amount { lo: u64::MAX, mid: u64::MAX, hi: u64::MAX >> 1 };
    let smallest = Amount { lo: 0, mid: 0, hi: 1 << 63 };
    assert_eq!(largest.checked_add(Amount::from_subunits(1)), None);
    assert_eq!(smallest.checked_add(Amount::from_subunits(-1)), None);
    assert_eq!(largest.checked_add(smallest), Some(Amount::from_subunits(-1)));
}
