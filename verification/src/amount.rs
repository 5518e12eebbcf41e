use crate::error::FillError;
use radix_common::math::CheckedAdd;
use radix_common::math::Decimal;
use radix_common::math::ParseDecimalError;
use radix_common::math::I192;
use std::str::FromStr;
use vstd::prelude::*;

verus! {

/// Two to the power 64: the weight of the middle limb.
pub open spec fn limb_base() -> int {
    0x1_0000_0000_0000_0000int
}

/// Two to the power 191: one more than the largest subunit count.
pub open spec fn subunit_bound() -> int {
    0x8000_0000_0000_0000_0000_0000_0000_0000_0000_0000_0000_0000int
}

/// Whether `v` subunits can be held in 192 bits, two's complement.
pub open spec fn in_amount_range(v: int) -> bool {
    -subunit_bound() <= v < subunit_bound()
}

/// The signed integer that three little-endian 64-bit limbs stand for in
/// two's complement.
pub open spec fn limbs_value(lo: u64, mid: u64, hi: u64) -> int {
    let unsigned = lo as int + mid as int * limb_base() + hi as int * limb_base() * limb_base();
    if hi >= 0x8000_0000_0000_0000u64 {
        unsigned - 2 * subunit_bound()
    } else {
        unsigned
    }
}

/// A fixed-point decimal amount with 18 fractional digits.
///
/// The amount is a count of subunits of 10^-18, held as the ledger holds it:
/// 192 bits in two's complement, least significant limb first. Its view is
/// that count as a mathematical integer.
#[derive(Clone, Copy, Debug, PartialEq, Eq, Structural)]
pub struct Amount {
    pub lo: u64,
    pub mid: u64,
    pub hi: u64,
}

impl View for Amount {
    type V = int;

    open spec fn view(&self) -> int {
        limbs_value(self.lo, self.mid, self.hi)
    }
}

/// The length, in characters, below which the ledger's decimal parser takes
/// any text: it counts the fractional digits in 32 bits.
pub const MAX_DECIMAL_TEXT: u64 = 0x1_0000_0000;

/// The ledger's error for a string that is not a decimal number.
#[verifier::external_type_specification]
#[verifier::external_body]
pub struct ExParseDecimalError(ParseDecimalError);

/// The subunit count that the ledger's decimal parser reads from `text`, or
/// `None` where it rejects the text.
pub uninterp spec fn decimal_from_str(text: Seq<char>) -> Option<int>;

/// Calls `Decimal::from_str` of radix-common and hands the parsed value out
/// limb by limb.
///
/// Trusted: the result is a function of the text alone, named
/// [`decimal_from_str`]; an `Ok` carries exactly the subunits parsed, an `Err`
/// means the parser rejected the text. Longer texts are left out: on a
/// fractional part of 2^32 digits or more the parser's count of them wraps,
/// and it can panic.
#[verifier::external_body]
fn decimal_parse(text: &str) -> (r: Result<Amount, ParseDecimalError>)
    requires
        text@.len() < MAX_DECIMAL_TEXT,
    ensures
        r matches Ok(a) ==> decimal_from_str(text@) == Some(a@),
        r is Err ==> decimal_from_str(text@) is None,
{
    Decimal::from_str(text).map(|d| {
        let limbs = d.attos().to_digits();
        Amount { lo: limbs[0], mid: limbs[1], hi: limbs[2] }
    })
}

/// Calls `Decimal::checked_add` of radix-common on two amounts.
///
/// Trusted: the sum is returned exactly when it fits in 192 signed bits, and
/// `None` otherwise.
#[verifier::external_body]
fn decimal_checked_add(a: Amount, b: Amount) -> (r: Option<Amount>)
    ensures
        r is Some <==> in_amount_range(a@ + b@),
        r matches Some(s) ==> s@ == a@ + b@,
{
    let x = Decimal::from_attos(I192::from_digits([a.lo, a.mid, a.hi]));
    let y = Decimal::from_attos(I192::from_digits([b.lo, b.mid, b.hi]));
    x.checked_add(y).map(|s| {
        let limbs = s.attos().to_digits();
        Amount { lo: limbs[0], mid: limbs[1], hi: limbs[2] }
    })
}

impl Amount {
    /// The amount zero.
    pub fn zero() -> (z: Amount)
        ensures
            z@ == 0,
    {
        Amount { lo: 0, mid: 0, hi: 0 }
    }

    /// The amount of `subunits` counts of 10^-18.
    pub fn from_subunits(subunits: i128) -> (a: Amount)
        ensures
            a@ == subunits,
    {
        if subunits >= 0 {
            let bits: u128 = subunits as u128;
            Amount {
                lo: (bits % 0x1_0000_0000_0000_0000) as u64,
                mid: (bits / 0x1_0000_0000_0000_0000) as u64,
                hi: 0,
            }
        } else {
            // `subunits + 2^128`, the low 128 bits of the two's complement form.
            let shifted: u128 = (subunits + i128::MAX + 1) as u128;
            let bits: u128 = shifted + 0x8000_0000_0000_0000_0000_0000_0000_0000;
            Amount {
                lo: (bits % 0x1_0000_0000_0000_0000) as u64,
                mid: (bits / 0x1_0000_0000_0000_0000) as u64,
                hi: 0xffff_ffff_ffff_ffff,
            }
        }
    }

    /// Parses a decimal string such as `"95.85"`.
    ///
    /// The grammar is the ledger's: the string is accepted exactly when the
    /// ledger's decimal parser accepts it. The text has fewer than
    /// [`MAX_DECIMAL_TEXT`] characters.
    pub fn parse(text: &str) -> (r: Result<Amount, FillError>)
        requires
            text@.len() < MAX_DECIMAL_TEXT,
        ensures
            match decimal_from_str(text@) {
                Some(v) => r matches Ok(a) && a@ == v,
                None => r == Err::<Amount, FillError>(FillError::Parse),
            },
    {
        match decimal_parse(text) {
            Ok(a) => Ok(a),
            Err(_) => Err(FillError::Parse),
        }
    }

    /// The sum of two amounts, or `None` where it does not fit.
    pub fn checked_add(self, other: Amount) -> (r: Option<Amount>)
        ensures
            r is Some <==> in_amount_range(self@ + other@),
            r matches Some(s) ==> s@ == self@ + other@,
    {
        decimal_checked_add(self, other)
    }
}

/// Every amount holds a subunit count within the 192-bit signed range.
pub proof fn lemma_amount_in_range(a: Amount)
    ensures
        in_amount_range(a@),
{
}

/// An amount is determined by its subunit count: no two amounts stand for
/// the same number.
pub proof fn lemma_amount_determined_by_subunits(a: Amount, b: Amount)
    requires
        a@ == b@,
    ensures
        a == b,
{
}

} // verus!
