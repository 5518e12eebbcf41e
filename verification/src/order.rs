use crate::amount::decimal_from_str;
use crate::amount::Amount;
use crate::amount::MAX_DECIMAL_TEXT;
use crate::error::FillError;
use vstd::prelude::*;

verus! {

/// An amount of one token.
#[derive(Debug, PartialEq, Eq)]
pub struct TokenAmount {
    pub symbol: String,
    pub amount: Amount,
}

/// A token amount as specifications see it: the symbol's characters and the
/// subunit count.
pub struct TokenAmountView {
    pub symbol: Seq<char>,
    pub amount: int,
}

impl View for TokenAmount {
    type V = TokenAmountView;

    open spec fn view(&self) -> TokenAmountView {
        TokenAmountView { symbol: self.symbol@, amount: self.amount@ }
    }
}

impl Clone for TokenAmount {
    fn clone(&self) -> (copy: TokenAmount)
        ensures
            copy == *self,
    {
        TokenAmount { symbol: self.symbol.clone(), amount: self.amount }
    }
}

/// What a requester wants to receive (`buy`) and to give up (`sell`).
#[derive(Debug, PartialEq, Eq)]
pub struct RequestedOrder {
    pub buy: TokenAmount,
    pub sell: TokenAmount,
}

/// A requested order as specifications see it.
pub struct RequestedOrderView {
    pub buy: TokenAmountView,
    pub sell: TokenAmountView,
}

impl View for RequestedOrder {
    type V = RequestedOrderView;

    open spec fn view(&self) -> RequestedOrderView {
        RequestedOrderView { buy: self.buy@, sell: self.sell@ }
    }
}

/// The inbound request: symbol and decimal-string amount for each side of the
/// order that the requester wants.
#[derive(Debug, PartialEq, Eq)]
pub struct InputStruct {
    pub buy_symbol: String,
    pub buy_amount: String,
    pub sell_symbol: String,
    pub sell_amount: String,
}

/// The order that a request stands for, given what the decimal parser made of
/// its two amounts: an order when both parsed, a parse failure otherwise.
pub open spec fn order_outcome(
    buy_symbol: Seq<char>,
    buy_amount: Option<int>,
    sell_symbol: Seq<char>,
    sell_amount: Option<int>,
) -> Result<RequestedOrderView, FillError> {
    match (buy_amount, sell_amount) {
        (Some(b), Some(s)) => Ok(
            RequestedOrderView {
                buy: TokenAmountView { symbol: buy_symbol, amount: b },
                sell: TokenAmountView { symbol: sell_symbol, amount: s },
            },
        ),
        _ => Err(FillError::Parse),
    }
}

/// The view of a parse result: the subunits on success, nothing on failure.
pub open spec fn parsed_subunits(parsed: Result<Amount, FillError>) -> Option<int> {
    match parsed {
        Ok(a) => Some(a@),
        Err(_) => None,
    }
}

/// The view of an order-or-error result.
pub open spec fn order_result_view(r: Result<RequestedOrder, FillError>) -> Result<
    RequestedOrderView,
    FillError,
> {
    match r {
        Ok(o) => Ok(o@),
        Err(e) => Err(e),
    }
}

/// Builds the requested order from two symbols and the outcomes of parsing
/// the two amounts. A failed parse on either side is a parse failure of the
/// whole request; no amount is ever defaulted.
pub fn order_from_parsed(
    buy_symbol: String,
    buy_amount: Result<Amount, FillError>,
    sell_symbol: String,
    sell_amount: Result<Amount, FillError>,
) -> (r: Result<RequestedOrder, FillError>)
    ensures
        order_result_view(r) == order_outcome(
            buy_symbol@,
            parsed_subunits(buy_amount),
            sell_symbol@,
            parsed_subunits(sell_amount),
        ),
{
    match (buy_amount, sell_amount) {
        (Ok(b), Ok(s)) => Ok(
            RequestedOrder {
                buy: TokenAmount { symbol: buy_symbol, amount: b },
                sell: TokenAmount { symbol: sell_symbol, amount: s },
            },
        ),
        _ => Err(FillError::Parse),
    }
}

/// Reads the requested order out of an inbound request.
///
/// The amounts are parsed by the ledger's decimal parser; the request is
/// accepted exactly when that parser accepts both amounts.
pub fn requested_order(input: &InputStruct) -> (r: Result<RequestedOrder, FillError>)
    requires
        input.buy_amount@.len() < MAX_DECIMAL_TEXT,
        input.sell_amount@.len() < MAX_DECIMAL_TEXT,
    ensures
        order_result_view(r) == order_outcome(
            input.buy_symbol@,
            decimal_from_str(input.buy_amount@),
            input.sell_symbol@,
            decimal_from_str(input.sell_amount@),
        ),
{
    let buy_amount = Amount::parse(input.buy_amount.as_str());
    let sell_amount = Amount::parse(input.sell_amount.as_str());
    order_from_parsed(input.buy_symbol.clone(), buy_amount, input.sell_symbol.clone(), sell_amount)
}

} // verus!
