use crate::amount::in_amount_range;
use crate::amount::Amount;
use crate::error::FillError;
use crate::fees::venue_fee_of;
use crate::fees::FeeSchedule;
use crate::order::RequestedOrder;
use crate::order::RequestedOrderView;
use crate::order::TokenAmount;
use crate::order::TokenAmountView;
use vstd::prelude::*;

verus! {

/// The filler's account: its ledger address and, if it holds one, the
/// identifier of its funding credential.
#[derive(Debug, PartialEq, Eq)]
pub struct Account {
    pub address: String,
    pub funding_credential: Option<String>,
}

/// An account as specifications see it.
pub struct AccountView {
    pub address: Seq<char>,
    pub funding_credential: Option<Seq<char>>,
}

impl View for Account {
    type V = AccountView;

    open spec fn view(&self) -> AccountView {
        AccountView {
            address: self.address@,
            funding_credential: match self.funding_credential {
                Some(id) => Some(id@),
                None => None,
            },
        }
    }
}

/// One ledger operation of a fill manifest.
#[derive(Debug, PartialEq, Eq)]
pub enum Operation {
    /// Creates `amount` in the account, on the strength of `credential`,
    /// immediately before the trade that spends it.
    Funding { account: String, credential: String, amount: TokenAmount },
    /// Places the fill: the account sells `sell` and buys `buy`, paying the
    /// settlement fee and the venue fee in the sold token.
    Fill {
        account: String,
        sell: TokenAmount,
        buy: TokenAmount,
        settlement_fee: Amount,
        venue_fee: Amount,
    },
}

/// An operation as specifications see it.
pub enum OperationView {
    Funding { account: Seq<char>, credential: Seq<char>, amount: TokenAmountView },
    Fill {
        account: Seq<char>,
        sell: TokenAmountView,
        buy: TokenAmountView,
        settlement_fee: int,
        venue_fee: int,
    },
}

impl View for Operation {
    type V = OperationView;

    open spec fn view(&self) -> OperationView {
        match self {
            Operation::Funding { account, credential, amount } => OperationView::Funding {
                account: account@,
                credential: credential@,
                amount: amount@,
            },
            Operation::Fill {
                account,
                sell,
                buy,
                settlement_fee,
                venue_fee,
            } => OperationView::Fill {
                account: account@,
                sell: sell@,
                buy: buy@,
                settlement_fee: settlement_fee@,
                venue_fee: venue_fee@,
            },
        }
    }
}

/// The views of a sequence of operations, in order.
pub open spec fn operation_views(operations: Seq<Operation>) -> Seq<OperationView> {
    Seq::new(operations.len(), |i: int| operations[i]@)
}

/// An ordered list of ledger operations. Order matters: a funding operation
/// stands before the operation that spends what it funds.
#[derive(Debug, PartialEq, Eq)]
pub struct Manifest {
    operations: Vec<Operation>,
}

impl View for Manifest {
    type V = Seq<OperationView>;

    closed spec fn view(&self) -> Seq<OperationView> {
        operation_views(self.operations@)
    }
}

impl Manifest {
    /// The number of operations.
    pub fn len(&self) -> (n: usize)
        ensures
            n == self@.len(),
    {
        self.operations.len()
    }

    /// The operation at position `i`.
    pub fn operation(&self, i: usize) -> (op: &Operation)
        requires
            i < self@.len(),
        ensures
            op@ == self@[i as int],
    {
        &self.operations[i]
    }
}

/// Accumulates the operations of a manifest in the order they are added.
#[derive(Debug)]
pub struct ManifestBuilder {
    operations: Vec<Operation>,
}

impl View for ManifestBuilder {
    type V = Seq<OperationView>;

    closed spec fn view(&self) -> Seq<OperationView> {
        operation_views(self.operations@)
    }
}

impl ManifestBuilder {
    /// A builder that holds no operation yet.
    pub fn new() -> (builder: ManifestBuilder)
        ensures
            builder@ == Seq::<OperationView>::empty(),
    {
        let builder = ManifestBuilder { operations: Vec::new() };
        assert(builder@ =~= Seq::<OperationView>::empty());
        builder
    }

    fn append(self, operation: Operation) -> (builder: ManifestBuilder)
        ensures
            builder@ == self@.push(operation@),
    {
        let mut operations = self.operations;
        operations.push(operation);
        let builder = ManifestBuilder { operations };
        assert(builder@ =~= self@.push(operation@));
        builder
    }

    /// Appends a funding operation that creates `amount` in `account`.
    pub fn fund_account(self, account: String, credential: String, amount: TokenAmount) -> (builder:
        ManifestBuilder)
        ensures
            builder@ == self@.push(
                OperationView::Funding {
                    account: account@,
                    credential: credential@,
                    amount: amount@,
                },
            ),
    {
        self.append(Operation::Funding { account, credential, amount })
    }

    /// Appends the fill operation.
    pub fn add_limit_order(
        self,
        account: String,
        sell: TokenAmount,
        buy: TokenAmount,
        settlement_fee: Amount,
        venue_fee: Amount,
    ) -> (builder: ManifestBuilder)
        ensures
            builder@ == self@.push(
                OperationView::Fill {
                    account: account@,
                    sell: sell@,
                    buy: buy@,
                    settlement_fee: settlement_fee@,
                    venue_fee: venue_fee@,
                },
            ),
    {
        self.append(Operation::Fill { account, sell, buy, settlement_fee, venue_fee })
    }

    /// Consumes the builder into the manifest of what was added.
    pub fn build(self) -> (manifest: Manifest)
        ensures
            manifest@ == self@,
    {
        Manifest { operations: self.operations }
    }
}

/// The amount that funds a fill which sells `sold`: the amount sold, the
/// settlement fee and the venue fee together.
pub open spec fn funding_amount(sold: TokenAmountView, settlement_fee: int) -> int {
    sold.amount + settlement_fee + venue_fee_of(sold)
}

/// The fill operation that answers `order` for `account`: it sells what the
/// requester buys and buys what the requester sells.
pub open spec fn fill_operation(account: AccountView, order: RequestedOrderView, settlement_fee: int)
    -> OperationView {
    OperationView::Fill {
        account: account.address,
        sell: order.buy,
        buy: order.sell,
        settlement_fee,
        venue_fee: venue_fee_of(order.buy),
    }
}

/// The funding operation that precedes the fill of `order`, on the strength
/// of `credential`.
pub open spec fn funding_operation(
    account: AccountView,
    credential: Seq<char>,
    order: RequestedOrderView,
    settlement_fee: int,
) -> OperationView {
    OperationView::Funding {
        account: account.address,
        credential,
        amount: TokenAmountView {
            symbol: order.buy.symbol,
            amount: funding_amount(order.buy, settlement_fee),
        },
    }
}

/// The manifest that fills `order`, or the reason there is none.
///
/// The settlement fee is that of the sold token, which is the token the
/// requester buys; a schedule without it is a configuration error. Funding
/// without a credential is refused before anything is emitted. Otherwise the
/// manifest is the fill operation, preceded by the funding operation where
/// funding is asked for.
pub open spec fn fill_manifest(
    fees: Map<Seq<char>, int>,
    account: AccountView,
    order: RequestedOrderView,
    use_funding: bool,
) -> Result<Seq<OperationView>, FillError> {
    if !fees.contains_key(order.buy.symbol) {
        Err(FillError::Configuration)
    } else if !use_funding {
        Ok(seq![fill_operation(account, order, fees[order.buy.symbol])])
    } else {
        match account.funding_credential {
            None => Err(FillError::MissingCredential),
            Some(credential) => Ok(
                seq![
                    funding_operation(account, credential, order, fees[order.buy.symbol]),
                    fill_operation(account, order, fees[order.buy.symbol]),
                ],
            ),
        }
    }
}

/// Whether the funding amount for `order` can be computed: the amount sold
/// plus the settlement fee, and that sum plus the venue fee, both fit the
/// ledger's decimal.
pub open spec fn funding_fits(fees: Map<Seq<char>, int>, order: RequestedOrderView) -> bool {
    fees.contains_key(order.buy.symbol) ==> in_amount_range(
        order.buy.amount + fees[order.buy.symbol],
    ) && in_amount_range(funding_amount(order.buy, fees[order.buy.symbol]))
}

/// The view of a manifest-or-error result.
pub open spec fn manifest_result_view(r: Result<Manifest, FillError>) -> Result<
    Seq<OperationView>,
    FillError,
> {
    match r {
        Ok(m) => Ok(m@),
        Err(e) => Err(e),
    }
}

/// Tells whether the funding amount for `order` can be computed under
/// `fees`, so that funding may be asked of [`create_fill_manifest`].
pub fn can_fund(fees: &FeeSchedule, order: &RequestedOrder) -> (fits: bool)
    requires
        fees.wf(),
    ensures
        fits == funding_fits(fees@, order@),
{
    match fees.settlement_fee(&order.buy.symbol) {
        None => true,
        Some(fee) => match order.buy.amount.checked_add(fee) {
            None => false,
            Some(with_fee) => with_fee.checked_add(fees.venue_fee(&order.buy)).is_some(),
        },
    }
}

/// Composes the manifest that fills `order` from `account`.
///
/// The fill takes the opposite side of the order. With `use_funding` the
/// fill is preceded by an operation that funds the account with the amount
/// sold and all fees; this needs the account's funding credential.
pub fn create_fill_manifest(
    fees: &FeeSchedule,
    account: &Account,
    order: RequestedOrder,
    use_funding: bool,
) -> (r: Result<Manifest, FillError>)
    requires
        fees.wf(),
        use_funding && account.funding_credential is Some ==> funding_fits(fees@, order@),
    ensures
        manifest_result_view(r) == fill_manifest(fees@, account@, order@, use_funding),
{
    let buy = order.sell;
    let sell = order.buy;
    let mut builder = ManifestBuilder::new();
    let settlement_fee = match fees.settlement_fee(&sell.symbol) {
        Some(fee) => fee,
        None => {
            return Err(FillError::Configuration);
        },
    };
    let venue_fee = fees.venue_fee(&sell);
    if use_funding {
        match &account.funding_credential {
            Some(credential) => {
                let with_fee = sell.amount.checked_add(settlement_fee).unwrap();
                let to_fund = TokenAmount {
                    symbol: sell.symbol.clone(),
                    amount: with_fee.checked_add(venue_fee).unwrap(),
                };
                builder = builder.fund_account(account.address.clone(), credential.clone(), to_fund);
            },
            None => {
                return Err(FillError::MissingCredential);
            },
        }
    }
    let manifest = builder.add_limit_order(
        account.address.clone(),
        sell,
        buy,
        settlement_fee,
        venue_fee,
    ).build();
    assert(manifest@ =~= fill_manifest(fees@, account@, order@, use_funding)->Ok_0);
    Ok(manifest)
}

/// Every manifest that fills an order ends in the fill operation, and the
/// fill is the exact inverse of the order: it sells what the requester buys
/// and buys what the requester sells, token and amount.
pub proof fn lemma_fill_inverts_order(
    fees: Map<Seq<char>, int>,
    account: AccountView,
    order: RequestedOrderView,
    use_funding: bool,
)
    requires
        fill_manifest(fees, account, order, use_funding) is Ok,
    ensures
        ({
            let operations = fill_manifest(fees, account, order, use_funding)->Ok_0;
            &&& operations.len() >= 1
            &&& operations.last() matches OperationView::Fill { sell, buy, .. }
            &&& sell == order.buy
            &&& buy == order.sell
            &&& forall|i: int| 0 <= i < operations.len() - 1 ==> !(operations[i] is Fill)
        }),
{
}

/// Wherever a manifest holds a funding operation, it funds exactly the
/// amount sold plus the settlement fee plus the venue fee, in the sold
/// token, and it stands first, directly before the fill.
pub proof fn lemma_funding_covers_sale_and_fees(
    fees: Map<Seq<char>, int>,
    account: AccountView,
    order: RequestedOrderView,
    use_funding: bool,
    i: int,
)
    requires
        fill_manifest(fees, account, order, use_funding) is Ok,
        0 <= i < fill_manifest(fees, account, order, use_funding)->Ok_0.len(),
        fill_manifest(fees, account, order, use_funding)->Ok_0[i] is Funding,
    ensures
        ({
            let operations = fill_manifest(fees, account, order, use_funding)->Ok_0;
            &&& use_funding
            &&& i == 0
            &&& operations.len() == 2
            &&& operations[0] matches OperationView::Funding { amount, .. }
            &&& amount.symbol == order.buy.symbol
            &&& amount.amount == order.buy.amount + fees[order.buy.symbol] + venue_fee_of(
                order.buy,
            )
        }),
{
}

/// A manifest asked for with funding holds the funding operation; one asked
/// for without holds the fill alone.
pub proof fn lemma_funding_follows_request(
    fees: Map<Seq<char>, int>,
    account: AccountView,
    order: RequestedOrderView,
    use_funding: bool,
)
    requires
        fill_manifest(fees, account, order, use_funding) is Ok,
    ensures
        ({
            let operations = fill_manifest(fees, account, order, use_funding)->Ok_0;
            &&& use_funding ==> operations.len() == 2 && operations[0] is Funding
            &&& !use_funding ==> operations.len() == 1
        }),
{
}

/// Funding asked for an account without a funding credential never yields a
/// manifest, whole or partial.
pub proof fn lemma_no_manifest_without_credential(
    fees: Map<Seq<char>, int>,
    account: AccountView,
    order: RequestedOrderView,
)
    requires
        account.funding_credential is None,
    ensures
        fill_manifest(fees, account, order, true) is Err,
{
}

/// Funding asked for an account without a funding credential fails as a
/// missing credential, wherever the schedule has the settlement fee of the
/// sold token.
pub proof fn lemma_funding_needs_credential(
    fees: Map<Seq<char>, int>,
    account: AccountView,
    order: RequestedOrderView,
)
    requires
        account.funding_credential is None,
        fees.contains_key(order.buy.symbol),
    ensures
        fill_manifest(fees, account, order, true) == Err::<Seq<OperationView>, FillError>(
            FillError::MissingCredential,
        ),
{
}

} // verus!
