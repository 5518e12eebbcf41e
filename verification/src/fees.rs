use crate::amount::Amount;
use crate::order::TokenAmountView;
use vstd::prelude::*;

verus! {

/// The flat settlement fee charged for trades that sell one token.
#[derive(Debug)]
struct FeeEntry {
    symbol: String,
    amount: Amount,
}

/// The venue's fee schedule: a flat settlement fee per token symbol, and the
/// venue fee charged on each fill.
///
/// The schedule is a read-only snapshot. No symbol occurs twice in it; its
/// view is the map from symbol to fee, in subunits.
#[derive(Debug)]
pub struct FeeSchedule {
    entries: Vec<FeeEntry>,
}

/// Whether some entry of `entries` is for `symbol`.
spec fn has_symbol(entries: Seq<FeeEntry>, symbol: Seq<char>) -> bool {
    exists|i: int| 0 <= i < entries.len() && (#[trigger] entries[i]).symbol@ == symbol
}

/// The position of an entry for `symbol`, where there is one.
spec fn position_of(entries: Seq<FeeEntry>, symbol: Seq<char>) -> int {
    choose|i: int| 0 <= i < entries.len() && (#[trigger] entries[i]).symbol@ == symbol
}

/// Whether no symbol occurs twice in `entries`.
spec fn distinct_symbols(entries: Seq<FeeEntry>) -> bool {
    forall|i: int, j: int|
        0 <= i < entries.len() && 0 <= j < entries.len() && (#[trigger] entries[i]).symbol@ == (
        #[trigger] entries[j]).symbol@ ==> i == j
}

/// The map from symbol to fee that `entries` stand for.
spec fn fees_of(entries: Seq<FeeEntry>) -> Map<Seq<char>, int> {
    Map::new(
        |symbol: Seq<char>| has_symbol(entries, symbol),
        |symbol: Seq<char>| entries[position_of(entries, symbol)].amount@,
    )
}

/// The venue's own fee on a fill that sells `sold`. The venue charges makers
/// nothing at present; the fee stays a quantity of its own in every
/// operation and sum that it enters.
pub open spec fn venue_fee_of(sold: TokenAmountView) -> int {
    0
}

/// With distinct symbols, the entry at `i` is the one that its symbol finds.
proof fn lemma_position(entries: Seq<FeeEntry>, i: int)
    requires
        distinct_symbols(entries),
        0 <= i < entries.len(),
    ensures
        has_symbol(entries, entries[i].symbol@),
        position_of(entries, entries[i].symbol@) == i,
{
}

impl FeeSchedule {
    /// Whether the schedule holds each symbol at most once.
    pub closed spec fn wf(&self) -> bool {
        distinct_symbols(self.entries@)
    }

    /// The schedule with no fee in it.
    pub fn new() -> (schedule: FeeSchedule)
        ensures
            schedule.wf(),
            schedule@ == Map::<Seq<char>, int>::empty(),
    {
        let schedule = FeeSchedule { entries: Vec::new() };
        assert(schedule@ =~= Map::<Seq<char>, int>::empty());
        schedule
    }

    /// The position of the entry for `symbol`, if there is one.
    fn find(&self, symbol: &String) -> (found: Option<usize>)
        ensures
            match found {
                Some(i) => i < self.entries.len() && self.entries[i as int].symbol@ == symbol@,
                None => !has_symbol(self.entries@, symbol@),
            },
    {
        let mut i: usize = 0;
        while i < self.entries.len()
            invariant
                i <= self.entries.len(),
                forall|k: int| 0 <= k < i ==> (#[trigger] self.entries[k]).symbol@ != symbol@,
            decreases self.entries.len() - i,
        {
            if self.entries[i].symbol == *symbol {
                return Some(i);
            }
            i += 1;
        }
        None
    }

    /// Sets the settlement fee for `symbol`, replacing an earlier one.
    pub fn set(&mut self, symbol: String, amount: Amount)
        requires
            old(self).wf(),
        ensures
            final(self).wf(),
            final(self)@ == old(self)@.insert(symbol@, amount@),
    {
        let ghost before = self.entries@;
        match self.find(&symbol) {
            Some(i) => {
                let ghost key = symbol@;
                self.entries.set(i, FeeEntry { symbol, amount });
                proof {
                    let after = self.entries@;
                    assert forall|s: Seq<char>| has_symbol(after, s) == has_symbol(before, s) by {
                        if has_symbol(before, s) {
                            let k = position_of(before, s);
                            assert(after[k].symbol@ == s);
                        }
                        if has_symbol(after, s) {
                            let k = position_of(after, s);
                            assert(before[k].symbol@ == s);
                        }
                    }
                    assert forall|s: Seq<char>| has_symbol(after, s) implies fees_of(after)[s] == (
                    if s == key {
                        amount@
                    } else {
                        fees_of(before)[s]
                    }) by {
                        let k = position_of(after, s);
                        lemma_position(after, k);
                        lemma_position(before, k);
                    }
                    assert(fees_of(after) =~= fees_of(before).insert(key, amount@));
                }
            },
            None => {
                let ghost key = symbol@;
                self.entries.push(FeeEntry { symbol, amount });
                proof {
                    let after = self.entries@;
                    let last = before.len() as int;
                    assert(after[last].symbol@ == key);
                    assert forall|s: Seq<char>| has_symbol(after, s) == (s == key || has_symbol(
                        before,
                        s,
                    )) by {
                        if has_symbol(before, s) {
                            let k = position_of(before, s);
                            assert(after[k].symbol@ == s);
                        }
                        if has_symbol(after, s) {
                            let k = position_of(after, s);
                            if k < last {
                                assert(before[k].symbol@ == s);
                            }
                        }
                    }
                    assert forall|s: Seq<char>| has_symbol(after, s) implies fees_of(after)[s] == (
                    if s == key {
                        amount@
                    } else {
                        fees_of(before)[s]
                    }) by {
                        let k = position_of(after, s);
                        lemma_position(after, k);
                        if k < last {
                            lemma_position(before, k);
                        }
                    }
                    assert(fees_of(after) =~= fees_of(before).insert(key, amount@));
                }
            },
        }
    }

    /// The flat settlement fee for trades that sell `symbol`, if the schedule
    /// has one.
    pub fn settlement_fee(&self, symbol: &String) -> (fee: Option<Amount>)
        requires
            self.wf(),
        ensures
            fee is Some <==> self@.contains_key(symbol@),
            fee matches Some(a) ==> a@ == self@[symbol@],
    {
        match self.find(symbol) {
            Some(i) => {
                proof {
                    lemma_position(self.entries@, i as int);
                }
                Some(self.entries[i].amount)
            },
            None => None,
        }
    }

    /// The venue's own fee on a fill that sells `sold`.
    pub fn venue_fee(&self, sold: &crate::order::TokenAmount) -> (fee: Amount)
        ensures
            fee@ == venue_fee_of(sold@),
    {
        Amount::zero()
    }
}

impl View for FeeSchedule {
    type V = Map<Seq<char>, int>;

    closed spec fn view(&self) -> Map<Seq<char>, int> {
        fees_of(self.entries@)
    }
}

} // verus!
