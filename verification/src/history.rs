//! A record over a whole history of mints and burns.

use crate::state::TokenConfig;
use crate::supply::running_balance;
use crate::supply::SupplyChange;
use vstd::prelude::*;

verus! {

impl TokenConfig {
    /// The record after every change of `history` in turn, or `None` as soon
    /// as the counter refuses one of them.
    pub open spec fn after_all(self, history: Seq<SupplyChange>) -> Option<TokenConfig>
        decreases history.len(),
    {
        if history.len() == 0 {
            Some(self)
        } else {
            match self.after_all(history.drop_last()) {
                Some(record) => record.after(history.last()),
                None => None,
            }
        }
    }
}

/// Supply conservation: after any sequence of mints and burns that were all
/// accepted, the record's counter is the supply it started with, plus all that
/// was minted, minus all that was burned. Nothing but the counter has changed,
/// so a well-formed record is still well-formed.
pub proof fn lemma_supply_conservation(record: TokenConfig, history: Seq<SupplyChange>)
    requires
        record.after_all(history) is Some,
    ensures
        record.after_all(history).unwrap().total_supply == running_balance(
            record.total_supply,
            history,
        ),
        record.after_all(history).unwrap() == record.with_supply(
            record.after_all(history).unwrap().total_supply,
        ),
        record.well_formed() ==> record.after_all(history).unwrap().well_formed(),
    decreases history.len(),
{
    if history.len() > 0 {
        lemma_supply_conservation(record, history.drop_last());
    }
}

/// The counter refuses no more than it must: a history is accepted as a whole
/// exactly when the balance after each of its prefixes lies within the 64-bit
/// range.
pub proof fn lemma_accepted_iff_in_range(record: TokenConfig, history: Seq<SupplyChange>)
    ensures
        record.after_all(history) is Some <==> forall|n: int|
            0 <= n <= history.len() ==> 0 <= #[trigger] running_balance(
                record.total_supply,
                history.take(n),
            ) <= u64::MAX,
    decreases history.len(),
{
    let initial = record.total_supply;
    if history.len() == 0 {
        assert forall|n: int| 0 <= n <= history.len() implies 0 <= #[trigger] running_balance(
            initial,
            history.take(n),
        ) <= u64::MAX by {
            assert(history.take(n) =~= history);
        }
    } else {
        let shorter = history.drop_last();
        lemma_accepted_iff_in_range(record, shorter);
        assert(history.take(history.len() as int) =~= history);
        assert forall|n: int| 0 <= n <= shorter.len() implies #[trigger] shorter.take(n)
            == history.take(n) by {
            assert(shorter.take(n) =~= history.take(n));
        }
        if record.after_all(history) is Some {
            lemma_supply_conservation(record, history);
            assert forall|n: int| 0 <= n <= history.len() implies 0 <= #[trigger] running_balance(
                initial,
                history.take(n),
            ) <= u64::MAX by {
                if n < history.len() {
                    assert(shorter.take(n) == history.take(n));
                }
            }
        }
        if forall|n: int|
            0 <= n <= history.len() ==> 0 <= #[trigger] running_balance(initial, history.take(n))
                <= u64::MAX {
            assert forall|n: int| 0 <= n <= shorter.len() implies 0 <= #[trigger] running_balance(
                initial,
                shorter.take(n),
            ) <= u64::MAX by {
                assert(shorter.take(n) == history.take(n));
            }
            lemma_supply_conservation(record, shorter);
            assert(0 <= running_balance(initial, history.take(history.len() as int)) <= u64::MAX);
        }
    }
}

} // verus!
