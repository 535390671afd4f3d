//! Arithmetic of the supply counter.
//!
//! The counter is an unsigned 64-bit number. It moves by mints and burns, and
//! a move that would leave the 64-bit range is refused: nothing wraps and
//! nothing saturates.

use crate::error::CustomError;
use vstd::prelude::*;

verus! {

/// One change to a token's supply.
#[derive(Clone, Copy, Debug, PartialEq, Eq)]
pub enum SupplyChange {
    Mint { amount: u64 },
    Burn { amount: u64 },
}

impl SupplyChange {
    /// The failure that a counter answers with where it cannot take this
    /// change.
    pub open spec fn refusal(self) -> CustomError {
        match self {
            SupplyChange::Mint { .. } => CustomError::Overflow,
            SupplyChange::Burn { .. } => CustomError::Underflow,
        }
    }
}

/// The counter after `change`, or `None` where the result would leave the
/// 64-bit range: a mint past `u64::MAX`, a burn below zero.
pub open spec fn supply_after(supply: u64, change: SupplyChange) -> Option<u64> {
    match change {
        SupplyChange::Mint { amount } => if supply + amount <= u64::MAX {
            Some((supply + amount) as u64)
        } else {
            None
        },
        SupplyChange::Burn { amount } => if amount <= supply {
            Some((supply - amount) as u64)
        } else {
            None
        },
    }
}

/// Sum of the amounts minted in `history`.
pub open spec fn total_minted(history: Seq<SupplyChange>) -> nat
    decreases history.len(),
{
    if history.len() == 0 {
        0
    } else {
        total_minted(history.drop_last()) + match history.last() {
            SupplyChange::Mint { amount } => amount as nat,
            SupplyChange::Burn { .. } => 0,
        }
    }
}

/// Sum of the amounts burned in `history`.
pub open spec fn total_burned(history: Seq<SupplyChange>) -> nat
    decreases history.len(),
{
    if history.len() == 0 {
        0
    } else {
        total_burned(history.drop_last()) + match history.last() {
            SupplyChange::Mint { .. } => 0,
            SupplyChange::Burn { amount } => amount as nat,
        }
    }
}

/// What the supply would be after `history` if nothing bounded it: the
/// initial supply, plus all that was minted, minus all that was burned.
pub open spec fn running_balance(initial: u64, history: Seq<SupplyChange>) -> int {
    initial + total_minted(history) - total_burned(history)
}

} // verus!
