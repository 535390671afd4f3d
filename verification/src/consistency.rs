//! The record's counter held against the token program's own figure.
//!
//! The token program keeps the circulating supply of every mint. This module
//! takes it at its word: a request that it answers with success has moved that
//! figure by the amount, and one that it answers with a failure has moved
//! nothing. Under that reading, the lemmas say when the record's counter
//! follows the token program's figure and when the two part.

use crate::authority::burn_outcome;
use crate::authority::create_outcome;
use crate::authority::mint_outcome;
use crate::error::CustomError;
use crate::error::IssuanceError;
use crate::state::TokenConfig;
use crate::supply::SupplyChange;
use anchor_lang::error::Error;
use anchor_lang::prelude::Pubkey;
use vstd::prelude::*;

verus! {

/// The token program's figure for a mint after it has answered a request for
/// `change`.
pub open spec fn circulating_after(
    circulating: int,
    change: SupplyChange,
    answer: Result<(), Error>,
) -> int {
    match answer {
        Err(_) => circulating,
        Ok(_) => match change {
            SupplyChange::Mint { amount } => circulating + amount,
            SupplyChange::Burn { amount } => circulating - amount,
        },
    }
}

/// A creation on a fresh mint, of which nothing circulates yet, ends with a
/// record that agrees with the token program, or with no record.
pub proof fn lemma_create_agreement(
    payer: Pubkey,
    mint: Pubkey,
    name: String,
    symbol: String,
    decimals: u8,
    initial_supply: u64,
    created_at: i64,
    answer: Result<(), Error>,
)
    ensures
        ({
            let created = create_outcome(
                payer,
                mint,
                name,
                symbol,
                decimals,
                initial_supply,
                created_at,
                answer,
            );
            let at_ledger = if initial_supply > 0 {
                circulating_after(0, SupplyChange::Mint { amount: initial_supply }, answer)
            } else {
                0
            };
            created matches Ok((record, _)) ==> record.total_supply == at_ledger
        }),
{
}

/// A mint by the owner, on a record that agrees with the token program,
/// leaves the two in agreement in every case but one: where the token program
/// has minted and the counter cannot take the amount. The mint is then refused
/// with `Overflow`, the record stays, and the token program is ahead of it by
/// `amount`, unless the caller's surroundings undo what the token program did.
pub proof fn lemma_mint_agreement(
    record: TokenConfig,
    mint: Pubkey,
    to: Pubkey,
    amount: u64,
    answer: Result<(), Error>,
    circulating: int,
)
    requires
        record.total_supply == circulating,
    ensures
        ({
            let (settled, next) = mint_outcome(record, record.owner, mint, to, amount, answer);
            let overflowed = settled matches Err(IssuanceError::Custom(CustomError::Overflow));
            let at_ledger = circulating_after(circulating, SupplyChange::Mint { amount }, answer);
            &&& overflowed <==> answer is Ok && circulating + amount > u64::MAX
            &&& !overflowed ==> next.total_supply == at_ledger
            &&& overflowed ==> next.total_supply + amount == at_ledger
        }),
{
}

/// A burn, on a record that agrees with the token program, leaves the two in
/// agreement in every case but one: where the token program has burned more
/// than the counter holds. The burn is then refused with `Underflow`, the
/// record stays, and the token program is behind it by `amount`, unless the
/// caller's surroundings undo what the token program did.
pub proof fn lemma_burn_agreement(
    record: TokenConfig,
    mint: Pubkey,
    amount: u64,
    answer: Result<(), Error>,
    circulating: int,
)
    requires
        record.total_supply == circulating,
    ensures
        ({
            let (settled, next) = burn_outcome(record, mint, amount, answer);
            let underflowed = settled matches Err(IssuanceError::Custom(CustomError::Underflow));
            let at_ledger = circulating_after(circulating, SupplyChange::Burn { amount }, answer);
            &&& underflowed <==> answer is Ok && circulating - amount < 0
            &&& !underflowed ==> next.total_supply == at_ledger
            &&& underflowed ==> next.total_supply - amount == at_ledger
        }),
{
}

} // verus!
