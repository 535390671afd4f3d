//! The supply ledger record: one per token, created once and from then on
//! changed only in its supply counter.

use crate::error::CustomError;
use crate::supply::supply_after;
use crate::supply::SupplyChange;
use anchor_lang::prelude::Pubkey;
use vstd::prelude::*;
use vstd::utf8::encode_utf8;

verus! {

/// Largest number of decimal places a token can have.
pub const MAX_DECIMALS: u8 = 9;

/// Largest length of a token name, in bytes.
pub const MAX_NAME_LEN: usize = 32;

/// Largest length of a token symbol, in bytes.
pub const MAX_SYMBOL_LEN: usize = 10;

/// Length of `text` in bytes, as UTF-8.
pub open spec fn byte_len(text: Seq<char>) -> nat {
    encode_utf8(text).len()
}

/// The first bound that the parameters of a new token break, in the order in
/// which they are checked: decimals, name, symbol. `None` where they break
/// none.
pub open spec fn first_violation(name: Seq<char>, symbol: Seq<char>, decimals: u8) -> Option<
    CustomError,
> {
    if decimals > MAX_DECIMALS {
        Some(CustomError::InvalidDecimals)
    } else if byte_len(name) > MAX_NAME_LEN {
        Some(CustomError::NameTooLong)
    } else if byte_len(symbol) > MAX_SYMBOL_LEN {
        Some(CustomError::SymbolTooLong)
    } else {
        None
    }
}

/// What the authority records about one token.
#[derive(Debug, PartialEq, Eq)]
pub struct TokenConfig {
    /// The token's mint in the token program.
    pub mint: Pubkey,
    /// Who may mint.
    pub owner: Pubkey,
    pub name: String,
    pub symbol: String,
    pub decimals: u8,
    /// Units minted through the authority minus units burned through it.
    pub total_supply: u64,
    /// Unix time at which the token was created.
    pub created_at: i64,
}

impl TokenConfig {
    /// The bounds that creation enforces on the fields that never change.
    pub open spec fn well_formed(self) -> bool {
        first_violation(self.name@, self.symbol@, self.decimals) is None
    }

    /// This record with another supply counter and nothing else changed.
    pub open spec fn with_supply(self, total_supply: u64) -> TokenConfig {
        TokenConfig { total_supply, ..self }
    }

    /// The record after `change`, or `None` where the counter refuses it.
    pub open spec fn after(self, change: SupplyChange) -> Option<TokenConfig> {
        match supply_after(self.total_supply, change) {
            Some(total_supply) => Some(self.with_supply(total_supply)),
            None => None,
        }
    }

    /// Moves the counter by `change`. A mint that would pass `u64::MAX` is
    /// refused with `Overflow`, a burn of more than the counter holds with
    /// `Underflow`; a refused change leaves the record as it was. Nothing but
    /// the counter ever changes, so the record is as well-formed as before.
    pub fn apply(&mut self, change: SupplyChange) -> (applied: Result<(), CustomError>)
        ensures
            old(self).after(change) matches Some(next) ==> applied is Ok && *final(self) == next,
            old(self).after(change) is None ==> applied == Err::<(), CustomError>(change.refusal())
                && *final(self) == *old(self),
            final(self).well_formed() == old(self).well_formed(),
    {
        match change {
            SupplyChange::Mint { amount } => match self.total_supply.checked_add(amount) {
                Some(total_supply) => {
                    self.total_supply = total_supply;
                    Ok(())
                },
                None => Err(CustomError::Overflow),
            },
            SupplyChange::Burn { amount } => match self.total_supply.checked_sub(amount) {
                Some(total_supply) => {
                    self.total_supply = total_supply;
                    Ok(())
                },
                None => Err(CustomError::Underflow),
            },
        }
    }
}

impl Clone for TokenConfig {
    /// Reads the record: the copy has the value of every field.
    fn clone(&self) -> (copy: TokenConfig)
        ensures
            copy == *self,
    {
        TokenConfig {
            mint: self.mint,
            owner: self.owner,
            name: self.name.clone(),
            symbol: self.symbol.clone(),
            decimals: self.decimals,
            total_supply: self.total_supply,
            created_at: self.created_at,
        }
    }
}

} // verus!
