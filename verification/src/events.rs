//! The notifications that follow a committed state change. The operations
//! hand them back to the caller, who publishes them.

use anchor_lang::prelude::Pubkey;
use vstd::prelude::*;

verus! {

/// A token was created.
#[derive(Debug, PartialEq, Eq)]
pub struct TokenCreated {
    pub mint: Pubkey,
    pub owner: Pubkey,
    pub name: String,
    pub symbol: String,
    pub decimals: u8,
    pub initial_supply: u64,
}

/// `amount` units of `mint` were created in the token account `to`.
#[derive(Debug, PartialEq, Eq)]
pub struct TokensMinted {
    pub mint: Pubkey,
    pub amount: u64,
    pub to: Pubkey,
}

/// `amount` units of `mint` were destroyed.
#[derive(Debug, PartialEq, Eq)]
pub struct TokensBurned {
    pub mint: Pubkey,
    pub amount: u64,
}

} // verus!
