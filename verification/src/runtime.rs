//! The boundary to the Solana runtime and the SPL token program.
//!
//! Nothing in this module is proved. It declares the outside types that the
//! rest of the crate carries around, and wraps each outside call in one small
//! function whose contract says no more than the outside source shows. What
//! is asked of the token program is put together elsewhere, as a
//! [`MintRequest`] or a [`BurnRequest`]; the wrappers only carry it out.

use anchor_lang::error::Error;
use anchor_lang::prelude::AccountInfo;
use anchor_lang::prelude::Clock;
use anchor_lang::prelude::CpiContext;
use anchor_lang::prelude::ProgramError;
use anchor_lang::prelude::Pubkey;
use anchor_lang::prelude::SolanaSysvar;
use anchor_lang::Key;
use anchor_spl::token::Burn;
use anchor_spl::token::MintTo;
use vstd::prelude::*;

verus! {

/// `solana_program::pubkey::Pubkey`: the 32-byte address of an account.
#[verifier::external_type_specification]
#[verifier::external_body]
pub struct ExPubkey(Pubkey);

/// `solana_program::account_info::AccountInfo`: the runtime's handle to an
/// account that was passed to the running instruction.
#[verifier::external_type_specification]
#[verifier::external_body]
pub struct ExAccountInfo<'a>(AccountInfo<'a>);

/// `anchor_lang::error::Error`: what a failed cross-program call returns.
#[verifier::external_type_specification]
#[verifier::external_body]
pub struct ExError(Error);

/// `solana_program::program_error::ProgramError`: what a failed sysvar read
/// returns.
#[verifier::external_type_specification]
#[verifier::external_body]
pub struct ExProgramError(ProgramError);

/// The address that an account handle stands for: its `key` field.
pub uninterp spec fn key_of(account: AccountInfo) -> Pubkey;

/// `anchor_lang::Key::key` on an `AccountInfo`, which copies the handle's
/// `key` field. The contract only gives that address its name, [`key_of`].
#[verifier::external_body]
pub(crate) fn account_key(account: &AccountInfo) -> (key: Pubkey)
    ensures
        key == key_of(*account),
{
    account.key()
}

/// `Pubkey`'s `==`, derived over its 32 bytes: two addresses compare equal
/// exactly when they are the same address.
#[verifier::external_body]
pub(crate) fn same_key(a: &Pubkey, b: &Pubkey) -> (same: bool)
    ensures
        same == (*a == *b),
{
    a == b
}

/// `Clock::get`, reduced to the clock's `unix_timestamp`. The value is the
/// cluster's time and the read can fail, so nothing is promised of it.
#[verifier::external_body]
pub(crate) fn unix_timestamp() -> (now: Result<i64, ProgramError>) {
    match Clock::get() {
        Ok(clock) => Ok(clock.unix_timestamp),
        Err(e) => Err(e),
    }
}

/// What the token program is asked when units are to be created: mint
/// `amount` units of `mint` into the token account `to`, on the word of
/// `authority`.
pub struct MintRequest<'a, 'info> {
    pub token_program: &'a AccountInfo<'info>,
    pub mint: &'a AccountInfo<'info>,
    pub to: &'a AccountInfo<'info>,
    pub authority: &'a AccountInfo<'info>,
    pub amount: u64,
}

/// What the token program is asked when units are to be destroyed: burn
/// `amount` units of `mint` out of the token account `from`, on the word of
/// `authority`.
pub struct BurnRequest<'a, 'info> {
    pub token_program: &'a AccountInfo<'info>,
    pub mint: &'a AccountInfo<'info>,
    pub from: &'a AccountInfo<'info>,
    pub authority: &'a AccountInfo<'info>,
    pub amount: u64,
}

/// `anchor_spl::token::mint_to`, called with the accounts and the amount of
/// `request`, field for field. Whether the token program mints is its own
/// decision, so nothing is promised of the result.
#[verifier::external_body]
pub(crate) fn ledger_mint_to(request: &MintRequest) -> (minted: Result<(), Error>) {
    let accounts = MintTo {
        mint: request.mint.clone(),
        to: request.to.clone(),
        authority: request.authority.clone(),
    };
    anchor_spl::token::mint_to(
        CpiContext::new(request.token_program.clone(), accounts),
        request.amount,
    )
}

/// `anchor_spl::token::burn`, called with the accounts and the amount of
/// `request`, field for field. Whether the token program burns is its own
/// decision, so nothing is promised of the result.
#[verifier::external_body]
pub(crate) fn ledger_burn(request: &BurnRequest) -> (burned: Result<(), Error>) {
    let accounts = Burn {
        mint: request.mint.clone(),
        from: request.from.clone(),
        authority: request.authority.clone(),
    };
    anchor_spl::token::burn(
        CpiContext::new(request.token_program.clone(), accounts),
        request.amount,
    )
}

} // verus!
