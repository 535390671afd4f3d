//! The issuance authority: create a token, mint units of it, burn units of it.
//!
//! Each operation comes in two layers. `create_token`, `mint_tokens` and
//! `burn_tokens` talk to the runtime and the token program. What they decide
//! once the outside has answered is in `settle_create`, `settle_mint` and
//! `settle_burn`, which take that answer as an argument and say exactly what
//! comes of it, for every answer.

use crate::accounts::BurnTokens;
use crate::accounts::CreateToken;
use crate::accounts::MintTokens;
use crate::error::CustomError;
use crate::error::IssuanceError;
use crate::events::TokenCreated;
use crate::events::TokensBurned;
use crate::events::TokensMinted;
use crate::runtime::account_key;
use crate::runtime::key_of;
use crate::runtime::ledger_burn;
use crate::runtime::ledger_mint_to;
use crate::runtime::same_key;
use crate::runtime::unix_timestamp;
use crate::state::first_violation;
use crate::state::TokenConfig;
use crate::state::MAX_DECIMALS;
use crate::state::MAX_NAME_LEN;
use crate::state::MAX_SYMBOL_LEN;
use crate::supply::SupplyChange;
use anchor_lang::error::Error;
use anchor_lang::prelude::Pubkey;
use vstd::prelude::*;

verus! {

/// Checks the parameters of a new token against the bounds of the record:
/// at most [`MAX_DECIMALS`] decimals, a name of at most [`MAX_NAME_LEN`] bytes,
/// a symbol of at most [`MAX_SYMBOL_LEN`] bytes.
pub fn validate_token_params(name: &str, symbol: &str, decimals: u8) -> (checked: Result<
    (),
    CustomError,
>)
    ensures
        checked == (match first_violation(name@, symbol@, decimals) {
            Some(violation) => Err::<(), CustomError>(violation),
            None => Ok(()),
        }),
{
    if decimals > MAX_DECIMALS {
        Err(CustomError::InvalidDecimals)
    } else if name.as_bytes().len() > MAX_NAME_LEN {
        Err(CustomError::NameTooLong)
    } else if symbol.as_bytes().len() > MAX_SYMBOL_LEN {
        Err(CustomError::SymbolTooLong)
    } else {
        Ok(())
    }
}

/// Only the owner of a token may mint it.
pub fn authorize_mint(record: &TokenConfig, caller: &Pubkey) -> (checked: Result<(), CustomError>)
    ensures
        checked == (if record.owner == *caller {
            Ok::<(), CustomError>(())
        } else {
            Err(CustomError::Unauthorized)
        }),
{
    if same_key(&record.owner, caller) {
        Ok(())
    } else {
        Err(CustomError::Unauthorized)
    }
}

/// How a creation ends, given the time and the token program's answer to the
/// request to mint the initial supply. The answer counts only where there is
/// an initial supply to mint.
pub open spec fn create_outcome(
    payer: Pubkey,
    mint: Pubkey,
    name: String,
    symbol: String,
    decimals: u8,
    initial_supply: u64,
    created_at: i64,
    minted: Result<(), Error>,
) -> Result<(TokenConfig, TokenCreated), IssuanceError> {
    match first_violation(name@, symbol@, decimals) {
        Some(violation) => Err(IssuanceError::Custom(violation)),
        None => if initial_supply > 0 && minted is Err {
            Err(IssuanceError::Ledger(minted->Err_0))
        } else {
            Ok(
                (
                    TokenConfig {
                        mint,
                        owner: payer,
                        name,
                        symbol,
                        decimals,
                        total_supply: initial_supply,
                        created_at,
                    },
                    TokenCreated { mint, owner: payer, name, symbol, decimals, initial_supply },
                ),
            )
        },
    }
}

/// How a mint ends, given the token program's answer: the result and the
/// record afterwards.
pub open spec fn mint_outcome(
    record: TokenConfig,
    caller: Pubkey,
    mint: Pubkey,
    to: Pubkey,
    amount: u64,
    minted: Result<(), Error>,
) -> (Result<TokensMinted, IssuanceError>, TokenConfig) {
    if record.owner != caller {
        (Err(IssuanceError::Custom(CustomError::Unauthorized)), record)
    } else {
        match minted {
            Err(failure) => (Err(IssuanceError::Ledger(failure)), record),
            Ok(_) => match record.after(SupplyChange::Mint { amount }) {
                Some(next) => (Ok(TokensMinted { mint, amount, to }), next),
                None => (Err(IssuanceError::Custom(CustomError::Overflow)), record),
            },
        }
    }
}

/// How a burn ends, given the token program's answer: the result and the
/// record afterwards.
pub open spec fn burn_outcome(
    record: TokenConfig,
    mint: Pubkey,
    amount: u64,
    burned: Result<(), Error>,
) -> (Result<TokensBurned, IssuanceError>, TokenConfig) {
    match burned {
        Err(failure) => (Err(IssuanceError::Ledger(failure)), record),
        Ok(_) => match record.after(SupplyChange::Burn { amount }) {
            Some(next) => (Ok(TokensBurned { mint, amount }), next),
            None => (Err(IssuanceError::Custom(CustomError::Underflow)), record),
        },
    }
}

/// Concludes a creation. Malformed parameters are refused whatever the token
/// program said. Otherwise the record comes into being, with the initial
/// supply as its counter, unless there was an initial supply to mint and the
/// token program failed to mint it: then its error is returned and there is no
/// record.
pub fn settle_create(
    payer: Pubkey,
    mint: Pubkey,
    name: String,
    symbol: String,
    decimals: u8,
    initial_supply: u64,
    created_at: i64,
    minted: Result<(), Error>,
) -> (created: Result<(TokenConfig, TokenCreated), IssuanceError>)
    ensures
        created == create_outcome(
            payer,
            mint,
            name,
            symbol,
            decimals,
            initial_supply,
            created_at,
            minted,
        ),
{
    if let Err(violation) = validate_token_params(name.as_str(), symbol.as_str(), decimals) {
        return Err(IssuanceError::Custom(violation));
    }
    if initial_supply > 0 {
        if let Err(failure) = minted {
            return Err(IssuanceError::Ledger(failure));
        }
    }
    let event = TokenCreated {
        mint,
        owner: payer,
        name: name.clone(),
        symbol: symbol.clone(),
        decimals,
        initial_supply,
    };
    let record = TokenConfig {
        mint,
        owner: payer,
        name,
        symbol,
        decimals,
        total_supply: initial_supply,
        created_at,
    };
    Ok((record, event))
}

/// Concludes a mint. A caller who is not the owner is refused whatever the
/// token program said. A failure of the token program is handed on. Where the
/// token program has minted, the counter grows by `amount`, unless that would
/// pass `u64::MAX`: then the mint is refused with `Overflow`. The record
/// changes only on success, and only in its counter.
pub fn settle_mint(
    record: &mut TokenConfig,
    caller: &Pubkey,
    mint: Pubkey,
    to: Pubkey,
    amount: u64,
    minted: Result<(), Error>,
) -> (settled: Result<TokensMinted, IssuanceError>)
    ensures
        (settled, *final(record)) == mint_outcome(*old(record), *caller, mint, to, amount, minted),
{
    if let Err(refusal) = authorize_mint(record, caller) {
        return Err(IssuanceError::Custom(refusal));
    }
    if let Err(failure) = minted {
        return Err(IssuanceError::Ledger(failure));
    }
    match record.apply(SupplyChange::Mint { amount }) {
        Ok(()) => Ok(TokensMinted { mint, amount, to }),
        Err(refusal) => Err(IssuanceError::Custom(refusal)),
    }
}

/// Concludes a burn. A failure of the token program is handed on. Where the
/// token program has burned, the counter shrinks by `amount`, unless it holds
/// less than that: then the burn is refused with `Underflow`. The record
/// changes only on success, and only in its counter.
pub fn settle_burn(
    record: &mut TokenConfig,
    mint: Pubkey,
    amount: u64,
    burned: Result<(), Error>,
) -> (settled: Result<TokensBurned, IssuanceError>)
    ensures
        (settled, *final(record)) == burn_outcome(*old(record), mint, amount, burned),
{
    if let Err(failure) = burned {
        return Err(IssuanceError::Ledger(failure));
    }
    match record.apply(SupplyChange::Burn { amount }) {
        Ok(()) => Ok(TokensBurned { mint, amount }),
        Err(refusal) => Err(IssuanceError::Custom(refusal)),
    }
}

/// Creates a token: checks the parameters, reads the time, has the token
/// program mint the initial supply, if there is one, to the owner's token
/// account, and only then lets the record come into being.
///
/// The payer becomes the owner. Malformed parameters are refused before
/// anything is asked of the outside. A failure of the clock or of the token
/// program is handed on. In every failure there is no record; in success the
/// record's counter is the initial supply.
pub fn create_token(
    ctx: &CreateToken,
    name: String,
    symbol: String,
    decimals: u8,
    initial_supply: u64,
) -> (created: Result<(TokenConfig, TokenCreated), IssuanceError>)
    ensures
        first_violation(name@, symbol@, decimals) matches Some(violation) ==> created == Err::<
            (TokenConfig, TokenCreated),
            IssuanceError,
        >(IssuanceError::Custom(violation)),
        first_violation(name@, symbol@, decimals) is None ==> (created matches Err(
            IssuanceError::Clock(_),
        )) || (exists|created_at: i64, minted: Result<(), Error>|
            created == #[trigger] create_outcome(
                key_of(ctx.payer),
                key_of(ctx.mint),
                name,
                symbol,
                decimals,
                initial_supply,
                created_at,
                minted,
            )),
        created matches Ok((record, _)) ==> record.well_formed(),
        created matches Ok((record, _)) ==> record.total_supply == initial_supply,
        created matches Ok((record, _)) ==> record.owner == key_of(ctx.payer) && record.mint
            == key_of(ctx.mint),
        created matches Err(IssuanceError::Ledger(_)) ==> initial_supply > 0,
{
    if let Err(violation) = validate_token_params(name.as_str(), symbol.as_str(), decimals) {
        return Err(IssuanceError::Custom(violation));
    }
    let created_at = match unix_timestamp() {
        Ok(now) => now,
        Err(failure) => {
            return Err(IssuanceError::Clock(failure));
        },
    };
    let minted = match ctx.initial_mint_request(initial_supply) {
        Some(request) => ledger_mint_to(&request),
        None => Ok(()),
    };
    settle_create(
        account_key(&ctx.payer),
        account_key(&ctx.mint),
        name,
        symbol,
        decimals,
        initial_supply,
        created_at,
        minted,
    )
}

/// Mints `amount` units to `ctx.token_account`.
///
/// A payer who is not the token's owner is refused before the token program
/// is asked for anything. Otherwise the token program is asked to mint, with
/// the payer as authority, and its answer is settled as [`settle_mint`] says:
/// the outcome is [`mint_outcome`] of that answer. The accounts stay as they
/// were; the record changes only on success.
pub fn mint_tokens(ctx: &mut MintTokens, amount: u64) -> (minted: Result<
    TokensMinted,
    IssuanceError,
>)
    ensures
        final(ctx).payer == old(ctx).payer,
        final(ctx).mint == old(ctx).mint,
        final(ctx).token_account == old(ctx).token_account,
        final(ctx).token_program == old(ctx).token_program,
        exists|answer: Result<(), Error>|
            (minted, final(ctx).token_config) == #[trigger] mint_outcome(
                old(ctx).token_config,
                key_of(old(ctx).payer),
                key_of(old(ctx).mint),
                key_of(old(ctx).token_account),
                amount,
                answer,
            ),
        key_of(old(ctx).payer) != old(ctx).token_config.owner ==> minted == Err::<
            TokensMinted,
            IssuanceError,
        >(IssuanceError::Custom(CustomError::Unauthorized)),
        key_of(old(ctx).payer) == old(ctx).token_config.owner && old(ctx).token_config.total_supply
            + amount > u64::MAX ==> (minted matches Err(
            IssuanceError::Custom(CustomError::Overflow),
        )) || (minted matches Err(IssuanceError::Ledger(_))),
        minted is Ok ==> old(ctx).token_config.after(SupplyChange::Mint { amount }) == Some(
            final(ctx).token_config,
        ),
        minted is Err ==> final(ctx).token_config == old(ctx).token_config,
{
    let answer = match ctx.mint_request(amount) {
        Ok(request) => ledger_mint_to(&request),
        Err(refusal) => {
            proof {
                let unasked: Result<(), Error> = Ok(());
                assert((
                    Err::<TokensMinted, IssuanceError>(IssuanceError::Custom(refusal)),
                    ctx.token_config,
                ) == mint_outcome(
                    ctx.token_config,
                    key_of(ctx.payer),
                    key_of(ctx.mint),
                    key_of(ctx.token_account),
                    amount,
                    unasked,
                ));
            }
            return Err(IssuanceError::Custom(refusal));
        },
    };
    let caller = account_key(&ctx.payer);
    let mint = account_key(&ctx.mint);
    let to = account_key(&ctx.token_account);
    settle_mint(&mut ctx.token_config, &caller, mint, to, amount, answer)
}

/// Burns `amount` units from `ctx.token_account`.
///
/// The authority asks nothing of the payer itself: whether the payer may
/// burn from that token account is for the token program to say. The token
/// program is asked to burn, with the payer as authority, and its answer is
/// settled as [`settle_burn`] says: the outcome is [`burn_outcome`] of that
/// answer. The accounts stay as they were; the record changes only on
/// success.
pub fn burn_tokens(ctx: &mut BurnTokens, amount: u64) -> (burned: Result<
    TokensBurned,
    IssuanceError,
>)
    ensures
        final(ctx).payer == old(ctx).payer,
        final(ctx).mint == old(ctx).mint,
        final(ctx).token_account == old(ctx).token_account,
        final(ctx).token_program == old(ctx).token_program,
        exists|answer: Result<(), Error>|
            (burned, final(ctx).token_config) == #[trigger] burn_outcome(
                old(ctx).token_config,
                key_of(old(ctx).mint),
                amount,
                answer,
            ),
        amount > old(ctx).token_config.total_supply ==> (burned matches Err(
            IssuanceError::Custom(CustomError::Underflow),
        )) || (burned matches Err(IssuanceError::Ledger(_))),
        burned is Ok ==> old(ctx).token_config.after(SupplyChange::Burn { amount }) == Some(
            final(ctx).token_config,
        ),
        burned is Err ==> final(ctx).token_config == old(ctx).token_config,
{
    let answer = ledger_burn(&ctx.burn_request(amount));
    let mint = account_key(&ctx.mint);
    settle_burn(&mut ctx.token_config, mint, amount, answer)
}

} // verus!
