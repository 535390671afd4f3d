//! The accounts that each operation works on.
//!
//! An account other than the record is held as the runtime's handle to it:
//! the authority reads the handle's address and passes the handle on to the
//! token program.

use crate::authority::authorize_mint;
use crate::error::CustomError;
use crate::runtime::account_key;
use crate::runtime::key_of;
use crate::runtime::BurnRequest;
use crate::runtime::MintRequest;
use crate::state::TokenConfig;
use anchor_lang::prelude::AccountInfo;
use vstd::prelude::*;

verus! {

/// Accounts of [`crate::authority::create_token`].
pub struct CreateToken<'info> {
    /// Who creates the token. Becomes its owner and is the mint's authority.
    pub payer: AccountInfo<'info>,
    /// The token's mint.
    pub mint: AccountInfo<'info>,
    /// The owner's token account, which receives the initial supply.
    pub owner_token_account: AccountInfo<'info>,
    pub token_program: AccountInfo<'info>,
}

/// Accounts of [`crate::authority::mint_tokens`].
pub struct MintTokens<'info> {
    /// Who asks for the mint.
    pub payer: AccountInfo<'info>,
    /// The token's record.
    pub token_config: TokenConfig,
    /// The token's mint.
    pub mint: AccountInfo<'info>,
    /// The token account that receives the new units.
    pub token_account: AccountInfo<'info>,
    pub token_program: AccountInfo<'info>,
}

/// Accounts of [`crate::authority::burn_tokens`].
pub struct BurnTokens<'info> {
    /// Who asks for the burn, with authority over `token_account`.
    pub payer: AccountInfo<'info>,
    /// The token's record.
    pub token_config: TokenConfig,
    /// The token's mint.
    pub mint: AccountInfo<'info>,
    /// The token account that the units are taken from.
    pub token_account: AccountInfo<'info>,
    pub token_program: AccountInfo<'info>,
}

impl<'info> CreateToken<'info> {
    /// What creation asks of the token program: nothing where there is no
    /// initial supply, else to mint the initial supply of `mint` into the
    /// owner's token account, on the word of the payer.
    pub fn initial_mint_request<'a>(&'a self, initial_supply: u64) -> (request: Option<
        MintRequest<'a, 'info>,
    >)
        ensures
            initial_supply == 0 ==> request is None,
            initial_supply > 0 ==> request == Some(
                (MintRequest {
                    token_program: &self.token_program,
                    mint: &self.mint,
                    to: &self.owner_token_account,
                    authority: &self.payer,
                    amount: initial_supply,
                }),
            ),
    {
        if initial_supply > 0 {
            Some(
                MintRequest {
                    token_program: &self.token_program,
                    mint: &self.mint,
                    to: &self.owner_token_account,
                    authority: &self.payer,
                    amount: initial_supply,
                },
            )
        } else {
            None
        }
    }
}

impl<'info> MintTokens<'info> {
    /// What a mint asks of the token program. For a payer who is not the
    /// token's owner there is no request, only the refusal. For the owner it
    /// is to mint `amount` units of `mint` into `token_account`, on the word
    /// of the payer.
    pub fn mint_request<'a>(&'a self, amount: u64) -> (request: Result<
        MintRequest<'a, 'info>,
        CustomError,
    >)
        ensures
            key_of(self.payer) != self.token_config.owner ==> request == Err::<
                MintRequest<'a, 'info>,
                CustomError,
            >(CustomError::Unauthorized),
            key_of(self.payer) == self.token_config.owner ==> request == Ok::<
                MintRequest<'a, 'info>,
                CustomError,
            >(
                (MintRequest {
                    token_program: &self.token_program,
                    mint: &self.mint,
                    to: &self.token_account,
                    authority: &self.payer,
                    amount,
                }),
            ),
    {
        let caller = account_key(&self.payer);
        match authorize_mint(&self.token_config, &caller) {
            Ok(()) => Ok(
                MintRequest {
                    token_program: &self.token_program,
                    mint: &self.mint,
                    to: &self.token_account,
                    authority: &self.payer,
                    amount,
                },
            ),
            Err(refusal) => Err(refusal),
        }
    }
}

impl<'info> BurnTokens<'info> {
    /// What a burn asks of the token program, whoever the payer is: to burn
    /// `amount` units of `mint` out of `token_account`, on the word of the
    /// payer.
    pub fn burn_request<'a>(&'a self, amount: u64) -> (request: BurnRequest<'a, 'info>)
        ensures
            request == (BurnRequest {
                token_program: &self.token_program,
                mint: &self.mint,
                from: &self.token_account,
                authority: &self.payer,
                amount,
            }),
    {
        BurnRequest {
            token_program: &self.token_program,
            mint: &self.mint,
            from: &self.token_account,
            authority: &self.payer,
            amount,
        }
    }
}

} // verus!
