//! Issuance authority and supply ledger for a fungible token.
//!
//! The authority creates a token definition and afterwards mints or burns
//! units of it. Balances live in the SPL token program; this crate keeps the
//! per-token [`TokenConfig`] record whose `total_supply` counter follows what
//! the token program was asked to do. Every operation either commits its whole
//! effect on the record or leaves the record as it was.

pub mod accounts;
pub mod authority;
pub mod consistency;
pub mod error;
pub mod events;
pub mod history;
pub mod runtime;
pub mod state;
pub mod supply;

pub use accounts::BurnTokens;
pub use accounts::CreateToken;
pub use accounts::MintTokens;
pub use authority::authorize_mint;
pub use authority::burn_tokens;
pub use authority::create_token;
pub use authority::mint_tokens;
pub use authority::settle_burn;
pub use authority::settle_create;
pub use authority::settle_mint;
pub use authority::validate_token_params;
pub use error::CustomError;
pub use error::IssuanceError;
pub use events::TokenCreated;
pub use events::TokensBurned;
pub use events::TokensMinted;
pub use runtime::BurnRequest;
pub use runtime::MintRequest;
pub use state::TokenConfig;
pub use supply::SupplyChange;
