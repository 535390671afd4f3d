//! The failure conditions of the issuance authority.

use anchor_lang::error::Error;
use anchor_lang::prelude::ProgramError;
use vstd::prelude::*;

verus! {

/// A failure that the authority raises by itself, as opposed to one that the
/// token program or the runtime reports.
#[derive(Clone, Copy, Debug, PartialEq, Eq, Structural)]
pub enum CustomError {
    /// More than [`crate::state::MAX_DECIMALS`] decimal places were asked for.
    InvalidDecimals,
    /// The token name is longer than [`crate::state::MAX_NAME_LEN`] bytes.
    NameTooLong,
    /// The token symbol is longer than [`crate::state::MAX_SYMBOL_LEN`] bytes.
    SymbolTooLong,
    /// The caller is not the owner of the token.
    Unauthorized,
    /// The supply after a mint would not fit in 64 bits.
    Overflow,
    /// More units were burned than the supply counter holds.
    Underflow,
}

impl CustomError {
    /// The text of [`CustomError::message`].
    pub open spec fn message_text(self) -> Seq<char> {
        match self {
            CustomError::InvalidDecimals => "Invalid decimals value"@,
            CustomError::NameTooLong => "Token name too long"@,
            CustomError::SymbolTooLong => "Token symbol too long"@,
            CustomError::Unauthorized => "Unauthorized"@,
            CustomError::Overflow => "Overflow"@,
            CustomError::Underflow => "Underflow"@,
        }
    }

    /// The text shown to a user for this failure.
    pub fn message(&self) -> (text: &'static str)
        ensures
            text@ == self.message_text(),
    {
        match self {
            CustomError::InvalidDecimals => "Invalid decimals value",
            CustomError::NameTooLong => "Token name too long",
            CustomError::SymbolTooLong => "Token symbol too long",
            CustomError::Unauthorized => "Unauthorized",
            CustomError::Overflow => "Overflow",
            CustomError::Underflow => "Underflow",
        }
    }
}

/// Why an operation of the authority did not go through. Whatever the
/// variant, the operation has left no trace in the record.
#[derive(Debug, PartialEq)]
pub enum IssuanceError {
    /// The authority itself refused.
    Custom(CustomError),
    /// The runtime could not tell the time; its error is handed on as it came.
    Clock(ProgramError),
    /// The token program failed or refused; its error is handed on as it came.
    Ledger(Error),
}

} // verus!
