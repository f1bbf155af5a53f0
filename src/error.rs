//! The errors of the library.

use vstd::prelude::*;

verus! {

/// Every way in which an operation of this library can be refused.
#[derive(Debug, Clone, Copy, PartialEq, Eq, Structural)]
pub enum TollgateError {
    // Invalid inputs
    InvalidPool,
    InvalidPoolConfig,
    InvalidPosition,
    BaseMintNotInPool,
    QuoteMintNotInPool,
    BaseAndQuoteMintsAreSame,
    InvalidInvestorAccounts,
    InvalidInvestorAta,
    InvalidInvestorPubkey,
    // Mismatched configurations
    PoolConfigMismatch,
    PoolNotQuoteOnlyFees,
    PoolConfigNotQuoteOnlyFees,
    AMMProgramMismatch,
    // Invalid states
    InvalidDayState,
    BaseDenominatedFees,
    // Invalid operations
    CannotStartNewDay,
    CannotContinueSameDay,
    CannotCloseDay,
    // Invalid parameters
    InvalidInvestors,
    InvalidInvestorFeeShareBps,
    InvalidMinPayoutLamports,
    InvalidDailyCap,
    InvalidY0Allocation,
    PaginationCursorTooSmall,
    PaginationCursorTooLarge,
    CursorExceedsInvestors,
    // Amounts that leave the range of a u64
    MathOverflow,
    // Initialization errors
    PolicyAlreadyInitialized,
    ProgressAlreadyInitialized,
}

impl TollgateError {
    /// The human-readable message of the error.
    pub fn message(&self) -> (r: &'static str) {
        match self {
            TollgateError::InvalidPool => "The provided pool is not a valid DAMM v2 pool",
            TollgateError::InvalidPoolConfig => "The provided pool config is not a valid DAMM v2 pool config",
            TollgateError::InvalidPosition => "The provided position is not a valid DAMM v2 position",
            TollgateError::BaseMintNotInPool => "Base mint not found in the provided pool",
            TollgateError::QuoteMintNotInPool => "Quote mint not found in the provided pool",
            TollgateError::BaseAndQuoteMintsAreSame => "Base and quote mints are the same",
            TollgateError::InvalidInvestorAccounts => "Invalid investor accounts",
            TollgateError::InvalidInvestorAta => "Invalid investor ATA",
            TollgateError::InvalidInvestorPubkey => "Invalid investor pubkey",
            TollgateError::PoolConfigMismatch => "The provided pool does not match the provided pool config",
            TollgateError::PoolNotQuoteOnlyFees => "The provided pool is not in quote-only fee mode",
            TollgateError::PoolConfigNotQuoteOnlyFees => "The provided pool config is not in quote-only fee mode",
            TollgateError::AMMProgramMismatch => "The provided AMM program does not match the expected DAMM v2 program",
            TollgateError::InvalidDayState => "Invalid day state",
            TollgateError::BaseDenominatedFees => "Base denominated fees are not allowed",
            TollgateError::CannotStartNewDay => "Cannot start a new day yet",
            TollgateError::CannotContinueSameDay => "Cannot continue the same day",
            TollgateError::CannotCloseDay => "Cannot close the day yet",
            TollgateError::InvalidInvestors => "The provided investor count is invalid or zero",
            TollgateError::InvalidInvestorFeeShareBps => "The provided investor fee share BPS is invalid or out of range",
            TollgateError::InvalidMinPayoutLamports => "The provided minimum payout lamports is invalid",
            TollgateError::InvalidDailyCap => "The provided daily cap is invalid",
            TollgateError::InvalidY0Allocation => "The provided Y0 allocation is invalid",
            TollgateError::PaginationCursorTooSmall => "Pagination cursor is too small",
            TollgateError::PaginationCursorTooLarge => "Pagination cursor is too large",
            TollgateError::CursorExceedsInvestors => "Cursor exceeds the number of investors",
            TollgateError::MathOverflow => "An amount does not fit in 64 bits",
            TollgateError::PolicyAlreadyInitialized => "The provided policy has already been initialized",
            TollgateError::ProgressAlreadyInitialized => "The provided progress has already been initialized",
        }
    }
}

} // verus!
