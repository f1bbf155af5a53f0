//! A vault's configuration and the rules its parameters obey.

use vstd::prelude::*;

use crate::constants::MAX_BPS;
use crate::error::TollgateError;
use crate::key::Key;

verus! {

/// The parameters a vault is set up with.
#[derive(Debug, Clone, Copy, Default)]
pub struct InitializeParams {
    pub investor_count: u32,
    pub init_investor_ata: bool,
    pub investor_fee_share_bps: u16,
    pub min_payout_lamports: u64,
    pub daily_cap: Option<u64>,
    pub y0: u64,
}

/// The first rule among the shared ones (share, payout floor, cap, baseline)
/// that the parameters break, if any.
pub open spec fn params_error(
    investor_fee_share_bps: u16,
    min_payout_lamports: u64,
    daily_cap: Option<u64>,
    y0: u64,
) -> Option<TollgateError> {
    if investor_fee_share_bps > MAX_BPS {
        Some(TollgateError::InvalidInvestorFeeShareBps)
    } else if min_payout_lamports == 0 {
        Some(TollgateError::InvalidMinPayoutLamports)
    } else if daily_cap == Some(0u64) {
        Some(TollgateError::InvalidDailyCap)
    } else if y0 == 0 {
        Some(TollgateError::InvalidY0Allocation)
    } else {
        None
    }
}

impl InitializeParams {
    /// The first rule that the parameters break, if any.
    pub open spec fn error_spec(&self) -> Option<TollgateError> {
        if self.investor_count == 0 {
            Some(TollgateError::InvalidInvestors)
        } else {
            params_error(
                self.investor_fee_share_bps,
                self.min_payout_lamports,
                self.daily_cap,
                self.y0,
            )
        }
    }

    /// Checks the parameters: at least one investor, a share of at most
    /// 100%, a positive payout floor, no zero cap and a positive baseline.
    pub fn validate(&self) -> (r: Result<(), TollgateError>)
        ensures
            match self.error_spec() {
                None => r is Ok,
                Some(e) => r == Err::<(), TollgateError>(e),
            },
    {
        if self.investor_count == 0 {
            return Err(TollgateError::InvalidInvestors);
        }
        check_params(
            self.investor_fee_share_bps,
            self.min_payout_lamports,
            self.daily_cap,
            self.y0,
        )
    }
}

fn check_params(
    investor_fee_share_bps: u16,
    min_payout_lamports: u64,
    daily_cap: Option<u64>,
    y0: u64,
) -> (r: Result<(), TollgateError>)
    ensures
        match params_error(investor_fee_share_bps, min_payout_lamports, daily_cap, y0) {
            None => r is Ok,
            Some(e) => r == Err::<(), TollgateError>(e),
        },
{
    if investor_fee_share_bps > MAX_BPS {
        return Err(TollgateError::InvalidInvestorFeeShareBps);
    }
    if min_payout_lamports == 0 {
        return Err(TollgateError::InvalidMinPayoutLamports);
    }
    if let Some(cap) = daily_cap {
        if cap == 0 {
            return Err(TollgateError::InvalidDailyCap);
        }
    }
    if y0 == 0 {
        return Err(TollgateError::InvalidY0Allocation);
    }
    Ok(())
}

/// The configuration of one vault, fixed once it is initialized.
#[derive(Debug, Clone, Copy)]
pub struct Policy {
    pub vault: Key,
    /// Receives what investors are not paid.
    pub creator: Key,
    /// The mint in which fees are distributed.
    pub quote_mint: Key,
    pub investor_count: u32,
    /// Whether missing investor token accounts are created during a crank.
    pub init_investor_ata: bool,
    pub investor_fee_share_bps: u16,
    /// Payouts below this amount are not made.
    pub min_payout_lamports: u64,
    pub daily_cap: Option<u64>,
    /// Investors' total allocation at grant time.
    pub y0: u64,
    pub is_initialized: bool,
    pub owner_bump: u8,
    pub bump: u8,
}

impl Policy {
    /// An initialized policy whose parameters obey the rules.
    pub open spec fn wf(&self) -> bool {
        &&& self.is_initialized
        &&& params_error(
            self.investor_fee_share_bps,
            self.min_payout_lamports,
            self.daily_cap,
            self.y0,
        ) is None
    }

    /// Whether the policy is initialized with parameters that obey the rules.
    pub fn is_well_formed(&self) -> (r: bool)
        ensures
            r == self.wf(),
    {
        self.is_initialized && check_params(
            self.investor_fee_share_bps,
            self.min_payout_lamports,
            self.daily_cap,
            self.y0,
        ).is_ok()
    }

    /// Initializes the policy once, with parameters that obey the rules.
    pub fn initialize(
        &mut self,
        vault: Key,
        creator: Key,
        quote_mint: Key,
        params: InitializeParams,
        owner_bump: u8,
        bump: u8,
    ) -> (r: Result<(), TollgateError>)
        ensures
            old(self).is_initialized ==> r == Err::<(), TollgateError>(
                TollgateError::PolicyAlreadyInitialized,
            ),
            !old(self).is_initialized ==> match params_error(
                params.investor_fee_share_bps,
                params.min_payout_lamports,
                params.daily_cap,
                params.y0,
            ) {
                Some(e) => r == Err::<(), TollgateError>(e),
                None => r is Ok,
            },
            r is Err ==> *final(self) == *old(self),
            r is Ok ==> *final(self) == (Policy {
                vault,
                creator,
                quote_mint,
                investor_count: params.investor_count,
                init_investor_ata: params.init_investor_ata,
                investor_fee_share_bps: params.investor_fee_share_bps,
                min_payout_lamports: params.min_payout_lamports,
                daily_cap: params.daily_cap,
                y0: params.y0,
                is_initialized: true,
                owner_bump,
                bump,
            }),
            r is Ok ==> final(self).wf(),
    {
        if self.is_initialized {
            return Err(TollgateError::PolicyAlreadyInitialized);
        }
        check_params(
            params.investor_fee_share_bps,
            params.min_payout_lamports,
            params.daily_cap,
            params.y0,
        )?;
        self.vault = vault;
        self.creator = creator;
        self.quote_mint = quote_mint;
        self.investor_count = params.investor_count;
        self.init_investor_ata = params.init_investor_ata;
        self.investor_fee_share_bps = params.investor_fee_share_bps;
        self.min_payout_lamports = params.min_payout_lamports;
        self.daily_cap = params.daily_cap;
        self.y0 = params.y0;
        self.is_initialized = true;
        self.owner_bump = owner_bump;
        self.bump = bump;
        Ok(())
    }
}

} // verus!
