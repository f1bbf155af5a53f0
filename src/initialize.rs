//! Setting up a vault's policy and bookkeeping.

use vstd::prelude::*;

use crate::error::TollgateError;
use crate::key::Key;
use crate::policy::{InitializeParams, Policy};
use crate::pool::{assert_pool, base_quote_mints, base_quote_of, pool_error, PoolConfigState, PoolState};
use crate::progress::{DayState, Progress};

verus! {

/// Why setting up a vault is refused, if it is: the parameters first, then
/// the pool, then records that are already initialized.
pub open spec fn initialize_error(
    policy: Policy,
    progress: Progress,
    quote_mint: Key,
    pool: PoolState,
    pool_cfg: PoolConfigState,
    params: InitializeParams,
) -> Option<TollgateError> {
    let mints = base_quote_of(pool, quote_mint@);
    if params.error_spec() is Some {
        params.error_spec()
    } else if pool_error(pool, pool_cfg, mints.0@, mints.1@) is Some {
        pool_error(pool, pool_cfg, mints.0@, mints.1@)
    } else if policy.is_initialized {
        Some(TollgateError::PolicyAlreadyInitialized)
    } else if progress.last_distribution_ts != 0 {
        Some(TollgateError::ProgressAlreadyInitialized)
    } else {
        None
    }
}

/// Sets up a vault: checks the parameters and the pool, then initializes its
/// policy (whose creator is the pool's) and its bookkeeping. Returns the
/// pool's (base, quote) mints; on an error both records are left as they
/// were.
pub fn initialize(
    policy: &mut Policy,
    progress: &mut Progress,
    vault: Key,
    quote_mint: Key,
    pool: &PoolState,
    pool_cfg: &PoolConfigState,
    params: InitializeParams,
    owner_bump: u8,
    policy_bump: u8,
    progress_bump: u8,
) -> (r: Result<(Key, Key), TollgateError>)
    ensures
        match initialize_error(*old(policy), *old(progress), quote_mint, *pool, *pool_cfg, params) {
            Some(e) => r == Err::<(Key, Key), TollgateError>(e) && *final(policy) == *old(policy)
                && *final(progress) == *old(progress),
            None => {
                &&& r == Ok::<(Key, Key), TollgateError>(base_quote_of(*pool, quote_mint@))
                &&& *final(policy) == (Policy {
                    vault,
                    creator: pool.creator,
                    quote_mint,
                    investor_count: params.investor_count,
                    init_investor_ata: params.init_investor_ata,
                    investor_fee_share_bps: params.investor_fee_share_bps,
                    min_payout_lamports: params.min_payout_lamports,
                    daily_cap: params.daily_cap,
                    y0: params.y0,
                    is_initialized: true,
                    owner_bump,
                    bump: policy_bump,
                })
                &&& final(policy).wf()
                &&& *final(progress) == (Progress {
                    vault,
                    last_distribution_ts: 0,
                    daily_spent: 0,
                    carry: 0,
                    cursor: 0,
                    day_state: DayState::Closed,
                    bump: progress_bump,
                })
            },
        },
{
    params.validate()?;
    let (base_mint, pool_quote_mint) = base_quote_mints(pool, &quote_mint);
    assert_pool(pool, pool_cfg, &base_mint, &pool_quote_mint)?;
    // Refused before the policy is written, so that both records stay as they were.
    if progress.last_distribution_ts != 0 && !policy.is_initialized {
        return Err(TollgateError::ProgressAlreadyInitialized);
    }
    policy.initialize(vault, pool.creator, quote_mint, params, owner_bump, policy_bump)?;
    progress.initialize(vault, progress_bump)?;
    Ok((base_mint, pool_quote_mint))
}

} // verus!
