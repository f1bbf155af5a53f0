//! What the library reads of the fee-bearing pool, and its checks on it.

use vstd::prelude::*;

use crate::error::TollgateError;
use crate::key::Key;

verus! {

/// What this library reads of the fee-bearing pool's account.
#[derive(Debug, Clone, Copy)]
pub struct PoolState {
    pub token_a_mint: Key,
    pub token_b_mint: Key,
    pub creator: Key,
    pub sqrt_min_price: u128,
    pub sqrt_max_price: u128,
    pub pool_status: u8,
    pub collect_fee_mode: u8,
}

/// What this library reads of the pool's configuration account.
#[derive(Debug, Clone, Copy)]
pub struct PoolConfigState {
    pub collect_fee_mode: u8,
}

/// The fee collection mode in which the pool collects fees in the quote
/// token only.
pub const QUOTE_ONLY_FEE_MODE: u8 = 1;

/// Which of the pool's two tokens a mint is.
#[derive(Debug, Clone, Copy, PartialEq, Eq, Structural)]
pub enum TokenOrder {
    A,
    B,
}

/// The side of the pool that `mint` is, token A first.
pub open spec fn token_order_of(pool: PoolState, mint: Seq<u8>) -> Option<TokenOrder> {
    if mint == pool.token_a_mint@ {
        Some(TokenOrder::A)
    } else if mint == pool.token_b_mint@ {
        Some(TokenOrder::B)
    } else {
        None
    }
}

/// The side of the pool that `mint` is, if it is one of the pool's tokens.
pub fn get_token_order(pool: &PoolState, mint: &Key) -> (r: Option<TokenOrder>)
    ensures
        r == token_order_of(*pool, mint@),
{
    if mint.same_as(&pool.token_a_mint) {
        Some(TokenOrder::A)
    } else if mint.same_as(&pool.token_b_mint) {
        Some(TokenOrder::B)
    } else {
        None
    }
}

/// A loaded pool whose price range is proper and which is enabled.
pub open spec fn valid_pool(pool: Option<PoolState>) -> bool {
    match pool {
        None => false,
        Some(p) => p.sqrt_min_price != 0 && p.sqrt_min_price < p.sqrt_max_price && p.pool_status
            == 0,
    }
}

/// Whether the pool could be loaded, has a proper price range
/// (0 < min < max) and is enabled.
pub fn is_valid_pool(pool: &Option<PoolState>) -> (r: bool)
    ensures
        r == valid_pool(*pool),
{
    match pool {
        None => false,
        Some(p) => {
            if p.sqrt_min_price == 0 || p.sqrt_max_price <= p.sqrt_min_price {
                return false;
            }
            if p.pool_status != 0 {
                return false;
            }
            true
        },
    }
}

/// Whether the pool configuration could be loaded.
pub fn is_valid_pool_cfg(pool_cfg: &Option<PoolConfigState>) -> (r: bool)
    ensures
        r == pool_cfg.is_some(),
{
    pool_cfg.is_some()
}

/// The first rule that the pool and its configuration break for the given
/// base and quote mints, if any.
pub open spec fn pool_error(
    pool: PoolState,
    pool_cfg: PoolConfigState,
    base_mint: Seq<u8>,
    quote_mint: Seq<u8>,
) -> Option<TollgateError> {
    if token_order_of(pool, base_mint) is None {
        Some(TollgateError::BaseMintNotInPool)
    } else if token_order_of(pool, quote_mint) is None {
        Some(TollgateError::QuoteMintNotInPool)
    } else if token_order_of(pool, base_mint) == token_order_of(pool, quote_mint) {
        Some(TollgateError::BaseAndQuoteMintsAreSame)
    } else if pool.collect_fee_mode != QUOTE_ONLY_FEE_MODE {
        Some(TollgateError::PoolNotQuoteOnlyFees)
    } else if pool_cfg.collect_fee_mode != QUOTE_ONLY_FEE_MODE {
        Some(TollgateError::PoolConfigNotQuoteOnlyFees)
    } else {
        None
    }
}

/// Checks that both mints are distinct tokens of the pool and that the pool
/// and its configuration collect fees in the quote token only.
pub fn assert_pool(
    pool: &PoolState,
    pool_cfg: &PoolConfigState,
    base_mint: &Key,
    quote_mint: &Key,
) -> (r: Result<(), TollgateError>)
    ensures
        match pool_error(*pool, *pool_cfg, base_mint@, quote_mint@) {
            None => r is Ok,
            Some(e) => r == Err::<(), TollgateError>(e),
        },
{
    let base_token_order = get_token_order(pool, base_mint);
    let quote_token_order = get_token_order(pool, quote_mint);
    if base_token_order.is_none() {
        return Err(TollgateError::BaseMintNotInPool);
    }
    if quote_token_order.is_none() {
        return Err(TollgateError::QuoteMintNotInPool);
    }
    if base_token_order == quote_token_order {
        return Err(TollgateError::BaseAndQuoteMintsAreSame);
    }
    if pool.collect_fee_mode != QUOTE_ONLY_FEE_MODE {
        return Err(TollgateError::PoolNotQuoteOnlyFees);
    }
    if pool_cfg.collect_fee_mode != QUOTE_ONLY_FEE_MODE {
        return Err(TollgateError::PoolConfigNotQuoteOnlyFees);
    }
    Ok(())
}

/// The pool's (base, quote) mints when `quote_mint` names the quote token:
/// token A is the quote token when it is `quote_mint`, else token B is.
pub open spec fn base_quote_of(pool: PoolState, quote_mint: Seq<u8>) -> (Key, Key) {
    if quote_mint == pool.token_a_mint@ {
        (pool.token_b_mint, pool.token_a_mint)
    } else {
        (pool.token_a_mint, pool.token_b_mint)
    }
}

/// Splits the pool's mints into (base, quote) for the given quote mint.
pub fn base_quote_mints(pool: &PoolState, quote_mint: &Key) -> (r: (Key, Key))
    ensures
        r == base_quote_of(*pool, quote_mint@),
{
    if quote_mint.same_as(&pool.token_a_mint) {
        (pool.token_b_mint, pool.token_a_mint)
    } else {
        (pool.token_a_mint, pool.token_b_mint)
    }
}

} // verus!
