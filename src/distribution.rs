//! The pro-rata arithmetic: locked amounts, the eligible share, the
//! investors' fee quote and each investor's part of it.

use vstd::prelude::*;

use crate::constants::MAX_BPS;

verus! {

/// The sum of a sequence of amounts.
pub open spec fn sum_of(s: Seq<u64>) -> int
    decreases s.len(),
{
    if s.len() == 0 {
        0
    } else {
        sum_of(s.drop_last()) + s.last()
    }
}

/// `a - b`, or 0 where `b` exceeds `a`.
pub open spec fn sat_sub(a: u64, b: u64) -> u64 {
    if a >= b {
        (a - b) as u64
    } else {
        0
    }
}

/// `a + b`, or the largest u64 where the sum exceeds it.
pub open spec fn sat_add(a: u64, b: u64) -> u64 {
    if a + b <= u64::MAX {
        (a + b) as u64
    } else {
        u64::MAX
    }
}

/// The part of a deposit that has not vested: what was deposited less what
/// can be claimed now, and 0 where more can be claimed than was deposited.
pub open spec fn locked_of(net_deposited: u64, available: u64) -> u64 {
    sat_sub(net_deposited, available)
}

/// Fraction of the grant-time allocation still locked, in basis points
/// (truncated).
pub open spec fn locked_fraction_bps(locked_total: int, y0: int) -> int {
    locked_total * (MAX_BPS as int) / y0
}

/// The investors' share of the day's fees in basis points: the configured
/// share, capped by the fraction still locked.
pub open spec fn eligible_bps_of(investor_fee_share_bps: int, locked_total: int, y0: int) -> int {
    if investor_fee_share_bps <= locked_fraction_bps(locked_total, y0) {
        investor_fee_share_bps
    } else {
        locked_fraction_bps(locked_total, y0)
    }
}

/// What the investors of a page may receive in total (truncated).
pub open spec fn investor_fee_quote_of(distributable: int, eligible_bps: int) -> int {
    distributable * eligible_bps / (MAX_BPS as int)
}

/// One investor's pro-rata part of `investor_fee_quote` (truncated); nothing
/// where nothing is locked.
pub open spec fn investor_share_of(investor_fee_quote: int, locked: int, locked_total: int) -> int {
    if locked_total > 0 {
        investor_fee_quote * locked / locked_total
    } else {
        0
    }
}

/// The product of two u64 values fits in a u128.
proof fn lemma_u64_product(a: u64, b: u64)
    ensures
        0 <= a * b <= u64::MAX * u64::MAX,
        u64::MAX * u64::MAX < u128::MAX,
{
    assert(0 <= a * b <= u64::MAX * u64::MAX) by (nonlinear_arith);
}

/// The locked part of a vesting deposit at the current time.
pub fn locked_amount(net_deposited: u64, available: u64) -> (r: u64)
    ensures
        r == locked_of(net_deposited, available),
{
    net_deposited.saturating_sub(available)
}

/// The investors' share in basis points: `min(investor_fee_share_bps,
/// locked_total * 10000 / y0)`.
pub fn eligible_bps(investor_fee_share_bps: u16, locked_total: u128, y0: u64) -> (r: u64)
    requires
        y0 > 0,
    ensures
        r == eligible_bps_of(investor_fee_share_bps as int, locked_total as int, y0 as int),
        r <= investor_fee_share_bps,
        r <= locked_fraction_bps(locked_total as int, y0 as int),
{
    let share = investor_fee_share_bps as u64;
    if locked_total / (y0 as u128) >= 7 {
        // The fraction is at least 70000 bps, above any u16 share.
        proof {
            let q = (locked_total as int) / (y0 as int);
            assert((locked_total as int) * 10000 / (y0 as int) >= 70000) by (nonlinear_arith)
                requires
                    q == (locked_total as int) / (y0 as int),
                    q >= 7,
                    y0 > 0,
                    locked_total >= 0,
            ;
        }
        return share;
    }
    proof {
        assert(locked_total < 7 * y0) by (nonlinear_arith)
            requires
                (locked_total as int) / (y0 as int) < 7,
                y0 > 0,
                locked_total >= 0,
        ;
    }
    let f_locked: u128 = locked_total * (MAX_BPS as u128) / (y0 as u128);
    if (share as u128) <= f_locked {
        share
    } else {
        f_locked as u64
    }
}

/// `distributable * eligible_bps / 10000`, at most `distributable`.
pub fn investor_fee_quote(distributable: u64, eligible_bps: u64) -> (r: u64)
    requires
        eligible_bps <= MAX_BPS,
    ensures
        r == investor_fee_quote_of(distributable as int, eligible_bps as int),
        r <= distributable,
{
    proof {
        lemma_u64_product(distributable, eligible_bps);
    }
    let product: u128 = (distributable as u128) * (eligible_bps as u128);
    proof {
        assert(product <= distributable * 10000) by (nonlinear_arith)
            requires
                product == distributable * eligible_bps,
                eligible_bps <= 10000,
        ;
        assert(product / 10000 <= distributable) by (nonlinear_arith)
            requires
                product <= distributable * 10000,
        ;
    }
    (product / (MAX_BPS as u128)) as u64
}

/// One investor's share: `investor_fee_quote * locked / locked_total`, or 0
/// where `locked_total` is 0.
pub fn investor_share(investor_fee_quote: u64, locked: u64, locked_total: u128) -> (r: u64)
    requires
        locked <= locked_total,
    ensures
        r == investor_share_of(investor_fee_quote as int, locked as int, locked_total as int),
        r <= investor_fee_quote,
{
    if locked_total == 0 {
        return 0;
    }
    proof {
        lemma_u64_product(investor_fee_quote, locked);
    }
    let product: u128 = (investor_fee_quote as u128) * (locked as u128);
    let r = product / locked_total;
    proof {
        assert(r <= investor_fee_quote) by (nonlinear_arith)
            requires
                product == investor_fee_quote * locked,
                locked <= locked_total,
                locked_total > 0,
                r == product / locked_total,
        ;
    }
    r as u64
}

/// `a * b <= c * b` with `b > 0` gives `a <= c`.
proof fn lemma_cancel_factor(a: int, b: int, c: int)
    requires
        b > 0,
        a * b <= c * b,
    ensures
        a <= c,
{
    assert(a <= c) by (nonlinear_arith)
        requires
            b > 0,
            a * b <= c * b,
    ;
}

/// Amounts that each take at most their pro-rata part of `total_quote`, by
/// weights that sum to `weight_total`, sum to at most `total_quote` times the
/// weights' sum over `weight_total`.
proof fn lemma_prorata_scaled(payouts: Seq<u64>, weights: Seq<u64>, total_quote: int, weight_total: int)
    requires
        payouts.len() == weights.len(),
        weight_total > 0,
        total_quote >= 0,
        forall|i: int|
            0 <= i < payouts.len() ==> payouts[i] <= investor_share_of(
                total_quote,
                weights[i] as int,
                weight_total,
            ),
    ensures
        sum_of(payouts) * weight_total <= total_quote * sum_of(weights),
    decreases payouts.len(),
{
    if payouts.len() > 0 {
        let n = payouts.len() - 1;
        lemma_prorata_scaled(payouts.drop_last(), weights.drop_last(), total_quote, weight_total);
        let p = payouts[n] as int;
        let w = weights[n] as int;
        let sp = sum_of(payouts.drop_last());
        let sw = sum_of(weights.drop_last());
        assert(p <= total_quote * w / weight_total);
        assert(p * weight_total <= total_quote * w) by (nonlinear_arith)
            requires
                p <= total_quote * w / weight_total,
                weight_total > 0,
                total_quote >= 0,
                w >= 0,
        ;
        assert((sp + p) * weight_total <= total_quote * (sw + w)) by (nonlinear_arith)
            requires
                sp * weight_total <= total_quote * sw,
                p * weight_total <= total_quote * w,
        ;
    }
}

/// Sums of longer prefixes are no smaller.
pub proof fn lemma_sum_prefix_monotone(s: Seq<u64>, m: int, n: int)
    requires
        0 <= m <= n <= s.len(),
    ensures
        sum_of(s.take(m)) <= sum_of(s.take(n)),
    decreases n - m,
{
    if m < n {
        lemma_sum_prefix_monotone(s, m, n - 1);
        assert(s.take(n).drop_last() =~= s.take(n - 1));
    }
}

/// Payouts to the first investors of a page, each at most its pro-rata part
/// of `total_quote` by locked amounts, never sum to more than `total_quote`.
pub proof fn lemma_prorata_bounded(payouts: Seq<u64>, weights: Seq<u64>, total_quote: int)
    requires
        payouts.len() <= weights.len(),
        sum_of(weights) > 0,
        total_quote >= 0,
        forall|i: int|
            0 <= i < payouts.len() ==> payouts[i] <= investor_share_of(
                total_quote,
                weights[i] as int,
                sum_of(weights),
            ),
    ensures
        sum_of(payouts) <= total_quote,
{
    let k = payouts.len() as int;
    let t = sum_of(weights);
    lemma_prorata_scaled(payouts, weights.take(k), total_quote, t);
    lemma_sum_prefix_monotone(weights, k, weights.len() as int);
    assert(weights.take(weights.len() as int) =~= weights);
    let sp = sum_of(payouts);
    let sw = sum_of(weights.take(k));
    assert(sp * t <= total_quote * t) by (nonlinear_arith)
        requires
            sp * t <= total_quote * sw,
            sw <= t,
            total_quote >= 0,
    ;
    lemma_cancel_factor(sp, t, total_quote);
}

/// A sum of amounts is never negative.
pub proof fn lemma_sum_nonnegative(s: Seq<u64>)
    ensures
        sum_of(s) >= 0,
    decreases s.len(),
{
    if s.len() > 0 {
        lemma_sum_nonnegative(s.drop_last());
    }
}

/// A sum of amounts is at most their number times the largest u64.
pub proof fn lemma_sum_bounded(s: Seq<u64>)
    ensures
        sum_of(s) <= s.len() * u64::MAX,
    decreases s.len(),
{
    if s.len() > 0 {
        lemma_sum_bounded(s.drop_last());
    }
}

} // verus!
