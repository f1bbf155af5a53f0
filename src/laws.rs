//! Properties that hold of every crank and of every sequence of cranks.

use vstd::prelude::*;

use crate::crank::{
    capped, crank_model, page_model, quote_order_of, split_fees, CrankInput, CrankOutcome,
    PlanView,
};
use crate::distribution::{
    eligible_bps_of, investor_fee_quote_of, locked_fraction_bps, investor_share_of, lemma_prorata_bounded,
    lemma_sum_nonnegative, sat_add, sat_sub, sum_of,
};
use crate::page::{lockeds_of, payout_of, InvestorEntry};
use crate::policy::Policy;
use crate::progress::{DayState, Progress};

verus! {

/// What a crank transfers out of the holding balance: the stray remainder,
/// the investors' payouts and the creator's payout.
pub open spec fn crank_outflow(plan: PlanView) -> int {
    plan.remainder_to_creator + plan.page_payouts + plan.creator_payout
}

/// The plan moves no funds and claims nothing.
pub open spec fn moves_no_funds(plan: PlanView) -> bool {
    &&& plan.remainder_to_creator == 0
    &&& plan.quote_fee_claimed == 0
    &&& plan.payouts.len() == 0
    &&& plan.page_payouts == 0
    &&& plan.creator_payout == 0
}

/// A sum of zeros is zero.
proof fn lemma_sum_zeros(s: Seq<u64>)
    requires
        forall|i: int| 0 <= i < s.len() ==> s[i] == 0,
    ensures
        sum_of(s) == 0,
    decreases s.len(),
{
    if s.len() > 0 {
        lemma_sum_zeros(s.drop_last());
    }
}

/// The investors of a page are paid at most the investors' fee quote in
/// total.
proof fn lemma_page_paid_bounded(
    page: Seq<InvestorEntry>,
    init_mode: bool,
    init_investor_ata: bool,
    min_payout_lamports: u64,
    fee_quote: u64,
)
    requires
        min_payout_lamports > 0,
    ensures
        sum_of(
            Seq::new(
                page.len(),
                |i: int|
                    payout_of(
                        page[i],
                        lockeds_of(page)[i],
                        init_mode,
                        init_investor_ata,
                        min_payout_lamports,
                        fee_quote,
                        sum_of(lockeds_of(page)),
                    ),
            ),
        ) <= fee_quote,
{
    let lockeds = lockeds_of(page);
    let total = sum_of(lockeds);
    lemma_sum_nonnegative(lockeds);
    let payouts = Seq::new(
        page.len(),
        |i: int|
            payout_of(
                page[i],
                lockeds[i],
                init_mode,
                init_investor_ata,
                min_payout_lamports,
                fee_quote,
                total,
            ),
    );
    if total > 0 {
        assert forall|i: int| 0 <= i < payouts.len() implies payouts[i] <= investor_share_of(
            fee_quote as int,
            lockeds[i] as int,
            total,
        ) by {}
        lemma_prorata_bounded(payouts, lockeds, fee_quote as int);
    } else {
        assert forall|i: int| 0 <= i < payouts.len() implies payouts[i] == 0 by {}
        lemma_sum_zeros(payouts);
    }
}

/// What a page-paying crank pays is bounded by its distributable amount:
/// the investors get at most their fee quote, the creator the rest, and a
/// creator share that is carried is not paid.
proof fn lemma_page_model_bounded(
    policy: Policy,
    p1: Progress,
    page: Seq<InvestorEntry>,
    expected: Seq<Seq<u8>>,
    init_mode: bool,
    day: DayState,
    remainder: u64,
    claimed: u64,
    distributable: u64,
)
    requires
        policy.wf(),
    ensures
        page_model(policy, p1, page, expected, init_mode, day, remainder, claimed, distributable)
            is Ok ==> {
            let (p2, plan) = page_model(
                policy,
                p1,
                page,
                expected,
                init_mode,
                day,
                remainder,
                claimed,
                distributable,
            )->Ok_0;
            &&& plan.page_payouts <= plan.investor_fee_quote
            &&& plan.investor_fee_quote == investor_fee_quote_of(
                distributable as int,
                plan.eligible_bps as int,
            )
            &&& plan.distributable == distributable
            &&& p2.carry + plan.page_payouts + plan.creator_payout <= distributable
            &&& plan.remainder_to_creator == remainder
            &&& plan.quote_fee_claimed == claimed
            &&& p2.daily_spent == p1.daily_spent + plan.page_payouts
            &&& p2.cursor == p1.cursor + page.len()
            &&& p2.cursor <= policy.investor_count
            &&& p2.last_distribution_ts == p1.last_distribution_ts
            &&& (p2.day_state == p1.day_state || p2.day_state == DayState::Closed)
            &&& (plan.outcome == CrankOutcome::PageProcessed || plan.outcome
                == CrankOutcome::DayClosed)
            &&& plan.eligible_bps <= policy.investor_fee_share_bps
            &&& plan.eligible_bps <= locked_fraction_bps(plan.locked_total, policy.y0 as int)
        },
{
    let lockeds = lockeds_of(page);
    let total = sum_of(lockeds);
    if page_model(policy, p1, page, expected, init_mode, day, remainder, claimed, distributable)
        is Ok {
        let eligible = eligible_bps_of(
            policy.investor_fee_share_bps as int,
            total,
            policy.y0 as int,
        );
        lemma_sum_nonnegative(lockeds);
        assert(0 <= eligible <= 10000) by (nonlinear_arith)
            requires
                eligible == eligible_bps_of(
                    policy.investor_fee_share_bps as int,
                    total,
                    policy.y0 as int,
                ),
                policy.investor_fee_share_bps <= 10000,
                total >= 0,
                policy.y0 > 0,
        ;
        let ifq = investor_fee_quote_of(distributable as int, eligible);
        assert(0 <= ifq <= distributable) by (nonlinear_arith)
            requires
                ifq == distributable * eligible / 10000,
                0 <= eligible <= 10000,
                distributable >= 0,
        ;
        lemma_page_paid_bounded(
            page,
            init_mode,
            policy.init_investor_ata,
            policy.min_payout_lamports,
            ifq as u64,
        );
        let plan = page_model(
            policy,
            p1,
            page,
            expected,
            init_mode,
            day,
            remainder,
            claimed,
            distributable,
        )->Ok_0.1;
        assert(plan.payouts =~= Seq::new(
            page.len(),
            |i: int|
                payout_of(
                    page[i],
                    lockeds[i],
                    init_mode,
                    policy.init_investor_ata,
                    policy.min_payout_lamports,
                    ifq as u64,
                    total,
                ),
        ));
        lemma_sum_nonnegative(plan.payouts);
    }
}

/// The figures a crank at the stored cursor works with once its day is
/// decided: the bookkeeping, the day, the remainder, the carry folded in,
/// the claim and the distributable amount.
pub open spec fn day_figures(policy: Policy, p: Progress, input: CrankInput) -> (
    Progress,
    DayState,
    u64,
    u64,
    u64,
) {
    let fees = split_fees(
        quote_order_of(input.pool, policy.quote_mint@),
        input.fee_a_pending,
        input.fee_b_pending,
    );
    if p.is_new_day_spec(input.now) {
        let remainder: u64 = if p.last_distribution_ts != 0 && p.day_state != DayState::New {
            sat_sub(input.holding_balance, p.carry)
        } else {
            0
        };
        let folded = sat_sub(input.holding_balance, sat_sub(input.holding_balance, p.carry));
        let p1 = Progress { carry: 0, ..p.started_at(input.now) };
        (p1, DayState::New, remainder, fees.1, capped(sat_add(fees.1, folded), policy.daily_cap, 0))
    } else {
        (
            Progress { day_state: DayState::Same, ..p },
            DayState::Same,
            0,
            0,
            capped(input.holding_balance, policy.daily_cap, p.daily_spent),
        )
    }
}

/// What every crank keeps: its payouts fit in the balance it began with
/// plus its claim, alongside the carry it leaves where the carry fitted in
/// that balance; the day's spending within a cap it was within; the cursor
/// discipline; the day transitions; and the share bounds.
proof fn lemma_crank_bounds(policy: Policy,
    p: Progress,
    cursor: u32,
    input: CrankInput,
    page: Seq<InvestorEntry>,
    expected: Seq<Seq<u8>>,
    init_mode: bool,
)
    requires
        policy.wf(),
    ensures
        crank_model(policy, p, cursor, input, page, expected, init_mode) is Ok ==> {
            let (p2, plan) = crank_model(policy, p, cursor, input, page, expected, init_mode)->Ok_0;
            &&& crank_outflow(plan) <= input.holding_balance + plan.quote_fee_claimed
            &&& p.carry <= input.holding_balance ==> p2.carry + crank_outflow(plan)
                <= input.holding_balance + plan.quote_fee_claimed
            &&& (policy.daily_cap is Some && p.daily_spent <= policy.daily_cap->0) ==> p2.daily_spent
                <= policy.daily_cap->0
            &&& p.cursor <= policy.investor_count ==> p2.cursor <= policy.investor_count
            &&& !p.is_new_day_spec(input.now) ==> p2.cursor >= p.cursor && p2.daily_spent
                >= p.daily_spent && p2.last_distribution_ts == p.last_distribution_ts
            &&& p.is_new_day_spec(input.now) ==> p2.last_distribution_ts == input.now
                && p2.day_state != DayState::Same && (p2.cursor == 0 || p2.cursor == page.len())
            &&& p2.day_state == DayState::New ==> p.is_new_day_spec(input.now) || p.day_state
                == DayState::New
            &&& (plan.outcome == CrankOutcome::PageProcessed || plan.outcome
                == CrankOutcome::DayClosed) ==> p2.cursor == cursor + page.len()
            &&& plan.eligible_bps <= policy.investor_fee_share_bps
            &&& plan.eligible_bps <= locked_fraction_bps(plan.locked_total, policy.y0 as int)
            &&& plan.page_payouts <= plan.investor_fee_quote
            &&& plan.investor_fee_quote == investor_fee_quote_of(
                plan.distributable as int,
                plan.eligible_bps as int,
            )
        },
{
    let (p1, day, remainder, claimed, distributable) = day_figures(policy, p, input);
    lemma_page_model_bounded(
        policy,
        p1,
        page,
        expected,
        init_mode,
        day,
        remainder,
        claimed,
        distributable,
    );
}

/// Every crank transfers out at most what the vault held when it began plus
/// the fee it claims.
pub proof fn lemma_crank_conserves_funds(policy: Policy,
    p: Progress,
    cursor: u32,
    input: CrankInput,
    page: Seq<InvestorEntry>,
    expected: Seq<Seq<u8>>,
    init_mode: bool,
)
    requires
        policy.wf(),
    ensures
        crank_model(policy, p, cursor, input, page, expected, init_mode) is Ok ==> {
            let plan = crank_model(policy, p, cursor, input, page, expected, init_mode)->Ok_0.1;
            crank_outflow(plan) <= input.holding_balance + plan.quote_fee_claimed
        },
{
    lemma_crank_bounds(policy, p, cursor, input, page, expected, init_mode);
}

/// The effect of a sequence of cranks, each made against the balance the
/// ones before it left: the bookkeeping, the balance, what was transferred
/// out, what was claimed, and whether every crank saw the balance left to
/// it. A refused crank changes nothing.
pub open spec fn run_cranks(
    policy: Policy,
    p0: Progress,
    balance0: int,
    calls: Seq<(u32, CrankInput, Seq<InvestorEntry>, Seq<Seq<u8>>, bool)>,
) -> (Progress, int, int, int, bool)
    decreases calls.len(),
{
    if calls.len() == 0 {
        (p0, balance0, 0, 0, true)
    } else {
        let (p, balance, paid, claimed, consistent) = run_cranks(
            policy,
            p0,
            balance0,
            calls.drop_last(),
        );
        let (cursor, input, page, expected, init_mode) = calls.last();
        let consistent = consistent && input.holding_balance == balance;
        match crank_model(policy, p, cursor, input, page, expected, init_mode) {
            Err(_) => (p, balance, paid, claimed, consistent),
            Ok((p2, plan)) => (
                p2,
                balance + plan.quote_fee_claimed - crank_outflow(plan),
                paid + crank_outflow(plan),
                claimed + plan.quote_fee_claimed,
                consistent,
            ),
        }
    }
}

/// Conservation of funds: over any sequence of cranks, each made against
/// the balance the ones before it left and starting from a carry that the
/// balance holds, everything paid out (remainders, investors, creator) plus
/// the final carry is at most the initial balance plus all fees claimed.
/// The carry stays within the balance, and the payouts plus the balance
/// equal the initial balance plus the fees claimed.
pub proof fn lemma_conservation(
    policy: Policy,
    p0: Progress,
    balance0: u64,
    calls: Seq<(u32, CrankInput, Seq<InvestorEntry>, Seq<Seq<u8>>, bool)>,
)
    requires
        policy.wf(),
        p0.carry <= balance0,
    ensures
        ({
            let (p, balance, paid, claimed, consistent) = run_cranks(
                policy,
                p0,
                balance0 as int,
                calls,
            );
            consistent ==> {
                &&& paid + p.carry <= balance0 + claimed
                &&& p.carry <= balance
                &&& paid + balance == balance0 + claimed
            }
        }),
    decreases calls.len(),
{
    if calls.len() > 0 {
        lemma_conservation(policy, p0, balance0, calls.drop_last());
        let (p, balance, paid, claimed, consistent) = run_cranks(
            policy,
            p0,
            balance0 as int,
            calls.drop_last(),
        );
        let (cursor, input, page, expected, init_mode) = calls.last();
        lemma_crank_bounds(policy, p, cursor, input, page, expected, init_mode);
    }
}

/// Idempotency: replaying a crank on the current day with a cursor behind
/// the stored one changes nothing and moves no funds.
pub proof fn lemma_replay_changes_nothing(policy: Policy,
    p: Progress,
    cursor: u32,
    input: CrankInput,
    page: Seq<InvestorEntry>,
    expected: Seq<Seq<u8>>,
    init_mode: bool,
)
    requires
        policy.wf(),
        cursor < p.cursor,
        !p.is_new_day_spec(input.now),
    ensures
        cursor < policy.investor_count ==> crank_model(policy, p, cursor, input, page, expected, init_mode) is Ok,
        crank_model(policy, p, cursor, input, page, expected, init_mode) is Ok ==> {
            let (p2, plan) = crank_model(policy, p, cursor, input, page, expected, init_mode)->Ok_0;
            p2 == p && moves_no_funds(plan)
        },
{
}

/// Monotonic cursor: within a day the cursor never moves back; it starts
/// again from zero only when a crank begins a new day, whose page then
/// moves it from zero. A cursor within the investor count stays within it,
/// a processed page moves it by the page's size, and within a day the day's
/// spending never decreases either.
pub proof fn lemma_cursor_monotonic(policy: Policy,
    p: Progress,
    cursor: u32,
    input: CrankInput,
    page: Seq<InvestorEntry>,
    expected: Seq<Seq<u8>>,
    init_mode: bool,
)
    requires
        policy.wf(),
    ensures
        crank_model(policy, p, cursor, input, page, expected, init_mode) is Ok ==> {
            let (p2, plan) = crank_model(policy, p, cursor, input, page, expected, init_mode)->Ok_0;
            &&& !p.is_new_day_spec(input.now) ==> p2.cursor >= p.cursor
            &&& p.is_new_day_spec(input.now) ==> p2.cursor == 0 || p2.cursor == page.len()
            &&& p2.cursor < p.cursor ==> p.is_new_day_spec(input.now)
            &&& p.cursor <= policy.investor_count ==> p2.cursor <= policy.investor_count
            &&& (plan.outcome == CrankOutcome::PageProcessed || plan.outcome
                == CrankOutcome::DayClosed) ==> p2.cursor == cursor + page.len()
            &&& !p.is_new_day_spec(input.now) ==> p2.daily_spent >= p.daily_spent
        },
{
    lemma_crank_bounds(policy, p, cursor, input, page, expected, init_mode);
}

/// Cap respected: where a daily cap is set and the day's spending is within
/// it, a crank keeps the day's spending within it.
pub proof fn lemma_cap_respected(policy: Policy,
    p: Progress,
    cursor: u32,
    input: CrankInput,
    page: Seq<InvestorEntry>,
    expected: Seq<Seq<u8>>,
    init_mode: bool,
)
    requires
        policy.wf(),
        policy.daily_cap is Some,
        p.daily_spent <= policy.daily_cap->0,
    ensures
        crank_model(policy, p, cursor, input, page, expected, init_mode) is Ok ==> crank_model(policy, p, cursor, input, page, expected, init_mode)->Ok_0.0.daily_spent
            <= policy.daily_cap->0,
{
    lemma_crank_bounds(policy, p, cursor, input, page, expected, init_mode);
}

/// Share bound: the investors' share used by any crank is at most the
/// configured share, and at most the fraction of the allocation still locked
/// (`locked_total * 10000 / y0`); so what a page pays investors is at most
/// the distributable amount times either of them over 10000.
pub proof fn lemma_share_bound(policy: Policy,
    p: Progress,
    cursor: u32,
    input: CrankInput,
    page: Seq<InvestorEntry>,
    expected: Seq<Seq<u8>>,
    init_mode: bool,
)
    requires
        policy.wf(),
    ensures
        crank_model(policy, p, cursor, input, page, expected, init_mode) is Ok ==> {
            let plan = crank_model(policy, p, cursor, input, page, expected, init_mode)->Ok_0.1;
            let locked_bps = locked_fraction_bps(plan.locked_total, policy.y0 as int);
            &&& plan.eligible_bps <= policy.investor_fee_share_bps
            &&& plan.eligible_bps <= locked_bps
            &&& plan.page_payouts <= plan.distributable * policy.investor_fee_share_bps / 10000
            &&& plan.page_payouts <= plan.distributable * locked_bps / 10000
        },
{
    lemma_crank_bounds(policy, p, cursor, input, page, expected, init_mode);
    if crank_model(policy, p, cursor, input, page, expected, init_mode) is Ok {
        let plan = crank_model(policy, p, cursor, input, page, expected, init_mode)->Ok_0.1;
        let d = plan.distributable as int;
        let e = plan.eligible_bps as int;
        let s = policy.investor_fee_share_bps as int;
        let f = locked_fraction_bps(plan.locked_total, policy.y0 as int);
        lemma_div_monotone_factor(d, e, s);
        lemma_div_monotone_factor(d, e, f);
    }
}

/// `d * a / 10000 <= d * b / 10000` where `0 <= a <= b` and `d >= 0`.
proof fn lemma_div_monotone_factor(d: int, a: int, b: int)
    requires
        d >= 0,
        0 <= a <= b,
    ensures
        d * a / 10000 <= d * b / 10000,
{
    assert(d * a <= d * b) by (nonlinear_arith)
        requires
            d >= 0,
            a <= b,
    ;
    assert(d * a / 10000 <= d * b / 10000) by (nonlinear_arith)
        requires
            d * a <= d * b,
    ;
}

/// Day states: a crank that crosses a day boundary begins a new day stamped
/// with the current time and leaves it `New` (or `Closed` where its page
/// settles it); any other crank keeps the day's start, and a day is `New`
/// only where this crank began it or it was already `New`.
pub proof fn lemma_day_transitions(policy: Policy,
    p: Progress,
    cursor: u32,
    input: CrankInput,
    page: Seq<InvestorEntry>,
    expected: Seq<Seq<u8>>,
    init_mode: bool,
)
    requires
        policy.wf(),
    ensures
        crank_model(policy, p, cursor, input, page, expected, init_mode) is Ok ==> {
            let p2 = crank_model(policy, p, cursor, input, page, expected, init_mode)->Ok_0.0;
            &&& p.is_new_day_spec(input.now) ==> p2.last_distribution_ts == input.now
                && p2.day_state != DayState::Same
            &&& !p.is_new_day_spec(input.now) ==> p2.last_distribution_ts
                == p.last_distribution_ts
            &&& p2.day_state == DayState::New ==> p.is_new_day_spec(input.now) || p.day_state
                == DayState::New
        },
{
    lemma_crank_bounds(policy, p, cursor, input, page, expected, init_mode);
}

} // verus!
