//! The crank: the daily-epoch state machine, the fee claim and carry-over,
//! the daily cap, the payout floor, and the day's settlement, stated as
//! `crank_model` and carried out by `crank` and `crank_with_init`.

use vstd::prelude::*;

use crate::distribution::{
    eligible_bps, eligible_bps_of, investor_fee_quote, investor_fee_quote_of, sat_add, sat_sub,
    sum_of,
};
use crate::error::TollgateError;
use crate::key::Key;
use crate::page::{
    compute_page_locked, creates_destination, destinations_for, expected_destinations,
    lockeds_of, page_error, payout_of, process_investor_page, sum_locked, views_of, InvestorEntry,
};
use crate::policy::Policy;
use crate::pool::{base_quote_mints, base_quote_of, get_token_order, token_order_of, PoolState, TokenOrder};
use crate::progress::{DayState, Progress};

verus! {

/// The parameters of one crank.
#[derive(Debug, Clone, Copy, Default)]
pub struct CrankParams {
    /// How many investors of the day the caller believes are processed.
    pub cursor: u32,
}

impl CrankParams {
    /// Checks that the cursor points at one of the `investors`.
    pub fn validate(&self, investors: u32) -> (r: Result<(), TollgateError>)
        ensures
            self.cursor < investors ==> r is Ok,
            self.cursor >= investors ==> r == Err::<(), TollgateError>(
                TollgateError::CursorExceedsInvestors,
            ),
    {
        if self.cursor >= investors {
            return Err(TollgateError::CursorExceedsInvestors);
        }
        Ok(())
    }
}

/// What a crank reads of the world besides the vault's own records.
#[derive(Debug, Clone, Copy)]
pub struct CrankInput {
    /// The current time, in seconds.
    pub now: i64,
    /// The quote balance the vault holds for distribution.
    pub holding_balance: u64,
    /// The pool the fee-bearing position belongs to.
    pub pool: PoolState,
    /// The position's fees pending in the pool's token A.
    pub fee_a_pending: u64,
    /// The position's fees pending in the pool's token B.
    pub fee_b_pending: u64,
}

/// How a crank ended.
#[derive(Debug, Clone, Copy, PartialEq, Eq, Structural)]
pub enum CrankOutcome {
    /// The day is already settled: nothing was done.
    DayAlreadyClosed,
    /// The page was already processed: nothing more was done.
    CursorBehind,
    /// The day's distributable amount is below the payout floor and is held
    /// over as carry.
    CarriedBelowMinimum,
    /// The page was empty.
    NoInvestors,
    /// The page was paid; the day goes on.
    PageProcessed,
    /// The page was paid and was the day's last; the creator was settled.
    DayClosed,
}

/// What one crank decided: the transfers and the claim to make, in the order
/// remainder, claim, investors, creator, and the figures they came from.
#[derive(Debug, Clone)]
pub struct CrankPlan {
    pub outcome: CrankOutcome,
    /// The day state the crank ran in: `New`, `Same`, or `Closed` where the
    /// day was already settled.
    pub day_state: DayState,
    /// Stray balance transferred to the creator before the new day's claim.
    pub remainder_to_creator: u64,
    /// The quote fee claimed from the position (a claim is made where it is
    /// positive).
    pub quote_fee_claimed: u64,
    pub distributable: u64,
    pub locked_total: u128,
    pub eligible_bps: u64,
    pub investor_fee_quote: u64,
    /// The transfer to each investor of the page, 0 where none is made.
    pub payouts: Vec<u64>,
    /// Whether each investor's token account is created first.
    pub creates: Vec<bool>,
    pub page_payouts: u64,
    /// What is left to the creator when the day closes.
    pub creator_share: u64,
    /// The transfer to the creator when the day closes, 0 where its share is
    /// below the payout floor and is carried instead.
    pub creator_payout: u64,
    /// What the day distributed, reported when it closes.
    pub total_distributed: u64,
}

/// A crank's plan as mathematical values.
pub struct PlanView {
    pub outcome: CrankOutcome,
    pub day_state: DayState,
    pub remainder_to_creator: u64,
    pub quote_fee_claimed: u64,
    pub distributable: u64,
    pub locked_total: int,
    pub eligible_bps: u64,
    pub investor_fee_quote: u64,
    pub payouts: Seq<u64>,
    pub creates: Seq<bool>,
    pub page_payouts: u64,
    pub creator_share: u64,
    pub creator_payout: u64,
    pub total_distributed: u64,
}

impl View for CrankPlan {
    type V = PlanView;

    open spec fn view(&self) -> PlanView {
        PlanView {
            outcome: self.outcome,
            day_state: self.day_state,
            remainder_to_creator: self.remainder_to_creator,
            quote_fee_claimed: self.quote_fee_claimed,
            distributable: self.distributable,
            locked_total: self.locked_total as int,
            eligible_bps: self.eligible_bps,
            investor_fee_quote: self.investor_fee_quote,
            payouts: self.payouts@,
            creates: self.creates@,
            page_payouts: self.page_payouts,
            creator_share: self.creator_share,
            creator_payout: self.creator_payout,
            total_distributed: self.total_distributed,
        }
    }
}

/// A plan that pays no investor.
pub open spec fn plan_without_page(
    outcome: CrankOutcome,
    day_state: DayState,
    remainder_to_creator: u64,
    quote_fee_claimed: u64,
    distributable: u64,
) -> PlanView {
    PlanView {
        outcome,
        day_state,
        remainder_to_creator,
        quote_fee_claimed,
        distributable,
        locked_total: 0,
        eligible_bps: 0,
        investor_fee_quote: 0,
        payouts: Seq::empty(),
        creates: Seq::empty(),
        page_payouts: 0,
        creator_share: 0,
        creator_payout: 0,
        total_distributed: 0,
    }
}

/// The pending fees as (base, quote) when the quote token is on side `order`.
pub open spec fn split_fees(order: TokenOrder, fee_a: u64, fee_b: u64) -> (u64, u64) {
    match order {
        TokenOrder::A => (fee_b, fee_a),
        TokenOrder::B => (fee_a, fee_b),
    }
}

/// The side of the pool that holds the quote token.
pub open spec fn quote_order_of(pool: PoolState, quote_mint: Seq<u8>) -> TokenOrder {
    token_order_of(pool, base_quote_of(pool, quote_mint).1@)->0
}

/// `distributable`, capped by what is left of the daily cap, if one is set.
pub open spec fn capped(distributable: u64, daily_cap: Option<u64>, daily_spent: u64) -> u64 {
    match daily_cap {
        None => distributable,
        Some(cap) => if distributable <= sat_sub(cap, daily_spent) {
            distributable
        } else {
            sat_sub(cap, daily_spent)
        },
    }
}

/// A whole crank: the bookkeeping after it and its plan, or its error.
///
/// Whenever a day boundary has been crossed, the crank begins a new day: the
/// cursor and the day's spending restart from zero and the carry is folded
/// into the new day's distributable. A crank whose cursor is behind the
/// stored one on the current day changes nothing.
pub open spec fn crank_model(
    policy: Policy,
    p: Progress,
    cursor: u32,
    input: CrankInput,
    page: Seq<InvestorEntry>,
    expected: Seq<Seq<u8>>,
    init_mode: bool,
) -> Result<(Progress, PlanView), TollgateError> {
    if cursor >= policy.investor_count {
        Err(TollgateError::CursorExceedsInvestors)
    } else if p.is_new_day_spec(input.now) {
        let remainder: u64 = if p.last_distribution_ts != 0 && p.day_state != DayState::New {
            sat_sub(input.holding_balance, p.carry)
        } else {
            0
        };
        let folded = sat_sub(input.holding_balance, sat_sub(input.holding_balance, p.carry));
        if cursor > 0 {
            Err(TollgateError::PaginationCursorTooLarge)
        } else {
            day_model(
                policy,
                Progress { carry: 0, ..p.started_at(input.now) },
                input,
                page,
                expected,
                init_mode,
                DayState::New,
                remainder,
                folded,
            )
        }
    } else if p.day_state == DayState::Closed {
        Ok((p, plan_without_page(CrankOutcome::DayAlreadyClosed, DayState::Closed, 0, 0, 0)))
    } else if cursor < p.cursor {
        Ok((p, plan_without_page(CrankOutcome::CursorBehind, DayState::Same, 0, 0, 0)))
    } else if cursor > p.cursor {
        Err(TollgateError::PaginationCursorTooLarge)
    } else {
        day_model(
            policy,
            Progress { day_state: DayState::Same, ..p },
            input,
            page,
            expected,
            init_mode,
            DayState::Same,
            0,
            0,
        )
    }
}

/// A crank at the stored cursor once its day is decided: the claim and the
/// carry folded in on a new day, the cap, the payout floor, then the page.
pub open spec fn day_model(
    policy: Policy,
    p1: Progress,
    input: CrankInput,
    page: Seq<InvestorEntry>,
    expected: Seq<Seq<u8>>,
    init_mode: bool,
    day: DayState,
    remainder: u64,
    folded: u64,
) -> Result<(Progress, PlanView), TollgateError> {
    let fees = split_fees(
        quote_order_of(input.pool, policy.quote_mint@),
        input.fee_a_pending,
        input.fee_b_pending,
    );
    let claimed: u64 = if day == DayState::New {
        fees.1
    } else {
        0
    };
    let uncapped = if day == DayState::New {
        sat_add(fees.1, folded)
    } else {
        input.holding_balance
    };
    let distributable = capped(uncapped, policy.daily_cap, p1.daily_spent);
    if day == DayState::New && fees.0 != 0 {
        Err(TollgateError::BaseDenominatedFees)
    } else if day == DayState::New && distributable < policy.min_payout_lamports {
        Ok(
            (
                Progress { carry: distributable, ..p1 },
                plan_without_page(
                    CrankOutcome::CarriedBelowMinimum,
                    day,
                    remainder,
                    claimed,
                    distributable,
                ),
            ),
        )
    } else if page.len() == 0 {
        Ok(
            (
                p1,
                plan_without_page(
                    CrankOutcome::NoInvestors,
                    day,
                    remainder,
                    claimed,
                    distributable,
                ),
            ),
        )
    } else {
        page_model(policy, p1, page, expected, init_mode, day, remainder, claimed, distributable)
    }
}

/// A crank that pays a non-empty page, and closes the day where the page is
/// its last. The page is paid from the holding balance, which holds any
/// carry, so the carry is spent; a creator share below the payout floor at
/// the day's close becomes the new carry.
pub open spec fn page_model(
    policy: Policy,
    p1: Progress,
    page: Seq<InvestorEntry>,
    expected: Seq<Seq<u8>>,
    init_mode: bool,
    day: DayState,
    remainder: u64,
    claimed: u64,
    distributable: u64,
) -> Result<(Progress, PlanView), TollgateError> {
    let n = page.len();
    let lockeds = lockeds_of(page);
    let total = sum_of(lockeds);
    let eligible = eligible_bps_of(policy.investor_fee_share_bps as int, total, policy.y0 as int);
    let ifq = investor_fee_quote_of(distributable as int, eligible) as u64;
    let payouts = Seq::new(
        n,
        |i: int|
            payout_of(
                page[i],
                lockeds[i],
                init_mode,
                policy.init_investor_ata,
                policy.min_payout_lamports,
                ifq,
                total,
            ),
    );
    let creates = Seq::new(
        n,
        |i: int| creates_destination(page[i], init_mode, policy.init_investor_ata),
    );
    let paid = sum_of(payouts);
    if p1.cursor + n > policy.investor_count {
        Err(TollgateError::CursorExceedsInvestors)
    } else if page_error(page, expected, init_mode, n as int) is Some {
        Err(page_error(page, expected, init_mode, n as int)->0)
    } else if p1.daily_spent + paid > u64::MAX {
        Err(TollgateError::MathOverflow)
    } else {
        let p2 = Progress {
            daily_spent: (p1.daily_spent + paid) as u64,
            cursor: (p1.cursor + n) as u32,
            carry: 0,
            ..p1
        };
        let plan = PlanView {
            outcome: CrankOutcome::PageProcessed,
            day_state: day,
            remainder_to_creator: remainder,
            quote_fee_claimed: claimed,
            distributable,
            locked_total: total,
            eligible_bps: eligible as u64,
            investor_fee_quote: ifq,
            payouts,
            creates,
            page_payouts: paid as u64,
            creator_share: 0,
            creator_payout: 0,
            total_distributed: 0,
        };
        if p2.cursor < policy.investor_count {
            Ok((p2, plan))
        } else {
            let creator_share = (distributable - ifq) as u64;
            let total_distributed = sat_add(distributable, p1.daily_spent);
            if creator_share >= policy.min_payout_lamports {
                Ok(
                    (
                        Progress { day_state: DayState::Closed, ..p2 },
                        PlanView {
                            outcome: CrankOutcome::DayClosed,
                            creator_share,
                            creator_payout: creator_share,
                            total_distributed,
                            ..plan
                        },
                    ),
                )
            } else {
                Ok(
                    (
                        Progress { day_state: DayState::Closed, carry: creator_share, ..p2 },
                        PlanView {
                            outcome: CrankOutcome::DayClosed,
                            creator_share,
                            creator_payout: 0,
                            total_distributed,
                            ..plan
                        },
                    ),
                )
            }
        }
    }
}

/// How many investors the accounts of a page describe: each investor takes
/// two accounts (vesting record, token account), or three where missing
/// token accounts may be created (the investor's own account first).
pub fn page_size_of(account_count: usize, init_mode: bool) -> (r: Result<usize, TollgateError>)
    ensures
        ({
            let stride: int = if init_mode {
                3
            } else {
                2
            };
            &&& (account_count as int) % stride == 0 ==> r == Ok::<usize, TollgateError>(
                ((account_count as int) / stride) as usize,
            )
            &&& (account_count as int) % stride != 0 ==> r == Err::<usize, TollgateError>(
                TollgateError::InvalidInvestorAccounts,
            )
        }),
{
    let stride: usize = if init_mode {
        3
    } else {
        2
    };
    if account_count % stride != 0 {
        return Err(TollgateError::InvalidInvestorAccounts);
    }
    Ok(account_count / stride)
}

/// Splits the pending fees into (base, quote) and refuses any base fee; the
/// quote fee is what the claim collects.
fn claim_position_fees(quote_token_order: TokenOrder, fee_a_pending: u64, fee_b_pending: u64) -> (r:
    Result<u64, TollgateError>)
    ensures
        split_fees(quote_token_order, fee_a_pending, fee_b_pending).0 != 0 ==> r == Err::<
            u64,
            TollgateError,
        >(TollgateError::BaseDenominatedFees),
        split_fees(quote_token_order, fee_a_pending, fee_b_pending).0 == 0 ==> r == Ok::<
            u64,
            TollgateError,
        >(split_fees(quote_token_order, fee_a_pending, fee_b_pending).1),
{
    let (base_fee, quote_fee) = match quote_token_order {
        TokenOrder::A => (fee_b_pending, fee_a_pending),
        TokenOrder::B => (fee_a_pending, fee_b_pending),
    };
    if base_fee != 0 {
        return Err(TollgateError::BaseDenominatedFees);
    }
    Ok(quote_fee)
}

/// Caps the distributable amount by what is left of the daily cap.
pub fn apply_daily_cap(distributable: u64, daily_cap: Option<u64>, daily_spent: u64) -> (r: u64)
    ensures
        r == capped(distributable, daily_cap, daily_spent),
{
    match daily_cap {
        None => distributable,
        Some(cap) => {
            let remaining_cap = cap.saturating_sub(daily_spent);
            if distributable <= remaining_cap {
                distributable
            } else {
                remaining_cap
            }
        },
    }
}

fn empty_plan(
    outcome: CrankOutcome,
    day_state: DayState,
    remainder_to_creator: u64,
    quote_fee_claimed: u64,
    distributable: u64,
) -> (r: CrankPlan)
    ensures
        r@ == plan_without_page(
            outcome,
            day_state,
            remainder_to_creator,
            quote_fee_claimed,
            distributable,
        ),
{
    let r = CrankPlan {
        outcome,
        day_state,
        remainder_to_creator,
        quote_fee_claimed,
        distributable,
        locked_total: 0,
        eligible_bps: 0,
        investor_fee_quote: 0,
        payouts: Vec::new(),
        creates: Vec::new(),
        page_payouts: 0,
        creator_share: 0,
        creator_payout: 0,
        total_distributed: 0,
    };
    assert(r@.payouts =~= Seq::<u64>::empty());
    assert(r@.creates =~= Seq::<bool>::empty());
    r
}

/// Pays a non-empty page and, where it is the day's last, settles the
/// creator and closes the day.
fn settle_page(
    policy: &Policy,
    progress: &mut Progress,
    page: &Vec<InvestorEntry>,
    expected: &Vec<Key>,
    init_mode: bool,
    day: DayState,
    remainder: u64,
    claimed: u64,
    distributable: u64,
) -> (r: Result<CrankPlan, TollgateError>)
    requires
        policy.wf(),
        expected.len() == page.len(),
        page.len() > 0,
        old(progress).cursor < policy.investor_count,
        old(progress).day_state != DayState::Closed,
    ensures
        match page_model(
            *policy,
            *old(progress),
            page@,
            views_of(expected@),
            init_mode,
            day,
            remainder,
            claimed,
            distributable,
        ) {
            Err(e) => r == Err::<CrankPlan, TollgateError>(e) && *final(progress) == *old(progress),
            Ok((p, plan)) => r is Ok && r->Ok_0@ == plan && *final(progress) == p,
        },
{
    let n = page.len();
    if n > (policy.investor_count - progress.cursor) as usize {
        return Err(TollgateError::CursorExceedsInvestors);
    }
    let locked_per = compute_page_locked(page);
    let locked_total = sum_locked(&locked_per);
    let eligible = eligible_bps(policy.investor_fee_share_bps, locked_total, policy.y0);
    let fee_quote = investor_fee_quote(distributable, eligible);
    let paid = process_investor_page(
        page,
        expected,
        &locked_per,
        locked_total,
        fee_quote,
        policy.min_payout_lamports,
        policy.init_investor_ata,
        init_mode,
    )?;
    let page_payouts = paid.total;
    assert(paid.payouts@ =~= Seq::new(
        n as nat,
        |i: int|
            payout_of(
                page@[i],
                lockeds_of(page@)[i],
                init_mode,
                policy.init_investor_ata,
                policy.min_payout_lamports,
                fee_quote,
                locked_total as int,
            ),
    ));
    assert(paid.creates@ =~= Seq::new(
        n as nat,
        |i: int| creates_destination(page@[i], init_mode, policy.init_investor_ata),
    ));
    if progress.daily_spent > u64::MAX - page_payouts {
        return Err(TollgateError::MathOverflow);
    }
    let mut next = *progress;
    next.daily_spent = progress.daily_spent + page_payouts;
    next.cursor = progress.cursor + n as u32;
    next.carry = 0;
    let mut outcome = CrankOutcome::PageProcessed;
    let mut creator_share: u64 = 0;
    let mut creator_payout: u64 = 0;
    let mut total_distributed: u64 = 0;
    if next.cursor >= policy.investor_count {
        creator_share = distributable - fee_quote;
        total_distributed = distributable.saturating_add(
            next.daily_spent.saturating_sub(page_payouts),
        );
        if creator_share >= policy.min_payout_lamports {
            creator_payout = creator_share;
        } else {
            next.carry = creator_share;
        }
        next.close_day()?;
        outcome = CrankOutcome::DayClosed;
    }
    *progress = next;
    Ok(
        CrankPlan {
            outcome,
            day_state: day,
            remainder_to_creator: remainder,
            quote_fee_claimed: claimed,
            distributable,
            locked_total,
            eligible_bps: eligible,
            investor_fee_quote: fee_quote,
            payouts: paid.payouts,
            creates: paid.creates,
            page_payouts,
            creator_share,
            creator_payout,
            total_distributed,
        },
    )
}

/// A crank at the stored cursor once its day is decided: the claim on a
/// new day, the cap and the payout floor, then the page.
fn run_day(
    policy: &Policy,
    progress: &mut Progress,
    input: &CrankInput,
    page: &Vec<InvestorEntry>,
    expected: &Vec<Key>,
    init_mode: bool,
    day: DayState,
    remainder: u64,
    folded: u64,
) -> (r: Result<CrankPlan, TollgateError>)
    requires
        policy.wf(),
        expected.len() == page.len(),
        old(progress).cursor < policy.investor_count,
        old(progress).day_state != DayState::Closed,
    ensures
        match day_model(
            *policy,
            *old(progress),
            *input,
            page@,
            views_of(expected@),
            init_mode,
            day,
            remainder,
            folded,
        ) {
            Err(e) => r == Err::<CrankPlan, TollgateError>(e) && *final(progress) == *old(progress),
            Ok((p, plan)) => r is Ok && r->Ok_0@ == plan && *final(progress) == p,
        },
{
    let (base_mint, quote_mint) = base_quote_mints(&input.pool, &policy.quote_mint);
    let base_token_order = get_token_order(&input.pool, &base_mint);
    let quote_token_order = get_token_order(&input.pool, &quote_mint);
    let quote_token_order = match (base_token_order, quote_token_order) {
        (None, _) => {
            return Err(TollgateError::BaseMintNotInPool);
        },
        (_, None) => {
            return Err(TollgateError::QuoteMintNotInPool);
        },
        (Some(_), Some(order)) => order,
    };
    let mut claimed: u64 = 0;
    let uncapped = if day == DayState::New {
        let quote_fee = claim_position_fees(
            quote_token_order,
            input.fee_a_pending,
            input.fee_b_pending,
        )?;
        claimed = quote_fee;
        quote_fee.saturating_add(folded)
    } else {
        input.holding_balance
    };
    let distributable = apply_daily_cap(uncapped, policy.daily_cap, progress.daily_spent);
    if day == DayState::New && distributable < policy.min_payout_lamports {
        progress.carry = distributable;
        return Ok(
            empty_plan(
                CrankOutcome::CarriedBelowMinimum,
                day,
                remainder,
                claimed,
                distributable,
            ),
        );
    }
    if page.len() == 0 {
        return Ok(empty_plan(CrankOutcome::NoInvestors, day, remainder, claimed, distributable));
    }
    settle_page(
        policy,
        progress,
        page,
        expected,
        init_mode,
        day,
        remainder,
        claimed,
        distributable,
    )
}

/// One crank against the canonical token accounts given in `expected` (one
/// per investor of the page): decides the day, then pays the page as
/// `crank_model` states. On an error the bookkeeping is left as it was.
pub fn shared_crank_logic(
    policy: &Policy,
    progress: &mut Progress,
    params: &CrankParams,
    input: &CrankInput,
    page: &Vec<InvestorEntry>,
    expected: &Vec<Key>,
    init_mode: bool,
) -> (r: Result<CrankPlan, TollgateError>)
    requires
        policy.wf(),
        expected.len() == page.len(),
    ensures
        match crank_model(
            *policy,
            *old(progress),
            params.cursor,
            *input,
            page@,
            views_of(expected@),
            init_mode,
        ) {
            Err(e) => r == Err::<CrankPlan, TollgateError>(e) && *final(progress) == *old(progress),
            Ok((p, plan)) => r is Ok && r->Ok_0@ == plan && *final(progress) == p,
        },
{
    params.validate(policy.investor_count)?;
    let saved = *progress;
    let mut remainder: u64 = 0;
    let mut folded: u64 = 0;
    let day = if progress.is_new_day(input.now) {
        if progress.last_distribution_ts != 0 && progress.day_state != DayState::New {
            remainder = input.holding_balance.saturating_sub(progress.carry);
        }
        let prev_remainder = input.holding_balance.saturating_sub(progress.carry);
        folded = input.holding_balance.saturating_sub(prev_remainder);
        progress.start_new_day(input.now)?;
        progress.carry = 0;
        if params.cursor > progress.cursor {
            *progress = saved;
            return Err(TollgateError::PaginationCursorTooLarge);
        }
        DayState::New
    } else if progress.day_state == DayState::Closed && progress.last_distribution_ts != 0 {
        return Ok(empty_plan(CrankOutcome::DayAlreadyClosed, DayState::Closed, 0, 0, 0));
    } else if progress.is_same_day(input.now) {
        if params.cursor < progress.cursor {
            return Ok(empty_plan(CrankOutcome::CursorBehind, DayState::Same, 0, 0, 0));
        }
        if params.cursor > progress.cursor {
            return Err(TollgateError::PaginationCursorTooLarge);
        }
        if progress.day_state != DayState::Same {
            progress.continue_same_day()?;
        }
        DayState::Same
    } else {
        return Err(TollgateError::InvalidDayState);
    };
    let r = run_day(policy, progress, input, page, expected, init_mode, day, remainder, folded);
    if r.is_err() {
        *progress = saved;
    }
    r
}

/// One crank in which missing investor token accounts are passed over.
pub fn crank(
    policy: &Policy,
    progress: &mut Progress,
    params: &CrankParams,
    input: &CrankInput,
    page: &Vec<InvestorEntry>,
) -> (r: Result<CrankPlan, TollgateError>)
    requires
        policy.wf(),
    ensures
        match crank_model(
            *policy,
            *old(progress),
            params.cursor,
            *input,
            page@,
            destinations_for(page@, policy.quote_mint@),
            false,
        ) {
            Err(e) => r == Err::<CrankPlan, TollgateError>(e) && *final(progress) == *old(progress),
            Ok((p, plan)) => r is Ok && r->Ok_0@ == plan && *final(progress) == p,
        },
{
    let expected = expected_destinations(page, &policy.quote_mint);
    shared_crank_logic(policy, progress, params, input, page, &expected, false)
}

/// One crank in which missing investor token accounts are created where the
/// policy allows it and the investor's own account is supplied.
pub fn crank_with_init(
    policy: &Policy,
    progress: &mut Progress,
    params: &CrankParams,
    input: &CrankInput,
    page: &Vec<InvestorEntry>,
) -> (r: Result<CrankPlan, TollgateError>)
    requires
        policy.wf(),
    ensures
        match crank_model(
            *policy,
            *old(progress),
            params.cursor,
            *input,
            page@,
            destinations_for(page@, policy.quote_mint@),
            true,
        ) {
            Err(e) => r == Err::<CrankPlan, TollgateError>(e) && *final(progress) == *old(progress),
            Ok((p, plan)) => r is Ok && r->Ok_0@ == plan && *final(progress) == p,
        },
{
    let expected = expected_destinations(page, &policy.quote_mint);
    shared_crank_logic(policy, progress, params, input, page, &expected, true)
}

} // verus!
