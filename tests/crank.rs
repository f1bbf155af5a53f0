use anchor_lang::prelude::Pubkey;
use tollgate::crank::{crank, crank_with_init, page_size_of, CrankInput, CrankOutcome, CrankParams, CrankPlan};
use tollgate::error::TollgateError;
use tollgate::key::Key;
use tollgate::page::InvestorEntry;
use tollgate::policy::Policy;
use tollgate::pool::PoolState;
use tollgate::progress::{DayState, Progress};

const DAY: i64 = 86_400;
const T0: i64 = 1_700_000_000;

fn key(n: u8) -> Key {
    Key::new_from_array([n; 32])
}

fn quote_mint() -> Key {
    key(200)
}

fn base_mint() -> Key {
    key(201)
}

fn ata(wallet: &Key, mint: &Key) -> Key {
    let address = anchor_spl::associated_token::get_associated_token_address(
        &Pubkey::new_from_array(wallet.bytes),
        &Pubkey::new_from_array(mint.bytes),
    );
    Key::new_from_array(address.to_bytes())
}

fn policy(
    investor_count: u32,
    share_bps: u16,
    min_payout: u64,
    daily_cap: Option<u64>,
    y0: u64,
) -> Policy {
    Policy {
        vault: key(1),
        creator: key(2),
        quote_mint: quote_mint(),
        investor_count,
        init_investor_ata: true,
        investor_fee_share_bps: share_bps,
        min_payout_lamports: min_payout,
        daily_cap,
        y0,
        is_initialized: true,
        owner_bump: 254,
        bump: 253,
    }
}

fn fresh_progress() -> Progress {
    Progress {
        vault: key(1),
        last_distribution_ts: 0,
        daily_spent: 0,
        carry: 0,
        cursor: 0,
        day_state: DayState::Closed,
        bump: 252,
    }
}

fn pool() -> PoolState {
    PoolState {
        token_a_mint: quote_mint(),
        token_b_mint: base_mint(),
        creator: key(2),
        sqrt_min_price: 1,
        sqrt_max_price: 1000,
        pool_status: 0,
        collect_fee_mode: 1,
    }
}

fn input(now: i64, holding: u64, quote_fee: u64, base_fee: u64) -> CrankInput {
    CrankInput {
        now,
        holding_balance: holding,
        pool: pool(),
        fee_a_pending: quote_fee,
        fee_b_pending: base_fee,
    }
}

fn investor(n: u8, locked: u64) -> InvestorEntry {
    let recipient = key(n);
    InvestorEntry {
        recipient,
        destination: ata(&recipient, &quote_mint()),
        destination_ready: true,
        authority: None,
        net_deposited: locked,
        available: 0,
    }
}

fn investors(from: u8, count: u8, locked: u64) -> Vec<InvestorEntry> {
    (from..from + count).map(|n| investor(n, locked)).collect()
}

fn outflow(plan: &CrankPlan) -> u64 {
    plan.remainder_to_creator + plan.page_payouts + plan.creator_payout
}

#[test]
fn test_02_should_failed_base_fee_detected() {
    let policy = policy(10, 7000, 10, None, 1_000_000);
    let mut progress = fresh_progress();
    let before = progress;
    let page = investors(10, 10, 1000);
    let result = crank(&policy, &mut progress, &CrankParams { cursor: 0 }, &input(T0, 0, 0, 1), &page);
    assert_eq!(result.unwrap_err(), TollgateError::BaseDenominatedFees);
    assert_eq!(progress.last_distribution_ts, before.last_distribution_ts);
    assert_eq!(progress.day_state, before.day_state);
}

#[test]
fn test_08_crank_day_two_page_1_to_5_invalid_cursor() {
    let policy = policy(10, 7000, 10, None, 1_000_000);
    let mut progress = Progress {
        last_distribution_ts: T0,
        daily_spent: 500,
        carry: 0,
        cursor: 10,
        day_state: DayState::Closed,
        ..fresh_progress()
    };
    let before = progress;
    let mut page = investors(11, 5, 1000);
    for entry in page.iter_mut() {
        entry.authority = Some(entry.recipient);
    }
    let result = crank_with_init(
        &policy,
        &mut progress,
        &CrankParams { cursor: 1 },
        &input(T0 + DAY, 40, 0, 0),
        &page,
    );
    assert_eq!(result.unwrap_err(), TollgateError::PaginationCursorTooLarge);
    assert_eq!(progress.cursor, before.cursor);
    assert_eq!(progress.last_distribution_ts, before.last_distribution_ts);
    assert_eq!(progress.daily_spent, before.daily_spent);
}

#[test]
fn scenario_two_investors_split_all_fees() {
    let policy = policy(2, 10_000, 1, None, 100);
    let mut progress = fresh_progress();
    let page = vec![investor(10, 60), investor(11, 40)];
    let plan = crank(&policy, &mut progress, &CrankParams { cursor: 0 }, &input(T0, 0, 100, 0), &page).unwrap();
    assert_eq!(plan.distributable, 100);
    assert_eq!(plan.locked_total, 100);
    assert_eq!(plan.eligible_bps, 10_000);
    assert_eq!(plan.investor_fee_quote, 100);
    assert_eq!(plan.payouts, vec![60, 40]);
    assert_eq!(plan.page_payouts, 100);
    assert_eq!(plan.creator_payout, 0);
    assert_eq!(plan.outcome, CrankOutcome::DayClosed);
    assert_eq!(progress.day_state, DayState::Closed);
    assert_eq!(progress.daily_spent, 100);
}

#[test]
fn scenario_share_below_floor_is_skipped() {
    let policy = policy(1, 10_000, 10, None, 100);
    let mut progress = fresh_progress();
    let page = vec![investor(10, 10)];
    let plan = crank(&policy, &mut progress, &CrankParams { cursor: 0 }, &input(T0, 0, 50, 0), &page).unwrap();
    assert_eq!(plan.distributable, 50);
    assert_eq!(plan.eligible_bps, 1000);
    assert_eq!(plan.investor_fee_quote, 5);
    assert_eq!(plan.payouts, vec![0]);
    assert_eq!(plan.page_payouts, 0);
    assert_eq!(plan.creator_share, 45);
    assert_eq!(plan.creator_payout, 45);
}

#[test]
fn scenario_cursor_resubmission_is_noop() {
    let policy = policy(4, 5000, 1, None, 1000);
    let mut progress = fresh_progress();
    let page = investors(10, 2, 100);
    let first = crank(&policy, &mut progress, &CrankParams { cursor: 0 }, &input(T0, 0, 1000, 0), &page).unwrap();
    assert_eq!(first.outcome, CrankOutcome::PageProcessed);
    assert_eq!(progress.cursor, 2);
    let after_first = progress;
    let replay = crank(&policy, &mut progress, &CrankParams { cursor: 0 }, &input(T0 + 60, 1000 - first.page_payouts, 0, 0), &page).unwrap();
    assert_eq!(replay.outcome, CrankOutcome::CursorBehind);
    assert_eq!(outflow(&replay), 0);
    assert!(replay.payouts.is_empty());
    assert_eq!(progress.cursor, 2);
    assert_eq!(progress.daily_spent, after_first.daily_spent);
    assert_eq!(progress.carry, after_first.carry);
    assert_eq!(progress.day_state, DayState::New);
    assert_eq!(progress.last_distribution_ts, after_first.last_distribution_ts);
}

#[test]
fn scenario_daily_cap_clamps_distributable() {
    let policy = policy(1, 10_000, 1, Some(30), 100);
    let mut progress = fresh_progress();
    let page = vec![investor(10, 100)];
    let plan = crank(&policy, &mut progress, &CrankParams { cursor: 0 }, &input(T0, 0, 100, 0), &page).unwrap();
    assert_eq!(plan.quote_fee_claimed, 100);
    assert_eq!(plan.distributable, 30);
    assert_eq!(plan.page_payouts, 30);
    assert!(progress.daily_spent <= 30);
}

#[test]
fn scenario_base_fee_fails_before_mutation() {
    let policy = policy(2, 5000, 1, None, 1000);
    let mut progress = Progress { last_distribution_ts: T0, day_state: DayState::Closed, carry: 7, ..fresh_progress() };
    let before = progress;
    let page = investors(10, 2, 100);
    let result = crank(&policy, &mut progress, &CrankParams { cursor: 0 }, &input(T0 + DAY, 50, 100, 1), &page);
    assert_eq!(result.unwrap_err(), TollgateError::BaseDenominatedFees);
    assert_eq!(progress.last_distribution_ts, before.last_distribution_ts);
    assert_eq!(progress.carry, before.carry);
    assert_eq!(progress.day_state, DayState::Closed);
}

#[test]
fn below_minimum_is_carried() {
    let policy = policy(2, 5000, 10, None, 1000);
    let mut progress = fresh_progress();
    let page = investors(10, 2, 100);
    let plan = crank(&policy, &mut progress, &CrankParams { cursor: 0 }, &input(T0, 0, 0, 0), &page).unwrap();
    assert_eq!(plan.outcome, CrankOutcome::CarriedBelowMinimum);
    assert_eq!(plan.distributable, 0);
    assert_eq!(progress.carry, 0);
    assert_eq!(progress.cursor, 0);
    assert_eq!(progress.day_state, DayState::New);
    assert_eq!(progress.last_distribution_ts, T0);
    let plan = crank(&policy, &mut progress, &CrankParams { cursor: 0 }, &input(T0 + 5, 0, 7, 0), &page).unwrap();
    assert_eq!(plan.quote_fee_claimed, 0);
    assert_eq!(plan.outcome, CrankOutcome::DayClosed);
}

#[test]
fn empty_page_claims_and_stops() {
    let policy = policy(2, 5000, 1, None, 1000);
    let mut progress = fresh_progress();
    let plan = crank(&policy, &mut progress, &CrankParams { cursor: 0 }, &input(T0, 0, 500, 0), &Vec::new()).unwrap();
    assert_eq!(plan.outcome, CrankOutcome::NoInvestors);
    assert_eq!(plan.quote_fee_claimed, 500);
    assert_eq!(plan.distributable, 500);
    assert_eq!(progress.cursor, 0);
}

#[test]
fn closed_day_is_skipped() {
    let policy = policy(2, 5000, 1, None, 1000);
    let mut progress = Progress { last_distribution_ts: T0, day_state: DayState::Closed, cursor: 2, ..fresh_progress() };
    let before = progress;
    let plan = crank(&policy, &mut progress, &CrankParams { cursor: 0 }, &input(T0 + 100, 10, 5, 0), &investors(10, 2, 1)).unwrap();
    assert_eq!(plan.outcome, CrankOutcome::DayAlreadyClosed);
    assert_eq!(outflow(&plan), 0);
    assert_eq!(progress.cursor, before.cursor);
    assert_eq!(progress.day_state, DayState::Closed);
}

#[test]
fn new_day_flushes_stray_remainder() {
    let policy = policy(2, 5000, 1, None, 1000);
    let mut progress = Progress { last_distribution_ts: T0, day_state: DayState::Closed, cursor: 2, carry: 3, daily_spent: 9, ..fresh_progress() };
    let plan = crank(&policy, &mut progress, &CrankParams { cursor: 0 }, &input(T0 + DAY, 10, 100, 0), &investors(10, 2, 500)).unwrap();
    assert_eq!(plan.remainder_to_creator, 7);
    assert_eq!(plan.distributable, 103);
    assert_eq!(progress.last_distribution_ts, T0 + DAY);
    assert_eq!(progress.day_state, DayState::Closed);
}

#[test]
fn full_day_in_pages_conserves_funds() {
    let policy = policy(4, 7000, 1, None, 1000);
    let mut progress = fresh_progress();
    let initial: u64 = 0;
    let mut balance = initial;
    let mut claimed_total = 0u64;
    let mut paid_total = 0u64;
    let first = crank(&policy, &mut progress, &CrankParams { cursor: 0 }, &input(T0, balance, 1000, 0), &investors(10, 2, 200)).unwrap();
    claimed_total += first.quote_fee_claimed;
    paid_total += outflow(&first);
    balance = balance + first.quote_fee_claimed - outflow(&first);
    assert_eq!(progress.cursor, 2);
    let second = crank(&policy, &mut progress, &CrankParams { cursor: 2 }, &input(T0 + 10, balance, 0, 0), &investors(12, 2, 200)).unwrap();
    claimed_total += second.quote_fee_claimed;
    paid_total += outflow(&second);
    balance = balance + second.quote_fee_claimed - outflow(&second);
    assert_eq!(second.outcome, CrankOutcome::DayClosed);
    assert_eq!(progress.cursor, 4);
    assert!(paid_total <= initial + claimed_total);
    assert_eq!(paid_total + balance, initial + claimed_total);
}

#[test]
fn cursor_moves_forward_and_resets_on_new_day() {
    let policy = policy(4, 7000, 1, None, 1000);
    let mut progress = fresh_progress();
    crank(&policy, &mut progress, &CrankParams { cursor: 0 }, &input(T0, 0, 1000, 0), &investors(10, 3, 200)).unwrap();
    assert_eq!(progress.cursor, 3);
    crank(&policy, &mut progress, &CrankParams { cursor: 3 }, &input(T0 + 10, 500, 0, 0), &investors(13, 1, 200)).unwrap();
    assert_eq!(progress.cursor, 4);
    crank(&policy, &mut progress, &CrankParams { cursor: 0 }, &input(T0 + DAY, 0, 10, 0), &Vec::new()).unwrap();
    assert_eq!(progress.cursor, 0);
    assert_eq!(progress.day_state, DayState::New);
}

#[test]
fn daily_cap_holds_across_pages() {
    let policy = policy(4, 10_000, 1, Some(100), 800);
    let mut progress = fresh_progress();
    crank(&policy, &mut progress, &CrankParams { cursor: 0 }, &input(T0, 0, 1000, 0), &investors(10, 2, 200)).unwrap();
    assert!(progress.daily_spent <= 100);
    let spent = progress.daily_spent;
    let plan = crank(&policy, &mut progress, &CrankParams { cursor: 2 }, &input(T0 + 10, 1000 - spent, 0, 0), &investors(12, 2, 200)).unwrap();
    assert_eq!(plan.distributable, 100 - spent);
    assert!(progress.daily_spent <= 100);
}

#[test]
fn wrong_destination_is_refused() {
    let policy = policy(2, 5000, 1, None, 1000);
    let mut progress = fresh_progress();
    let mut page = investors(10, 2, 100);
    page[1].destination = page[1].recipient;
    let result = crank(&policy, &mut progress, &CrankParams { cursor: 0 }, &input(T0, 0, 100, 0), &page);
    assert_eq!(result.unwrap_err(), TollgateError::InvalidInvestorAta);
    assert_eq!(progress.last_distribution_ts, 0);
}

#[test]
fn wrong_investor_account_is_refused() {
    let policy = policy(2, 5000, 1, None, 1000);
    let mut progress = fresh_progress();
    let mut page = investors(10, 2, 100);
    page[0].authority = Some(key(99));
    let result = crank_with_init(&policy, &mut progress, &CrankParams { cursor: 0 }, &input(T0, 0, 100, 0), &page);
    assert_eq!(result.unwrap_err(), TollgateError::InvalidInvestorPubkey);
    let plan = crank(&policy, &mut progress, &CrankParams { cursor: 0 }, &input(T0, 0, 100, 0), &page);
    assert!(plan.is_ok());
}

#[test]
fn missing_destination_is_created_or_skipped() {
    let policy = policy(2, 10_000, 1, None, 200);
    let mut page = investors(10, 2, 100);
    page[0].destination_ready = false;
    page[0].authority = Some(page[0].recipient);
    let mut progress = fresh_progress();
    let plan = crank_with_init(&policy, &mut progress, &CrankParams { cursor: 0 }, &input(T0, 0, 100, 0), &page).unwrap();
    assert_eq!(plan.creates, vec![true, false]);
    assert_eq!(plan.payouts, vec![50, 50]);
    let mut progress = fresh_progress();
    let plan = crank(&policy, &mut progress, &CrankParams { cursor: 0 }, &input(T0, 0, 100, 0), &page).unwrap();
    assert_eq!(plan.creates, vec![false, false]);
    assert_eq!(plan.payouts, vec![0, 50]);
}

#[test]
fn cursor_errors() {
    let policy = policy(2, 5000, 1, None, 1000);
    let mut progress = fresh_progress();
    let result = crank(&policy, &mut progress, &CrankParams { cursor: 2 }, &input(T0, 0, 100, 0), &Vec::new());
    assert_eq!(result.unwrap_err(), TollgateError::CursorExceedsInvestors);
    let result = crank(&policy, &mut progress, &CrankParams { cursor: 0 }, &input(T0, 0, 100, 0), &investors(10, 3, 1));
    assert_eq!(result.unwrap_err(), TollgateError::CursorExceedsInvestors);
    assert_eq!(progress.last_distribution_ts, 0);
}

#[test]
fn closing_page_replaces_carry_with_creator_dust() {
    let policy = policy(1, 0, 10, None, 1000);
    let mut progress = Progress { last_distribution_ts: T0, day_state: DayState::New, carry: u64::MAX, ..fresh_progress() };
    let plan = crank(&policy, &mut progress, &CrankParams { cursor: 0 }, &input(T0 + 5, 5, 0, 0), &investors(10, 1, 1)).unwrap();
    assert_eq!(plan.outcome, CrankOutcome::DayClosed);
    assert_eq!(plan.creator_share, 5);
    assert_eq!(plan.creator_payout, 0);
    assert_eq!(progress.carry, 5);
    assert_eq!(progress.day_state, DayState::Closed);
}

#[test]
fn page_sizes_follow_the_stride() {
    assert_eq!(page_size_of(20, false), Ok(10));
    assert_eq!(page_size_of(30, true), Ok(10));
    assert_eq!(page_size_of(0, true), Ok(0));
    assert_eq!(page_size_of(7, false), Err(TollgateError::InvalidInvestorAccounts));
    assert_eq!(page_size_of(20, true), Err(TollgateError::InvalidInvestorAccounts));
}

#[test]
fn replay_on_continued_day_changes_nothing() {
    let policy = policy(4, 5000, 1, None, 1000);
    let mut progress = Progress { last_distribution_ts: T0, day_state: DayState::Same, cursor: 2, daily_spent: 40, carry: 3, ..fresh_progress() };
    let before = progress;
    let plan = crank(&policy, &mut progress, &CrankParams { cursor: 1 }, &input(T0 + 100, 500, 0, 0), &investors(11, 1, 100)).unwrap();
    assert_eq!(plan.outcome, CrankOutcome::CursorBehind);
    assert_eq!(outflow(&plan), 0);
    assert_eq!(plan.quote_fee_claimed, 0);
    assert_eq!(progress.cursor, before.cursor);
    assert_eq!(progress.daily_spent, before.daily_spent);
    assert_eq!(progress.carry, before.carry);
    assert_eq!(progress.day_state, before.day_state);
    assert_eq!(progress.last_distribution_ts, before.last_distribution_ts);
}

#[test]
fn error_messages() {
    assert_eq!(TollgateError::BaseDenominatedFees.message(), "Base denominated fees are not allowed");
    assert_eq!(TollgateError::PaginationCursorTooLarge.message(), "Pagination cursor is too large");
}

fn unfinished_day() -> Progress {
    Progress { last_distribution_ts: T0, day_state: DayState::New, cursor: 2, daily_spent: 40, carry: 0, ..fresh_progress() }
}

#[test]
fn crossed_boundary_on_unfinished_day_refuses_base_fee() {
    let policy = policy(4, 5000, 1, None, 1000);
    let mut progress = unfinished_day();
    let before = progress;
    let result = crank(&policy, &mut progress, &CrankParams { cursor: 0 }, &input(T0 + DAY, 100, 50, 1), &investors(10, 2, 100));
    assert_eq!(result.unwrap_err(), TollgateError::BaseDenominatedFees);
    assert_eq!(progress.cursor, before.cursor);
    assert_eq!(progress.last_distribution_ts, before.last_distribution_ts);
}

#[test]
fn crossed_boundary_on_unfinished_day_restarts_it() {
    let policy = policy(4, 5000, 10, None, 1000);
    let mut progress = unfinished_day();
    let plan = crank(&policy, &mut progress, &CrankParams { cursor: 0 }, &input(T0 + DAY, 0, 4, 0), &investors(10, 2, 100)).unwrap();
    assert_eq!(plan.outcome, CrankOutcome::CarriedBelowMinimum);
    assert_eq!(plan.remainder_to_creator, 0);
    assert_eq!(progress.carry, 4);
    assert_eq!(progress.cursor, 0);
    assert_eq!(progress.daily_spent, 0);
    assert_eq!(progress.last_distribution_ts, T0 + DAY);
    assert_eq!(progress.day_state, DayState::New);
}

#[test]
fn crossed_boundary_refuses_a_cursor_ahead_of_zero() {
    let policy = policy(10, 5000, 1, None, 1000);
    let mut progress = Progress { cursor: 1, ..unfinished_day() };
    let before = progress;
    let result = crank(&policy, &mut progress, &CrankParams { cursor: 1 }, &input(T0 + DAY, 100, 50, 0), &investors(10, 5, 100));
    assert_eq!(result.unwrap_err(), TollgateError::PaginationCursorTooLarge);
    assert_eq!(progress.cursor, before.cursor);
    assert_eq!(progress.last_distribution_ts, before.last_distribution_ts);
}

#[test]
fn carry_is_spent_once_folded_into_a_day() {
    let policy = policy(1, 5000, 10, None, 100);
    let mut progress = fresh_progress();
    let page = vec![investor(10, 100)];
    let day_one = crank(&policy, &mut progress, &CrankParams { cursor: 0 }, &input(T0, 0, 18, 0), &page).unwrap();
    assert_eq!(day_one.outcome, CrankOutcome::DayClosed);
    assert_eq!(outflow(&day_one), 0);
    assert_eq!(progress.carry, 9);
    let balance = 18 - outflow(&day_one);
    let day_two = crank(&policy, &mut progress, &CrankParams { cursor: 0 }, &input(T0 + DAY, balance, 91, 0), &page).unwrap();
    assert_eq!(day_two.remainder_to_creator, 9);
    assert_eq!(day_two.distributable, 100);
    assert_eq!(day_two.payouts, vec![50]);
    assert_eq!(day_two.creator_payout, 50);
    assert_eq!(progress.carry, 0);
    let paid = outflow(&day_one) + outflow(&day_two);
    assert!(paid + progress.carry <= 18 + 91);
}

#[test]
fn locked_total_beyond_u64_is_exact() {
    let policy = policy(2, 4000, 1, None, 1000);
    let mut progress = fresh_progress();
    let page = vec![investor(10, u64::MAX), investor(11, u64::MAX)];
    let plan = crank(&policy, &mut progress, &CrankParams { cursor: 0 }, &input(T0, 0, 1000, 0), &page).unwrap();
    assert_eq!(plan.locked_total, 2 * (u64::MAX as u128));
    assert_eq!(plan.eligible_bps, 4000);
    assert_eq!(plan.investor_fee_quote, 400);
    assert_eq!(plan.payouts, vec![200, 200]);
}
