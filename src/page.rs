//! Paying one page of investors.

use vstd::prelude::*;

use crate::destination::{associated_address, associated_token_address};
use crate::distribution::{
    investor_share, investor_share_of, lemma_prorata_bounded, lemma_sum_nonnegative,
    lemma_sum_bounded, locked_amount, locked_of, sum_of,
};
use crate::error::TollgateError;
use crate::key::Key;

verus! {

/// One investor of a page, as resolved from its accounts.
#[derive(Debug, Clone, Copy)]
pub struct InvestorEntry {
    /// The wallet that receives the investor's payouts.
    pub recipient: Key,
    /// The token account supplied to receive the payout.
    pub destination: Key,
    /// Whether that token account already exists.
    pub destination_ready: bool,
    /// The investor's own account, supplied where missing token accounts may
    /// be created.
    pub authority: Option<Key>,
    /// What the investor deposited into vesting.
    pub net_deposited: u64,
    /// What the investor can claim from vesting at the current time.
    pub available: u64,
}

/// What a page pays out.
#[derive(Debug, Clone)]
pub struct PagePayouts {
    /// The amount transferred to each investor of the page, 0 where none is.
    pub payouts: Vec<u64>,
    /// Whether each investor's token account is created before its payout.
    pub creates: Vec<bool>,
    /// The sum of the payouts.
    pub total: u64,
}

/// The investor's account as the crank sees it: only where accounts may be
/// created.
pub open spec fn authority_of(e: InvestorEntry, init_mode: bool) -> Option<Key> {
    if init_mode {
        e.authority
    } else {
        None
    }
}

/// Why an investor of a page is refused, if it is: its token account is not
/// the canonical one, or its account is not its recipient.
pub open spec fn entry_error(e: InvestorEntry, expected: Seq<u8>, init_mode: bool) -> Option<
    TollgateError,
> {
    if e.destination@ != expected {
        Some(TollgateError::InvalidInvestorAta)
    } else if authority_of(e, init_mode) is Some && authority_of(e, init_mode)->0@
        != e.recipient@ {
        Some(TollgateError::InvalidInvestorPubkey)
    } else {
        None
    }
}

/// The error of the first refused investor among the first `n` of the page.
pub open spec fn page_error(
    page: Seq<InvestorEntry>,
    expected: Seq<Seq<u8>>,
    init_mode: bool,
    n: int,
) -> Option<TollgateError>
    decreases n,
{
    if n <= 0 {
        None
    } else {
        match page_error(page, expected, init_mode, n - 1) {
            Some(e) => Some(e),
            None => entry_error(page[n - 1], expected[n - 1], init_mode),
        }
    }
}

/// The investor is passed over: its token account is missing and may not
/// be created.
pub open spec fn skips(e: InvestorEntry, init_mode: bool, init_investor_ata: bool) -> bool {
    !e.destination_ready && (!init_investor_ata || authority_of(e, init_mode) is None)
}

/// The investor's missing token account is created before its payout.
pub open spec fn creates_destination(
    e: InvestorEntry,
    init_mode: bool,
    init_investor_ata: bool,
) -> bool {
    !e.destination_ready && init_investor_ata && authority_of(e, init_mode) is Some
}

/// What the investor is paid: its pro-rata share where that reaches the
/// payout floor and the investor is not passed over, else nothing.
pub open spec fn payout_of(
    e: InvestorEntry,
    locked: u64,
    init_mode: bool,
    init_investor_ata: bool,
    min_payout_lamports: u64,
    investor_fee_quote: u64,
    locked_total: int,
) -> u64 {
    let share = investor_share_of(investor_fee_quote as int, locked as int, locked_total);
    if skips(e, init_mode, init_investor_ata) || share < min_payout_lamports {
        0
    } else {
        share as u64
    }
}

/// The locked amount of each investor of the page.
pub open spec fn lockeds_of(page: Seq<InvestorEntry>) -> Seq<u64> {
    page.map_values(|e: InvestorEntry| locked_of(e.net_deposited, e.available))
}

/// The canonical token account of each investor of the page for `mint`.
pub open spec fn destinations_for(page: Seq<InvestorEntry>, mint: Seq<u8>) -> Seq<Seq<u8>> {
    page.map_values(|e: InvestorEntry| associated_address(e.recipient@, mint))
}

/// The views of a sequence of keys.
pub open spec fn views_of(keys: Seq<Key>) -> Seq<Seq<u8>> {
    keys.map_values(|k: Key| k@)
}

proof fn lemma_page_error_stays(
    page: Seq<InvestorEntry>,
    expected: Seq<Seq<u8>>,
    init_mode: bool,
    m: int,
    n: int,
)
    requires
        0 <= m <= n,
        page_error(page, expected, init_mode, m) is Some,
    ensures
        page_error(page, expected, init_mode, n) == page_error(page, expected, init_mode, m),
    decreases n - m,
{
    if m < n {
        lemma_page_error_stays(page, expected, init_mode, m, n - 1);
    }
}

/// The locked amount of each investor of the page.
pub fn compute_page_locked(page: &Vec<InvestorEntry>) -> (r: Vec<u64>)
    ensures
        r.len() == page.len(),
        r@ == lockeds_of(page@),
{
    let mut lockeds: Vec<u64> = Vec::with_capacity(page.len());
    let mut i: usize = 0;
    while i < page.len()
        invariant
            0 <= i <= page.len(),
            lockeds@ =~= lockeds_of(page@).take(i as int),
        decreases page.len() - i,
    {
        let e = &page[i];
        lockeds.push(locked_amount(e.net_deposited, e.available));
        i = i + 1;
        assert(lockeds@ =~= lockeds_of(page@).take(i as int));
    }
    assert(lockeds_of(page@).take(page.len() as int) =~= lockeds_of(page@));
    lockeds
}

/// The sum of the locked amounts.
pub fn sum_locked(lockeds: &Vec<u64>) -> (r: u128)
    ensures
        r == sum_of(lockeds@),
{
    let mut total: u128 = 0;
    let mut i: usize = 0;
    while i < lockeds.len()
        invariant
            0 <= i <= lockeds.len(),
            total == sum_of(lockeds@.take(i as int)),
        decreases lockeds.len() - i,
    {
        assert(lockeds@.take(i as int + 1).drop_last() =~= lockeds@.take(i as int));
        proof {
            lemma_sum_bounded(lockeds@.take(i as int + 1));
            let k = i as int + 1;
            assert(k * u64::MAX <= u64::MAX * u64::MAX) by (nonlinear_arith)
                requires
                    0 <= k <= u64::MAX,
            ;
        }
        total = total + lockeds[i] as u128;
        i = i + 1;
    }
    assert(lockeds@.take(lockeds.len() as int) =~= lockeds@);
    total
}

/// The canonical token account of each investor of the page for `mint`.
pub(crate) fn expected_destinations(page: &Vec<InvestorEntry>, mint: &Key) -> (r: Vec<Key>)
    ensures
        r.len() == page.len(),
        views_of(r@) == destinations_for(page@, mint@),
{
    let mut keys: Vec<Key> = Vec::with_capacity(page.len());
    let mut i: usize = 0;
    while i < page.len()
        invariant
            0 <= i <= page.len(),
            keys@.len() == i,
            views_of(keys@) =~= destinations_for(page@, mint@).take(i as int),
        decreases page.len() - i,
    {
        let key = associated_token_address(&page[i].recipient, mint);
        keys.push(key);
        proof {
            assert(views_of(keys@)[i as int] == destinations_for(page@, mint@)[i as int]);
        }
        i = i + 1;
        assert(views_of(keys@) =~= destinations_for(page@, mint@).take(i as int));
    }
    assert(destinations_for(page@, mint@).take(page.len() as int) =~= destinations_for(
        page@,
        mint@,
    ));
    keys
}

/// Checks one investor: its token account must be `expected`, and its
/// account, where supplied, must be its recipient.
fn check_entry(e: &InvestorEntry, expected: &Key, init_mode: bool) -> (r: Result<
    (),
    TollgateError,
>)
    ensures
        match entry_error(*e, expected@, init_mode) {
            None => r is Ok,
            Some(err) => r == Err::<(), TollgateError>(err),
        },
{
    if !e.destination.same_as(expected) {
        return Err(TollgateError::InvalidInvestorAta);
    }
    if init_mode {
        if let Some(authority) = &e.authority {
            if !authority.same_as(&e.recipient) {
                return Err(TollgateError::InvalidInvestorPubkey);
            }
        }
    }
    Ok(())
}

/// Pays one page of investors in page order. Each investor's token account
/// must be the canonical one given in `expected`, else the whole page is
/// refused. An investor whose token account is missing is passed over unless
/// accounts may be created (`init_investor_ata`, and the investor's own
/// account supplied); each other investor is paid
/// `investor_fee_quote * locked / locked_total` where that reaches
/// `min_payout_lamports`, and nothing otherwise.
pub fn process_investor_page(
    page: &Vec<InvestorEntry>,
    expected: &Vec<Key>,
    locked_per: &Vec<u64>,
    locked_total: u128,
    investor_fee_quote: u64,
    min_payout_lamports: u64,
    init_investor_ata: bool,
    init_mode: bool,
) -> (r: Result<PagePayouts, TollgateError>)
    requires
        expected.len() == page.len(),
        locked_per.len() == page.len(),
        sum_of(locked_per@) == locked_total,
    ensures
        page_error(page@, views_of(expected@), init_mode, page.len() as int) is Some ==> r
            == Err::<PagePayouts, TollgateError>(
            page_error(page@, views_of(expected@), init_mode, page.len() as int)->0,
        ),
        page_error(page@, views_of(expected@), init_mode, page.len() as int) is None ==> {
            &&& r is Ok
            &&& r->Ok_0.payouts@ == Seq::new(
                page.len() as nat,
                |i: int|
                    payout_of(
                        page@[i],
                        locked_per@[i],
                        init_mode,
                        init_investor_ata,
                        min_payout_lamports,
                        investor_fee_quote,
                        locked_total as int,
                    ),
            )
            &&& r->Ok_0.creates@ == Seq::new(
                page.len() as nat,
                |i: int| creates_destination(page@[i], init_mode, init_investor_ata),
            )
            &&& r->Ok_0.total == sum_of(r->Ok_0.payouts@)
            &&& r->Ok_0.total <= investor_fee_quote
        },
{
    let ghost exp = views_of(expected@);
    let ghost want_payouts = Seq::new(
        page.len() as nat,
        |i: int|
            payout_of(
                page@[i],
                locked_per@[i],
                init_mode,
                init_investor_ata,
                min_payout_lamports,
                investor_fee_quote,
                locked_total as int,
            ),
    );
    let ghost want_creates = Seq::new(
        page.len() as nat,
        |i: int| creates_destination(page@[i], init_mode, init_investor_ata),
    );
    let mut payouts: Vec<u64> = Vec::with_capacity(page.len());
    let mut creates: Vec<bool> = Vec::with_capacity(page.len());
    let mut page_payouts: u64 = 0;
    let mut i: usize = 0;
    while i < page.len()
        invariant
            0 <= i <= page.len(),
            expected.len() == page.len(),
            locked_per.len() == page.len(),
            sum_of(locked_per@) == locked_total,
            exp == views_of(expected@),
            page_error(page@, exp, init_mode, i as int) is None,
            want_payouts == Seq::new(
                page.len() as nat,
                |i: int|
                    payout_of(
                        page@[i],
                        locked_per@[i],
                        init_mode,
                        init_investor_ata,
                        min_payout_lamports,
                        investor_fee_quote,
                        locked_total as int,
                    ),
            ),
            want_creates == Seq::new(
                page.len() as nat,
                |i: int| creates_destination(page@[i], init_mode, init_investor_ata),
            ),
            payouts@.len() == i,
            payouts@ =~= want_payouts.take(i as int),
            creates@ =~= want_creates.take(i as int),
            page_payouts == sum_of(payouts@),
            forall|j: int|
                0 <= j < i ==> payouts@[j] <= investor_share_of(
                    investor_fee_quote as int,
                    locked_per@[j] as int,
                    locked_total as int,
                ),
            page_payouts <= investor_fee_quote,
        decreases page.len() - i,
    {
        let e = &page[i];
        let checked = check_entry(e, &expected[i], init_mode);
        if let Err(err) = checked {
            proof {
                assert(page_error(page@, exp, init_mode, i as int + 1) == Some(err));
                lemma_page_error_stays(
                    page@,
                    exp,
                    init_mode,
                    i as int + 1,
                    page.len() as int,
                );
            }
            return Err(err);
        }
        let has_authority = init_mode && e.authority.is_some();
        let create = !e.destination_ready && init_investor_ata && has_authority;
        let skip = !e.destination_ready && !create;
        let locked = locked_per[i];
        proof {
            lemma_element_le_sum(locked_per@, i as int);
        }
        let share = investor_share(investor_fee_quote, locked, locked_total);
        let paid: u64 = if skip || share < min_payout_lamports {
            0
        } else {
            share
        };
        proof {
            let next = payouts@.push(paid);
            assert(next.drop_last() =~= payouts@);
            assert forall|j: int| 0 <= j < next.len() implies next[j] <= investor_share_of(
                investor_fee_quote as int,
                locked_per@[j] as int,
                locked_total as int,
            ) by {
                if j < i {
                    assert(next[j] == payouts@[j]);
                }
            }
            if locked_total > 0 {
                lemma_prorata_bounded(next, locked_per@, investor_fee_quote as int);
            }
        }
        assert(paid == want_payouts[i as int]);
        assert(create == want_creates[i as int]);
        payouts.push(paid);
        creates.push(create);
        page_payouts = page_payouts + paid;
        i = i + 1;
        assert(payouts@ =~= want_payouts.take(i as int));
        assert(creates@ =~= want_creates.take(i as int));
    }
    assert(payouts@ =~= want_payouts);
    assert(creates@ =~= want_creates);
    Ok(PagePayouts { payouts, creates, total: page_payouts })
}

/// An element of a sequence of amounts is at most their sum.
proof fn lemma_element_le_sum(s: Seq<u64>, i: int)
    requires
        0 <= i < s.len(),
    ensures
        s[i] <= sum_of(s),
    decreases s.len(),
{
    if i < s.len() - 1 {
        lemma_element_le_sum(s.drop_last(), i);
    } else {
        lemma_sum_nonnegative(s.drop_last());
    }
}

} // verus!
