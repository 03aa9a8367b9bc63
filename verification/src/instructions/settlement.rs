//! Settlement of one page on plain values: the day/page gate, the
//! contamination guard, the pro-rata split of a page and the creator's
//! remainder.

use vstd::prelude::*;
use crate::constants::{DISTRIBUTION_WINDOW_SECONDS, MAX_INVESTORS_PER_PAGE};
use crate::errors::FeeRoutingError;
use crate::events::{CreatorPayoutDayClosed, InvestorPayoutPage, QuoteFeesClaimed};
use crate::math::{
    cap_excess, capped_amount, count_paid, eligible_share_bps, investor_allocation,
    investor_payout, lemma_allocation_bound, lemma_amount_within_sum, lemma_paid_and_withheld,
    lemma_prefix_sum_amounts, lemma_prefix_sum_payouts, lemma_sum_payouts_bounded,
    locked_fraction_bps, sum_amounts, sum_paid,
    sum_payouts, sum_withheld, DistributionMath,
};
use crate::state::{Policy, Progress};

verus! {

/// What one investor of a page is due, and whether it is sent.
#[derive(Clone, Copy, Debug, PartialEq, Eq, Structural)]
pub struct InvestorPayout {
    /// The computed payout.
    pub amount: u64,
    /// Whether the payout reaches the minimum and is transferred; if not, it
    /// is withheld as dust.
    pub paid: bool,
}

/// Everything a settled page asks of the ledger and reports to observers.
#[derive(Debug, PartialEq, Eq)]
pub struct PageResult {
    /// One entry per investor of the batch, in the batch's order.
    pub payouts: Vec<InvestorPayout>,
    /// Present on the first page of a day: what the claim brought.
    pub fees_claimed: Option<QuoteFeesClaimed>,
    /// The page's totals.
    pub page: InvestorPayoutPage,
    /// The remainder to transfer to the creator; zero means no transfer.
    pub creator_amount: u64,
    /// Present when a remainder is paid to the creator.
    pub day_closed: Option<CreatorPayoutDayClosed>,
}

/// The mathematical content of a `PageResult`, together with the progress
/// record that the page leaves behind.
pub ghost struct Settlement {
    pub progress: Progress,
    pub payouts: Seq<InvestorPayout>,
    pub fees_claimed: Option<QuoteFeesClaimed>,
    pub page: InvestorPayoutPage,
    pub creator_amount: u64,
    pub day_closed: Option<CreatorPayoutDayClosed>,
}

impl PageResult {
    /// Whether this result is the one that `s` describes.
    pub open spec fn matches_settlement(&self, s: Settlement) -> bool {
        &&& self.payouts@ == s.payouts
        &&& self.fees_claimed == s.fees_claimed
        &&& self.page == s.page
        &&& self.creator_amount == s.creator_amount
        &&& self.day_closed == s.day_closed
    }
}

/// Whether a full window has passed since the last day was opened.
pub open spec fn window_elapsed(last_distribution_ts: i64, now: i64) -> bool {
    now >= last_distribution_ts + DISTRIBUTION_WINDOW_SECONDS
}

/// The day/page gate. Page 0 opens a day and needs an elapsed window; a
/// later page needs the still-open day and exactly the expected index.
pub open spec fn gate_check(progress: Progress, page_index: u16, now: i64) -> Result<
    (),
    FeeRoutingError,
> {
    if page_index == 0 {
        if window_elapsed(progress.last_distribution_ts, now) {
            Ok(())
        } else {
            Err(FeeRoutingError::DistributionWindowNotElapsed)
        }
    } else if window_elapsed(progress.last_distribution_ts, now) || page_index
        != progress.current_page {
        Err(FeeRoutingError::InvalidPageIndex)
    } else {
        Ok(())
    }
}

/// The record after a new day has been opened at `now`.
pub open spec fn opened_day(progress: Progress, now: i64) -> Progress {
    Progress {
        last_distribution_ts: now,
        current_day: (progress.current_day + 1) as u64,
        daily_distributed_to_investors: 0,
        current_page: 0,
        pages_processed_today: 0,
        creator_payout_sent: false,
        has_base_fees: false,
        ..progress
    }
}

/// The record with the quarantine flag raised and nothing else touched.
pub open spec fn quarantined(progress: Progress) -> Progress {
    Progress { has_base_fees: true, ..progress }
}

/// Whether the call is the one that detects contamination: a first page
/// that passes the page gate and whose claim brought base-currency fees.
pub open spec fn detects_contamination(
    progress: Progress,
    page_index: u16,
    now: i64,
    claimed_base: u64,
) -> bool {
    page_index == 0 && gate_check(progress, page_index, now) is Ok && claimed_base > 0
}

/// The first stage of a page: gate, contamination guard and day opening.
/// Gives the record to continue with and the amount available on this page.
pub open spec fn page_opening(
    progress: Progress,
    page_index: u16,
    now: i64,
    claimed_base: u64,
    claimed_quote: u64,
) -> Result<(Progress, u64), FeeRoutingError> {
    match gate_check(progress, page_index, now) {
        Err(e) => Err(e),
        Ok(_) => {
            if page_index == 0 {
                if claimed_base > 0 {
                    Err(FeeRoutingError::BaseFeesDetected)
                } else if progress.current_day == u64::MAX {
                    Err(FeeRoutingError::ArithmeticOverflow)
                } else if claimed_quote + progress.carry_over_lamports > u64::MAX {
                    Err(FeeRoutingError::ArithmeticOverflow)
                } else {
                    Ok(
                        (
                            opened_day(progress, now),
                            (claimed_quote + progress.carry_over_lamports) as u64,
                        ),
                    )
                }
            } else if progress.has_base_fees {
                Err(FeeRoutingError::BaseFeesDetected)
            } else {
                Ok((progress, progress.carry_over_lamports))
            }
        },
    }
}

/// The share of `total_available` earmarked for investors before the cap.
pub open spec fn page_allocation(policy: Policy, total_available: u64, locked: Seq<u64>) -> nat {
    investor_allocation(
        total_available as nat,
        eligible_share_bps(
            locked_fraction_bps(sum_amounts(locked), policy.y0 as nat),
            policy.investor_fee_share_bps as nat,
        ),
    )
}

/// The amount that the page may hand to investors, after the daily cap.
pub open spec fn page_distributable(
    policy: Policy,
    progress: Progress,
    total_available: u64,
    locked: Seq<u64>,
) -> nat {
    capped_amount(
        page_allocation(policy, total_available, locked),
        policy.daily_cap_lamports as nat,
        progress.daily_distributed_to_investors as nat,
    )
}

/// The payouts of a page, one per investor.
pub open spec fn page_payouts(locked: Seq<u64>, distributable: nat, min_payout: u64) -> Seq<
    InvestorPayout,
> {
    Seq::new(
        locked.len(),
        |i: int|
            InvestorPayout {
                amount: investor_payout(locked[i] as nat, sum_amounts(locked), distributable) as u64,
                paid: investor_payout(locked[i] as nat, sum_amounts(locked), distributable)
                    >= min_payout,
            },
    )
}

/// The second stage of a page: the pro-rata split over the batch, the
/// update of the record and the creator's remainder. `progress` is the
/// record that the first stage gave, and `fees_claimed` the claim's report
/// where that stage opened a day.
pub open spec fn page_closing(
    policy: Policy,
    progress: Progress,
    total_available: u64,
    page_index: u16,
    is_final_page: bool,
    now: i64,
    fees_claimed: Option<QuoteFeesClaimed>,
    locked: Seq<u64>,
) -> Result<Settlement, FeeRoutingError> {
    let total_locked = sum_amounts(locked);
    let allocation = page_allocation(policy, total_available, locked);
    let distributable = page_distributable(policy, progress, total_available, locked);
    let excess = cap_excess(
        allocation,
        policy.daily_cap_lamports as nat,
        progress.daily_distributed_to_investors as nat,
    );
    let min_payout = policy.min_payout_lamports as nat;
    let paid = sum_paid(locked, total_locked, distributable, min_payout);
    let withheld = sum_withheld(locked, total_locked, distributable, min_payout);
    let rounding = (distributable - sum_payouts(locked, total_locked, distributable)) as nat;
    if locked.len() > MAX_INVESTORS_PER_PAGE {
        Err(FeeRoutingError::TooManyInvestors)
    } else if total_locked > u64::MAX {
        Err(FeeRoutingError::ArithmeticOverflow)
    } else if policy.y0 == 0 {
        Err(FeeRoutingError::ArithmeticOverflow)
    } else if total_locked > policy.y0 {
        Err(FeeRoutingError::LockedExceedsTotal)
    } else if (locked.len() > 0 && total_locked == 0) || progress.daily_distributed_to_investors
        + paid > u64::MAX || progress.total_rounding_dust + rounding > u64::MAX
        || progress.current_page == u16::MAX || progress.pages_processed_today == u16::MAX {
        Err(FeeRoutingError::ArithmeticOverflow)
    } else {
        let settles_creator = is_final_page && !progress.creator_payout_sent;
        let remainder = (total_available - allocation) as u64;
        let next = Progress {
            daily_distributed_to_investors: (progress.daily_distributed_to_investors + paid) as u64,
            carry_over_lamports: (withheld + excess) as u64,
            total_rounding_dust: (progress.total_rounding_dust + rounding) as u64,
            current_page: (progress.current_page + 1) as u16,
            pages_processed_today: (progress.pages_processed_today + 1) as u16,
            creator_payout_sent: progress.creator_payout_sent || is_final_page,
            ..progress
        };
        Ok(
            Settlement {
                progress: next,
                payouts: page_payouts(locked, distributable, policy.min_payout_lamports),
                fees_claimed,
                page: InvestorPayoutPage {
                    page_index,
                    investors_paid: count_paid(locked, total_locked, distributable, min_payout) as u16,
                    total_distributed: paid as u64,
                    rounding_dust: rounding as u64,
                    timestamp: now,
                },
                creator_amount: if settles_creator {
                    remainder
                } else {
                    0
                },
                day_closed: if settles_creator && remainder > 0 {
                    Some(
                        CreatorPayoutDayClosed {
                            day: progress.current_day,
                            creator_amount: remainder,
                            total_distributed_to_investors: next.daily_distributed_to_investors,
                            timestamp: now,
                        },
                    )
                } else {
                    None
                },
            },
        )
    }
}

/// The report of the claim: present on the first page of a day, with the
/// day counter as it stood before the day was opened.
pub open spec fn claim_report(progress: Progress, page_index: u16, now: i64, claimed_quote: u64) -> Option<
    QuoteFeesClaimed,
> {
    if page_index == 0 {
        Some(
            QuoteFeesClaimed {
                amount: claimed_quote,
                timestamp: now,
                distribution_day: progress.current_day,
            },
        )
    } else {
        None
    }
}

/// The whole of one crank call on plain values: what it returns and the
/// record it leaves, for every input.
pub open spec fn page_settlement(
    policy: Policy,
    progress: Progress,
    page_index: u16,
    is_final_page: bool,
    now: i64,
    claimed_base: u64,
    claimed_quote: u64,
    locked: Seq<u64>,
) -> Result<Settlement, FeeRoutingError> {
    match page_opening(progress, page_index, now, claimed_base, claimed_quote) {
        Err(e) => Err(e),
        Ok((opened, total_available)) => page_closing(
            policy,
            opened,
            total_available,
            page_index,
            is_final_page,
            now,
            claim_report(progress, page_index, now, claimed_quote),
            locked,
        ),
    }
}

/// The record that a failed call leaves: the old one, with the quarantine
/// flag raised if this call detected contamination.
pub open spec fn record_after_failure(
    progress: Progress,
    page_index: u16,
    now: i64,
    claimed_base: u64,
) -> Progress {
    if detects_contamination(progress, page_index, now, claimed_base) {
        quarantined(progress)
    } else {
        progress
    }
}

/// Checks the day/page gate for a call at `now`.
pub fn check_page_gate(progress: &Progress, page_index: u16, now: i64) -> (r: Result<
    (),
    FeeRoutingError,
>)
    ensures
        r == gate_check(*progress, page_index, now),
{
    let is_new_day = (now as i128) >= (progress.last_distribution_ts as i128) + (
    DISTRIBUTION_WINDOW_SECONDS as i128);
    if page_index == 0 {
        if !is_new_day {
            return Err(FeeRoutingError::DistributionWindowNotElapsed);
        }
    } else {
        if is_new_day {
            return Err(FeeRoutingError::InvalidPageIndex);
        }
        if page_index != progress.current_page {
            return Err(FeeRoutingError::InvalidPageIndex);
        }
    }
    Ok(())
}

/// First stage of a page: the page gate, the contamination guard and the opening
/// of the day. Leaves the record alone and returns the one to continue with,
/// together with the amount available on this page.
pub fn open_page(
    progress: &Progress,
    page_index: u16,
    now: i64,
    claimed_base: u64,
    claimed_quote: u64,
) -> (r: Result<(Progress, u64), FeeRoutingError>)
    ensures
        r == page_opening(*progress, page_index, now, claimed_base, claimed_quote),
{
    match check_page_gate(progress, page_index, now) {
        Err(e) => {
            return Err(e);
        },
        Ok(_) => {},
    }
    if page_index == 0 {
        if claimed_base > 0 {
            return Err(FeeRoutingError::BaseFeesDetected);
        }
        if progress.current_day == u64::MAX {
            return Err(FeeRoutingError::ArithmeticOverflow);
        }
        let total_available: u64 = match claimed_quote.checked_add(progress.carry_over_lamports) {
            Some(v) => v,
            None => {
                return Err(FeeRoutingError::ArithmeticOverflow);
            },
        };
        let opened = Progress {
            last_distribution_ts: now,
            current_day: progress.current_day + 1,
            daily_distributed_to_investors: 0,
            carry_over_lamports: progress.carry_over_lamports,
            current_page: 0,
            pages_processed_today: 0,
            total_investors: progress.total_investors,
            creator_payout_sent: false,
            has_base_fees: false,
            total_rounding_dust: progress.total_rounding_dust,
            bump: progress.bump,
        };
        Ok((opened, total_available))
    } else {
        if progress.has_base_fees {
            return Err(FeeRoutingError::BaseFeesDetected);
        }
        Ok((*progress, progress.carry_over_lamports))
    }
}

/// Second stage of a page: computes every investor's payout, the dust, the
/// next record and the creator's remainder. Leaves the record alone and
/// returns the next one with the page's result.
pub fn close_page(
    policy: &Policy,
    progress: &Progress,
    total_available: u64,
    page_index: u16,
    is_final_page: bool,
    now: i64,
    fees_claimed: Option<QuoteFeesClaimed>,
    locked: &Vec<u64>,
) -> (r: Result<(Progress, PageResult), FeeRoutingError>)
    ensures
        match (
            r,
            page_closing(
                *policy,
                *progress,
                total_available,
                page_index,
                is_final_page,
                now,
                fees_claimed,
                locked@,
            ),
        ) {
            (Ok((next, result)), Ok(s)) => next == s.progress && result.matches_settlement(s),
            (Err(e), Err(expected)) => e == expected,
            _ => false,
        },
{
    let n = locked.len();
    if n > MAX_INVESTORS_PER_PAGE {
        return Err(FeeRoutingError::TooManyInvestors);
    }
    let mut total_locked: u64 = 0;
    let mut i: usize = 0;
    while i < n
        invariant
            i <= n,
            n == locked.len(),
            n <= MAX_INVESTORS_PER_PAGE,
            total_locked == sum_amounts(locked@.take(i as int)),
        decreases n - i,
    {
        proof {
            let upto = locked@.take(i + 1);
            assert(upto.drop_last() =~= locked@.take(i as int));
            lemma_prefix_sum_amounts(locked@, i + 1);
        }
        match total_locked.checked_add(locked[i]) {
            Some(v) => {
                total_locked = v;
            },
            None => {
                return Err(FeeRoutingError::ArithmeticOverflow);
            },
        }
        i += 1;
    }
    proof {
        assert(locked@.take(n as int) =~= locked@);
    }
    let fraction = match DistributionMath::calculate_locked_fraction_bps(total_locked, policy.y0) {
        Ok(v) => v,
        Err(e) => {
            return Err(e);
        },
    };
    let eligible = DistributionMath::calculate_eligible_investor_share_bps(
        fraction,
        policy.investor_fee_share_bps,
    );
    proof {
        lemma_allocation_bound(total_available as nat, eligible as nat);
    }
    let allocation = match DistributionMath::calculate_investor_allocation(
        total_available,
        eligible,
    ) {
        Ok(v) => v,
        Err(e) => {
            return Err(e);
        },
    };
    let (distributable, excess) = match DistributionMath::apply_daily_cap(
        allocation,
        policy.daily_cap_lamports,
        progress.daily_distributed_to_investors,
    ) {
        Ok(v) => v,
        Err(e) => {
            return Err(e);
        },
    };
    if n > 0 && total_locked == 0 {
        return Err(FeeRoutingError::ArithmeticOverflow);
    }
    let min_payout = policy.min_payout_lamports;
    let ghost all = locked@;
    let ghost total = total_locked as nat;
    let ghost d = distributable as nat;
    let ghost floor = min_payout as nat;
    proof {
        lemma_sum_payouts_bounded(all, d);
    }
    let mut payouts: Vec<InvestorPayout> = Vec::new();
    let mut paid_total: u64 = 0;
    let mut withheld_total: u64 = 0;
    let mut computed_total: u64 = 0;
    let mut investors_paid: u16 = 0;
    let mut j: usize = 0;
    while j < n
        invariant
            j <= n,
            n == locked.len(),
            n <= MAX_INVESTORS_PER_PAGE,
            all == locked@,
            total == sum_amounts(all),
            total == total_locked,
            d == distributable,
            floor == min_payout,
            n > 0 ==> total_locked > 0,
            sum_payouts(all, total, d) <= d,
            payouts@.len() == j,
            forall|k: int| 0 <= k < j ==> payouts@[k] == page_payouts(all, d, min_payout)[k],
            paid_total == sum_paid(all.take(j as int), total, d, floor),
            withheld_total == sum_withheld(all.take(j as int), total, d, floor),
            computed_total == sum_payouts(all.take(j as int), total, d),
            investors_paid == count_paid(all.take(j as int), total, d, floor),
        decreases n - j,
    {
        proof {
            assert(all.take(j + 1).drop_last() =~= all.take(j as int));
            lemma_prefix_sum_payouts(all, j + 1, total, d);
            lemma_paid_and_withheld(all.take(j + 1), total, d, floor);
            lemma_paid_and_withheld(all.take(j as int), total, d, floor);
            lemma_amount_within_sum(all, j as int);
        }
        let amount = match DistributionMath::calculate_investor_payout(
            locked[j],
            total_locked,
            distributable,
        ) {
            Ok(v) => v,
            Err(e) => {
                return Err(e);
            },
        };
        computed_total = computed_total + amount;
        let paid = DistributionMath::meets_minimum_threshold(amount, min_payout);
        if paid {
            paid_total = paid_total + amount;
            investors_paid = investors_paid + 1;
        } else {
            withheld_total = withheld_total + amount;
        }
        payouts.push(InvestorPayout { amount, paid });
        j += 1;
    }
    proof {
        assert(all.take(n as int) =~= all);
        lemma_paid_and_withheld(all, total, d, floor);
        assert(payouts@ =~= page_payouts(all, d, min_payout));
    }
    let rounding_dust: u64 = distributable - computed_total;
    let daily_distributed = match progress.daily_distributed_to_investors.checked_add(paid_total) {
        Some(v) => v,
        None => {
            return Err(FeeRoutingError::ArithmeticOverflow);
        },
    };
    let carry_over: u64 = withheld_total + excess;
    let total_rounding_dust = match progress.total_rounding_dust.checked_add(rounding_dust) {
        Some(v) => v,
        None => {
            return Err(FeeRoutingError::ArithmeticOverflow);
        },
    };
    if progress.current_page == u16::MAX || progress.pages_processed_today == u16::MAX {
        return Err(FeeRoutingError::ArithmeticOverflow);
    }
    let settles_creator = is_final_page && !progress.creator_payout_sent;
    let remainder: u64 = total_available - allocation;
    let next = Progress {
        last_distribution_ts: progress.last_distribution_ts,
        current_day: progress.current_day,
        daily_distributed_to_investors: daily_distributed,
        carry_over_lamports: carry_over,
        current_page: progress.current_page + 1,
        pages_processed_today: progress.pages_processed_today + 1,
        total_investors: progress.total_investors,
        creator_payout_sent: progress.creator_payout_sent || is_final_page,
        has_base_fees: progress.has_base_fees,
        total_rounding_dust,
        bump: progress.bump,
    };
    let day_closed = if settles_creator && remainder > 0 {
        Some(
            CreatorPayoutDayClosed {
                day: progress.current_day,
                creator_amount: remainder,
                total_distributed_to_investors: daily_distributed,
                timestamp: now,
            },
        )
    } else {
        None
    };
    let result = PageResult {
        payouts,
        fees_claimed,
        page: InvestorPayoutPage {
            page_index,
            investors_paid,
            total_distributed: paid_total,
            rounding_dust,
            timestamp: now,
        },
        creator_amount: if settles_creator {
            remainder
        } else {
            0
        },
        day_closed,
    };
    Ok((next, result))
}

/// One crank call on plain values: the page gate, the contamination guard, the
/// page's payouts and the creator's remainder. `claimed_base` and
/// `claimed_quote` are what the claim brought and are read on page 0 only;
/// `locked` holds the locked balance of each investor of the batch.
///
/// On success the record is the settled one. On failure it is left as it
/// was, except that a call which detects contamination raises the
/// quarantine flag.
pub fn settle_page(
    policy: &Policy,
    progress: &mut Progress,
    page_index: u16,
    is_final_page: bool,
    now: i64,
    claimed_base: u64,
    claimed_quote: u64,
    locked: &Vec<u64>,
) -> (r: Result<PageResult, FeeRoutingError>)
    ensures
        match (
            r,
            page_settlement(
                *policy,
                *old(progress),
                page_index,
                is_final_page,
                now,
                claimed_base,
                claimed_quote,
                locked@,
            ),
        ) {
            (Ok(result), Ok(s)) => result.matches_settlement(s) && *final(progress) == s.progress,
            (Err(e), Err(expected)) => e == expected && *final(progress) == record_after_failure(
                *old(progress),
                page_index,
                now,
                claimed_base,
            ),
            _ => false,
        },
{
    let (opened, total_available) = match open_page(
        progress,
        page_index,
        now,
        claimed_base,
        claimed_quote,
    ) {
        Ok(v) => v,
        Err(e) => {
            if page_index == 0 && claimed_base > 0 && check_page_gate(
                progress,
                page_index,
                now,
            ).is_ok() {
                progress.has_base_fees = true;
            }
            return Err(e);
        },
    };
    let fees_claimed = if page_index == 0 {
        Some(
            QuoteFeesClaimed {
                amount: claimed_quote,
                timestamp: now,
                distribution_day: progress.current_day,
            },
        )
    } else {
        None
    };
    match close_page(
        policy,
        &opened,
        total_available,
        page_index,
        is_final_page,
        now,
        fees_claimed,
        locked,
    ) {
        Ok((next, result)) => {
            *progress = next;
            Ok(result)
        },
        Err(e) => Err(e),
    }
}

} // verus!
