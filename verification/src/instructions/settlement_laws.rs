//! What holds of every crank call, stated over the specification of the
//! crank and proved from it.

use vstd::prelude::*;
use crate::constants::DISTRIBUTION_WINDOW_SECONDS;
use crate::errors::FeeRoutingError;
use crate::instructions::distribute_fees::{
    claim_reading, holdings_check, page_handling, page_locked, AccountSnapshot, DistributeFees,
};
use crate::instructions::settlement::{
    gate_check, page_allocation, page_distributable, page_opening, page_settlement, quarantined,
    record_after_failure, Settlement,
};
use crate::math::{
    cap_excess, eligible_share_bps, lemma_allocation_bound, lemma_locked_fraction_bound,
    lemma_paid_and_withheld, lemma_sum_payouts_bounded, locked_fraction_bps, sum_amounts,
    sum_payouts, sum_withheld,
};
use crate::state::{Policy, Progress};

verus! {

/// Conservation. On every settled page, what is paid to investors, what is
/// carried over and the page's rounding dust add up to the investors'
/// allocation, to the unit; the carry-over is the withheld payouts plus the
/// excess over the daily cap; and the allocation together with the part
/// left for the creator is the whole amount available on the page.
pub proof fn lemma_page_conserves(
    policy: Policy,
    progress: Progress,
    page_index: u16,
    is_final_page: bool,
    now: i64,
    claimed_base: u64,
    claimed_quote: u64,
    locked: Seq<u64>,
)
    requires
        page_settlement(
            policy,
            progress,
            page_index,
            is_final_page,
            now,
            claimed_base,
            claimed_quote,
            locked,
        ) is Ok,
    ensures
        ({
            let s = page_settlement(
                policy,
                progress,
                page_index,
                is_final_page,
                now,
                claimed_base,
                claimed_quote,
                locked,
            )->Ok_0;
            let (opened, total_available) = page_opening(
                progress,
                page_index,
                now,
                claimed_base,
                claimed_quote,
            )->Ok_0;
            let allocation = page_allocation(policy, total_available, locked);
            let distributable = page_distributable(policy, opened, total_available, locked);
            let excess = cap_excess(
                allocation,
                policy.daily_cap_lamports as nat,
                opened.daily_distributed_to_investors as nat,
            );
            &&& s.page.total_distributed + s.progress.carry_over_lamports + s.page.rounding_dust
                == allocation
            &&& s.progress.carry_over_lamports == sum_withheld(
                locked,
                sum_amounts(locked),
                distributable,
                policy.min_payout_lamports as nat,
            ) + excess
            &&& s.page.total_distributed + sum_withheld(
                locked,
                sum_amounts(locked),
                distributable,
                policy.min_payout_lamports as nat,
            ) + s.page.rounding_dust == distributable
            &&& sum_payouts(locked, sum_amounts(locked), distributable) <= distributable
            &&& allocation <= total_available
            &&& s.progress.daily_distributed_to_investors
                == opened.daily_distributed_to_investors + s.page.total_distributed
            &&& s.progress.total_rounding_dust == progress.total_rounding_dust
                + s.page.rounding_dust
        }),
{
    let (opened, total_available) = page_opening(
        progress,
        page_index,
        now,
        claimed_base,
        claimed_quote,
    )->Ok_0;
    let total = sum_amounts(locked);
    let distributable = page_distributable(policy, opened, total_available, locked);
    lemma_locked_fraction_bound(total, policy.y0 as nat);
    lemma_allocation_bound(
        total_available as nat,
        eligible_share_bps(
            locked_fraction_bps(total, policy.y0 as nat),
            policy.investor_fee_share_bps as nat,
        ),
    );
    lemma_sum_payouts_bounded(locked, distributable);
    lemma_paid_and_withheld(locked, total, distributable, policy.min_payout_lamports as nat);
}

/// The inputs of one crank call.
pub ghost struct PageCall {
    pub page_index: u16,
    pub is_final_page: bool,
    pub now: i64,
    pub claimed_base: u64,
    pub claimed_quote: u64,
    pub locked: Seq<u64>,
}

/// Where the funds of a run of settled calls have gone.
pub ghost struct Ledger {
    /// The record after the last call.
    pub progress: Progress,
    /// Quote currency that the claims brought in.
    pub claimed: nat,
    /// What the pages handed to investors.
    pub paid: nat,
    /// The rounding dust of the pages.
    pub rounding_dust: nat,
    /// What the pages did not earmark for investors: the creator's part.
    pub unallocated: nat,
    /// What the pages handed to the creator.
    pub paid_to_creator: nat,
}

/// The ledger of a run of calls that all settle, one after the other from
/// `progress`; `None` if one of them fails.
pub open spec fn ledger_of(policy: Policy, progress: Progress, calls: Seq<PageCall>) -> Option<
    Ledger,
>
    decreases calls.len(),
{
    if calls.len() == 0 {
        Some(
            Ledger {
                progress,
                claimed: 0,
                paid: 0,
                rounding_dust: 0,
                unallocated: 0,
                paid_to_creator: 0,
            },
        )
    } else {
        let call = calls.last();
        match ledger_of(policy, progress, calls.drop_last()) {
            None => None,
            Some(before) => match page_settlement(
                policy,
                before.progress,
                call.page_index,
                call.is_final_page,
                call.now,
                call.claimed_base,
                call.claimed_quote,
                call.locked,
            ) {
                Err(_) => None,
                Ok(s) => {
                    let total_available = page_opening(
                        before.progress,
                        call.page_index,
                        call.now,
                        call.claimed_base,
                        call.claimed_quote,
                    )->Ok_0.1;
                    Some(
                        Ledger {
                            progress: s.progress,
                            claimed: before.claimed + if call.page_index == 0 {
                                call.claimed_quote as nat
                            } else {
                                0
                            },
                            paid: before.paid + s.page.total_distributed as nat,
                            rounding_dust: before.rounding_dust + s.page.rounding_dust as nat,
                            unallocated: (before.unallocated + total_available - page_allocation(
                                policy,
                                total_available,
                                call.locked,
                            )) as nat,
                            paid_to_creator: before.paid_to_creator + s.creator_amount as nat,
                        },
                    )
                },
            },
        }
    }
}

/// Conservation over any run of settled calls, be it a day of several pages
/// or many days. Whatever was carried in and whatever the claims brought is,
/// to the unit, what the investors were paid, the rounding dust, the part
/// not earmarked for investors and what is carried out; the lifetime dust
/// counter grows by exactly the rounding dust; and the creator is never paid
/// more than the part not earmarked for investors.
pub proof fn lemma_calls_conserve(policy: Policy, progress: Progress, calls: Seq<PageCall>)
    requires
        ledger_of(policy, progress, calls) is Some,
    ensures
        ({
            let ledger = ledger_of(policy, progress, calls)->Some_0;
            &&& progress.carry_over_lamports + ledger.claimed == ledger.paid + ledger.rounding_dust
                + ledger.unallocated + ledger.progress.carry_over_lamports
            &&& ledger.progress.total_rounding_dust == progress.total_rounding_dust
                + ledger.rounding_dust
            &&& ledger.paid_to_creator <= ledger.unallocated
        }),
    decreases calls.len(),
{
    if calls.len() > 0 {
        let call = calls.last();
        lemma_calls_conserve(policy, progress, calls.drop_last());
        let before = ledger_of(policy, progress, calls.drop_last())->Some_0;
        lemma_page_conserves(
            policy,
            before.progress,
            call.page_index,
            call.is_final_page,
            call.now,
            call.claimed_base,
            call.claimed_quote,
            call.locked,
        );
        lemma_creator_settled_once(
            policy,
            before.progress,
            call.page_index,
            call.is_final_page,
            call.now,
            call.claimed_base,
            call.claimed_quote,
            call.locked,
        );
    }
}

/// The page gate after a day has been opened. Once page 0 has settled at `now`,
/// a second page 0 is refused until a full window has passed, and admitted
/// from exactly then on; the only later page admitted is page 1, and only
/// inside the window.
pub proof fn lemma_gate_after_opening(
    policy: Policy,
    progress: Progress,
    is_final_page: bool,
    now: i64,
    claimed_base: u64,
    claimed_quote: u64,
    locked: Seq<u64>,
    later: i64,
    page_index: u16,
)
    requires
        page_settlement(
            policy,
            progress,
            0,
            is_final_page,
            now,
            claimed_base,
            claimed_quote,
            locked,
        ) is Ok,
    ensures
        ({
            let next = page_settlement(
                policy,
                progress,
                0,
                is_final_page,
                now,
                claimed_base,
                claimed_quote,
                locked,
            )->Ok_0.progress;
            &&& next.last_distribution_ts == now
            &&& next.current_page == 1
            &&& next.current_day == progress.current_day + 1
            &&& later < now + DISTRIBUTION_WINDOW_SECONDS ==> gate_check(next, 0, later) == Err::<
                (),
                FeeRoutingError,
            >(FeeRoutingError::DistributionWindowNotElapsed)
            &&& later >= now + DISTRIBUTION_WINDOW_SECONDS ==> gate_check(next, 0, later) is Ok
            &&& page_index > 1 ==> gate_check(next, page_index, later) == Err::<
                (),
                FeeRoutingError,
            >(FeeRoutingError::InvalidPageIndex)
            &&& gate_check(next, 1, later) is Ok <==> later < now + DISTRIBUTION_WINDOW_SECONDS
        }),
{
}

/// Whatever the page gate refuses, the crank refuses with the same error, for
/// every policy, claim and batch, and the record stays as it was.
pub proof fn lemma_gate_refusal_is_final(
    policy: Policy,
    progress: Progress,
    page_index: u16,
    is_final_page: bool,
    now: i64,
    claimed_base: u64,
    claimed_quote: u64,
    locked: Seq<u64>,
)
    requires
        gate_check(progress, page_index, now) is Err,
    ensures
        page_settlement(
            policy,
            progress,
            page_index,
            is_final_page,
            now,
            claimed_base,
            claimed_quote,
            locked,
        ) == Err::<Settlement, FeeRoutingError>(gate_check(progress, page_index, now)->Err_0),
        record_after_failure(progress, page_index, now, claimed_base) == progress,
{
}

/// The window is closed up to its last second and open from its end on: a
/// first page is admitted exactly when `now` has reached the start of the
/// last day plus one full window.
pub proof fn lemma_gate_opens_at_window_end(progress: Progress, now: i64)
    ensures
        gate_check(progress, 0, now) is Ok <==> now >= progress.last_distribution_ts
            + DISTRIBUTION_WINDOW_SECONDS,
        now == progress.last_distribution_ts + DISTRIBUTION_WINDOW_SECONDS ==> gate_check(
            progress,
            0,
            now,
        ) is Ok,
        now < progress.last_distribution_ts + DISTRIBUTION_WINDOW_SECONDS ==> gate_check(
            progress,
            0,
            now,
        ) == Err::<(), FeeRoutingError>(FeeRoutingError::DistributionWindowNotElapsed),
{
}

/// Strict pagination. A settled page advances the cursor by one, so the same
/// page cannot be replayed and no page can be skipped within the day.
pub proof fn lemma_pages_are_sequential(
    policy: Policy,
    progress: Progress,
    page_index: u16,
    is_final_page: bool,
    now: i64,
    claimed_base: u64,
    claimed_quote: u64,
    locked: Seq<u64>,
    later: i64,
    other_page: u16,
)
    requires
        page_settlement(
            policy,
            progress,
            page_index,
            is_final_page,
            now,
            claimed_base,
            claimed_quote,
            locked,
        ) is Ok,
        other_page > 0,
    ensures
        ({
            let next = page_settlement(
                policy,
                progress,
                page_index,
                is_final_page,
                now,
                claimed_base,
                claimed_quote,
                locked,
            )->Ok_0.progress;
            &&& next.current_page == page_index + 1
            &&& gate_check(next, other_page, later) is Ok ==> other_page == page_index + 1
            &&& page_index == 0 || progress.counters_agree() ==> next.counters_agree()
        }),
{
}

/// The day counter and the lifetime dust counter never go back, and a
/// failed call moves neither.
pub proof fn lemma_counters_never_decrease(
    policy: Policy,
    progress: Progress,
    page_index: u16,
    is_final_page: bool,
    now: i64,
    claimed_base: u64,
    claimed_quote: u64,
    locked: Seq<u64>,
)
    ensures
        ({
            let after = match page_settlement(
                policy,
                progress,
                page_index,
                is_final_page,
                now,
                claimed_base,
                claimed_quote,
                locked,
            ) {
                Ok(s) => s.progress,
                Err(_) => record_after_failure(progress, page_index, now, claimed_base),
            };
            &&& after.current_day >= progress.current_day
            &&& after.total_rounding_dust >= progress.total_rounding_dust
            &&& after.current_day > progress.current_day ==> page_index == 0
                && after.current_day == progress.current_day + 1
            &&& after.total_investors == progress.total_investors
            &&& after.bump == progress.bump
        }),
{
}

/// A later page reads no claim: it distributes what the page before left
/// as carry-over, whatever claim amounts it is handed, and it leaves the
/// start of the day, the day counter and the day's quarantine flag alone.
pub proof fn lemma_later_page_draws_on_carry_over(
    policy: Policy,
    progress: Progress,
    page_index: u16,
    is_final_page: bool,
    now: i64,
    claimed_base: u64,
    claimed_quote: u64,
    locked: Seq<u64>,
)
    requires
        page_index > 0,
    ensures
        page_settlement(
            policy,
            progress,
            page_index,
            is_final_page,
            now,
            claimed_base,
            claimed_quote,
            locked,
        ) == page_settlement(policy, progress, page_index, is_final_page, now, 0, 0, locked),
        page_opening(progress, page_index, now, claimed_base, claimed_quote) is Ok
            ==> page_opening(progress, page_index, now, claimed_base, claimed_quote)->Ok_0 == (
            progress,
            progress.carry_over_lamports,
        ),
        page_settlement(
            policy,
            progress,
            page_index,
            is_final_page,
            now,
            claimed_base,
            claimed_quote,
            locked,
        ) matches Ok(s) ==> {
            &&& s.fees_claimed is None
            &&& s.progress.last_distribution_ts == progress.last_distribution_ts
            &&& s.progress.current_day == progress.current_day
            &&& s.progress.has_base_fees == progress.has_base_fees
        },
{
}

/// Contamination halts distribution. A first page whose claim brought
/// base-currency fees settles nothing: it fails, and the only trace it
/// leaves is the raised quarantine flag. While the flag is raised every
/// later page fails too, whatever it is given.
pub proof fn lemma_contamination_halts(
    policy: Policy,
    progress: Progress,
    is_final_page: bool,
    now: i64,
    claimed_base: u64,
    claimed_quote: u64,
    locked: Seq<u64>,
    later_policy: Policy,
    later_page: u16,
    later_final: bool,
    later: i64,
    later_base: u64,
    later_quote: u64,
    later_locked: Seq<u64>,
)
    requires
        gate_check(progress, 0, now) is Ok,
        claimed_base > 0,
        later_page > 0,
    ensures
        page_settlement(
            policy,
            progress,
            0,
            is_final_page,
            now,
            claimed_base,
            claimed_quote,
            locked,
        ) == Err::<Settlement, FeeRoutingError>(FeeRoutingError::BaseFeesDetected),
        record_after_failure(progress, 0, now, claimed_base) == quarantined(progress),
        quarantined(progress).has_base_fees,
        page_settlement(
            later_policy,
            quarantined(progress),
            later_page,
            later_final,
            later,
            later_base,
            later_quote,
            later_locked,
        ) is Err,
        record_after_failure(quarantined(progress), later_page, later, later_base) == quarantined(
            progress,
        ),
{
}

/// A raised quarantine flag blocks every page but the first of a new day,
/// and a day that opens clears it.
pub proof fn lemma_quarantine_lasts_until_new_day(
    policy: Policy,
    progress: Progress,
    page_index: u16,
    is_final_page: bool,
    now: i64,
    claimed_base: u64,
    claimed_quote: u64,
    locked: Seq<u64>,
)
    requires
        progress.has_base_fees,
    ensures
        ({
            let outcome = page_settlement(
                policy,
                progress,
                page_index,
                is_final_page,
                now,
                claimed_base,
                claimed_quote,
                locked,
            );
            &&& page_index > 0 ==> outcome is Err
            &&& outcome is Ok ==> page_index == 0 && claimed_base == 0
                && !outcome->Ok_0.progress.has_base_fees
        }),
{
}

/// Single creator payout. The day's settlement flag is raised by the page
/// marked final and by no other; once it is raised no further remainder is
/// paid that day; and the page that raises it pays exactly what the
/// investors' allocation left of the available amount, be it zero.
pub proof fn lemma_creator_settled_once(
    policy: Policy,
    progress: Progress,
    page_index: u16,
    is_final_page: bool,
    now: i64,
    claimed_base: u64,
    claimed_quote: u64,
    locked: Seq<u64>,
)
    requires
        page_settlement(
            policy,
            progress,
            page_index,
            is_final_page,
            now,
            claimed_base,
            claimed_quote,
            locked,
        ) is Ok,
    ensures
        ({
            let s = page_settlement(
                policy,
                progress,
                page_index,
                is_final_page,
                now,
                claimed_base,
                claimed_quote,
                locked,
            )->Ok_0;
            let (opened, total_available) = page_opening(
                progress,
                page_index,
                now,
                claimed_base,
                claimed_quote,
            )->Ok_0;
            let sent_before = page_index > 0 && progress.creator_payout_sent;
            &&& opened.creator_payout_sent == sent_before
            &&& s.progress.creator_payout_sent == (sent_before || is_final_page)
            &&& (!is_final_page || sent_before) ==> s.creator_amount == 0 && s.day_closed is None
            &&& is_final_page && !sent_before ==> s.creator_amount == total_available
                - page_allocation(policy, total_available, locked)
            &&& s.day_closed is Some <==> s.creator_amount > 0
            &&& s.day_closed matches Some(closed) ==> closed.creator_amount == s.creator_amount
                && closed.day == s.progress.current_day
        }),
{
    let (opened, total_available) = page_opening(
        progress,
        page_index,
        now,
        claimed_base,
        claimed_quote,
    )->Ok_0;
    lemma_locked_fraction_bound(sum_amounts(locked), policy.y0 as nat);
    lemma_allocation_bound(
        total_available as nat,
        eligible_share_bps(
            locked_fraction_bps(sum_amounts(locked), policy.y0 as nat),
            policy.investor_fee_share_bps as nat,
        ),
    );
}

/// A call on accounts is the call on the plain values read from them.
/// Where the holding accounts are accepted, the claim can be read and the
/// further accounts yield the locked balances of a page, the crank on
/// accounts settles exactly as the crank on those values does, so that
/// everything that holds of the one holds of the other.
pub proof fn lemma_accounts_settle_as_their_values(
    policy: Policy,
    progress: Progress,
    accounts: DistributeFees,
    remaining: Seq<AccountSnapshot>,
    page_index: u16,
    is_final_page: bool,
    now: i64,
)
    requires
        holdings_check(policy, accounts) is Ok,
        claim_reading(policy, accounts, page_index) is Ok,
        page_locked(remaining, policy.quote_mint, now) is Ok,
    ensures
        page_handling(policy, progress, accounts, remaining, page_index, is_final_page, now)
            == page_settlement(
            policy,
            progress,
            page_index,
            is_final_page,
            now,
            claim_reading(policy, accounts, page_index)->Ok_0.0,
            claim_reading(policy, accounts, page_index)->Ok_0.1,
            page_locked(remaining, policy.quote_mint, now)->Ok_0,
        ),
{
}

/// A call on accounts never settles anything that the crank on plain values
/// would refuse at its first stage: a closed page gate, a contaminated claim
/// or a raised quarantine flag refuse the call whatever the investors are.
pub proof fn lemma_accounts_cannot_pass_a_refusal(
    policy: Policy,
    progress: Progress,
    accounts: DistributeFees,
    remaining: Seq<AccountSnapshot>,
    page_index: u16,
    is_final_page: bool,
    now: i64,
)
    requires
        page_handling(policy, progress, accounts, remaining, page_index, is_final_page, now) is Ok,
    ensures
        gate_check(progress, page_index, now) is Ok,
        claim_reading(policy, accounts, page_index) is Ok,
        page_opening(
            progress,
            page_index,
            now,
            claim_reading(policy, accounts, page_index)->Ok_0.0,
            claim_reading(policy, accounts, page_index)->Ok_0.1,
        ) is Ok,
        page_index == 0 ==> claim_reading(policy, accounts, page_index)->Ok_0.0 == 0,
        page_index > 0 ==> !progress.has_base_fees,
        !page_handling(
            policy,
            progress,
            accounts,
            remaining,
            page_index,
            is_final_page,
            now,
        )->Ok_0.progress.has_base_fees,
{
}

} // verus!
