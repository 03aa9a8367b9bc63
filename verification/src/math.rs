//! Pro-rata arithmetic: integer only, always rounding down.

use vstd::prelude::*;
use crate::errors::FeeRoutingError;

verus! {

/// Locked fraction of the baseline allocation, in basis points.
pub open spec fn locked_fraction_bps(locked_total: nat, y0: nat) -> nat {
    (locked_total * 10_000) / y0
}

/// The investors' share: the locked fraction, held to the configured cap.
pub open spec fn eligible_share_bps(locked_fraction: nat, max_share: nat) -> nat {
    if locked_fraction <= max_share {
        locked_fraction
    } else {
        max_share
    }
}

/// The part of `total_available` that a share in basis points earmarks.
pub open spec fn investor_allocation(total_available: nat, share_bps: nat) -> nat {
    (total_available * share_bps) / 10_000
}

/// What of the day's cap is still open.
pub open spec fn remaining_cap(daily_cap: nat, already_distributed: nat) -> nat {
    if daily_cap >= already_distributed {
        (daily_cap - already_distributed) as nat
    } else {
        0
    }
}

/// The amount that may be distributed under the daily cap.
pub open spec fn capped_amount(total: nat, daily_cap: nat, already_distributed: nat) -> nat {
    if daily_cap == 0 || total <= remaining_cap(daily_cap, already_distributed) {
        total
    } else {
        remaining_cap(daily_cap, already_distributed)
    }
}

/// The excess over the daily cap, which is carried to the next cycle.
pub open spec fn cap_excess(total: nat, daily_cap: nat, already_distributed: nat) -> nat {
    (total - capped_amount(total, daily_cap, already_distributed)) as nat
}

/// One investor's payout: the distributable amount weighted by the
/// investor's part of the locked total, rounded down.
pub open spec fn investor_payout(investor_locked: nat, total_locked: nat, distributable: nat) -> nat {
    if investor_locked == 0 {
        0
    } else {
        (distributable * investor_locked) / total_locked
    }
}

/// Sum of a sequence of amounts.
pub open spec fn sum_amounts(amounts: Seq<u64>) -> nat
    decreases amounts.len(),
{
    if amounts.len() == 0 {
        0
    } else {
        sum_amounts(amounts.drop_last()) + amounts.last() as nat
    }
}

/// Sum of the payouts computed for a sequence of locked amounts.
pub open spec fn sum_payouts(locked: Seq<u64>, total_locked: nat, distributable: nat) -> nat
    decreases locked.len(),
{
    if locked.len() == 0 {
        0
    } else {
        sum_payouts(locked.drop_last(), total_locked, distributable) + investor_payout(
            locked.last() as nat,
            total_locked,
            distributable,
        )
    }
}

/// Sum of the payouts that reach the minimum and are therefore sent.
pub open spec fn sum_paid(
    locked: Seq<u64>,
    total_locked: nat,
    distributable: nat,
    min_payout: nat,
) -> nat
    decreases locked.len(),
{
    if locked.len() == 0 {
        0
    } else {
        let payout = investor_payout(locked.last() as nat, total_locked, distributable);
        sum_paid(locked.drop_last(), total_locked, distributable, min_payout) + if payout
            >= min_payout {
            payout
        } else {
            0
        }
    }
}

/// Sum of the payouts below the minimum, which are withheld as dust.
pub open spec fn sum_withheld(
    locked: Seq<u64>,
    total_locked: nat,
    distributable: nat,
    min_payout: nat,
) -> nat
    decreases locked.len(),
{
    if locked.len() == 0 {
        0
    } else {
        let payout = investor_payout(locked.last() as nat, total_locked, distributable);
        sum_withheld(locked.drop_last(), total_locked, distributable, min_payout) + if payout
            >= min_payout {
            0
        } else {
            payout
        }
    }
}

/// Number of investors whose payout reaches the minimum.
pub open spec fn count_paid(
    locked: Seq<u64>,
    total_locked: nat,
    distributable: nat,
    min_payout: nat,
) -> nat
    decreases locked.len(),
{
    if locked.len() == 0 {
        0
    } else {
        let payout = investor_payout(locked.last() as nat, total_locked, distributable);
        count_paid(locked.drop_last(), total_locked, distributable, min_payout) + if payout
            >= min_payout {
            1nat
        } else {
            0nat
        }
    }
}

/// Rounding down never gives more than the exact quotient.
pub proof fn lemma_floor_bound(a: nat, b: nat, d: nat)
    requires
        d > 0,
    ensures
        ((a * b) / d) * d <= a * b,
        b <= d ==> (a * b) / d <= a,
{
    assert(((a * b) / d) * d <= a * b) by (nonlinear_arith)
        requires
            d > 0,
    ;
    if b <= d {
        assert((a * b) / d <= a) by (nonlinear_arith)
            requires
                d > 0,
                b <= d,
        ;
    }
}

/// The locked fraction never exceeds 100% when the locked total is within
/// the baseline allocation.
pub proof fn lemma_locked_fraction_bound(locked_total: nat, y0: nat)
    requires
        y0 > 0,
        locked_total <= y0,
    ensures
        locked_fraction_bps(locked_total, y0) <= 10_000,
{
    assert((locked_total * 10_000) / y0 <= 10_000) by (nonlinear_arith)
        requires
            y0 > 0,
            locked_total <= y0,
    ;
}

/// The locked fraction does not decrease as the locked total grows, so the
/// investors' share shrinks, and never grows, as allocations vest.
pub proof fn lemma_locked_fraction_monotonic(locked_a: nat, locked_b: nat, y0: nat, max_share: nat)
    requires
        y0 > 0,
        locked_a <= locked_b,
    ensures
        locked_fraction_bps(locked_a, y0) <= locked_fraction_bps(locked_b, y0),
        eligible_share_bps(locked_fraction_bps(locked_a, y0), max_share) <= eligible_share_bps(
            locked_fraction_bps(locked_b, y0),
            max_share,
        ),
        locked_fraction_bps(0, y0) == 0,
{
    assert((locked_a * 10_000) / y0 <= (locked_b * 10_000) / y0) by (nonlinear_arith)
        requires
            y0 > 0,
            locked_a <= locked_b,
    ;
    assert((0nat * 10_000) / y0 == 0) by (nonlinear_arith)
        requires
            y0 > 0,
    ;
}

/// For a fixed cap the eligible share does not decrease as the locked
/// fraction grows, and it never exceeds the cap.
pub proof fn lemma_eligible_share_monotonic(fraction_a: nat, fraction_b: nat, max_share: nat)
    requires
        fraction_a <= fraction_b,
    ensures
        eligible_share_bps(fraction_a, max_share) <= eligible_share_bps(fraction_b, max_share),
        eligible_share_bps(fraction_a, max_share) <= max_share,
        eligible_share_bps(fraction_a, max_share) <= fraction_a,
{
}

/// With no cap configured the whole amount is distributable, whatever was
/// distributed before; with a cap, the distributable part and the excess
/// always add up to the whole and the part never exceeds the open cap.
pub proof fn lemma_daily_cap_splits(total: nat, daily_cap: nat, already_distributed: nat)
    ensures
        capped_amount(total, 0, already_distributed) == total,
        cap_excess(total, 0, already_distributed) == 0,
        capped_amount(total, daily_cap, already_distributed) + cap_excess(
            total,
            daily_cap,
            already_distributed,
        ) == total,
        daily_cap > 0 ==> capped_amount(total, daily_cap, already_distributed) <= remaining_cap(
            daily_cap,
            already_distributed,
        ),
{
}

/// An allocation never exceeds the amount it is taken from when the share
/// is at most 100%.
pub proof fn lemma_allocation_bound(total_available: nat, share_bps: nat)
    requires
        share_bps <= 10_000,
    ensures
        investor_allocation(total_available, share_bps) <= total_available,
{
    lemma_floor_bound(total_available, share_bps, 10_000);
}

/// The payouts of any group of investors, scaled by the locked total, stay
/// within the distributable amount scaled by the group's own locked sum.
pub proof fn lemma_sum_payouts_scaled(locked: Seq<u64>, total_locked: nat, distributable: nat)
    requires
        total_locked > 0,
    ensures
        sum_payouts(locked, total_locked, distributable) * total_locked <= distributable
            * sum_amounts(locked),
    decreases locked.len(),
{
    if locked.len() > 0 {
        let rest = locked.drop_last();
        let last = locked.last() as nat;
        lemma_sum_payouts_scaled(rest, total_locked, distributable);
        lemma_floor_bound(distributable, last, total_locked);
        let p = investor_payout(last, total_locked, distributable);
        let s = sum_payouts(rest, total_locked, distributable);
        assert(p * total_locked <= distributable * last);
        assert((s + p) * total_locked <= distributable * (sum_amounts(rest) + last))
            by (nonlinear_arith)
            requires
                s * total_locked <= distributable * sum_amounts(rest),
                p * total_locked <= distributable * last,
        ;
    } else {
        assert(0 * total_locked <= distributable * 0) by (nonlinear_arith);
    }
}

/// Where nothing is locked in a group, nobody in it is due anything.
pub proof fn lemma_sum_payouts_of_nothing(locked: Seq<u64>, total_locked: nat, distributable: nat)
    requires
        sum_amounts(locked) == 0,
    ensures
        sum_payouts(locked, total_locked, distributable) == 0,
    decreases locked.len(),
{
    if locked.len() > 0 {
        lemma_sum_payouts_of_nothing(locked.drop_last(), total_locked, distributable);
    }
}

/// An investor with nothing locked is due nothing, and nobody is due more
/// than the distributable amount while no one holds more than the total.
pub proof fn lemma_payout_bounds(investor_locked: nat, total_locked: nat, distributable: nat)
    requires
        total_locked > 0,
    ensures
        investor_payout(0, total_locked, distributable) == 0,
        investor_locked <= total_locked ==> investor_payout(
            investor_locked,
            total_locked,
            distributable,
        ) <= distributable,
{
    lemma_floor_bound(distributable, investor_locked, total_locked);
}

/// The payouts of a page never add up to more than the page's distributable
/// amount, when the weights are taken against the page's own locked total.
pub proof fn lemma_sum_payouts_bounded(locked: Seq<u64>, distributable: nat)
    ensures
        sum_payouts(locked, sum_amounts(locked), distributable) <= distributable,
{
    let total = sum_amounts(locked);
    if total == 0 {
        lemma_sum_payouts_of_nothing(locked, total, distributable);
    } else {
        lemma_sum_payouts_scaled(locked, total, distributable);
        let s = sum_payouts(locked, total, distributable);
        assert(s <= distributable) by (nonlinear_arith)
            requires
                s * total <= distributable * total,
                total > 0,
        ;
    }
}

/// Every computed payout is either sent or withheld: the two sums add up to
/// the sum of all payouts, and no more investors are paid than there are.
pub proof fn lemma_paid_and_withheld(
    locked: Seq<u64>,
    total_locked: nat,
    distributable: nat,
    min_payout: nat,
)
    ensures
        sum_paid(locked, total_locked, distributable, min_payout) + sum_withheld(
            locked,
            total_locked,
            distributable,
            min_payout,
        ) == sum_payouts(locked, total_locked, distributable),
        count_paid(locked, total_locked, distributable, min_payout) <= locked.len(),
    decreases locked.len(),
{
    if locked.len() > 0 {
        lemma_paid_and_withheld(locked.drop_last(), total_locked, distributable, min_payout);
    }
}

/// The first amounts of a group add up to no more than the whole group.
pub proof fn lemma_prefix_sum_amounts(amounts: Seq<u64>, n: int)
    requires
        0 <= n <= amounts.len(),
    ensures
        sum_amounts(amounts.take(n)) <= sum_amounts(amounts),
    decreases amounts.len() - n,
{
    if n == amounts.len() {
        assert(amounts.take(n) =~= amounts);
    } else {
        lemma_prefix_sum_amounts(amounts, n + 1);
        assert(amounts.take(n + 1).drop_last() =~= amounts.take(n));
    }
}

/// The payouts of the first investors of a group add up to no more than
/// the payouts of the whole group.
pub proof fn lemma_prefix_sum_payouts(
    locked: Seq<u64>,
    n: int,
    total_locked: nat,
    distributable: nat,
)
    requires
        0 <= n <= locked.len(),
    ensures
        sum_payouts(locked.take(n), total_locked, distributable) <= sum_payouts(
            locked,
            total_locked,
            distributable,
        ),
    decreases locked.len() - n,
{
    if n == locked.len() {
        assert(locked.take(n) =~= locked);
    } else {
        lemma_prefix_sum_payouts(locked, n + 1, total_locked, distributable);
        assert(locked.take(n + 1).drop_last() =~= locked.take(n));
    }
}

/// No amount of a group exceeds the group's sum.
pub proof fn lemma_amount_within_sum(amounts: Seq<u64>, i: int)
    requires
        0 <= i < amounts.len(),
    ensures
        amounts[i] <= sum_amounts(amounts),
    decreases amounts.len(),
{
    if i < amounts.len() - 1 {
        lemma_amount_within_sum(amounts.drop_last(), i);
    }
}

/// Pro-rata distribution calculations.
pub struct DistributionMath;

impl DistributionMath {
    /// Locked fraction of the baseline allocation in basis points, rounded
    /// down. Fails when the baseline is zero or the locked total exceeds it.
    pub fn calculate_locked_fraction_bps(locked_total: u64, y0: u64) -> (r: Result<
        u64,
        FeeRoutingError,
    >)
        ensures
            y0 == 0 ==> r == Err::<u64, FeeRoutingError>(FeeRoutingError::ArithmeticOverflow),
            y0 > 0 && locked_total > y0 ==> r == Err::<u64, FeeRoutingError>(
                FeeRoutingError::LockedExceedsTotal,
            ),
            y0 > 0 && locked_total <= y0 ==> r == Ok::<u64, FeeRoutingError>(
                locked_fraction_bps(locked_total as nat, y0 as nat) as u64,
            ) && locked_fraction_bps(locked_total as nat, y0 as nat) <= 10_000,
    {
        if y0 == 0 {
            return Err(FeeRoutingError::ArithmeticOverflow);
        }
        if locked_total == 0 {
            proof {
                lemma_locked_fraction_bound(0, y0 as nat);
                assert((0nat * 10_000) / (y0 as nat) == 0) by (nonlinear_arith)
                    requires
                        y0 > 0,
                ;
            }
            return Ok(0);
        }
        if locked_total > y0 {
            return Err(FeeRoutingError::LockedExceedsTotal);
        }
        proof {
            lemma_locked_fraction_bound(locked_total as nat, y0 as nat);
        }
        let numerator: u128 = (locked_total as u128) * 10_000u128;
        let fraction_bps: u128 = numerator / (y0 as u128);
        Ok(fraction_bps as u64)
    }

    /// The investors' share: the locked fraction, held to the configured cap.
    pub fn calculate_eligible_investor_share_bps(
        locked_fraction_bps: u64,
        max_investor_fee_share_bps: u16,
    ) -> (r: u64)
        ensures
            r == eligible_share_bps(locked_fraction_bps as nat, max_investor_fee_share_bps as nat),
            r <= max_investor_fee_share_bps,
            r <= locked_fraction_bps,
    {
        if locked_fraction_bps <= max_investor_fee_share_bps as u64 {
            locked_fraction_bps
        } else {
            max_investor_fee_share_bps as u64
        }
    }

    /// The part of the claimed amount earmarked for investors, rounded down.
    /// Fails only when the result does not fit in 64 bits.
    pub fn calculate_investor_allocation(claimed_quote: u64, eligible_share_bps: u64) -> (r: Result<
        u64,
        FeeRoutingError,
    >)
        ensures
            investor_allocation(claimed_quote as nat, eligible_share_bps as nat) <= u64::MAX ==> r
                == Ok::<u64, FeeRoutingError>(
                investor_allocation(claimed_quote as nat, eligible_share_bps as nat) as u64,
            ),
            investor_allocation(claimed_quote as nat, eligible_share_bps as nat) > u64::MAX ==> r
                == Err::<u64, FeeRoutingError>(FeeRoutingError::ArithmeticOverflow),
            eligible_share_bps <= 10_000 ==> r is Ok,
    {
        proof {
            assert((claimed_quote as nat) * (eligible_share_bps as nat) <= u128::MAX)
                by (nonlinear_arith)
                requires
                    claimed_quote <= u64::MAX,
                    eligible_share_bps <= u64::MAX,
            ;
            if eligible_share_bps <= 10_000 {
                lemma_allocation_bound(claimed_quote as nat, eligible_share_bps as nat);
            }
        }
        let numerator: u128 = (claimed_quote as u128) * (eligible_share_bps as u128);
        let allocation: u128 = numerator / 10_000u128;
        if allocation > u64::MAX as u128 {
            return Err(FeeRoutingError::ArithmeticOverflow);
        }
        Ok(allocation as u64)
    }

    /// One investor's payout, rounded down. Fails when nothing is locked in
    /// total, or when the result does not fit in 64 bits.
    pub fn calculate_investor_payout(
        investor_locked: u64,
        total_locked: u64,
        investor_allocation: u64,
    ) -> (r: Result<u64, FeeRoutingError>)
        ensures
            total_locked == 0 ==> r == Err::<u64, FeeRoutingError>(
                FeeRoutingError::ArithmeticOverflow,
            ),
            total_locked > 0 && investor_payout(
                investor_locked as nat,
                total_locked as nat,
                investor_allocation as nat,
            ) > u64::MAX ==> r == Err::<u64, FeeRoutingError>(FeeRoutingError::ArithmeticOverflow),
            total_locked > 0 && investor_payout(
                investor_locked as nat,
                total_locked as nat,
                investor_allocation as nat,
            ) <= u64::MAX ==> r == Ok::<u64, FeeRoutingError>(
                investor_payout(
                    investor_locked as nat,
                    total_locked as nat,
                    investor_allocation as nat,
                ) as u64,
            ),
            total_locked > 0 && investor_locked <= total_locked ==> r is Ok && r->Ok_0
                <= investor_allocation,
    {
        if total_locked == 0 {
            return Err(FeeRoutingError::ArithmeticOverflow);
        }
        if investor_locked == 0 {
            return Ok(0);
        }
        proof {
            assert((investor_allocation as nat) * (investor_locked as nat) <= u128::MAX)
                by (nonlinear_arith)
                requires
                    investor_allocation <= u64::MAX,
                    investor_locked <= u64::MAX,
            ;
            if investor_locked <= total_locked {
                lemma_floor_bound(
                    investor_allocation as nat,
                    investor_locked as nat,
                    total_locked as nat,
                );
            }
        }
        let numerator: u128 = (investor_allocation as u128) * (investor_locked as u128);
        let payout: u128 = numerator / (total_locked as u128);
        if payout > u64::MAX as u128 {
            return Err(FeeRoutingError::ArithmeticOverflow);
        }
        Ok(payout as u64)
    }

    /// Splits an amount into what may be distributed under the daily cap and
    /// the excess that is carried over. A cap of zero means no limit.
    pub fn apply_daily_cap(total_available: u64, daily_cap: u64, already_distributed_today: u64) -> (r:
        Result<(u64, u64), FeeRoutingError>)
        ensures
            r == Ok::<(u64, u64), FeeRoutingError>(
                (
                    capped_amount(
                        total_available as nat,
                        daily_cap as nat,
                        already_distributed_today as nat,
                    ) as u64,
                    cap_excess(
                        total_available as nat,
                        daily_cap as nat,
                        already_distributed_today as nat,
                    ) as u64,
                ),
            ),
            daily_cap == 0 ==> r == Ok::<(u64, u64), FeeRoutingError>((total_available, 0u64)),
    {
        if daily_cap == 0 {
            return Ok((total_available, 0));
        }
        let remaining: u64 = if daily_cap >= already_distributed_today {
            daily_cap - already_distributed_today
        } else {
            0
        };
        if total_available <= remaining {
            Ok((total_available, 0))
        } else {
            Ok((remaining, total_available - remaining))
        }
    }

    /// Whether a payout reaches the minimum and is sent.
    pub fn meets_minimum_threshold(payout: u64, min_threshold: u64) -> (r: bool)
        ensures
            r == (payout >= min_threshold),
    {
        payout >= min_threshold
    }
}

} // verus!
