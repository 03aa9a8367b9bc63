use fee_routing::errors::FeeRoutingError;
use fee_routing::math::DistributionMath;

#[test]
fn test_locked_fraction_calculation() {
    // 50% locked
    let result = DistributionMath::calculate_locked_fraction_bps(5000, 10000).unwrap();
    assert_eq!(result, 5000);

    // 100% locked
    let result = DistributionMath::calculate_locked_fraction_bps(10000, 10000).unwrap();
    assert_eq!(result, 10000);

    // 0% locked
    let result = DistributionMath::calculate_locked_fraction_bps(0, 10000).unwrap();
    assert_eq!(result, 0);

    // 25% locked
    let result = DistributionMath::calculate_locked_fraction_bps(2500, 10000).unwrap();
    assert_eq!(result, 2500);
}

#[test]
fn test_eligible_share_with_cap() {
    // Locked fraction below cap
    let result = DistributionMath::calculate_eligible_investor_share_bps(3000, 5000);
    assert_eq!(result, 3000);

    // Locked fraction above cap
    let result = DistributionMath::calculate_eligible_investor_share_bps(8000, 5000);
    assert_eq!(result, 5000);

    // Locked fraction equals cap
    let result = DistributionMath::calculate_eligible_investor_share_bps(5000, 5000);
    assert_eq!(result, 5000);
}

#[test]
fn test_investor_allocation() {
    // 50% share of 10000 tokens = 5000
    let result = DistributionMath::calculate_investor_allocation(10000, 5000).unwrap();
    assert_eq!(result, 5000);

    // 25% share of 10000 tokens = 2500
    let result = DistributionMath::calculate_investor_allocation(10000, 2500).unwrap();
    assert_eq!(result, 2500);

    // 100% share
    let result = DistributionMath::calculate_investor_allocation(10000, 10000).unwrap();
    assert_eq!(result, 10000);
}

#[test]
fn test_investor_payout() {
    // Investor with 30% of locked tokens gets 30% of allocation
    let result = DistributionMath::calculate_investor_payout(3000, 10000, 5000).unwrap();
    assert_eq!(result, 1500);

    // Investor with 50% of locked tokens
    let result = DistributionMath::calculate_investor_payout(5000, 10000, 5000).unwrap();
    assert_eq!(result, 2500);

    // Investor with 0 locked tokens
    let result = DistributionMath::calculate_investor_payout(0, 10000, 5000).unwrap();
    assert_eq!(result, 0);
}

#[test]
fn test_daily_cap_application() {
    // No cap (0 = unlimited)
    let (distribute, carry) = DistributionMath::apply_daily_cap(10000, 0, 0).unwrap();
    assert_eq!(distribute, 10000);
    assert_eq!(carry, 0);

    // Within cap
    let (distribute, carry) = DistributionMath::apply_daily_cap(5000, 10000, 0).unwrap();
    assert_eq!(distribute, 5000);
    assert_eq!(carry, 0);

    // Exceeds cap
    let (distribute, carry) = DistributionMath::apply_daily_cap(15000, 10000, 0).unwrap();
    assert_eq!(distribute, 10000);
    assert_eq!(carry, 5000);

    // With partial distribution already done
    let (distribute, carry) = DistributionMath::apply_daily_cap(8000, 10000, 3000).unwrap();
    assert_eq!(distribute, 7000);
    assert_eq!(carry, 1000);
}

#[test]
fn test_minimum_threshold() {
    assert!(DistributionMath::meets_minimum_threshold(1000, 500));
    assert!(DistributionMath::meets_minimum_threshold(500, 500));
    assert!(!DistributionMath::meets_minimum_threshold(499, 500));
    assert!(!DistributionMath::meets_minimum_threshold(0, 1));
}

#[test]
fn locked_fraction_rounds_down() {
    assert_eq!(DistributionMath::calculate_locked_fraction_bps(1, 3), Ok(3333));
    assert_eq!(DistributionMath::calculate_locked_fraction_bps(2, 3), Ok(6666));
    assert_eq!(DistributionMath::calculate_locked_fraction_bps(1, 10001), Ok(0));
    assert_eq!(DistributionMath::calculate_locked_fraction_bps(u64::MAX, u64::MAX), Ok(10000));
}

#[test]
fn locked_fraction_rejects_zero_baseline() {
    assert_eq!(
        DistributionMath::calculate_locked_fraction_bps(5, 0),
        Err(FeeRoutingError::ArithmeticOverflow)
    );
    assert_eq!(
        DistributionMath::calculate_locked_fraction_bps(0, 0),
        Err(FeeRoutingError::ArithmeticOverflow)
    );
}

#[test]
fn locked_fraction_rejects_locked_above_baseline() {
    assert_eq!(
        DistributionMath::calculate_locked_fraction_bps(10001, 10000),
        Err(FeeRoutingError::LockedExceedsTotal)
    );
}

#[test]
fn eligible_share_is_monotonic_and_capped() {
    let cap: u16 = 5000;
    let mut previous = 0u64;
    for fraction in [0u64, 1, 2999, 3000, 4999, 5000, 5001, 8000, 10000] {
        let share = DistributionMath::calculate_eligible_investor_share_bps(fraction, cap);
        assert!(share >= previous);
        assert!(share <= cap as u64);
        assert!(share <= fraction);
        previous = share;
    }
    assert_eq!(DistributionMath::calculate_eligible_investor_share_bps(10000, 10000), 10000);
    assert_eq!(DistributionMath::calculate_eligible_investor_share_bps(10000, 0), 0);
}

#[test]
fn investor_allocation_rounds_down() {
    assert_eq!(DistributionMath::calculate_investor_allocation(9999, 3333), Ok(3332));
    assert_eq!(DistributionMath::calculate_investor_allocation(1, 9999), Ok(0));
    assert_eq!(DistributionMath::calculate_investor_allocation(0, 10000), Ok(0));
    assert_eq!(DistributionMath::calculate_investor_allocation(u64::MAX, 10000), Ok(u64::MAX));
}

#[test]
fn investor_allocation_reports_a_result_beyond_64_bits() {
    assert_eq!(
        DistributionMath::calculate_investor_allocation(u64::MAX, 20000),
        Err(FeeRoutingError::ArithmeticOverflow)
    );
}

#[test]
fn investor_payout_rounds_down() {
    assert_eq!(DistributionMath::calculate_investor_payout(1, 3, 1000), Ok(333));
    assert_eq!(DistributionMath::calculate_investor_payout(2, 3, 1000), Ok(666));
    assert_eq!(DistributionMath::calculate_investor_payout(3, 3, 1000), Ok(1000));
    assert_eq!(
        DistributionMath::calculate_investor_payout(u64::MAX, u64::MAX, u64::MAX),
        Ok(u64::MAX)
    );
}

#[test]
fn investor_payout_of_nothing_locked_is_zero() {
    for total in [1u64, 7, 10000, u64::MAX] {
        for distributable in [0u64, 1, 5000, u64::MAX] {
            assert_eq!(DistributionMath::calculate_investor_payout(0, total, distributable), Ok(0));
        }
    }
}

#[test]
fn investor_payout_rejects_zero_total() {
    assert_eq!(
        DistributionMath::calculate_investor_payout(5, 0, 1000),
        Err(FeeRoutingError::ArithmeticOverflow)
    );
    assert_eq!(
        DistributionMath::calculate_investor_payout(0, 0, 1000),
        Err(FeeRoutingError::ArithmeticOverflow)
    );
}

#[test]
fn investor_payout_reports_a_result_beyond_64_bits() {
    assert_eq!(
        DistributionMath::calculate_investor_payout(u64::MAX, 1, 2),
        Err(FeeRoutingError::ArithmeticOverflow)
    );
}

#[test]
fn payouts_of_a_page_stay_within_the_distributable() {
    let locked = [1u64, 1, 1, 7, 13, 0, 977];
    let total: u64 = locked.iter().sum();
    for distributable in [0u64, 1, 6, 999, 1000, 12345, u64::MAX] {
        let mut sum: u128 = 0;
        for l in locked {
            sum += DistributionMath::calculate_investor_payout(l, total, distributable).unwrap()
                as u128;
        }
        assert!(sum <= distributable as u128);
    }
}

#[test]
fn daily_cap_of_zero_never_limits() {
    for x in [0u64, 1, 15000, u64::MAX] {
        for already in [0u64, 1, 15000, u64::MAX] {
            assert_eq!(DistributionMath::apply_daily_cap(x, 0, already), Ok((x, 0)));
        }
    }
}

#[test]
fn daily_cap_already_reached_carries_everything() {
    assert_eq!(DistributionMath::apply_daily_cap(500, 1000, 1000), Ok((0, 500)));
    assert_eq!(DistributionMath::apply_daily_cap(500, 1000, 2000), Ok((0, 500)));
    assert_eq!(DistributionMath::apply_daily_cap(1000, 1000, 0), Ok((1000, 0)));
    assert_eq!(DistributionMath::apply_daily_cap(1001, 1000, 0), Ok((1000, 1)));
}

#[test]
fn daily_cap_parts_add_up() {
    for total in [0u64, 1, 7000, 8000, u64::MAX] {
        for cap in [1u64, 7000, 10000, u64::MAX] {
            for already in [0u64, 3000, 10000, u64::MAX] {
                let (distribute, carry) =
                    DistributionMath::apply_daily_cap(total, cap, already).unwrap();
                assert_eq!(distribute as u128 + carry as u128, total as u128);
                assert!(distribute <= cap.saturating_sub(already));
            }
        }
    }
}

#[test]
fn every_error_has_its_message() {
    assert_eq!(
        FeeRoutingError::DistributionWindowNotElapsed.message(),
        "Distribution can only be called once per 24 hour window"
    );
    assert_eq!(
        FeeRoutingError::InvalidPageIndex.message(),
        "Invalid page index for current distribution day"
    );
    assert_eq!(
        FeeRoutingError::BaseFeesDetected.message(),
        "Base token fees detected - position must be quote-only"
    );
    assert_eq!(
        FeeRoutingError::BaseFeesNotAllowed.message(),
        "Position must accrue fees in quote mint only"
    );
    assert_eq!(FeeRoutingError::LockedExceedsTotal.message(), "Total locked amount exceeds Y0");
    assert_eq!(
        FeeRoutingError::ArithmeticOverflow.message(),
        "Arithmetic overflow in fee calculation"
    );
    assert_eq!(FeeRoutingError::InvalidQuoteMint.message(), "Invalid quote mint provided");
    assert_eq!(
        FeeRoutingError::PayoutBelowMinimum.message(),
        "Investor payout below minimum threshold"
    );
    assert_eq!(FeeRoutingError::DailyCapExceeded.message(), "Daily distribution cap exceeded");
    assert_eq!(
        FeeRoutingError::AllPagesProcessed.message(),
        "All pages for current day already processed"
    );
    assert_eq!(
        FeeRoutingError::CreatorPayoutAlreadySent.message(),
        "Creator payout already sent for this day"
    );
    assert_eq!(
        FeeRoutingError::InvalidStreamflowAccount.message(),
        "Invalid Streamflow account provided"
    );
    assert_eq!(
        FeeRoutingError::InvalidPoolAuthority.message(),
        "Invalid pool authority provided"
    );
    assert_eq!(FeeRoutingError::InvalidProgram.message(), "Invalid program ID provided");
    assert_eq!(
        FeeRoutingError::InvalidTreasuryAuthority.message(),
        "Invalid treasury authority"
    );
    assert_eq!(FeeRoutingError::InvalidAccountOwnership.message(), "Invalid account ownership");
    assert_eq!(
        FeeRoutingError::TooManyInvestors.message(),
        "Too many investors for one page"
    );
    assert_eq!(
        FeeRoutingError::InvalidTokenAccount.message(),
        "Invalid token account provided"
    );
}
