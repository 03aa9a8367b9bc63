use fee_routing::errors::FeeRoutingError;
use fee_routing::events::{CreatorPayoutDayClosed, InvestorPayoutPage, QuoteFeesClaimed};
use fee_routing::instructions::settlement::{
    check_page_gate, close_page, open_page, settle_page, InvestorPayout,
};
use fee_routing::math::DistributionMath;
use fee_routing::instructions::{
    initialize_policy_handler, initialize_position_handler, initialize_progress_handler,
    InitializePolicy, InitializePosition, InitializeProgress,
};
use fee_routing::state::{Policy, Progress};

const DAY: i64 = 86_400;

fn policy(y0: u64, share_bps: u16, daily_cap: u64, min_payout: u64) -> Policy {
    initialize_policy_handler(
        &InitializePolicy { authority: [9u8; 32], bump: 254 },
        y0,
        share_bps,
        daily_cap,
        min_payout,
        [1u8; 32],
        [2u8; 32],
    )
}

fn fresh() -> Progress {
    initialize_progress_handler(&InitializeProgress { authority: [9u8; 32], bump: 253 })
}

#[test]
fn policy_is_created_as_configured() {
    let p = policy(1_000_000, 5000, 77, 10);
    assert_eq!(p.y0, 1_000_000);
    assert_eq!(p.investor_fee_share_bps, 5000);
    assert_eq!(p.daily_cap_lamports, 77);
    assert_eq!(p.min_payout_lamports, 10);
    assert_eq!(p.quote_mint, [1u8; 32]);
    assert_eq!(p.creator_wallet, [2u8; 32]);
    assert_eq!(p.authority, [9u8; 32]);
    assert_eq!(p.bump, 254);
    assert_eq!(Policy::LEN, 131);
}

#[test]
fn progress_starts_at_zero() {
    let p = fresh();
    assert_eq!(
        p,
        Progress {
            last_distribution_ts: 0,
            current_day: 0,
            daily_distributed_to_investors: 0,
            carry_over_lamports: 0,
            current_page: 0,
            pages_processed_today: 0,
            total_investors: 0,
            creator_payout_sent: false,
            has_base_fees: false,
            total_rounding_dust: 0,
            bump: 253,
        }
    );
    assert_eq!(Progress::LEN, 57);
}

#[test]
fn position_setup_needs_a_quote_mint() {
    let ctx = InitializePosition {
        position_owner_pda: [3u8; 32],
        position: [4u8; 32],
        quote_mint: [0u8; 32],
    };
    assert_eq!(initialize_position_handler(&ctx, 5), Err(FeeRoutingError::InvalidQuoteMint));
    let mut almost = [0u8; 32];
    almost[31] = 1;
    let ctx = InitializePosition { quote_mint: almost, ..ctx };
    let event = initialize_position_handler(&ctx, 5).unwrap();
    assert_eq!(event.position, [4u8; 32]);
    assert_eq!(event.owner_pda, [3u8; 32]);
    assert_eq!(event.quote_mint, almost);
    assert_eq!(event.timestamp, 5);
}

#[test]
fn gate_admits_page_zero_exactly_at_the_window_end() {
    let mut progress = fresh();
    progress.last_distribution_ts = 1_000;
    assert_eq!(
        check_page_gate(&progress, 0, 1_000 + DAY - 1),
        Err(FeeRoutingError::DistributionWindowNotElapsed)
    );
    assert_eq!(check_page_gate(&progress, 0, 1_000 + DAY), Ok(()));
    assert_eq!(check_page_gate(&progress, 0, 1_000 + DAY + 1), Ok(()));
}

#[test]
fn gate_does_not_overflow_at_the_ends_of_time() {
    let mut progress = fresh();
    progress.last_distribution_ts = i64::MAX;
    assert_eq!(
        check_page_gate(&progress, 0, i64::MAX),
        Err(FeeRoutingError::DistributionWindowNotElapsed)
    );
    progress.current_page = 1;
    assert_eq!(check_page_gate(&progress, 1, i64::MAX), Ok(()));
    progress.last_distribution_ts = i64::MIN;
    assert_eq!(check_page_gate(&progress, 0, i64::MIN + DAY), Ok(()));
}

#[test]
fn second_page_zero_within_the_window_is_refused() {
    let policy = policy(10_000, 5000, 0, 0);
    let mut progress = fresh();
    let now = 10 * DAY;
    settle_page(&policy, &mut progress, 0, false, now, 0, 1_000, &vec![5_000]).unwrap();
    let after_first = progress;
    assert_eq!(
        settle_page(&policy, &mut progress, 0, false, now + DAY - 1, 0, 1_000, &vec![5_000]),
        Err(FeeRoutingError::DistributionWindowNotElapsed)
    );
    assert_eq!(progress, after_first);
    assert!(settle_page(&policy, &mut progress, 0, false, now + DAY, 0, 1_000, &vec![5_000])
        .is_ok());
    assert_eq!(progress.current_day, 2);
}

#[test]
fn page_two_before_page_one_is_refused() {
    let policy = policy(10_000, 5000, 0, 0);
    let mut progress = fresh();
    let now = 10 * DAY;
    settle_page(&policy, &mut progress, 0, false, now, 0, 1_000, &vec![5_000]).unwrap();
    let after_first = progress;
    assert_eq!(
        settle_page(&policy, &mut progress, 2, false, now + 1, 0, 0, &vec![5_000]),
        Err(FeeRoutingError::InvalidPageIndex)
    );
    assert_eq!(progress, after_first);
    assert!(settle_page(&policy, &mut progress, 1, false, now + 1, 0, 0, &vec![5_000]).is_ok());
    // page 1 cannot be replayed
    assert_eq!(
        settle_page(&policy, &mut progress, 1, false, now + 2, 0, 0, &vec![5_000]),
        Err(FeeRoutingError::InvalidPageIndex)
    );
    assert!(settle_page(&policy, &mut progress, 2, false, now + 2, 0, 0, &vec![5_000]).is_ok());
}

#[test]
fn later_page_after_the_window_has_elapsed_is_refused() {
    let policy = policy(10_000, 5000, 0, 0);
    let mut progress = fresh();
    let now = 10 * DAY;
    settle_page(&policy, &mut progress, 0, false, now, 0, 1_000, &vec![5_000]).unwrap();
    assert_eq!(
        settle_page(&policy, &mut progress, 1, false, now + DAY, 0, 0, &vec![5_000]),
        Err(FeeRoutingError::InvalidPageIndex)
    );
}

#[test]
fn first_page_settles_a_day() {
    // 50% locked, share capped at 40%: allocation is 40% of 10_000.
    let policy = policy(20_000, 4000, 0, 100);
    let mut progress = fresh();
    progress.carry_over_lamports = 0;
    let now = 3 * DAY;
    let locked = vec![3_000u64, 5_000, 2_000, 0];
    let result = settle_page(&policy, &mut progress, 0, true, now, 0, 10_000, &locked).unwrap();
    assert_eq!(
        result.payouts,
        vec![
            InvestorPayout { amount: 1_200, paid: true },
            InvestorPayout { amount: 2_000, paid: true },
            InvestorPayout { amount: 800, paid: true },
            InvestorPayout { amount: 0, paid: false },
        ]
    );
    assert_eq!(
        result.fees_claimed,
        Some(QuoteFeesClaimed { amount: 10_000, timestamp: now, distribution_day: 0 })
    );
    assert_eq!(
        result.page,
        InvestorPayoutPage {
            page_index: 0,
            investors_paid: 3,
            total_distributed: 4_000,
            rounding_dust: 0,
            timestamp: now,
        }
    );
    assert_eq!(result.creator_amount, 6_000);
    assert_eq!(
        result.day_closed,
        Some(CreatorPayoutDayClosed {
            day: 1,
            creator_amount: 6_000,
            total_distributed_to_investors: 4_000,
            timestamp: now,
        })
    );
    assert_eq!(
        progress,
        Progress {
            last_distribution_ts: now,
            current_day: 1,
            daily_distributed_to_investors: 4_000,
            carry_over_lamports: 0,
            current_page: 1,
            pages_processed_today: 1,
            total_investors: 0,
            creator_payout_sent: true,
            has_base_fees: false,
            total_rounding_dust: 0,
            bump: 253,
        }
    );
}

#[test]
fn page_conserves_the_allocation() {
    // allocation = floor(10_007 * 10000 / 10000) = 10_007 with everything locked
    let policy = policy(9, 10_000, 6_000, 2_000);
    let mut progress = fresh();
    progress.carry_over_lamports = 7;
    progress.total_rounding_dust = 11;
    let locked = vec![1u64, 1, 1, 6];
    let result = settle_page(&policy, &mut progress, 0, false, DAY, 0, 10_000, &locked).unwrap();
    // distributable = 6_000 (cap), excess = 4_007
    // payouts: floor(6000/9) = 666 three times, floor(36000/9) = 4000
    assert_eq!(
        result.payouts,
        vec![
            InvestorPayout { amount: 666, paid: false },
            InvestorPayout { amount: 666, paid: false },
            InvestorPayout { amount: 666, paid: false },
            InvestorPayout { amount: 4_000, paid: true },
        ]
    );
    assert_eq!(result.page.total_distributed, 4_000);
    assert_eq!(result.page.investors_paid, 1);
    assert_eq!(result.page.rounding_dust, 2);
    assert_eq!(progress.carry_over_lamports, 3 * 666 + 4_007);
    assert_eq!(progress.total_rounding_dust, 13);
    assert_eq!(progress.daily_distributed_to_investors, 4_000);
    // paid + carried over + rounding dust == allocation
    assert_eq!(
        result.page.total_distributed + progress.carry_over_lamports + result.page.rounding_dust,
        10_007
    );
    assert_eq!(result.creator_amount, 0);
    assert_eq!(result.day_closed, None);
    assert!(!progress.creator_payout_sent);
}

#[test]
fn conservation_holds_over_many_inputs() {
    for (y0, share, cap, min, claimed, carry) in [
        (1_000u64, 10_000u16, 0u64, 0u64, 999u64, 0u64),
        (1_000, 7_500, 300, 50, 12_345, 17),
        (777, 3_333, 1, 1, 1, 1),
        (u64::MAX, 10_000, 0, 0, u64::MAX - 5, 5),
        (50, 10_000, 0, u64::MAX, 1_000, 0),
    ] {
        for locked in [vec![], vec![1u64], vec![10, 20, 20], vec![7, 0, 13, 1, 1, 1, 1, 1]] {
            let policy = policy(y0, share, cap, min);
            let mut progress = fresh();
            progress.carry_over_lamports = carry;
            let before = progress;
            let (opened, total_available) = open_page(&progress, 0, DAY, 0, claimed).unwrap();
            let result =
                settle_page(&policy, &mut progress, 0, true, DAY, 0, claimed, &locked).unwrap();
            let paid: u128 =
                result.payouts.iter().filter(|p| p.paid).map(|p| p.amount as u128).sum();
            let all: u128 = result.payouts.iter().map(|p| p.amount as u128).sum();
            assert_eq!(paid, result.page.total_distributed as u128);
            let allocation = total_available - result.creator_amount;
            assert_eq!(
                result.page.total_distributed as u128
                    + progress.carry_over_lamports as u128
                    + result.page.rounding_dust as u128,
                allocation as u128
            );
            assert_eq!(total_available as u128, claimed as u128 + carry as u128);
            assert_eq!(
                progress.total_rounding_dust,
                before.total_rounding_dust + result.page.rounding_dust
            );
            assert!(all + result.page.rounding_dust as u128 <= allocation as u128);
            assert_eq!(opened.current_day, 1);
        }
    }
}

#[test]
fn contamination_halts_the_day() {
    let policy = policy(10_000, 5000, 0, 0);
    let mut progress = fresh();
    progress.last_distribution_ts = 5;
    progress.current_day = 4;
    progress.current_page = 3;
    progress.carry_over_lamports = 42;
    let before = progress;
    let now = 5 + DAY;
    assert_eq!(
        settle_page(&policy, &mut progress, 0, true, now, 1, 1_000, &vec![5_000]),
        Err(FeeRoutingError::BaseFeesDetected)
    );
    assert_eq!(progress, Progress { has_base_fees: true, ..before });
    // every later page of that day fails and leaves the record alone
    let quarantined = progress;
    for page in [1u16, 2, 3, 4] {
        for later in [now, now + 1, now - DAY + 1, now + DAY] {
            assert!(settle_page(&policy, &mut progress, page, true, later, 0, 0, &vec![5_000])
                .is_err());
            assert_eq!(progress, quarantined);
        }
    }
    // inside the window the expected page is refused for the quarantine itself
    assert_eq!(
        settle_page(&policy, &mut progress, 3, false, 6, 0, 0, &vec![5_000]),
        Err(FeeRoutingError::BaseFeesDetected)
    );
    // a clean claim opens a new day and clears the flag
    let result = settle_page(&policy, &mut progress, 0, false, now, 0, 1_000, &vec![5_000]);
    assert!(result.is_ok());
    assert!(!progress.has_base_fees);
    assert_eq!(progress.current_day, 5);
}

#[test]
fn contamination_is_not_recorded_when_the_page_gate_refuses() {
    let policy = policy(10_000, 5000, 0, 0);
    let mut progress = fresh();
    progress.last_distribution_ts = 5;
    let before = progress;
    assert_eq!(
        settle_page(&policy, &mut progress, 0, true, 6, 1, 1_000, &vec![5_000]),
        Err(FeeRoutingError::DistributionWindowNotElapsed)
    );
    assert_eq!(progress, before);
}

#[test]
fn creator_is_settled_once_on_the_final_page() {
    let policy = policy(10_000, 5000, 0, 0);
    let mut progress = fresh();
    let now = 2 * DAY;
    let r0 = settle_page(&policy, &mut progress, 0, false, now, 0, 10_000, &vec![2_000, 2_000])
        .unwrap();
    assert!(!progress.creator_payout_sent);
    assert_eq!(r0.creator_amount, 0);
    assert_eq!(r0.day_closed, None);
    let r1 = settle_page(&policy, &mut progress, 1, false, now + 10, 0, 0, &vec![2_000, 2_000])
        .unwrap();
    assert!(!progress.creator_payout_sent);
    assert_eq!(r1.creator_amount, 0);
    assert_eq!(r1.day_closed, None);
    let r2 = settle_page(&policy, &mut progress, 2, true, now + 20, 0, 0, &vec![2_000, 2_000])
        .unwrap();
    assert!(progress.creator_payout_sent);
    assert_eq!(r2.fees_claimed, None);
    // a further page marked final pays nothing more
    let r3 = settle_page(&policy, &mut progress, 3, true, now + 30, 0, 0, &vec![2_000, 2_000])
        .unwrap();
    assert!(progress.creator_payout_sent);
    assert_eq!(r3.creator_amount, 0);
    assert_eq!(r3.day_closed, None);
    assert_eq!(progress.pages_processed_today, 4);
    assert_eq!(progress.current_page, 4);
}

#[test]
fn creator_flag_is_raised_even_when_the_remainder_is_zero() {
    // everything locked and a 100% share: nothing is left for the creator
    let policy = policy(4_000, 10_000, 0, 0);
    let mut progress = fresh();
    let result =
        settle_page(&policy, &mut progress, 0, true, DAY, 0, 10_000, &vec![2_000, 2_000]).unwrap();
    assert_eq!(result.creator_amount, 0);
    assert_eq!(result.day_closed, None);
    assert!(progress.creator_payout_sent);
    assert_eq!(result.page.total_distributed, 10_000);
}

#[test]
fn zero_minimum_pays_even_zero_payouts() {
    let policy = policy(10, 10_000, 0, 0);
    let mut progress = fresh();
    let result = settle_page(&policy, &mut progress, 0, false, DAY, 0, 0, &vec![5, 0]).unwrap();
    assert_eq!(
        result.payouts,
        vec![InvestorPayout { amount: 0, paid: true }, InvestorPayout { amount: 0, paid: true }]
    );
    assert_eq!(result.page.investors_paid, 2);
}

#[test]
fn empty_batch_settles_with_nothing_paid() {
    let policy = policy(10, 10_000, 0, 0);
    let mut progress = fresh();
    progress.carry_over_lamports = 9;
    let result = settle_page(&policy, &mut progress, 0, true, DAY, 0, 91, &vec![]).unwrap();
    assert!(result.payouts.is_empty());
    assert_eq!(result.page.total_distributed, 0);
    assert_eq!(result.creator_amount, 100);
    assert_eq!(progress.carry_over_lamports, 0);
}

#[test]
fn batch_with_nothing_locked_is_an_arithmetic_error() {
    let policy = policy(10, 10_000, 0, 0);
    let mut progress = fresh();
    let before = progress;
    assert_eq!(
        settle_page(&policy, &mut progress, 0, true, DAY, 0, 91, &vec![0, 0]),
        Err(FeeRoutingError::ArithmeticOverflow)
    );
    assert_eq!(progress, before);
}

#[test]
fn too_many_investors_are_refused() {
    let policy = policy(1_000, 10_000, 0, 0);
    let mut progress = fresh();
    let before = progress;
    assert_eq!(
        settle_page(&policy, &mut progress, 0, true, DAY, 0, 91, &vec![1u64; 101]),
        Err(FeeRoutingError::TooManyInvestors)
    );
    assert_eq!(progress, before);
    assert!(settle_page(&policy, &mut progress, 0, true, DAY, 0, 91, &vec![1u64; 100]).is_ok());
}

#[test]
fn locked_total_above_the_baseline_is_refused() {
    let policy = policy(10, 10_000, 0, 0);
    let mut progress = fresh();
    let before = progress;
    assert_eq!(
        settle_page(&policy, &mut progress, 0, true, DAY, 0, 91, &vec![6, 5]),
        Err(FeeRoutingError::LockedExceedsTotal)
    );
    assert_eq!(progress, before);
}

#[test]
fn overflowing_sums_are_arithmetic_errors() {
    let policy = policy(u64::MAX, 10_000, 0, 0);
    let mut progress = fresh();
    // locked total leaves 64 bits
    assert_eq!(
        settle_page(&policy, &mut progress, 0, true, DAY, 0, 91, &vec![u64::MAX, 1]),
        Err(FeeRoutingError::ArithmeticOverflow)
    );
    // claimed plus carry-over leaves 64 bits
    progress.carry_over_lamports = 1;
    assert_eq!(
        settle_page(&policy, &mut progress, 0, true, DAY, 0, u64::MAX, &vec![1]),
        Err(FeeRoutingError::ArithmeticOverflow)
    );
    // the day counter is exhausted
    progress.carry_over_lamports = 0;
    progress.current_day = u64::MAX;
    assert_eq!(
        settle_page(&policy, &mut progress, 0, true, DAY, 0, 5, &vec![1]),
        Err(FeeRoutingError::ArithmeticOverflow)
    );
    // a zero baseline
    let zero = self::policy(0, 10_000, 0, 0);
    let mut progress = fresh();
    assert_eq!(
        settle_page(&zero, &mut progress, 0, true, DAY, 0, 5, &vec![]),
        Err(FeeRoutingError::ArithmeticOverflow)
    );
    // the lifetime dust counter is exhausted
    let policy = self::policy(3, 10_000, 0, 0);
    let mut progress = fresh();
    progress.total_rounding_dust = u64::MAX;
    let before = progress;
    assert_eq!(
        settle_page(&policy, &mut progress, 0, true, DAY, 0, 10, &vec![1, 1, 1]),
        Err(FeeRoutingError::ArithmeticOverflow)
    );
    assert_eq!(progress, before);
}

#[test]
fn the_two_stages_compose_to_the_whole() {
    let policy = policy(1_000, 6_000, 500, 10);
    let mut progress = fresh();
    progress.carry_over_lamports = 33;
    let locked = vec![100u64, 250, 3];
    let (opened, total_available) = open_page(&progress, 0, DAY, 0, 2_000).unwrap();
    assert_eq!(total_available, 2_033);
    let claimed =
        Some(QuoteFeesClaimed { amount: 2_000, timestamp: DAY, distribution_day: 0 });
    let (next, staged) =
        close_page(&policy, &opened, total_available, 0, true, DAY, claimed, &locked).unwrap();
    let whole = settle_page(&policy, &mut progress, 0, true, DAY, 0, 2_000, &locked).unwrap();
    assert_eq!(staged, whole);
    assert_eq!(next, progress);
    // locked fraction 3530 bps, allocation floor(2033 * 3530 / 10000) = 717, capped at 500
    assert_eq!(whole.creator_amount, 2_033 - 717);
    assert_eq!(whole.page.total_distributed, 141 + 354);
    assert_eq!(progress.carry_over_lamports, 4 + 217);
    assert_eq!(whole.page.rounding_dust, 1);
}

#[test]
fn funds_are_conserved_over_a_run_of_pages_and_days() {
    let policy = policy(100_000, 6_500, 2_500, 300);
    let mut progress = fresh();
    progress.carry_over_lamports = 1_234;
    progress.total_rounding_dust = 5;
    let carried_in = progress.carry_over_lamports as u128;
    let dust_before = progress.total_rounding_dust as u128;
    // (page, final, time, claimed quote, locked balances)
    let calls: Vec<(u16, bool, i64, u64, Vec<u64>)> = vec![
        (0, false, DAY, 10_000, vec![10_000, 20_000, 333]),
        (1, false, DAY + 1, 0, vec![7, 7, 7, 50_000]),
        (2, true, DAY + 2, 0, vec![1_000, 1]),
        (0, false, 2 * DAY, 777, vec![90_000, 9_999, 1]),
        (1, true, 2 * DAY + 5, 0, vec![]),
        (0, true, 3 * DAY + 5, 31_337, vec![3, 3, 3, 3, 3, 3, 3]),
    ];
    let mut claimed = 0u128;
    let mut paid = 0u128;
    let mut rounding = 0u128;
    let mut unallocated = 0u128;
    let mut to_creator = 0u128;
    for (page, last, now, quote, locked) in calls {
        let (_, total_available) = open_page(&progress, page, now, 0, quote).unwrap();
        let fraction =
            DistributionMath::calculate_locked_fraction_bps(locked.iter().sum(), policy.y0)
                .unwrap();
        let share = DistributionMath::calculate_eligible_investor_share_bps(
            fraction,
            policy.investor_fee_share_bps,
        );
        let allocation =
            DistributionMath::calculate_investor_allocation(total_available, share).unwrap();
        let result =
            settle_page(&policy, &mut progress, page, last, now, 0, quote, &locked).unwrap();
        if page == 0 {
            claimed += quote as u128;
        }
        paid += result.page.total_distributed as u128;
        rounding += result.page.rounding_dust as u128;
        unallocated += (total_available - allocation) as u128;
        to_creator += result.creator_amount as u128;
        assert_eq!(
            result.page.total_distributed as u128
                + progress.carry_over_lamports as u128
                + result.page.rounding_dust as u128,
            allocation as u128
        );
    }
    assert_eq!(
        carried_in + claimed,
        paid + rounding + unallocated + progress.carry_over_lamports as u128
    );
    assert_eq!(progress.total_rounding_dust as u128, dust_before + rounding);
    assert!(to_creator <= unallocated);
    assert!(paid > 0 && to_creator > 0);
    assert_eq!(progress.current_day, 3);
}
