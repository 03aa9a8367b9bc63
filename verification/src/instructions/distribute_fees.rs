//! The distribution crank on the accounts it is given: validation of the
//! holding accounts, the reading of the claim and of the investors' locked
//! balances, and the settlement of the page.

use vstd::prelude::*;
use crate::accounts::{
    holding_check, parsed_address, read_holding, same_address, unpack_token_account,
    unpacked_token_account,
};
use crate::constants::MAX_INVESTORS_PER_PAGE;
use crate::errors::FeeRoutingError;
use crate::events::QuoteFeesClaimed;
use crate::instructions::settlement::{
    check_page_gate, claim_report, close_page, detects_contamination, gate_check, open_page,
    page_closing, page_opening, quarantined, PageResult, Settlement,
};
use crate::math::sum_amounts;
use crate::meteora::{
    cp_amm_program_id, cp_amm_program_text, pool_authority, pool_authority_text,
};
use crate::state::{Policy, Progress};
use crate::vesting::{
    decode_stream, decoded_stream, is_streamflow_program, owned_by_streamflow,
    stream_locked_amount,
};

verus! {

/// What a crank call reads of the accounts it is given, apart from the
/// investors: the addresses it checks and the stored bytes of the token
/// accounts.
#[derive(Clone, Debug, PartialEq, Eq)]
pub struct DistributeFees {
    /// The authority that holds the treasury.
    pub treasury_authority: [u8; 32],
    /// Mint of the pair's base currency (token A).
    pub token_a_mint: [u8; 32],
    /// The pool authority that the caller named.
    pub pool_authority: [u8; 32],
    /// The AMM program that the caller named.
    pub cp_amm_program: [u8; 32],
    /// The treasury's token A account, as stored before the claim.
    pub treasury_token_a: Vec<u8>,
    /// The treasury's token B (quote) account, as stored before the claim.
    pub treasury_token_b: Vec<u8>,
    /// The creator's quote account.
    pub creator_ata: Vec<u8>,
    /// The treasury's token A account after the claim; read on page 0 only.
    pub treasury_token_a_claimed: Vec<u8>,
    /// The treasury's token B account after the claim; read on page 0 only.
    pub treasury_token_b_claimed: Vec<u8>,
}

/// What a crank call reads of one of the further accounts it is given: the
/// program that owns the account, and its stored bytes. The investors of a
/// page come as such accounts in pairs: the vesting stream that tells the
/// locked balance, then the quote account that receives the payout.
#[derive(Clone, Debug, PartialEq, Eq)]
pub struct AccountSnapshot {
    /// The program that owns the account.
    pub owner: [u8; 32],
    /// The account's stored bytes.
    pub data: Vec<u8>,
}

/// Smallest stored size of a stream account that is accepted.
pub const MIN_STREAM_ACCOUNT_LEN: usize = 400;

/// A signed time read as the unsigned time that streams count in.
pub open spec fn stream_time(now: i64) -> u64 {
    if now >= 0 {
        now as u64
    } else {
        (now + 0x1_0000_0000_0000_0000) as u64
    }
}

/// The validation of the holding accounts: both treasury accounts belong to
/// the treasury authority, the creator's account to the creator, and each
/// holds the currency expected of it. Gives the two treasury balances.
pub open spec fn holdings_check(policy: Policy, accounts: DistributeFees) -> Result<
    (u64, u64),
    FeeRoutingError,
> {
    match holding_check(
        unpacked_token_account(accounts.treasury_token_a@),
        Some(accounts.treasury_authority),
        accounts.token_a_mint,
    ) {
        Err(e) => Err(e),
        Ok(a) => match holding_check(
            unpacked_token_account(accounts.treasury_token_b@),
            Some(accounts.treasury_authority),
            policy.quote_mint,
        ) {
            Err(e) => Err(e),
            Ok(b) => match holding_check(
                unpacked_token_account(accounts.creator_ata@),
                Some(policy.creator_wallet),
                policy.quote_mint,
            ) {
                Err(e) => Err(e),
                Ok(_) => Ok((a.amount, b.amount)),
            },
        },
    }
}

/// Whether `key` is the address that `text` stands for.
pub open spec fn is_address(key: [u8; 32], text: Seq<char>) -> bool {
    parsed_address(text) matches Some(expected) && expected@ == key@
}

/// What the claim brought in base and in quote currency: the growth of the
/// two treasury balances. The claim must have gone through the known pool
/// authority and AMM program.
pub open spec fn claim_outcome(accounts: DistributeFees, before: (u64, u64)) -> Result<
    (u64, u64),
    FeeRoutingError,
> {
    if !is_address(accounts.pool_authority, pool_authority_text()) {
        Err(FeeRoutingError::InvalidPoolAuthority)
    } else if !is_address(accounts.cp_amm_program, cp_amm_program_text()) {
        Err(FeeRoutingError::InvalidProgram)
    } else {
        match (
            unpacked_token_account(accounts.treasury_token_a_claimed@),
            unpacked_token_account(accounts.treasury_token_b_claimed@),
        ) {
            (Some(a), Some(b)) => {
                if a.amount < before.0 || b.amount < before.1 {
                    Err(FeeRoutingError::ArithmeticOverflow)
                } else {
                    Ok(((a.amount - before.0) as u64, (b.amount - before.1) as u64))
                }
            },
            _ => Err(FeeRoutingError::InvalidTokenAccount),
        }
    }
}

/// The locked balance of one investor at `now`. The stream must belong to
/// the vesting program, be large enough and decode, and the investor's
/// account must hold the quote currency.
pub open spec fn investor_locked(
    stream: AccountSnapshot,
    token_account: AccountSnapshot,
    quote_mint: [u8; 32],
    now: i64,
) -> Result<u64, FeeRoutingError> {
    if !is_streamflow_program(stream.owner@) || stream.data@.len() < MIN_STREAM_ACCOUNT_LEN {
        Err(FeeRoutingError::InvalidStreamflowAccount)
    } else {
        match decoded_stream(stream.data@) {
            None => Err(FeeRoutingError::InvalidStreamflowAccount),
            Some(terms) => match holding_check(
                unpacked_token_account(token_account.data@),
                None,
                quote_mint,
            ) {
                Err(e) => Err(e),
                Ok(_) => terms.locked_balance(stream_time(now)),
            },
        }
    }
}

/// The locked balances of the first `pairs` investors, in their order.
/// Investor `i` is the pair of accounts at `2 * i` and `2 * i + 1`. The first
/// investor that is refused, or at which the running total leaves 64 bits,
/// decides the error.
pub open spec fn gathered_locked(
    remaining: Seq<AccountSnapshot>,
    pairs: nat,
    quote_mint: [u8; 32],
    now: i64,
) -> Result<Seq<u64>, FeeRoutingError>
    decreases pairs,
{
    if pairs == 0 {
        Ok(Seq::<u64>::empty())
    } else {
        match gathered_locked(remaining, (pairs - 1) as nat, quote_mint, now) {
            Err(e) => Err(e),
            Ok(before) => match investor_locked(
                remaining[2 * (pairs - 1)],
                remaining[2 * (pairs - 1) + 1],
                quote_mint,
                now,
            ) {
                Err(e) => Err(e),
                Ok(locked) => if sum_amounts(before) + locked > u64::MAX {
                    Err(FeeRoutingError::ArithmeticOverflow)
                } else {
                    Ok(before.push(locked))
                },
            },
        }
    }
}

/// The locked balances of a page. The further accounts must come in pairs
/// and be no more pairs than a page may carry.
pub open spec fn page_locked(
    remaining: Seq<AccountSnapshot>,
    quote_mint: [u8; 32],
    now: i64,
) -> Result<Seq<u64>, FeeRoutingError> {
    if remaining.len() % 2 != 0 {
        Err(FeeRoutingError::InvalidPageIndex)
    } else if remaining.len() / 2 > MAX_INVESTORS_PER_PAGE {
        Err(FeeRoutingError::TooManyInvestors)
    } else {
        gathered_locked(remaining, remaining.len() / 2, quote_mint, now)
    }
}

/// The plain values that a call on accounts comes down to before the page
/// opens: what the claim brought, or zero on a later page.
pub open spec fn claim_reading(policy: Policy, accounts: DistributeFees, page_index: u16) -> Result<
    (u64, u64),
    FeeRoutingError,
> {
    match holdings_check(policy, accounts) {
        Err(e) => Err(e),
        Ok(before) => if page_index == 0 {
            claim_outcome(accounts, before)
        } else {
            Ok((0, 0))
        },
    }
}

/// The whole of one crank call on accounts: what it returns and the record
/// it leaves, for every input. The holding accounts are validated first,
/// then the page gate is checked, then the claim is read and the page opened,
/// then the investors' locked balances are gathered from the further
/// accounts and the page closed.
pub open spec fn page_handling(
    policy: Policy,
    progress: Progress,
    accounts: DistributeFees,
    remaining: Seq<AccountSnapshot>,
    page_index: u16,
    is_final_page: bool,
    now: i64,
) -> Result<Settlement, FeeRoutingError> {
    match holdings_check(policy, accounts) {
        Err(e) => Err(e),
        Ok(_) => match gate_check(progress, page_index, now) {
            Err(e) => Err(e),
            Ok(_) => match claim_reading(policy, accounts, page_index) {
                Err(e) => Err(e),
                Ok((claimed_base, claimed_quote)) => match page_opening(
                    progress,
                    page_index,
                    now,
                    claimed_base,
                    claimed_quote,
                ) {
                    Err(e) => Err(e),
                    Ok((opened, total_available)) => match page_locked(
                        remaining,
                        policy.quote_mint,
                        now,
                    ) {
                        Err(e) => Err(e),
                        Ok(locked) => page_closing(
                            policy,
                            opened,
                            total_available,
                            page_index,
                            is_final_page,
                            now,
                            claim_report(progress, page_index, now, claimed_quote),
                            locked,
                        ),
                    },
                },
            },
        },
    }
}

/// Whether a call on accounts is the one that detects contamination.
pub open spec fn handling_detects_contamination(
    policy: Policy,
    progress: Progress,
    accounts: DistributeFees,
    page_index: u16,
    now: i64,
) -> bool {
    claim_reading(policy, accounts, page_index) matches Ok((claimed_base, _))
        && detects_contamination(progress, page_index, now, claimed_base)
}

/// An error in gathering the first investors of a batch is the error of
/// gathering more of them.
pub proof fn lemma_gathering_stops_at_first_error(
    remaining: Seq<AccountSnapshot>,
    quote_mint: [u8; 32],
    now: i64,
    k: nat,
    n: nat,
)
    requires
        k <= n,
        gathered_locked(remaining, k, quote_mint, now) is Err,
    ensures
        gathered_locked(remaining, n, quote_mint, now) is Err,
        gathered_locked(remaining, n, quote_mint, now)->Err_0
            == gathered_locked(remaining, k, quote_mint, now)->Err_0,
    decreases n - k,
{
    if k < n {
        lemma_gathering_stops_at_first_error(
            remaining,
            quote_mint,
            now,
            k,
            (n - 1) as nat,
        );
    }
}

/// Checks the holding accounts of a call and gives the two treasury
/// balances as they stood before the claim.
pub fn check_holdings(policy: &Policy, accounts: &DistributeFees) -> (r: Result<
    (u64, u64),
    FeeRoutingError,
>)
    ensures
        r == holdings_check(*policy, *accounts),
{
    let a = match read_holding(
        accounts.treasury_token_a.as_slice(),
        Some(&accounts.treasury_authority),
        &accounts.token_a_mint,
    ) {
        Ok(h) => h,
        Err(e) => {
            return Err(e);
        },
    };
    let b = match read_holding(
        accounts.treasury_token_b.as_slice(),
        Some(&accounts.treasury_authority),
        &policy.quote_mint,
    ) {
        Ok(h) => h,
        Err(e) => {
            return Err(e);
        },
    };
    match read_holding(
        accounts.creator_ata.as_slice(),
        Some(&policy.creator_wallet),
        &policy.quote_mint,
    ) {
        Ok(_) => Ok((a.amount, b.amount)),
        Err(e) => Err(e),
    }
}

/// Reads what the claim brought from the treasury balances before and after
/// it, after checking that it went through the known pool authority and AMM
/// program.
pub fn read_claim(accounts: &DistributeFees, before: (u64, u64)) -> (r: Result<
    (u64, u64),
    FeeRoutingError,
>)
    ensures
        r == claim_outcome(*accounts, before),
{
    let authority_known = match pool_authority() {
        Some(expected) => same_address(&expected, &accounts.pool_authority),
        None => false,
    };
    if !authority_known {
        return Err(FeeRoutingError::InvalidPoolAuthority);
    }
    let program_known = match cp_amm_program_id() {
        Some(expected) => same_address(&expected, &accounts.cp_amm_program),
        None => false,
    };
    if !program_known {
        return Err(FeeRoutingError::InvalidProgram);
    }
    let after_a = unpack_token_account(accounts.treasury_token_a_claimed.as_slice());
    let after_b = unpack_token_account(accounts.treasury_token_b_claimed.as_slice());
    match (after_a, after_b) {
        (Some(a), Some(b)) => {
            if a.amount < before.0 || b.amount < before.1 {
                return Err(FeeRoutingError::ArithmeticOverflow);
            }
            Ok((a.amount - before.0, b.amount - before.1))
        },
        _ => Err(FeeRoutingError::InvalidTokenAccount),
    }
}

/// Reads a signed time as the unsigned time that streams count in.
pub fn time_for_streams(now: i64) -> (r: u64)
    ensures
        r == stream_time(now),
{
    if now >= 0 {
        now as u64
    } else {
        ((now as i128) + 0x1_0000_0000_0000_0000i128) as u64
    }
}

/// The locked balance of one investor at `now`, read from the investor's
/// vesting stream and quote account.
pub fn investor_locked_amount(
    stream: &AccountSnapshot,
    token_account: &AccountSnapshot,
    quote_mint: &[u8; 32],
    now: i64,
) -> (r: Result<u64, FeeRoutingError>)
    ensures
        r == investor_locked(*stream, *token_account, *quote_mint, now),
{
    if !owned_by_streamflow(&stream.owner) {
        return Err(FeeRoutingError::InvalidStreamflowAccount);
    }
    if stream.data.len() < MIN_STREAM_ACCOUNT_LEN {
        return Err(FeeRoutingError::InvalidStreamflowAccount);
    }
    let terms = match decode_stream(stream.data.as_slice()) {
        Some(t) => t,
        None => {
            return Err(FeeRoutingError::InvalidStreamflowAccount);
        },
    };
    match read_holding(token_account.data.as_slice(), None, quote_mint) {
        Ok(_) => {},
        Err(e) => {
            return Err(e);
        },
    }
    stream_locked_amount(stream.data.as_slice(), &terms, time_for_streams(now))
}

/// The locked balances of a page, in the order of its investors.
pub fn gather_locked(
    remaining: &Vec<AccountSnapshot>,
    quote_mint: &[u8; 32],
    now: i64,
) -> (r: Result<Vec<u64>, FeeRoutingError>)
    ensures
        match (r, page_locked(remaining@, *quote_mint, now)) {
            (Ok(locked), Ok(expected)) => locked@ == expected,
            (Err(e), Err(expected)) => e == expected,
            _ => false,
        },
{
    if remaining.len() % 2 != 0 {
        return Err(FeeRoutingError::InvalidPageIndex);
    }
    let n = remaining.len() / 2;
    if n > MAX_INVESTORS_PER_PAGE {
        return Err(FeeRoutingError::TooManyInvestors);
    }
    let mut locked: Vec<u64> = Vec::new();
    let mut total: u64 = 0;
    let mut i: usize = 0;
    while i < n
        invariant
            i <= n,
            n <= MAX_INVESTORS_PER_PAGE,
            remaining.len() == 2 * n,
            gathered_locked(remaining@, i as nat, *quote_mint, now) is Ok,
            gathered_locked(remaining@, i as nat, *quote_mint, now)->Ok_0
                == locked@,
            total == sum_amounts(locked@),
        decreases n - i,
    {
        let amount = match investor_locked_amount(
            &remaining[2 * i],
            &remaining[2 * i + 1],
            quote_mint,
            now,
        ) {
            Ok(v) => v,
            Err(e) => {
                proof {
                    lemma_gathering_stops_at_first_error(
                        remaining@,
                        *quote_mint,
                        now,
                        (i + 1) as nat,
                        n as nat,
                    );
                }
                return Err(e);
            },
        };
        let sum = match total.checked_add(amount) {
            Some(v) => v,
            None => {
                proof {
                    lemma_gathering_stops_at_first_error(
                        remaining@,
                        *quote_mint,
                        now,
                        (i + 1) as nat,
                        n as nat,
                    );
                }
                return Err(FeeRoutingError::ArithmeticOverflow);
            },
        };
        let ghost before = locked@;
        locked.push(amount);
        proof {
            assert(locked@.drop_last() =~= before);
        }
        total = sum;
        i += 1;
    }
    Ok(locked)
}

/// The 24-hour distribution crank, callable by anyone. Validates the
/// holding accounts, checks the day/page gate, on page 0 reads the claim and
/// guards against base-currency fees, gathers the investors' locked
/// balances from the further accounts, and settles the page and, on the page marked final, the
/// creator's remainder.
///
/// On success the record is the settled one and the result tells which
/// transfers to make. On failure the record is left as it was, except that
/// a call which detects contamination raises the quarantine flag.
pub fn distribute_fees_handler(
    policy: &Policy,
    progress: &mut Progress,
    accounts: &DistributeFees,
    remaining: &Vec<AccountSnapshot>,
    page_index: u16,
    is_final_page: bool,
    now: i64,
) -> (r: Result<PageResult, FeeRoutingError>)
    ensures
        match (
            r,
            page_handling(
                *policy,
                *old(progress),
                *accounts,
                remaining@,
                page_index,
                is_final_page,
                now,
            ),
        ) {
            (Ok(result), Ok(s)) => result.matches_settlement(s) && *final(progress) == s.progress,
            (Err(e), Err(expected)) => e == expected && *final(progress) == (
            if handling_detects_contamination(
                *policy,
                *old(progress),
                *accounts,
                page_index,
                now,
            ) {
                quarantined(*old(progress))
            } else {
                *old(progress)
            }),
            _ => false,
        },
{
    let before = match check_holdings(policy, accounts) {
        Ok(v) => v,
        Err(e) => {
            return Err(e);
        },
    };
    match check_page_gate(progress, page_index, now) {
        Ok(_) => {},
        Err(e) => {
            return Err(e);
        },
    }
    let (claimed_base, claimed_quote) = if page_index == 0 {
        match read_claim(accounts, before) {
            Ok(v) => v,
            Err(e) => {
                return Err(e);
            },
        }
    } else {
        (0, 0)
    };
    let (opened, total_available) = match open_page(
        progress,
        page_index,
        now,
        claimed_base,
        claimed_quote,
    ) {
        Ok(v) => v,
        Err(e) => {
            if page_index == 0 && claimed_base > 0 {
                progress.has_base_fees = true;
            }
            return Err(e);
        },
    };
    let fees_claimed = if page_index == 0 {
        Some(
            QuoteFeesClaimed {
                amount: claimed_quote,
                timestamp: now,
                distribution_day: progress.current_day,
            },
        )
    } else {
        None
    };
    let locked = match gather_locked(
        remaining,
        &policy.quote_mint,
        now,
    ) {
        Ok(v) => v,
        Err(e) => {
            return Err(e);
        },
    };
    match close_page(
        policy,
        &opened,
        total_available,
        page_index,
        is_final_page,
        now,
        fees_claimed,
        &locked,
    ) {
        Ok((next, result)) => {
            *progress = next;
            Ok(result)
        },
        Err(e) => Err(e),
    }
}

} // verus!
