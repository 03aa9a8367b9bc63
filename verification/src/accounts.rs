//! Addresses and token accounts as the engine reads them.

use vstd::prelude::*;
use std::str::FromStr;
use anchor_lang::prelude::Pubkey;
use anchor_lang::AccountDeserialize;
use anchor_spl::token::TokenAccount;
use crate::errors::FeeRoutingError;

verus! {

/// What the engine reads of a token account: its currency, its owner and
/// its balance.
#[derive(Clone, Copy, Debug, PartialEq, Eq)]
pub struct TokenHolding {
    pub mint: [u8; 32],
    pub owner: [u8; 32],
    pub amount: u64,
}

/// The token account that the token program's unpacking reads from `data`,
/// or `None` where it refuses the bytes.
pub uninterp spec fn unpacked_token_account(data: Seq<u8>) -> Option<TokenHolding>;

/// The address that a base-58 text stands for, or `None` where the text is
/// not the base-58 form of 32 bytes.
pub uninterp spec fn parsed_address(text: Seq<char>) -> Option<[u8; 32]>;

/// Trusted: calls `anchor_spl::token::TokenAccount::try_deserialize`, which
/// unpacks an SPL token account and refuses data of the wrong length or of
/// an uninitialized account. The contract only names the outcome as a
/// function of the bytes; the mint, owner and amount are copied out of the
/// unpacked account.
#[verifier::external_body]
pub(crate) fn unpack_token_account(data: &[u8]) -> (r: Option<TokenHolding>)
    ensures
        r == unpacked_token_account(data@),
{
    let mut buf: &[u8] = data;
    match TokenAccount::try_deserialize(&mut buf) {
        Ok(account) => Some(
            TokenHolding {
                mint: account.mint.to_bytes(),
                owner: account.owner.to_bytes(),
                amount: account.amount,
            },
        ),
        Err(_) => None,
    }
}

/// Trusted: calls `Pubkey::from_str`, which decodes a base-58 text of at
/// most 44 characters into 32 bytes and refuses any other text. The contract
/// only names the outcome as a function of the text.
#[verifier::external_body]
pub(crate) fn parse_address(text: &str) -> (r: Option<[u8; 32]>)
    ensures
        r == parsed_address(text@),
{
    match Pubkey::from_str(text) {
        Ok(key) => Some(key.to_bytes()),
        Err(_) => None,
    }
}

/// Whether two addresses are the same 32 bytes.
pub fn same_address(a: &[u8; 32], b: &[u8; 32]) -> (r: bool)
    ensures
        r == (a@ == b@),
{
    let mut i: usize = 0;
    while i < 32
        invariant
            i <= 32,
            forall|k: int| 0 <= k < i ==> a@[k] == b@[k],
        decreases 32 - i,
    {
        if a[i] != b[i] {
            return false;
        }
        i += 1;
    }
    assert(a@ =~= b@);
    true
}

/// An address of 32 zero bytes: the default, which names nothing.
pub open spec fn is_default(address: [u8; 32]) -> bool {
    forall|k: int| 0 <= k < 32 ==> address@[k] == 0
}

/// Whether an address is the all-zero default.
pub fn is_default_address(a: &[u8; 32]) -> (r: bool)
    ensures
        r == is_default(*a),
{
    let mut i: usize = 0;
    while i < 32
        invariant
            i <= 32,
            forall|k: int| 0 <= k < i ==> a@[k] == 0,
        decreases 32 - i,
    {
        if a[i] != 0 {
            return false;
        }
        i += 1;
    }
    true
}

/// The acceptance rule for a token account: it must unpack, belong to
/// `owner` where one is expected, and hold the currency `mint`.
pub open spec fn holding_check(
    holding: Option<TokenHolding>,
    owner: Option<[u8; 32]>,
    mint: [u8; 32],
) -> Result<TokenHolding, FeeRoutingError> {
    match holding {
        None => Err(FeeRoutingError::InvalidTokenAccount),
        Some(h) => {
            if owner is Some && h.owner@ != owner->Some_0@ {
                Err(FeeRoutingError::InvalidAccountOwnership)
            } else if h.mint@ != mint@ {
                Err(FeeRoutingError::InvalidQuoteMint)
            } else {
                Ok(h)
            }
        },
    }
}

/// Applies the acceptance rule to an unpacked token account.
pub fn check_holding(holding: Option<TokenHolding>, owner: Option<&[u8; 32]>, mint: &[u8; 32]) -> (r:
    Result<TokenHolding, FeeRoutingError>)
    ensures
        r == holding_check(
            holding,
            match owner {
                Some(o) => Some(*o),
                None => None,
            },
            *mint,
        ),
{
    match holding {
        None => Err(FeeRoutingError::InvalidTokenAccount),
        Some(h) => {
            match owner {
                Some(expected) => {
                    if !same_address(&h.owner, expected) {
                        return Err(FeeRoutingError::InvalidAccountOwnership);
                    }
                },
                None => {},
            }
            if !same_address(&h.mint, mint) {
                return Err(FeeRoutingError::InvalidQuoteMint);
            }
            Ok(h)
        },
    }
}

/// Unpacks a token account from its stored bytes and applies the acceptance
/// rule to it.
pub fn read_holding(data: &[u8], owner: Option<&[u8; 32]>, mint: &[u8; 32]) -> (r: Result<
    TokenHolding,
    FeeRoutingError,
>)
    ensures
        r == holding_check(
            unpacked_token_account(data@),
            match owner {
                Some(o) => Some(*o),
                None => None,
            },
            *mint,
        ),
{
    check_holding(unpack_token_account(data), owner, mint)
}

} // verus!
