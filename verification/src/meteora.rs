//! The calls that the engine makes into the constant-product AMM: which
//! program they go to, which accounts they name in which role, and the
//! bytes they carry.

use vstd::prelude::*;
use crate::accounts::{parse_address, parsed_address};

verus! {

/// One account of a cross-program call and the role it plays in it.
#[derive(Clone, Copy, Debug, PartialEq, Eq)]
pub struct AccountRole {
    pub key: [u8; 32],
    pub is_signer: bool,
    pub is_writable: bool,
}

/// A cross-program call, ready to be invoked.
#[derive(Debug, PartialEq, Eq)]
pub struct CpiCall {
    pub program_id: [u8; 32],
    pub accounts: Vec<AccountRole>,
    pub data: Vec<u8>,
}

/// The accounts of a position creation.
#[derive(Clone, Copy, Debug, PartialEq, Eq)]
pub struct CreatePositionCPI {
    /// Owner of the position NFT.
    pub owner: [u8; 32],
    /// Mint of the position NFT; signs the call.
    pub position_nft_mint: [u8; 32],
    /// Token account of the position NFT.
    pub position_nft_account: [u8; 32],
    /// The pool.
    pub pool: [u8; 32],
    /// The position's data account.
    pub position: [u8; 32],
    /// The pool authority.
    pub pool_authority: [u8; 32],
    /// Payer of the account creation; signs the call.
    pub payer: [u8; 32],
    /// The rent sysvar.
    pub rent: [u8; 32],
    /// The token program.
    pub token_program: [u8; 32],
    /// The system program.
    pub system_program: [u8; 32],
    /// The AMM's event authority.
    pub event_authority: [u8; 32],
    /// The AMM program.
    pub program: [u8; 32],
}

/// The accounts of a fee claim.
#[derive(Clone, Copy, Debug, PartialEq, Eq)]
pub struct ClaimPositionFeeCPI {
    /// The pool authority.
    pub pool_authority: [u8; 32],
    /// The pool.
    pub pool: [u8; 32],
    /// The position's data account.
    pub position: [u8; 32],
    /// Destination of the claimed token A.
    pub token_a_account: [u8; 32],
    /// Destination of the claimed token B.
    pub token_b_account: [u8; 32],
    /// The pool's vault of token A.
    pub token_a_vault: [u8; 32],
    /// The pool's vault of token B.
    pub token_b_vault: [u8; 32],
    /// Mint of token A.
    pub token_a_mint: [u8; 32],
    /// Mint of token B.
    pub token_b_mint: [u8; 32],
    /// Token account of the position NFT.
    pub position_nft_account: [u8; 32],
    /// Owner of the position NFT; signs the call.
    pub owner: [u8; 32],
    /// Token program of token A.
    pub token_a_program: [u8; 32],
    /// Token program of token B.
    pub token_b_program: [u8; 32],
    /// The AMM's event authority.
    pub event_authority: [u8; 32],
    /// The AMM program.
    pub program: [u8; 32],
}

/// The AMM program's address as text.
pub open spec fn cp_amm_program_text() -> Seq<char> {
    "cpamdpZCGKUy5JxQXB4dcpGPiikHawvSWAd6mEn1sGG"@
}

/// The pool authority's address as text.
pub open spec fn pool_authority_text() -> Seq<char> {
    "HLnpSz9h2S4hiLQ43rnSD9XkcUThA7B8hQMKmDaiTLcC"@
}

/// A read-only account that does not sign.
pub open spec fn readonly(key: [u8; 32]) -> AccountRole {
    AccountRole { key, is_signer: false, is_writable: false }
}

/// A writable account that does not sign.
pub open spec fn writable(key: [u8; 32]) -> AccountRole {
    AccountRole { key, is_signer: false, is_writable: true }
}

/// A read-only account that signs.
pub open spec fn readonly_signer(key: [u8; 32]) -> AccountRole {
    AccountRole { key, is_signer: true, is_writable: false }
}

/// A writable account that signs.
pub open spec fn writable_signer(key: [u8; 32]) -> AccountRole {
    AccountRole { key, is_signer: true, is_writable: true }
}

/// The instruction bytes of a position creation: its tag, no arguments.
pub open spec fn create_position_data() -> Seq<u8> {
    seq![48u8, 215u8, 197u8, 153u8, 96u8, 203u8, 180u8, 133u8]
}

/// The instruction bytes of a fee claim: its tag, no arguments.
pub open spec fn claim_position_fee_data() -> Seq<u8> {
    seq![180u8, 38u8, 154u8, 17u8, 133u8, 33u8, 162u8, 211u8]
}

/// The accounts of a position creation, in the order the AMM expects.
pub open spec fn create_position_roles(a: CreatePositionCPI) -> Seq<AccountRole> {
    seq![
        readonly(a.owner),
        writable_signer(a.position_nft_mint),
        writable(a.position_nft_account),
        writable(a.pool),
        writable(a.position),
        readonly(a.pool_authority),
        writable_signer(a.payer),
        readonly(a.rent),
        readonly(a.token_program),
        readonly(a.system_program),
        readonly(a.event_authority),
        readonly(a.program),
    ]
}

/// The accounts of a fee claim, in the order the AMM expects.
pub open spec fn claim_position_fee_roles(a: ClaimPositionFeeCPI) -> Seq<AccountRole> {
    seq![
        readonly(a.pool_authority),
        readonly(a.pool),
        writable(a.position),
        writable(a.token_a_account),
        writable(a.token_b_account),
        writable(a.token_a_vault),
        writable(a.token_b_vault),
        readonly(a.token_a_mint),
        readonly(a.token_b_mint),
        readonly(a.position_nft_account),
        readonly_signer(a.owner),
        readonly(a.token_a_program),
        readonly(a.token_b_program),
        readonly(a.event_authority),
        readonly(a.program),
    ]
}

/// The address of the AMM program, decoded from its text.
pub fn cp_amm_program_id() -> (r: Option<[u8; 32]>)
    ensures
        r == parsed_address(cp_amm_program_text()),
{
    parse_address("cpamdpZCGKUy5JxQXB4dcpGPiikHawvSWAd6mEn1sGG")
}

/// The address of the authority that all pools share, decoded from its text.
pub fn pool_authority() -> (r: Option<[u8; 32]>)
    ensures
        r == parsed_address(pool_authority_text()),
{
    parse_address("HLnpSz9h2S4hiLQ43rnSD9XkcUThA7B8hQMKmDaiTLcC")
}

fn role(key: &[u8; 32], is_signer: bool, is_writable: bool) -> (r: AccountRole)
    ensures
        r == (AccountRole { key: *key, is_signer, is_writable }),
{
    AccountRole { key: *key, is_signer, is_writable }
}

/// Builds the call that creates a position. It goes to the AMM program and
/// is `None` only if that program's address does not decode.
pub fn create_position_cpi(accounts: &CreatePositionCPI) -> (r: Option<CpiCall>)
    ensures
        r is Some <==> parsed_address(cp_amm_program_text()) is Some,
        r matches Some(call) ==> {
            &&& Some(call.program_id) == parsed_address(cp_amm_program_text())
            &&& call.accounts@ == create_position_roles(*accounts)
            &&& call.data@ == create_position_data()
        },
{
    let program_id = match cp_amm_program_id() {
        Some(id) => id,
        None => {
            return None;
        },
    };
    let mut metas: Vec<AccountRole> = Vec::new();
    metas.push(role(&accounts.owner, false, false));
    metas.push(role(&accounts.position_nft_mint, true, true));
    metas.push(role(&accounts.position_nft_account, false, true));
    metas.push(role(&accounts.pool, false, true));
    metas.push(role(&accounts.position, false, true));
    metas.push(role(&accounts.pool_authority, false, false));
    metas.push(role(&accounts.payer, true, true));
    metas.push(role(&accounts.rent, false, false));
    metas.push(role(&accounts.token_program, false, false));
    metas.push(role(&accounts.system_program, false, false));
    metas.push(role(&accounts.event_authority, false, false));
    metas.push(role(&accounts.program, false, false));
    let mut data: Vec<u8> = Vec::new();
    data.push(48);
    data.push(215);
    data.push(197);
    data.push(153);
    data.push(96);
    data.push(203);
    data.push(180);
    data.push(133);
    assert(metas@ =~= create_position_roles(*accounts));
    assert(data@ =~= create_position_data());
    Some(CpiCall { program_id, accounts: metas, data })
}

/// Builds the call that claims a position's accrued fees into the owner's
/// token accounts. It goes to the AMM program and is `None` only if that
/// program's address does not decode.
pub fn claim_position_fee_cpi(accounts: &ClaimPositionFeeCPI) -> (r: Option<CpiCall>)
    ensures
        r is Some <==> parsed_address(cp_amm_program_text()) is Some,
        r matches Some(call) ==> {
            &&& Some(call.program_id) == parsed_address(cp_amm_program_text())
            &&& call.accounts@ == claim_position_fee_roles(*accounts)
            &&& call.data@ == claim_position_fee_data()
        },
{
    let program_id = match cp_amm_program_id() {
        Some(id) => id,
        None => {
            return None;
        },
    };
    let mut metas: Vec<AccountRole> = Vec::new();
    metas.push(role(&accounts.pool_authority, false, false));
    metas.push(role(&accounts.pool, false, false));
    metas.push(role(&accounts.position, false, true));
    metas.push(role(&accounts.token_a_account, false, true));
    metas.push(role(&accounts.token_b_account, false, true));
    metas.push(role(&accounts.token_a_vault, false, true));
    metas.push(role(&accounts.token_b_vault, false, true));
    metas.push(role(&accounts.token_a_mint, false, false));
    metas.push(role(&accounts.token_b_mint, false, false));
    metas.push(role(&accounts.position_nft_account, false, false));
    metas.push(role(&accounts.owner, true, false));
    metas.push(role(&accounts.token_a_program, false, false));
    metas.push(role(&accounts.token_b_program, false, false));
    metas.push(role(&accounts.event_authority, false, false));
    metas.push(role(&accounts.program, false, false));
    let mut data: Vec<u8> = Vec::new();
    data.push(180);
    data.push(38);
    data.push(154);
    data.push(17);
    data.push(133);
    data.push(33);
    data.push(162);
    data.push(211);
    assert(metas@ =~= claim_position_fee_roles(*accounts));
    assert(data@ =~= claim_position_fee_data());
    Some(CpiCall { program_id, accounts: metas, data })
}

} // verus!
