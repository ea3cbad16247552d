//! The staking pool: its records, the checks that guard every transfer,
//! and the initialize / update-admin / stake / unstake transitions.
//!
//! Each call is all-or-nothing: on an error the accounts are left exactly
//! as they were, and on success they are exactly the stated outcome.
use crate::address::Address;
use crate::derivation::{
    allow_list_address, allow_list_address_of, associated_token_address_of, authority_seeds,
    is_associated_token_address, is_derived, is_nft_vault_address, is_pool_address,
    is_prove_token_authority, nft_vault_seeds, pool_seeds,
};
use crate::rarity::RarityInfo;
use vstd::prelude::*;

verus! {

/// A holding account of one token type, owned by one authority.
#[derive(Clone, Copy, Debug, PartialEq, Eq)]
pub struct TokenAccount {
    pub address: Address,
    pub mint: Address,
    pub owner: Address,
    pub amount: u64,
}

/// The pool record.
#[derive(Clone, Copy, Debug, PartialEq, Eq)]
pub struct PoolInfo {
    pub admin: Address,
    /// Derived from the pool address and the role label; has no key.
    pub prove_token_authority: Address,
    /// The custodial holding account of proof tokens.
    pub prove_token_vault: Address,
    pub prove_token_mint: Address,
    /// The allow-list that this pool serves.
    pub rarity_info: Address,
    /// The number of assets currently escrowed.
    pub total_locked: u64,
}

/// The record of one escrowed asset.
#[derive(Clone, Copy, Debug, PartialEq, Eq)]
pub struct NftVaultAccount {
    pub user: Address,
    pub pool_info: Address,
    pub nft_mint: Address,
}

#[derive(Clone, Copy, Debug, PartialEq, Eq)]
pub enum ErrorCode {
    /// The custodial authority is not the one derived from the pool.
    InvalidProveTokenAuthority,
    /// The custodial proof-token account is not the expected one.
    InvalidProveTokenATA,
    /// The allow-list account is not the expected one.
    InvalidRarityInfoAccount,
    /// The asset is not on the allow-list.
    MintNotFound,
    /// The signer may not act on this record or account.
    Unauthorized,
    /// The pool account is not the one derived from its allow-list.
    InvalidPoolAccount,
    /// A holding account has the wrong token type or owner.
    InvalidTokenAccount,
    /// The vault record or its holding account is absent or not the expected one.
    InvalidVaultAccount,
    /// A holding account has too few tokens.
    InsufficientFunds,
    /// A balance or counter would leave its range.
    Overflow,
    /// The pool record exists already.
    AlreadyInitialized,
}

/// Accounts of the call that opens a pool.
#[derive(Clone, Debug)]
pub struct Initialize {
    /// The staking program.
    pub program_id: Address,
    /// The signer, who becomes the pool's admin.
    pub admin: Address,
    pub prove_token_mint: Address,
    pub admin_prove_token_account: TokenAccount,
    pub prove_token_authority: Address,
    pub prove_token_vault: TokenAccount,
    pub pool_address: Address,
    /// `None` until the pool record is created.
    pub pool_info: Option<PoolInfo>,
    pub rarity_info_address: Address,
    pub rarity_info: RarityInfo,
    /// The registry program that owns the allow-list.
    pub rarity_program: Address,
}

/// Accounts of the call that hands a pool to a new admin.
#[derive(Clone, Copy, Debug)]
pub struct UpdateAdmin {
    /// The signer.
    pub admin: Address,
    pub new_admin: Address,
    pub pool_info: PoolInfo,
}

/// Accounts of a stake or an unstake call.
#[derive(Clone, Debug)]
pub struct Stake {
    /// The staking program.
    pub program_id: Address,
    /// The signer, who owns the asset.
    pub user: Address,
    pub pool_address: Address,
    pub pool_info: PoolInfo,
    pub prove_token_mint: Address,
    pub nft_mint: Address,
    pub rarity_info_address: Address,
    pub rarity_info: RarityInfo,
    pub user_nft_account: TokenAccount,
    /// The vault's holding account of the asset; `None` once closed.
    pub nft_vault_ata: Option<TokenAccount>,
    pub user_prove_token_account: TokenAccount,
    pub prove_token_authority: Address,
    pub prove_token_vault: TokenAccount,
    pub nft_vault_address: Address,
    /// The vault record; `None` while the asset is not escrowed.
    pub nft_vault_account: Option<NftVaultAccount>,
}

/// An unstake call takes the same accounts as a stake call.
pub type Unstake = Stake;

/// `mint` is on the list.
pub open spec fn is_listed(list: Seq<Address>, mint: Seq<u8>) -> bool {
    exists|i: int| 0 <= i < list.len() && #[trigger] list[i]@ == mint
}

/// The holding account with its balance set to `amount`.
pub open spec fn with_amount(t: TokenAccount, amount: int) -> TokenAccount {
    TokenAccount { amount: amount as u64, ..t }
}

// ----- initialize -----

/// The first check that fails when opening a pool, if any.
pub open spec fn initialize_error(c: Initialize, collection: Seq<char>, rarity: Seq<char>, nonce: u64) -> Option<ErrorCode> {
    let n = c.rarity_info.mint_list@.len();
    if !is_derived(authority_seeds(c.pool_address@), c.program_id@, c.prove_token_authority@) {
        Some(ErrorCode::InvalidProveTokenAuthority)
    } else if !is_derived(pool_seeds(c.rarity_info_address@), c.program_id@, c.pool_address@) {
        Some(ErrorCode::InvalidPoolAccount)
    } else if c.pool_info is Some {
        Some(ErrorCode::AlreadyInitialized)
    } else if associated_token_address_of(c.prove_token_authority@, c.prove_token_mint@) != c.prove_token_vault.address@
        || c.prove_token_vault.mint@ != c.prove_token_mint@ {
        Some(ErrorCode::InvalidProveTokenATA)
    } else if allow_list_address_of(c.admin@, collection, rarity, nonce, c.rarity_program@) != Some(c.rarity_info_address@) {
        Some(ErrorCode::InvalidRarityInfoAccount)
    } else if c.admin_prove_token_account.mint@ != c.prove_token_mint@
        || c.admin_prove_token_account.address@ == c.prove_token_vault.address@ {
        Some(ErrorCode::InvalidTokenAccount)
    } else if c.admin_prove_token_account.owner@ != c.admin@ {
        Some(ErrorCode::Unauthorized)
    } else if c.admin_prove_token_account.amount < n {
        Some(ErrorCode::InsufficientFunds)
    } else if c.prove_token_vault.amount + n > u64::MAX {
        Some(ErrorCode::Overflow)
    } else {
        None
    }
}

/// The accounts after a pool is opened: the record is written with a zero
/// count, and one proof token per listed asset moves from the admin into
/// the custodial vault.
pub open spec fn initialized(c: Initialize) -> Initialize {
    let n = c.rarity_info.mint_list@.len();
    Initialize {
        pool_info: Some(PoolInfo {
            admin: c.admin,
            prove_token_authority: c.prove_token_authority,
            prove_token_vault: c.prove_token_vault.address,
            prove_token_mint: c.prove_token_mint,
            rarity_info: c.rarity_info_address,
            total_locked: 0,
        }),
        admin_prove_token_account: with_amount(c.admin_prove_token_account, c.admin_prove_token_account.amount - n),
        prove_token_vault: with_amount(c.prove_token_vault, c.prove_token_vault.amount + n),
        ..c
    }
}

/// Opens the pool of an allow-list and fills its custodial vault with one
/// proof token per listed asset.
pub fn initialize(ctx: &mut Initialize, collection: String, rarity: String, nonce: u64) -> (r: Result<(), ErrorCode>)
    ensures
        match initialize_error(*old(ctx), collection@, rarity@, nonce) {
            Some(e) => r == Err::<(), ErrorCode>(e) && *final(ctx) == *old(ctx),
            None => r is Ok && *final(ctx) == initialized(*old(ctx)),
        },
{
    let n: usize = ctx.rarity_info.mint_list.len();
    if !is_prove_token_authority(&ctx.pool_address, &ctx.program_id, &ctx.prove_token_authority) {
        return Err(ErrorCode::InvalidProveTokenAuthority);
    }
    if !is_pool_address(&ctx.rarity_info_address, &ctx.program_id, &ctx.pool_address) {
        return Err(ErrorCode::InvalidPoolAccount);
    }
    if ctx.pool_info.is_some() {
        return Err(ErrorCode::AlreadyInitialized);
    }
    if !is_associated_token_address(&ctx.prove_token_authority, &ctx.prove_token_mint, &ctx.prove_token_vault.address)
        || !ctx.prove_token_vault.mint.same_as(&ctx.prove_token_mint) {
        return Err(ErrorCode::InvalidProveTokenATA);
    }
    let listed = allow_list_address(&ctx.admin, &collection, &rarity, nonce, &ctx.rarity_program);
    let listed_ok = match listed {
        Some(a) => a.same_as(&ctx.rarity_info_address),
        None => false,
    };
    if !listed_ok {
        return Err(ErrorCode::InvalidRarityInfoAccount);
    }
    if !ctx.admin_prove_token_account.mint.same_as(&ctx.prove_token_mint)
        || ctx.admin_prove_token_account.address.same_as(&ctx.prove_token_vault.address) {
        return Err(ErrorCode::InvalidTokenAccount);
    }
    if !ctx.admin_prove_token_account.owner.same_as(&ctx.admin) {
        return Err(ErrorCode::Unauthorized);
    }
    if (ctx.admin_prove_token_account.amount as u128) < (n as u128) {
        return Err(ErrorCode::InsufficientFunds);
    }
    let amount: u64 = n as u64;
    if ctx.prove_token_vault.amount > u64::MAX - amount {
        return Err(ErrorCode::Overflow);
    }
    ctx.pool_info = Some(PoolInfo {
        admin: ctx.admin,
        prove_token_authority: ctx.prove_token_authority,
        prove_token_vault: ctx.prove_token_vault.address,
        prove_token_mint: ctx.prove_token_mint,
        rarity_info: ctx.rarity_info_address,
        total_locked: 0,
    });
    ctx.admin_prove_token_account.amount = ctx.admin_prove_token_account.amount - amount;
    ctx.prove_token_vault.amount = ctx.prove_token_vault.amount + amount;
    Ok(())
}

// ----- update_admin -----

/// Hands the pool to `new_admin`; only the current admin may, and no other
/// field changes.
pub fn update_admin(ctx: &mut UpdateAdmin) -> (r: Result<(), ErrorCode>)
    ensures
        (r is Ok <==> old(ctx).admin@ == old(ctx).pool_info.admin@),
        r is Err ==> r == Err::<(), ErrorCode>(ErrorCode::Unauthorized) && *final(ctx) == *old(ctx),
        r is Ok ==> *final(ctx) == (UpdateAdmin {
            pool_info: PoolInfo { admin: old(ctx).new_admin, ..old(ctx).pool_info },
            ..*old(ctx)
        }),
{
    if !ctx.admin.same_as(&ctx.pool_info.admin) {
        return Err(ErrorCode::Unauthorized);
    }
    ctx.pool_info.admin = ctx.new_admin;
    Ok(())
}

// ----- stake and unstake -----

/// The checks that stake and unstake share, in order: the custodial
/// authority, the pool, the allow-list, the custodial proof-token account
/// and the user's holding accounts.
pub open spec fn shared_accounts_error(s: Stake) -> Option<ErrorCode> {
    if !is_derived(authority_seeds(s.pool_address@), s.program_id@, s.prove_token_authority@)
        || s.pool_info.prove_token_authority@ != s.prove_token_authority@ {
        Some(ErrorCode::InvalidProveTokenAuthority)
    } else if !is_derived(pool_seeds(s.rarity_info_address@), s.program_id@, s.pool_address@) {
        Some(ErrorCode::InvalidPoolAccount)
    } else if s.pool_info.rarity_info@ != s.rarity_info_address@ {
        Some(ErrorCode::InvalidRarityInfoAccount)
    } else if s.prove_token_mint@ != s.pool_info.prove_token_mint@
        || s.prove_token_vault.mint@ != s.prove_token_mint@
        || s.prove_token_vault.owner@ != s.prove_token_authority@ {
        Some(ErrorCode::InvalidProveTokenATA)
    } else if s.user_nft_account.mint@ != s.nft_mint@
        || s.user_nft_account.owner@ != s.user@
        || s.user_prove_token_account.mint@ != s.prove_token_mint@
        || s.user_prove_token_account.address@ == s.prove_token_vault.address@ {
        Some(ErrorCode::InvalidTokenAccount)
    } else {
        None
    }
}

/// The vault's holding account is the asset's, owned by the vault record,
/// apart from the user's, and holds `amount`.
pub open spec fn is_vault_ata(s: Stake, amount: u64) -> bool {
    match s.nft_vault_ata {
        Some(t) => t.mint@ == s.nft_mint@ && t.owner@ == s.nft_vault_address@
            && t.address@ != s.user_nft_account.address@ && t.amount == amount,
        None => false,
    }
}

/// The account checks of a stake: the shared ones, then a fresh vault.
pub open spec fn stake_accounts_error(s: Stake) -> Option<ErrorCode> {
    if shared_accounts_error(s) is Some {
        shared_accounts_error(s)
    } else if !is_derived(nft_vault_seeds(s.nft_mint@, s.pool_address@), s.program_id@, s.nft_vault_address@)
        || s.nft_vault_account is Some || !is_vault_ata(s, 0) {
        Some(ErrorCode::InvalidVaultAccount)
    } else {
        None
    }
}

/// The first check that fails when staking, if any.
pub open spec fn stake_error(s: Stake) -> Option<ErrorCode> {
    if stake_accounts_error(s) is Some {
        stake_accounts_error(s)
    } else if !is_listed(s.rarity_info.mint_list@, s.nft_mint@) {
        Some(ErrorCode::MintNotFound)
    } else if s.user_nft_account.amount < 1 || s.prove_token_vault.amount < 1 {
        Some(ErrorCode::InsufficientFunds)
    } else if s.user_prove_token_account.amount == u64::MAX || s.pool_info.total_locked == u64::MAX {
        Some(ErrorCode::Overflow)
    } else {
        None
    }
}

/// The accounts after a stake: the asset moves into the vault, the vault
/// record binds user, pool and asset, one proof token moves to the user,
/// and the pool counts one more locked asset.
pub open spec fn staked(s: Stake) -> Stake {
    Stake {
        user_nft_account: with_amount(s.user_nft_account, s.user_nft_account.amount - 1),
        nft_vault_ata: Some(with_amount(s.nft_vault_ata.unwrap(), 1)),
        nft_vault_account: Some(NftVaultAccount { user: s.user, pool_info: s.pool_address, nft_mint: s.nft_mint }),
        prove_token_vault: with_amount(s.prove_token_vault, s.prove_token_vault.amount - 1),
        user_prove_token_account: with_amount(s.user_prove_token_account, s.user_prove_token_account.amount + 1),
        pool_info: PoolInfo { total_locked: (s.pool_info.total_locked + 1) as u64, ..s.pool_info },
        ..s
    }
}

/// The vault record matches the asset and pool.
pub open spec fn is_vault_record(s: Stake) -> bool {
    match s.nft_vault_account {
        Some(v) => v.pool_info@ == s.pool_address@ && v.nft_mint@ == s.nft_mint@,
        None => false,
    }
}

/// The first check that fails when unstaking, if any.
pub open spec fn unstake_error(s: Unstake) -> Option<ErrorCode> {
    if shared_accounts_error(s) is Some {
        shared_accounts_error(s)
    } else if !is_derived(nft_vault_seeds(s.nft_mint@, s.pool_address@), s.program_id@, s.nft_vault_address@)
        || !is_vault_record(s) || !is_vault_ata(s, 1) {
        Some(ErrorCode::InvalidVaultAccount)
    } else if s.nft_vault_account.unwrap().user@ != s.user@ {
        Some(ErrorCode::Unauthorized)
    } else if s.user_prove_token_account.amount < 1 {
        Some(ErrorCode::InsufficientFunds)
    } else if s.user_nft_account.amount == u64::MAX || s.prove_token_vault.amount == u64::MAX
        || s.pool_info.total_locked == 0 {
        Some(ErrorCode::Overflow)
    } else {
        None
    }
}

/// The accounts after an unstake: the asset returns to the user, the
/// vault's holding account and record are closed, one proof token returns
/// to the custodial vault, and the pool counts one fewer locked asset.
pub open spec fn unstaked(s: Unstake) -> Unstake {
    Stake {
        user_nft_account: with_amount(s.user_nft_account, s.user_nft_account.amount + 1),
        nft_vault_ata: None,
        nft_vault_account: None,
        prove_token_vault: with_amount(s.prove_token_vault, s.prove_token_vault.amount + 1),
        user_prove_token_account: with_amount(s.user_prove_token_account, s.user_prove_token_account.amount - 1),
        pool_info: PoolInfo { total_locked: (s.pool_info.total_locked - 1) as u64, ..s.pool_info },
        ..s
    }
}

/// Whether `mint` is on the list.
pub fn contains_mint(list: &Vec<Address>, mint: &Address) -> (r: bool)
    ensures
        r == is_listed(list@, mint@),
{
    let mut i: usize = 0;
    while i < list.len()
        invariant
            i <= list@.len(),
            forall|j: int| 0 <= j < i ==> list@[j]@ != mint@,
        decreases list@.len() - i,
    {
        if list[i].same_as(mint) {
            return true;
        }
        i = i + 1;
    }
    false
}

fn check_shared_accounts(s: &Stake) -> (r: Option<ErrorCode>)
    ensures
        r == shared_accounts_error(*s),
{
    if !is_prove_token_authority(&s.pool_address, &s.program_id, &s.prove_token_authority)
        || !s.pool_info.prove_token_authority.same_as(&s.prove_token_authority) {
        return Some(ErrorCode::InvalidProveTokenAuthority);
    }
    if !is_pool_address(&s.rarity_info_address, &s.program_id, &s.pool_address) {
        return Some(ErrorCode::InvalidPoolAccount);
    }
    if !s.pool_info.rarity_info.same_as(&s.rarity_info_address) {
        return Some(ErrorCode::InvalidRarityInfoAccount);
    }
    if !s.prove_token_mint.same_as(&s.pool_info.prove_token_mint)
        || !s.prove_token_vault.mint.same_as(&s.prove_token_mint)
        || !s.prove_token_vault.owner.same_as(&s.prove_token_authority) {
        return Some(ErrorCode::InvalidProveTokenATA);
    }
    if !s.user_nft_account.mint.same_as(&s.nft_mint)
        || !s.user_nft_account.owner.same_as(&s.user)
        || !s.user_prove_token_account.mint.same_as(&s.prove_token_mint)
        || s.user_prove_token_account.address.same_as(&s.prove_token_vault.address) {
        return Some(ErrorCode::InvalidTokenAccount);
    }
    None
}

fn check_vault_ata(s: &Stake, amount: u64) -> (r: bool)
    ensures
        r == is_vault_ata(*s, amount),
{
    match &s.nft_vault_ata {
        Some(t) => t.mint.same_as(&s.nft_mint) && t.owner.same_as(&s.nft_vault_address)
            && !t.address.same_as(&s.user_nft_account.address) && t.amount == amount,
        None => false,
    }
}

fn check_vault_record(s: &Stake) -> (r: bool)
    ensures
        r == is_vault_record(*s),
{
    match &s.nft_vault_account {
        Some(v) => v.pool_info.same_as(&s.pool_address) && v.nft_mint.same_as(&s.nft_mint),
        None => false,
    }
}

/// Escrows the asset in its vault and hands the user one proof token.
pub fn stake(ctx: &mut Stake) -> (r: Result<(), ErrorCode>)
    ensures
        match stake_error(*old(ctx)) {
            Some(e) => r == Err::<(), ErrorCode>(e) && *final(ctx) == *old(ctx),
            None => r is Ok && *final(ctx) == staked(*old(ctx)),
        },
{
    if let Some(e) = check_shared_accounts(ctx) {
        return Err(e);
    }
    if !is_nft_vault_address(&ctx.nft_mint, &ctx.pool_address, &ctx.program_id, &ctx.nft_vault_address)
        || ctx.nft_vault_account.is_some() || !check_vault_ata(ctx, 0) {
        return Err(ErrorCode::InvalidVaultAccount);
    }
    if !contains_mint(&ctx.rarity_info.mint_list, &ctx.nft_mint) {
        return Err(ErrorCode::MintNotFound);
    }
    if ctx.user_nft_account.amount < 1 || ctx.prove_token_vault.amount < 1 {
        return Err(ErrorCode::InsufficientFunds);
    }
    if ctx.user_prove_token_account.amount == u64::MAX || ctx.pool_info.total_locked == u64::MAX {
        return Err(ErrorCode::Overflow);
    }
    // the asset moves into the vault
    ctx.user_nft_account.amount = ctx.user_nft_account.amount - 1;
    let mut vault_ata = ctx.nft_vault_ata.unwrap();
    vault_ata.amount = 1;
    ctx.nft_vault_ata = Some(vault_ata);
    // the vault record binds user, pool and asset
    ctx.nft_vault_account = Some(NftVaultAccount {
        user: ctx.user,
        pool_info: ctx.pool_address,
        nft_mint: ctx.nft_mint,
    });
    // one proof token moves to the user, signed for by the custodial authority
    ctx.prove_token_vault.amount = ctx.prove_token_vault.amount - 1;
    ctx.user_prove_token_account.amount = ctx.user_prove_token_account.amount + 1;
    ctx.pool_info.total_locked = ctx.pool_info.total_locked + 1;
    Ok(())
}

/// Returns the escrowed asset to the user, closes its vault, and takes one
/// proof token back into the custodial vault.
pub fn unstake(ctx: &mut Unstake) -> (r: Result<(), ErrorCode>)
    ensures
        match unstake_error(*old(ctx)) {
            Some(e) => r == Err::<(), ErrorCode>(e) && *final(ctx) == *old(ctx),
            None => r is Ok && *final(ctx) == unstaked(*old(ctx)),
        },
{
    if let Some(e) = check_shared_accounts(ctx) {
        return Err(e);
    }
    if !is_nft_vault_address(&ctx.nft_mint, &ctx.pool_address, &ctx.program_id, &ctx.nft_vault_address)
        || !check_vault_record(ctx) || !check_vault_ata(ctx, 1) {
        return Err(ErrorCode::InvalidVaultAccount);
    }
    let record = ctx.nft_vault_account.unwrap();
    if !record.user.same_as(&ctx.user) {
        return Err(ErrorCode::Unauthorized);
    }
    if ctx.user_prove_token_account.amount < 1 {
        return Err(ErrorCode::InsufficientFunds);
    }
    if ctx.user_nft_account.amount == u64::MAX || ctx.prove_token_vault.amount == u64::MAX
        || ctx.pool_info.total_locked == 0 {
        return Err(ErrorCode::Overflow);
    }
    // the asset returns to the user, signed for by the vault record
    ctx.user_nft_account.amount = ctx.user_nft_account.amount + 1;
    // the emptied holding account and the vault record are closed
    ctx.nft_vault_ata = None;
    ctx.nft_vault_account = None;
    // one proof token returns to the custodial vault, signed for by the user
    ctx.user_prove_token_account.amount = ctx.user_prove_token_account.amount - 1;
    ctx.prove_token_vault.amount = ctx.prove_token_vault.amount + 1;
    ctx.pool_info.total_locked = ctx.pool_info.total_locked - 1;
    Ok(())
}

// ----- laws of the pool -----

/// Unstaking right after a stake succeeds and restores every account the
/// stake touched: balances, the pool's count, and no vault record; the
/// vault's holding account is closed.
pub proof fn lemma_unstake_undoes_stake(s: Stake)
    requires
        stake_error(s) is None,
    ensures
        unstake_error(staked(s)) is None,
        unstaked(staked(s)) == (Stake { nft_vault_ata: None, ..s }),
{
    let t = staked(s);
    assert(shared_accounts_error(t) == shared_accounts_error(s));
    assert(is_vault_ata(t, 1));
    assert(unstaked(t).user_nft_account == s.user_nft_account);
    assert(unstaked(t).prove_token_vault == s.prove_token_vault);
    assert(unstaked(t).user_prove_token_account == s.user_prove_token_account);
    assert(unstaked(t).pool_info == s.pool_info);
}

/// Staking an asset that is not on the allow-list fails, and once the
/// accounts check out the error is `MintNotFound`.
pub proof fn lemma_unlisted_asset_refused(s: Stake)
    requires
        !is_listed(s.rarity_info.mint_list@, s.nft_mint@),
    ensures
        stake_error(s) is Some,
        stake_accounts_error(s) is None ==> stake_error(s) == Some(ErrorCode::MintNotFound),
{
}

/// A custodial authority that is not derived from the pool address and its
/// role label is refused with `InvalidProveTokenAuthority` by initialize,
/// stake and unstake alike.
pub proof fn lemma_wrong_authority_refused(
    i: Initialize,
    collection: Seq<char>,
    rarity: Seq<char>,
    nonce: u64,
    s: Stake,
)
    ensures
        !is_derived(authority_seeds(i.pool_address@), i.program_id@, i.prove_token_authority@)
            ==> initialize_error(i, collection, rarity, nonce) == Some(ErrorCode::InvalidProveTokenAuthority),
        !is_derived(authority_seeds(s.pool_address@), s.program_id@, s.prove_token_authority@)
            ==> stake_error(s) == Some(ErrorCode::InvalidProveTokenAuthority)
            && unstake_error(s) == Some(ErrorCode::InvalidProveTokenAuthority),
{
}

/// Successful stakes in a row on one pool: each starts from the pool record
/// and custodial vault that the previous one left.
pub open spec fn is_stake_run(run: Seq<Stake>) -> bool {
    &&& forall|k: int| 0 <= k < run.len() ==> stake_error(#[trigger] run[k]) is None
    &&& forall|k: int| 0 <= k < run.len() - 1 ==> (#[trigger] run[k + 1]).pool_info == staked(run[k]).pool_info
        && run[k + 1].prove_token_vault == staked(run[k]).prove_token_vault
}

/// After `n` stakes in a row and no unstake, the pool counts `n` more locked
/// assets and the custodial vault holds `n` fewer proof tokens.
pub proof fn lemma_stake_run_counts(run: Seq<Stake>)
    requires
        run.len() > 0,
        is_stake_run(run),
    ensures
        staked(run.last()).pool_info.total_locked == run[0].pool_info.total_locked + run.len(),
        staked(run.last()).prove_token_vault.amount == run[0].prove_token_vault.amount - run.len(),
    decreases run.len(),
{
    if run.len() > 1 {
        let front = run.drop_last();
        assert(is_stake_run(front)) by {
            assert forall|k: int| 0 <= k < front.len() implies stake_error(#[trigger] front[k]) is None by {
                assert(front[k] == run[k]);
            }
            assert forall|k: int| 0 <= k < front.len() - 1 implies (#[trigger] front[k + 1]).pool_info
                == staked(front[k]).pool_info && front[k + 1].prove_token_vault == staked(front[k]).prove_token_vault by {
                assert(front[k] == run[k] && front[k + 1] == run[k + 1]);
            }
        }
        lemma_stake_run_counts(front);
        let k = run.len() - 2;
        assert(stake_error(run[k + 1]) is None);
        assert(run[k + 1].pool_info == staked(run[k]).pool_info);
        assert(front.last() == run[k]);
    } else {
        assert(stake_error(run[0]) is None);
    }
}

/// A second unstake of the same asset from the same pool fails, for the
/// vault record and its holding account are gone.
pub proof fn lemma_second_unstake_refused(s: Unstake)
    requires
        unstake_error(s) is None,
    ensures
        unstake_error(unstaked(s)) == Some(ErrorCode::InvalidVaultAccount),
{
    assert(shared_accounts_error(unstaked(s)) == shared_accounts_error(s));
}

} // verus!
