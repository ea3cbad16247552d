use anchor_lang::solana_program::pubkey::Pubkey;
use anchor_spl::associated_token::get_associated_token_address;
use nft_staking::address::Address;
use nft_staking::rarity::RarityInfo;
use nft_staking::staking::{
    initialize, stake, unstake, update_admin, ErrorCode, Initialize, PoolInfo, Stake,
    TokenAccount, UpdateAdmin,
};

fn addr(b: u8) -> Address {
    Address::new([b; 32])
}

fn pda(seeds: &[&[u8]], program: &Address) -> Address {
    let (p, _) = Pubkey::find_program_address(seeds, &Pubkey::new_from_array(program.bytes));
    Address::new(p.to_bytes())
}

fn account(address: Address, mint: Address, owner: Address, amount: u64) -> TokenAccount {
    TokenAccount { address, mint, owner, amount }
}

const PROGRAM: u8 = 10;
const RARITY_INFO: u8 = 11;
const PROVE_MINT: u8 = 12;
const USER: u8 = 13;
const NFT_MINT: u8 = 14;

fn pool_address() -> Address {
    pda(&[&addr(RARITY_INFO).bytes, b"pool_info"], &addr(PROGRAM))
}

fn authority() -> Address {
    pda(&[&pool_address().bytes, b"prove_token_vault"], &addr(PROGRAM))
}

fn prove_vault(amount: u64) -> TokenAccount {
    let at = get_associated_token_address(
        &Pubkey::new_from_array(authority().bytes),
        &Pubkey::new_from_array(addr(PROVE_MINT).bytes),
    );
    account(Address::new(at.to_bytes()), addr(PROVE_MINT), authority(), amount)
}

fn pool_info(total_locked: u64) -> PoolInfo {
    PoolInfo {
        admin: addr(18),
        prove_token_authority: authority(),
        prove_token_vault: prove_vault(0).address,
        prove_token_mint: addr(PROVE_MINT),
        rarity_info: addr(RARITY_INFO),
        total_locked,
    }
}

/// A consistent stake of asset `nft_mint` by `user`, one proof token per listed asset in the vault.
fn stake_ctx(user: u8, nft_mint: u8, listed: Vec<Address>) -> Stake {
    let pool = pool_address();
    let program = addr(PROGRAM);
    let vault = pda(&[&addr(nft_mint).bytes, &pool.bytes, b"nft_vault"], &program);
    Stake {
        program_id: program,
        user: addr(user),
        pool_address: pool,
        pool_info: pool_info(0),
        prove_token_mint: addr(PROVE_MINT),
        nft_mint: addr(nft_mint),
        rarity_info_address: addr(RARITY_INFO),
        rarity_info: RarityInfo { admin: addr(18), collection: [0u8; 16], rarity: [0u8; 16], mint_list: listed },
        user_nft_account: account(addr(nft_mint.wrapping_add(100)), addr(nft_mint), addr(user), 1),
        nft_vault_ata: Some(account(addr(nft_mint.wrapping_add(150)), addr(nft_mint), vault, 0)),
        user_prove_token_account: account(addr(user.wrapping_add(50)), addr(PROVE_MINT), addr(user), 0),
        prove_token_authority: authority(),
        prove_token_vault: prove_vault(10),
        nft_vault_address: vault,
        nft_vault_account: None,
    }
}

fn snapshot(s: &Stake) -> (TokenAccount, TokenAccount, TokenAccount, PoolInfo) {
    (s.user_nft_account, s.user_prove_token_account, s.prove_token_vault, s.pool_info)
}

#[test]
fn stake_escrows_asset_and_pays_proof_token() {
    let mut s = stake_ctx(USER, NFT_MINT, vec![addr(NFT_MINT)]);
    assert_eq!(stake(&mut s), Ok(()));
    assert_eq!(s.user_nft_account.amount, 0);
    assert_eq!(s.nft_vault_ata.unwrap().amount, 1);
    assert_eq!(s.user_prove_token_account.amount, 1);
    assert_eq!(s.prove_token_vault.amount, 9);
    assert_eq!(s.pool_info.total_locked, 1);
    let record = s.nft_vault_account.unwrap();
    assert_eq!(record.user, addr(USER));
    assert_eq!(record.pool_info, pool_address());
    assert_eq!(record.nft_mint, addr(NFT_MINT));
}

#[test]
fn unstake_restores_pre_stake_state() {
    let mut s = stake_ctx(USER, NFT_MINT, vec![addr(NFT_MINT)]);
    let before = snapshot(&s);
    assert_eq!(stake(&mut s), Ok(()));
    assert_eq!(unstake(&mut s), Ok(()));
    assert_eq!(snapshot(&s), before);
    assert_eq!(s.nft_vault_account, None);
    assert_eq!(s.nft_vault_ata, None);
}

#[test]
fn unlisted_asset_is_refused_without_change() {
    let mut s = stake_ctx(USER, NFT_MINT, vec![addr(20), addr(21)]);
    let before = snapshot(&s);
    assert_eq!(stake(&mut s), Err(ErrorCode::MintNotFound));
    assert_eq!(snapshot(&s), before);
    assert_eq!(s.nft_vault_account, None);
    assert_eq!(s.nft_vault_ata.unwrap().amount, 0);
}

#[test]
fn wrong_authority_is_refused_by_every_operation() {
    let mut s = stake_ctx(USER, NFT_MINT, vec![addr(NFT_MINT)]);
    s.prove_token_authority = addr(99);
    s.pool_info.prove_token_authority = addr(99);
    s.prove_token_vault.owner = addr(99);
    let before = snapshot(&s);
    assert_eq!(stake(&mut s), Err(ErrorCode::InvalidProveTokenAuthority));
    assert_eq!(unstake(&mut s), Err(ErrorCode::InvalidProveTokenAuthority));
    assert_eq!(snapshot(&s), before);

    let mut i = init_ctx(5, 10);
    i.prove_token_authority = addr(99);
    assert_eq!(initialize(&mut i, "Foo".to_string(), "Rare".to_string(), 7), Err(ErrorCode::InvalidProveTokenAuthority));
    assert_eq!(i.pool_info, None);
}

#[test]
fn stakes_in_a_row_count_up() {
    let listed: Vec<Address> = (30u8..33).map(addr).collect();
    let mut pool = pool_info(0);
    let mut vault = prove_vault(10);
    for (n, mint) in (30u8..33).enumerate() {
        let mut s = stake_ctx(USER, mint, listed.clone());
        s.pool_info = pool;
        s.prove_token_vault = vault;
        assert_eq!(stake(&mut s), Ok(()));
        pool = s.pool_info;
        vault = s.prove_token_vault;
        assert_eq!(pool.total_locked, n as u64 + 1);
    }
    assert_eq!(pool.total_locked, 3);
    assert_eq!(vault.amount, 7);
}

#[test]
fn second_unstake_fails_without_change() {
    let mut s = stake_ctx(USER, NFT_MINT, vec![addr(NFT_MINT)]);
    assert_eq!(stake(&mut s), Ok(()));
    s.user_prove_token_account.amount = 2;
    assert_eq!(unstake(&mut s), Ok(()));
    let after = snapshot(&s);
    assert_eq!(unstake(&mut s), Err(ErrorCode::InvalidVaultAccount));
    assert_eq!(snapshot(&s), after);
    assert_eq!(s.user_prove_token_account.amount, 1);
}

#[test]
fn staking_twice_is_refused() {
    let mut s = stake_ctx(USER, NFT_MINT, vec![addr(NFT_MINT)]);
    assert_eq!(stake(&mut s), Ok(()));
    assert_eq!(stake(&mut s), Err(ErrorCode::InvalidVaultAccount));
    assert_eq!(s.pool_info.total_locked, 1);
}

#[test]
fn unstake_by_another_user_is_refused() {
    let mut s = stake_ctx(USER, NFT_MINT, vec![addr(NFT_MINT)]);
    assert_eq!(stake(&mut s), Ok(()));
    s.user = addr(40);
    s.user_nft_account = account(addr(41), addr(NFT_MINT), addr(40), 0);
    s.user_prove_token_account = account(addr(42), addr(PROVE_MINT), addr(40), 1);
    assert_eq!(unstake(&mut s), Err(ErrorCode::Unauthorized));
    assert_eq!(s.pool_info.total_locked, 1);
}

#[test]
fn stake_account_errors() {
    let mut s = stake_ctx(USER, NFT_MINT, vec![addr(NFT_MINT)]);
    s.pool_address = addr(1);
    assert_eq!(stake(&mut s), Err(ErrorCode::InvalidProveTokenAuthority));

    let mut s = stake_ctx(USER, NFT_MINT, vec![addr(NFT_MINT)]);
    s.pool_info.rarity_info = addr(1);
    assert_eq!(stake(&mut s), Err(ErrorCode::InvalidRarityInfoAccount));

    let mut s = stake_ctx(USER, NFT_MINT, vec![addr(NFT_MINT)]);
    s.prove_token_vault.mint = addr(1);
    assert_eq!(stake(&mut s), Err(ErrorCode::InvalidProveTokenATA));

    let mut s = stake_ctx(USER, NFT_MINT, vec![addr(NFT_MINT)]);
    s.user_nft_account.owner = addr(1);
    assert_eq!(stake(&mut s), Err(ErrorCode::InvalidTokenAccount));

    let mut s = stake_ctx(USER, NFT_MINT, vec![addr(NFT_MINT)]);
    s.nft_vault_address = addr(1);
    assert_eq!(stake(&mut s), Err(ErrorCode::InvalidVaultAccount));

    let mut s = stake_ctx(USER, NFT_MINT, vec![addr(NFT_MINT)]);
    s.user_nft_account.amount = 0;
    assert_eq!(stake(&mut s), Err(ErrorCode::InsufficientFunds));

    let mut s = stake_ctx(USER, NFT_MINT, vec![addr(NFT_MINT)]);
    s.user_prove_token_account.amount = u64::MAX;
    assert_eq!(stake(&mut s), Err(ErrorCode::Overflow));
}

#[test]
fn pool_account_must_be_derived_from_allow_list() {
    let mut s = stake_ctx(USER, NFT_MINT, vec![addr(NFT_MINT)]);
    s.rarity_info_address = addr(1);
    s.pool_info.rarity_info = addr(1);
    assert_eq!(stake(&mut s), Err(ErrorCode::InvalidPoolAccount));
}

fn init_ctx(listed: u8, admin_balance: u64) -> Initialize {
    let admin = addr(18);
    let rarity_program = addr(19);
    let rarity_info = nft_staking::derivation::allow_list_address(&admin, &"Foo".to_string(), &"Rare".to_string(), 7, &rarity_program).unwrap();
    let program = addr(PROGRAM);
    let pool = pda(&[&rarity_info.bytes, b"pool_info"], &program);
    let auth = pda(&[&pool.bytes, b"prove_token_vault"], &program);
    let at = get_associated_token_address(&Pubkey::new_from_array(auth.bytes), &Pubkey::new_from_array(addr(PROVE_MINT).bytes));
    Initialize {
        program_id: program,
        admin,
        prove_token_mint: addr(PROVE_MINT),
        admin_prove_token_account: account(addr(60), addr(PROVE_MINT), admin, admin_balance),
        prove_token_authority: auth,
        prove_token_vault: account(Address::new(at.to_bytes()), addr(PROVE_MINT), auth, 0),
        pool_address: pool,
        pool_info: None,
        rarity_info_address: rarity_info,
        rarity_info: RarityInfo { admin, collection: [0u8; 16], rarity: [0u8; 16], mint_list: (0..listed).map(addr).collect() },
        rarity_program,
    }
}

#[test]
fn initialize_funds_vault_per_listed_asset() {
    let mut i = init_ctx(5, 10);
    assert_eq!(initialize(&mut i, "Foo".to_string(), "Rare".to_string(), 7), Ok(()));
    let p = i.pool_info.unwrap();
    assert_eq!(p.admin, addr(18));
    assert_eq!(p.total_locked, 0);
    assert_eq!(p.prove_token_authority, i.prove_token_authority);
    assert_eq!(p.prove_token_vault, i.prove_token_vault.address);
    assert_eq!(p.rarity_info, i.rarity_info_address);
    assert_eq!(i.admin_prove_token_account.amount, 5);
    assert_eq!(i.prove_token_vault.amount, 5);
    assert_eq!(initialize(&mut i, "Foo".to_string(), "Rare".to_string(), 7), Err(ErrorCode::AlreadyInitialized));
}

#[test]
fn initialize_errors() {
    let mut i = init_ctx(5, 4);
    assert_eq!(initialize(&mut i, "Foo".to_string(), "Rare".to_string(), 7), Err(ErrorCode::InsufficientFunds));
    assert_eq!(i.pool_info, None);
    assert_eq!(i.admin_prove_token_account.amount, 4);

    let mut i = init_ctx(5, 10);
    assert_eq!(initialize(&mut i, "Foo".to_string(), "Rare".to_string(), 8), Err(ErrorCode::InvalidRarityInfoAccount));

    let mut i = init_ctx(5, 10);
    i.prove_token_vault.address = addr(1);
    assert_eq!(initialize(&mut i, "Foo".to_string(), "Rare".to_string(), 7), Err(ErrorCode::InvalidProveTokenATA));

    let mut i = init_ctx(5, 10);
    i.admin_prove_token_account.owner = addr(1);
    assert_eq!(initialize(&mut i, "Foo".to_string(), "Rare".to_string(), 7), Err(ErrorCode::Unauthorized));

    let mut i = init_ctx(5, 10);
    i.prove_token_vault.amount = u64::MAX;
    assert_eq!(initialize(&mut i, "Foo".to_string(), "Rare".to_string(), 7), Err(ErrorCode::Overflow));
}

#[test]
fn pool_admin_transfer() {
    let mut u = UpdateAdmin { admin: addr(18), new_admin: addr(2), pool_info: pool_info(3) };
    assert_eq!(update_admin(&mut u), Ok(()));
    assert_eq!(u.pool_info.admin, addr(2));
    assert_eq!(u.pool_info.total_locked, 3);
    let mut again = UpdateAdmin { admin: addr(18), new_admin: addr(4), pool_info: u.pool_info };
    assert_eq!(update_admin(&mut again), Err(ErrorCode::Unauthorized));
    assert_eq!(again.pool_info.admin, addr(2));
}
