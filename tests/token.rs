use std::str::FromStr;

use komple_platform::funds::{Coin, FundsError};
use komple_platform::locks::Locks;
use komple_platform::split::Decimal;
use komple_platform::token::{
    CollectionConfig, CollectionInfo, CollectionType, TokenError, TokenInfo, InstantiateMsg,
    TokenModule,
};

const USER: &str = "juno.user";
const ADMIN: &str = "juno.admin";
const RANDOM: &str = "juno.random";
const RANDOM_2: &str = "juno.random2";
const NATIVE_DENOM: &str = "denom";
const TEST_DENOM: &str = "test_denom";
const GENESIS: u64 = 1_571_797_419;
const LONG_DESCRIPTION: &str = "Test DescriptionTest DescriptionTest DescriptionTest DescriptionTest DescriptionTest DescriptionTest DescriptionTest DescriptionTest DescriptionTest DescriptionTest DescriptionTest DescriptionTest DescriptionTest DescriptionTest DescriptionTest DescriptionTest DescriptionTest DescriptionTest DescriptionTest DescriptionTest DescriptionTest DescriptionTest DescriptionTest DescriptionTest DescriptionTest DescriptionTest DescriptionTest DescriptionTest DescriptionTest DescriptionTest DescriptionTest DescriptionTest DescriptionTest DescriptionTest Description";

fn s(x: &str) -> String {
    x.to_string()
}

fn dec(x: &str) -> Decimal {
    Decimal::raw(cosmwasm_std::Decimal::from_str(x).unwrap().atomics().u128())
}

fn info(description: &str) -> CollectionInfo {
    CollectionInfo {
        collection_type: CollectionType::Standard,
        name: s("Test Collection"),
        description: s(description),
        image: s("https://some-image.com"),
        external_link: None,
    }
}

fn msg(
    minter: &str,
    per_address_limit: Option<u32>,
    start_time: Option<u64>,
    max_token_limit: Option<u32>,
    unit_price: Option<u128>,
    royalty_share: Option<Decimal>,
    ipfs_link: Option<String>,
    description: &str,
) -> InstantiateMsg {
    InstantiateMsg {
        admin: s(ADMIN),
        creator: s(ADMIN),
        token_info: TokenInfo { symbol: s("TTT"), minter: s(minter) },
        collection_config: CollectionConfig {
            per_address_limit,
            start_time,
            max_token_limit,
            unit_price,
            native_denom: s(NATIVE_DENOM),
            ipfs_link,
        },
        collection_info: info(description),
        royalty_share,
    }
}

fn proper_instantiate(
    minter: &str,
    per_address_limit: Option<u32>,
    start_time: Option<u64>,
    max_token_limit: Option<u32>,
    unit_price: Option<u128>,
    royalty_share: Option<Decimal>,
    ipfs_link: Option<String>,
) -> TokenModule {
    TokenModule::instantiate(
        "contract0",
        ADMIN,
        msg(
            minter,
            per_address_limit,
            start_time,
            max_token_limit,
            unit_price,
            royalty_share,
            ipfs_link,
            "Test Description",
        ),
        GENESIS,
    )
    .unwrap()
}

fn default_module() -> TokenModule {
    proper_instantiate(ADMIN, None, None, None, None, None, Some(s("some-link")))
}

fn mint_to(t: &mut TokenModule, owner: &str) -> Result<u32, TokenError> {
    t.execute_mint(&s(ADMIN), &s(owner), &vec![], GENESIS).map(|r| r.token_id)
}

fn locks(mint: bool, burn: bool, transfer: bool, send: bool) -> Locks {
    Locks { mint_lock: mint, burn_lock: burn, transfer_lock: transfer, send_lock: send }
}

#[test]
fn update_locks() {
    let mut t = proper_instantiate(ADMIN, None, None, None, None, None, Some(s("some-link")));
    let l = locks(true, false, true, false);
    assert_eq!(t.execute_update_locks(&s("random"), l), Err(TokenError::Unauthorized));
    assert_eq!(t.execute_update_locks(&s(ADMIN), l), Ok(()));
    assert_eq!(t.query_locks(), l);
    let r = t.execute_mint(&s("random"), &s("random"), &vec![], GENESIS);
    assert_eq!(r.err(), Some(TokenError::MintLocked));
    assert_eq!(t.execute_transfer(&s("random"), 1, &s(ADMIN)), Err(TokenError::TransferLocked));
}

#[test]
fn token_initialization_test_happy_path() {
    let t = TokenModule::instantiate(
        "contract0",
        ADMIN,
        msg(ADMIN, Some(5), Some(GENESIS + 1), Some(100), Some(100), None, Some(s("some-link")), "Test Description"),
        GENESIS,
    )
    .unwrap();
    assert_eq!(t.address(), "contract0");
}

#[test]
fn tests_test_invalid_time() {
    let m = msg(ADMIN, Some(5), Some(GENESIS), Some(100), Some(100), None, Some(s("some-link")), "Test Description");
    assert_eq!(TokenModule::instantiate("contract0", ADMIN, m, GENESIS).err(), Some(TokenError::InvalidStartTime));
    let m = msg(ADMIN, Some(5), Some(GENESIS - 10), Some(100), Some(100), None, Some(s("some-link")), "Test Description");
    assert_eq!(TokenModule::instantiate("contract0", ADMIN, m, GENESIS).err(), Some(TokenError::InvalidStartTime));
}

#[test]
fn test_invalid_max_token_limit() {
    let m = msg(ADMIN, Some(5), Some(GENESIS + 1), Some(0), Some(100), None, Some(s("some-link")), "Test Description");
    assert_eq!(TokenModule::instantiate("contract0", ADMIN, m, GENESIS).err(), Some(TokenError::InvalidMaxTokenLimit));
}

#[test]
fn tests_test_invalid_per_address_limit() {
    let m = msg(ADMIN, Some(0), Some(GENESIS + 1), Some(100), Some(100), None, Some(s("some-link")), "Test Description");
    assert_eq!(TokenModule::instantiate("contract0", ADMIN, m, GENESIS).err(), Some(TokenError::InvalidPerAddressLimit));
}

#[test]
fn test_invalid_description() {
    let m = msg(ADMIN, Some(5), Some(GENESIS + 1), Some(100), Some(100), None, Some(s("some-link")), LONG_DESCRIPTION);
    assert_eq!(TokenModule::instantiate("contract0", ADMIN, m, GENESIS).err(), Some(TokenError::DescriptionTooLong));
}

#[test]
fn test_missing_ipfs_link() {
    let m = msg(ADMIN, Some(5), Some(GENESIS + 1), Some(100), Some(100), None, None, LONG_DESCRIPTION);
    assert_eq!(TokenModule::instantiate("contract0", ADMIN, m, GENESIS).err(), Some(TokenError::IpfsNotFound));
}

#[test]
fn update_operators_test_happy_path() {
    let mut t = default_module();
    t.execute_update_operators(&s(ADMIN), vec![s(RANDOM), s(RANDOM_2)]).unwrap();
    assert_eq!(t.query_operators(), &vec![s(RANDOM), s(RANDOM_2)]);
}

#[test]
fn update_operators_test_invalid_admin() {
    let mut t = default_module();
    assert_eq!(t.execute_update_operators(&s(USER), vec![s(RANDOM), s(RANDOM_2)]), Err(TokenError::Unauthorized));
}

#[test]
fn update_royalty_test_happy_path() {
    let mut t = proper_instantiate(ADMIN, None, None, None, None, Some(dec("0.5")), Some(s("some-link")));
    assert_eq!(t.royalty_share(), Some(dec("0.5")));
    t.execute_update_royalty_share(&s(ADMIN), Some(dec("0.1"))).unwrap();
    assert_eq!(t.query_config().royalty_share, Some(dec("0.1")));
    assert_eq!(t.royalty_share(), Some(Decimal::percent(10)));
}

#[test]
fn update_royalty_test_invalid_owner() {
    let mut t = proper_instantiate(ADMIN, None, None, None, None, Some(dec("0.5")), Some(s("some-link")));
    assert_eq!(t.execute_update_royalty_share(&s(USER), Some(dec("0.1"))), Err(TokenError::Unauthorized));
}

#[test]
fn test_invalid_share() {
    let m = msg(ADMIN, None, None, None, None, Some(dec("1.2")), Some(s("some-link")), "Test Description");
    assert_eq!(TokenModule::instantiate("contract0", ADMIN, m, GENESIS).err(), Some(TokenError::InvalidRoyaltyShare));
    let mut t = proper_instantiate(ADMIN, None, None, None, None, Some(dec("0.5")), Some(s("some-link")));
    assert_eq!(t.execute_update_royalty_share(&s(ADMIN), Some(dec("1.2"))), Err(TokenError::InvalidRoyaltyShare));
}

#[test]
fn normal_locks_test_happy_path() {
    let mut t = default_module();
    let l = locks(false, true, true, false);
    t.execute_update_locks(&s(ADMIN), l).unwrap();
    assert_eq!(t.query_locks(), l);
}

#[test]
fn normal_locks_test_invalid_admin() {
    let mut t = default_module();
    let l = locks(false, true, true, false);
    assert_eq!(t.execute_update_locks(&s(USER), l), Err(TokenError::Unauthorized));
}

#[test]
fn token_locks_test_happy_path() {
    let mut t = default_module();
    mint_to(&mut t, USER).unwrap();
    let l = locks(false, true, true, false);
    t.execute_update_token_locks(&s(ADMIN), 1, l).unwrap();
    assert_eq!(t.query_token_locks(1), Some(l));
}

#[test]
fn token_locks_test_invalid_admin() {
    let mut t = default_module();
    let l = locks(false, true, true, false);
    assert_eq!(t.execute_update_token_locks(&s(USER), 1, l), Err(TokenError::Unauthorized));
}

#[test]
fn test_invalid_token_id() {
    let mut t = default_module();
    let l = locks(false, true, true, false);
    assert_eq!(t.execute_update_token_locks(&s(ADMIN), 1, l), Err(TokenError::TokenNotFound));
}

#[test]
fn per_address_limit_test_happy_path() {
    let mut t = default_module();
    t.execute_update_per_address_limit(&s(ADMIN), Some(5)).unwrap();
    assert_eq!(t.query_config().per_address_limit, Some(5));
}

#[test]
fn per_address_limit_test_invalid_admin() {
    let mut t = default_module();
    assert_eq!(t.execute_update_per_address_limit(&s(USER), Some(5)), Err(TokenError::Unauthorized));
}

#[test]
fn update_per_address_limit_test_invalid_per_address_limit() {
    let mut t = default_module();
    assert_eq!(t.execute_update_per_address_limit(&s(ADMIN), Some(0)), Err(TokenError::InvalidPerAddressLimit));
}

#[test]
fn start_time_test_happy_path() {
    let mut t = default_module();
    t.execute_update_start_time(&s(ADMIN), Some(GENESIS + 5), GENESIS).unwrap();
    assert_eq!(t.query_config().start_time, Some(GENESIS + 5));
}

#[test]
fn start_time_test_invalid_admin() {
    let mut t = default_module();
    assert_eq!(t.execute_update_start_time(&s(USER), Some(GENESIS + 5), GENESIS), Err(TokenError::Unauthorized));
}

#[test]
fn update_start_time_test_invalid_time() {
    let mut t = proper_instantiate(ADMIN, None, Some(GENESIS + 5), None, None, None, Some(s("some-link")));
    let now = GENESIS + 10;
    assert_eq!(t.execute_update_start_time(&s(ADMIN), Some(now + 5), now), Err(TokenError::AlreadyStarted));
    let now = now - 6;
    assert_eq!(t.execute_update_start_time(&s(ADMIN), Some(GENESIS + 2), now), Err(TokenError::InvalidStartTime));
}

#[test]
fn transfer_operation_test_happy_path() {
    let mut t = default_module();
    mint_to(&mut t, USER).unwrap();
    t.execute_transfer(&s(USER), 1, &s(RANDOM)).unwrap();
    assert_eq!(t.owner_of(1), Some(&s(RANDOM)));
}

#[test]
fn transfer_operation_test_invalid_locks() {
    let mut t = default_module();
    mint_to(&mut t, USER).unwrap();
    let l = locks(false, false, true, false);
    t.execute_update_token_locks(&s(ADMIN), 1, l).unwrap();
    assert_eq!(t.execute_transfer(&s(USER), 1, &s(RANDOM)), Err(TokenError::TransferLocked));
    t.execute_update_locks(&s(ADMIN), l).unwrap();
    assert_eq!(t.execute_transfer(&s(USER), 1, &s(RANDOM)), Err(TokenError::TransferLocked));
}

#[test]
fn admin_transfer_operation_test_happy_path() {
    let mut t = default_module();
    mint_to(&mut t, USER).unwrap();
    t.execute_admin_transfer(&s(ADMIN), 1, &s(RANDOM)).unwrap();
    assert_eq!(t.owner_of(1), Some(&s(RANDOM)));
}

#[test]
fn admin_transfer_operation_test_invalid_admin() {
    let mut t = default_module();
    let r = t.execute_mint(&s(USER), &s(USER), &vec![], GENESIS);
    assert_eq!(r.err(), Some(TokenError::Unauthorized));
}

#[test]
fn burn_operation_test_happy_path() {
    let mut t = default_module();
    mint_to(&mut t, USER).unwrap();
    t.execute_burn(&s(USER), 1).unwrap();
    assert_eq!(t.owner_of(1), None);
    assert_eq!(t.query_token_locks(1), None);
}

#[test]
fn burn_operation_test_invalid_locks() {
    let mut t = default_module();
    mint_to(&mut t, USER).unwrap();
    let l = locks(false, true, false, false);
    t.execute_update_token_locks(&s(ADMIN), 1, l).unwrap();
    assert_eq!(t.execute_burn(&s(USER), 1), Err(TokenError::BurnLocked));
    t.execute_update_locks(&s(ADMIN), l).unwrap();
    assert_eq!(t.execute_burn(&s(USER), 1), Err(TokenError::BurnLocked));
}

#[test]
fn mint_operation_test_happy_path() {
    let mut t = proper_instantiate(ADMIN, None, None, None, Some(1_000_000), None, Some(s("some-link")));
    let r = t.execute_mint(&s(ADMIN), &s(USER), &vec![Coin::new(1_000_000, NATIVE_DENOM)], GENESIS).unwrap();
    assert_eq!(r.token_id, 1);
    assert_eq!(t.owner_of(1), Some(&s(USER)));
    let paid = r.payment.unwrap();
    assert_eq!(paid.amount, 1_000_000);
    assert_eq!(paid.denom, NATIVE_DENOM);
    assert_eq!(paid.recipient, ADMIN);
}

#[test]
fn mint_operation_test_invalid_locks() {
    let mut t = default_module();
    t.execute_update_locks(&s(ADMIN), locks(true, false, false, false)).unwrap();
    assert_eq!(mint_to(&mut t, USER), Err(TokenError::MintLocked));
}

#[test]
fn test_max_token_limit() {
    let mut t = proper_instantiate(ADMIN, None, None, Some(2), None, None, Some(s("some-link")));
    mint_to(&mut t, USER).unwrap();
    mint_to(&mut t, RANDOM).unwrap();
    assert_eq!(mint_to(&mut t, RANDOM_2), Err(TokenError::TokenLimitReached));
}

#[test]
fn test_per_address_limit() {
    let mut t = proper_instantiate(ADMIN, Some(2), None, None, None, None, Some(s("some-link")));
    mint_to(&mut t, USER).unwrap();
    mint_to(&mut t, USER).unwrap();
    assert_eq!(mint_to(&mut t, USER), Err(TokenError::TokenLimitReached));
    assert_eq!(t.query_minted_tokens_per_address(USER).amount, 2);
}

#[test]
fn mint_operation_test_invalid_time() {
    let mut t = proper_instantiate(ADMIN, None, Some(GENESIS + 5), None, None, None, Some(s("some-link")));
    assert_eq!(mint_to(&mut t, USER), Err(TokenError::MintingNotStarted));
}

#[test]
fn tests_test_invalid_funds() {
    let mut t = proper_instantiate(RANDOM, None, None, None, Some(1_000_000), None, Some(s("some-link")));
    let r = t.execute_mint(&s(RANDOM), &s(USER), &vec![Coin::new(100, TEST_DENOM)], GENESIS);
    assert_eq!(
        r.err(),
        Some(TokenError::Funds(FundsError::InvalidDenom { got: s(TEST_DENOM), expected: s(NATIVE_DENOM) }))
    );

    let mut t = proper_instantiate(ADMIN, None, None, None, Some(100), None, Some(s("some-link")));
    let r = t.execute_mint(&s(ADMIN), &s(USER), &vec![], GENESIS);
    assert_eq!(r.err(), Some(TokenError::Funds(FundsError::MissingFunds)));
    let r = t.execute_mint(&s(ADMIN), &s(USER), &vec![Coin::new(50, NATIVE_DENOM)], GENESIS);
    assert_eq!(r.err(), Some(TokenError::Funds(FundsError::InvalidFunds { got: 50, expected: 100 })));
}

#[test]
fn send_is_gated_by_send_lock() {
    let mut t = default_module();
    mint_to(&mut t, USER).unwrap();
    t.execute_update_token_locks(&s(ADMIN), 1, locks(false, false, false, true)).unwrap();
    assert_eq!(t.execute_send(&s(USER), 1, &s("contract9")), Err(TokenError::SendLocked));
    t.execute_update_token_locks(&s(ADMIN), 1, locks(false, false, false, false)).unwrap();
    t.execute_send(&s(USER), 1, &s("contract9")).unwrap();
    assert_eq!(t.owner_of(1), Some(&s("contract9")));
}

#[test]
fn operation_lock_suspends_every_action() {
    let mut t = default_module();
    mint_to(&mut t, USER).unwrap();
    t.execute_update_operation_lock(&s(ADMIN), true).unwrap();
    assert_eq!(mint_to(&mut t, USER), Err(TokenError::MintLocked));
    assert_eq!(t.execute_transfer(&s(USER), 1, &s(RANDOM)), Err(TokenError::TransferLocked));
    assert_eq!(t.execute_send(&s(USER), 1, &s(RANDOM)), Err(TokenError::SendLocked));
    assert_eq!(t.execute_burn(&s(USER), 1), Err(TokenError::BurnLocked));
    assert_eq!(t.execute_admin_transfer(&s(ADMIN), 1, &s(RANDOM)), Err(TokenError::TransferLocked));
    assert_eq!(t.execute_update_operation_lock(&s(USER), false), Err(TokenError::Unauthorized));
    t.execute_update_operation_lock(&s(ADMIN), false).unwrap();
    t.execute_transfer(&s(USER), 1, &s(RANDOM)).unwrap();
}

#[test]
fn non_owner_cannot_transfer_or_burn() {
    let mut t = default_module();
    mint_to(&mut t, USER).unwrap();
    assert_eq!(t.execute_transfer(&s(RANDOM), 1, &s(RANDOM)), Err(TokenError::Unauthorized));
    assert_eq!(t.execute_burn(&s(RANDOM), 1), Err(TokenError::Unauthorized));
    assert_eq!(t.execute_transfer(&s(USER), 2, &s(RANDOM)), Err(TokenError::TokenNotFound));
}

#[test]
fn mint_ids_are_sequential() {
    let mut t = default_module();
    assert_eq!(mint_to(&mut t, USER), Ok(1));
    assert_eq!(mint_to(&mut t, RANDOM), Ok(2));
    assert_eq!(mint_to(&mut t, USER), Ok(3));
    assert_eq!(t.query_minted_tokens_per_address(USER).amount, 2);
    assert_eq!(t.query_minted_tokens_per_address(RANDOM_2).amount, 0);
}

#[test]
fn normal_collections_need_no_ipfs_link() {
    let mut m = msg(ADMIN, None, None, None, None, None, None, "Test Description");
    m.collection_info.collection_type = CollectionType::Normal;
    assert!(TokenModule::instantiate("contract0", ADMIN, m, GENESIS).is_ok());
}
