use std::collections::HashMap;
use std::str::FromStr;

use komple_platform::funds::{Coin, FundsError};
use komple_platform::hub::{Hub, HubError, ModuleKind};
use komple_platform::locks::Locks;
use komple_platform::market::{MarketError, Marketplace, Settlement};
use komple_platform::mint::{MintModule, MintQuote};
use komple_platform::split::Decimal;
use komple_platform::token::{
    CollectionConfig, CollectionInfo, CollectionType, TokenError, TokenInfo, InstantiateMsg,
    TokenModule,
};

const USER: &str = "juno..user";
const RANDOM: &str = "juno..random";
const ADMIN: &str = "juno..admin";
const RANDOM_2: &str = "juno..random2";
const NATIVE_DENOM: &str = "denom";
const TEST_DENOM: &str = "test_denom";
const NOW: u64 = 1_571_797_419;
const MARKETPLACE: &str = "contract2";
const MINT: &str = "contract1";
const COMMUNITY: &str = "juno..community";
const KOMPLE: &str = "contract0";

fn s(x: &str) -> String {
    x.to_string()
}

fn dec(x: &str) -> Decimal {
    Decimal::raw(cosmwasm_std::Decimal::from_str(x).unwrap().atomics().u128())
}

struct Platform {
    hub: Hub,
    mint: MintModule,
    market: Marketplace,
    token: TokenModule,
    balances: HashMap<(String, String), u128>,
}

fn free() -> MintQuote {
    MintQuote { fee_module: false, whitelist_active: false, whitelisted: false, whitelist_price: None, price: None }
}

fn setup_hub() -> Hub {
    Hub::instantiate("hub", ADMIN)
}

/// The hub, the factory, the marketplace (8% in fees: 4% komple, 2%
/// community, 2% hub admin) and collection 1 with its asset module.
fn setup() -> Platform {
    let mut hub = setup_hub();
    hub.register_module(&s(ADMIN), ModuleKind::Mint, &s(MINT)).unwrap();
    hub.register_module(&s(ADMIN), ModuleKind::Marketplace, &s(MARKETPLACE)).unwrap();
    let mut mint = MintModule::instantiate(MINT, "hub", ADMIN);
    let market = Marketplace::instantiate(MARKETPLACE, ADMIN, dec("0.08"), NATIVE_DENOM).unwrap();
    let info = CollectionInfo {
        collection_type: CollectionType::Normal,
        name: s("Test Collection"),
        description: s("Test Collection"),
        image: s("https://image.com"),
        external_link: None,
    };
    let req = mint.execute_create_collection(&s(ADMIN), 1, info, None, vec![]).unwrap();
    let token = TokenModule::instantiate(
        "contract3",
        MINT,
        InstantiateMsg {
            admin: s(ADMIN),
            creator: s(ADMIN),
            token_info: TokenInfo { symbol: s("TEST"), minter: s(MINT) },
            collection_config: CollectionConfig {
                per_address_limit: None,
                start_time: None,
                max_token_limit: None,
                unit_price: None,
                native_denom: s(NATIVE_DENOM),
                ipfs_link: None,
            },
            collection_info: CollectionInfo {
                collection_type: CollectionType::Normal,
                name: s("Test Collection"),
                description: s("Test Collection"),
                image: s("https://image.com"),
                external_link: None,
            },
            royalty_share: None,
        },
        NOW,
    )
    .unwrap();
    assert_eq!(mint.reply(req.correlation_id, Some(s("contract3"))), Ok(1));
    let mut balances = HashMap::new();
    for who in [USER, RANDOM] {
        balances.insert((s(who), s(NATIVE_DENOM)), 1_000_000u128);
    }
    balances.insert((s(RANDOM_2), s(TEST_DENOM)), 1_000_000u128);
    Platform { hub, mint, market, token, balances }
}

fn mint_token(p: &mut Platform, sender: &str) -> u32 {
    p.mint.execute_mint(&s(sender), 1, free(), &vec![], &mut p.token, NOW).unwrap().token_id
}

fn setup_token_module_operators(p: &mut Platform, addrs: Vec<String>) {
    p.token.execute_update_operators(&s(ADMIN), addrs).unwrap();
}

fn setup_marketplace_listing(p: &mut Platform, token_id: u32, price: u128) {
    setup_token_module_operators(p, vec![s(MARKETPLACE)]);
    p.market.execute_list_fixed_token(&p.mint, &mut p.token, &s(USER), 1, token_id, price).unwrap();
}

fn credit(p: &mut Platform, who: &str, amount: u128) {
    *p.balances.entry((s(who), s(NATIVE_DENOM))).or_insert(0) += amount;
}

fn balance(p: &Platform, who: &str) -> u128 {
    *p.balances.get(&(s(who), s(NATIVE_DENOM))).unwrap_or(&0)
}

/// Applies a settlement: the buyer's payment is shared out, the
/// marketplace fee going through the fee actor's shares.
fn settle(p: &mut Platform, buyer: &str, price: u128, st: &Settlement) {
    *p.balances.get_mut(&(s(buyer), s(NATIVE_DENOM))).unwrap() -= price;
    credit(p, &st.seller.recipient.clone(), st.seller.amount);
    if let Some(r) = &st.royalty {
        credit(p, &r.recipient.clone(), r.amount);
    }
    let fee = st.marketplace_fee;
    credit(p, KOMPLE, fee * 4 / 8);
    credit(p, COMMUNITY, fee * 2 / 8);
    credit(p, &st.fee_beneficiary.clone(), fee * 2 / 8);
}

fn buy(p: &mut Platform, buyer: &str, token_id: u32, funds: Vec<Coin>) -> Result<Settlement, MarketError> {
    p.market.execute_buy(&p.mint, &mut p.token, &s(buyer), 1, token_id, &funds)
}

#[test]
fn hub_initialization_test_happy_path() {
    let mut hub = setup_hub();
    hub.register_module(&s(ADMIN), ModuleKind::Marketplace, &s("contract2")).unwrap();
    assert_eq!(hub.module_address(ModuleKind::Marketplace), Some(&s("contract2")));
}

#[test]
fn test_invalid_sender() {
    let mut hub = setup_hub();
    assert_eq!(
        hub.register_module(&s(USER), ModuleKind::Marketplace, &s("contract2")),
        Err(HubError::Unauthorized)
    );
}

#[test]
fn listing_test_happy_path() {
    let mut p = setup();
    mint_token(&mut p, USER);
    setup_token_module_operators(&mut p, vec![s(MARKETPLACE)]);
    p.market.execute_list_fixed_token(&p.mint, &mut p.token, &s(USER), 1, 1, 1_000_000).unwrap();
    let l = p.market.query_fixed_listing(1, 1).unwrap();
    assert_eq!(l.owner, USER.to_string());
    assert_eq!(l.price, 1_000_000);
    let locks = p.token.query_token_locks(1).unwrap();
    assert_eq!(locks.transfer_lock, true);
    assert_eq!(locks.send_lock, true);
    assert_eq!(locks.burn_lock, true);
}

#[test]
fn listing_test_invalid_owner() {
    let mut p = setup();
    mint_token(&mut p, USER);
    let r = p.market.execute_list_fixed_token(&p.mint, &mut p.token, &s(RANDOM), 1, 1, 1_000_000);
    assert_eq!(r, Err(MarketError::Unauthorized));
}

#[test]
fn integration_test_invalid_locks() {
    let mut p = setup();
    mint_token(&mut p, USER);
    let unlock = Locks { mint_lock: false, burn_lock: false, transfer_lock: false, send_lock: true };
    let transfer_lock = Locks { mint_lock: false, burn_lock: false, transfer_lock: true, send_lock: true };
    p.token.execute_update_token_locks(&s(ADMIN), 1, transfer_lock).unwrap();
    let r = p.market.execute_list_fixed_token(&p.mint, &mut p.token, &s(USER), 1, 1, 1_000_000);
    assert_eq!(r, Err(MarketError::TransferLocked));
    p.token.execute_update_token_locks(&s(ADMIN), 1, unlock).unwrap();
    p.token.execute_update_locks(&s(ADMIN), transfer_lock).unwrap();
    let r = p.market.execute_list_fixed_token(&p.mint, &mut p.token, &s(USER), 1, 1, 1_000_000);
    assert_eq!(r, Err(MarketError::TransferLocked));
    p.token.execute_update_locks(&s(ADMIN), unlock).unwrap();
}

#[test]
fn listing_test_invalid_operator() {
    let mut p = setup();
    mint_token(&mut p, USER);
    let r = p.market.execute_list_fixed_token(&p.mint, &mut p.token, &s(USER), 1, 1, 1_000_000);
    assert_eq!(r, Err(MarketError::Token(TokenError::Unauthorized)));
    assert!(p.market.query_fixed_listing(1, 1).is_none());
}

#[test]
fn delisting_test_happy_path() {
    let mut p = setup();
    mint_token(&mut p, USER);
    setup_token_module_operators(&mut p, vec![s(MARKETPLACE)]);
    p.market.execute_list_fixed_token(&p.mint, &mut p.token, &s(USER), 1, 1, 1_000_000).unwrap();
    let locks = p.token.query_token_locks(1).unwrap();
    assert_eq!((locks.transfer_lock, locks.send_lock, locks.burn_lock), (true, true, true));
    p.market.execute_delist_fixed_token(&p.mint, &mut p.token, &s(USER), 1, 1).unwrap();
    let locks = p.token.query_token_locks(1).unwrap();
    assert_eq!(locks.transfer_lock, false);
    assert_eq!(locks.send_lock, false);
    assert_eq!(locks.burn_lock, false);
    assert!(p.market.query_fixed_listing(1, 1).is_none());
}

#[test]
fn delisting_test_invalid_owner() {
    let mut p = setup();
    mint_token(&mut p, USER);
    setup_marketplace_listing(&mut p, 1, 1_000_000);
    let r = p.market.execute_delist_fixed_token(&p.mint, &mut p.token, &s(RANDOM), 1, 1);
    assert_eq!(r, Err(MarketError::Unauthorized));
}

#[test]
fn delisting_test_invalid_operator() {
    let mut p = setup();
    mint_token(&mut p, USER);
    setup_marketplace_listing(&mut p, 1, 1_000_000);
    setup_token_module_operators(&mut p, vec![]);
    let r = p.market.execute_delist_fixed_token(&p.mint, &mut p.token, &s(USER), 1, 1);
    assert_eq!(r, Err(MarketError::Token(TokenError::Unauthorized)));
    assert!(p.market.query_fixed_listing(1, 1).is_some());
}

#[test]
fn pricing_test_happy_path() {
    let mut p = setup();
    mint_token(&mut p, USER);
    setup_marketplace_listing(&mut p, 1, 1_000_000);
    p.market.execute_update_price(&s(USER), 1, 1, 200_000_000).unwrap();
    let l = p.market.query_fixed_listing(1, 1).unwrap();
    assert_eq!(l.owner, USER.to_string());
    assert_eq!(l.price, 200_000_000);
}

#[test]
fn pricing_test_invalid_owner() {
    let mut p = setup();
    mint_token(&mut p, USER);
    setup_marketplace_listing(&mut p, 1, 1_000_000);
    assert_eq!(p.market.execute_update_price(&s(RANDOM), 1, 1, 200_000_000), Err(MarketError::Unauthorized));
}

#[test]
fn integration_test_happy_path() {
    let mut p = setup();
    mint_token(&mut p, USER);
    mint_token(&mut p, USER);
    mint_token(&mut p, USER);

    setup_marketplace_listing(&mut p, 1, 1_000);
    let locks = p.token.query_token_locks(1).unwrap();
    assert_eq!(locks.transfer_lock, true);
    assert_eq!(locks.send_lock, true);
    assert_eq!(locks.burn_lock, true);

    let st = buy(&mut p, RANDOM, 1, vec![Coin::new(1_000, NATIVE_DENOM)]).unwrap();
    settle(&mut p, RANDOM, 1_000, &st);
    assert!(p.market.query_fixed_listing(1, 1).is_none());
    let locks = p.token.query_token_locks(1).unwrap();
    assert_eq!(locks.transfer_lock, false);
    assert_eq!(locks.send_lock, false);
    assert_eq!(locks.burn_lock, false);
    assert_eq!(p.token.owner_of(1), Some(&s(RANDOM)));
    assert_eq!(balance(&p, RANDOM), 999_000);
    assert_eq!(balance(&p, USER), 1_000_920);
    assert_eq!(balance(&p, KOMPLE), 40);
    assert_eq!(balance(&p, COMMUNITY), 20);
    assert_eq!(balance(&p, ADMIN), 20);

    p.token.execute_update_royalty_share(&s(ADMIN), Some(dec("0.1"))).unwrap();
    setup_marketplace_listing(&mut p, 2, 1_000);
    let st = buy(&mut p, RANDOM, 2, vec![Coin::new(1_000, NATIVE_DENOM)]).unwrap();
    settle(&mut p, RANDOM, 1_000, &st);
    assert_eq!(p.token.owner_of(1), Some(&s(RANDOM)));
    assert_eq!(balance(&p, RANDOM), 998_000);
    assert_eq!(balance(&p, USER), 1_001_740);
    assert_eq!(balance(&p, KOMPLE), 80);
    assert_eq!(balance(&p, COMMUNITY), 40);
    assert_eq!(balance(&p, ADMIN), 140);

    p.token.execute_update_royalty_share(&s(ADMIN), Some(dec("0.05"))).unwrap();
    setup_marketplace_listing(&mut p, 3, 998_000);
    let st = buy(&mut p, RANDOM, 3, vec![Coin::new(998_000, NATIVE_DENOM)]).unwrap();
    settle(&mut p, RANDOM, 998_000, &st);
    assert_eq!(balance(&p, RANDOM), 0);
    assert_eq!(balance(&p, USER), 1_870_000);
    assert_eq!(balance(&p, KOMPLE), 40_000);
    assert_eq!(balance(&p, COMMUNITY), 20_000);
    assert_eq!(balance(&p, ADMIN), 70_000);
}

#[test]
fn integration_test_invalid_funds() {
    let mut p = setup();
    mint_token(&mut p, USER);
    setup_marketplace_listing(&mut p, 1, 1_000_000);
    assert_eq!(buy(&mut p, RANDOM, 1, vec![]).err(), Some(MarketError::Funds(FundsError::MissingFunds)));
    assert_eq!(
        buy(&mut p, RANDOM_2, 1, vec![Coin::new(1_000_000, TEST_DENOM)]).err(),
        Some(MarketError::Funds(FundsError::InvalidDenom { got: s(TEST_DENOM), expected: s(NATIVE_DENOM) }))
    );
    assert_eq!(
        buy(&mut p, RANDOM, 1, vec![Coin::new(100, NATIVE_DENOM)]).err(),
        Some(MarketError::Funds(FundsError::InvalidFunds { got: 100, expected: 1_000_000 }))
    );
}

#[test]
fn test_self_purchase() {
    let mut p = setup();
    mint_token(&mut p, USER);
    setup_marketplace_listing(&mut p, 1, 1_000_000);
    assert_eq!(buy(&mut p, USER, 1, vec![]).err(), Some(MarketError::SelfPurchase));
}

#[test]
fn test_fixed_listings() {
    let mut p = setup();
    for _ in 0..9 {
        mint_token(&mut p, USER);
    }
    setup_marketplace_listing(&mut p, 1, 1_000_000);
    setup_marketplace_listing(&mut p, 7, 1_000_000);
    setup_marketplace_listing(&mut p, 4, 1_000_000);

    let res = p.market.query_fixed_listings(1, None, None);
    assert_eq!(res.len(), 3);
    assert_eq!(res[0].collection_id, 1);
    assert_eq!(res[0].token_id, 1);
    assert_eq!(res[1].collection_id, 1);
    assert_eq!(res[1].token_id, 4);
    assert_eq!(res[2].collection_id, 1);
    assert_eq!(res[2].token_id, 7);

    let res = p.market.query_fixed_listings(1, Some(4), Some(2));
    assert_eq!(res.len(), 1);
    assert_eq!(res[0].collection_id, 1);
    assert_eq!(res[0].token_id, 7);
    assert_eq!(p.market.query_fixed_listings(2, None, None).len(), 0);
    assert_eq!(p.market.query_fixed_listings(1, Some(u32::MAX), None).len(), 0);
}

#[test]
fn hub_records_registered_modules() {
    let p = setup();
    assert_eq!(p.hub.module_address(ModuleKind::Mint), Some(&s(MINT)));
    assert_eq!(p.hub.module_address(ModuleKind::Fee), None);
}

#[test]
fn hub_refuses_a_second_binding() {
    let mut hub = setup_hub();
    hub.register_module(&s(ADMIN), ModuleKind::Mint, &s(MINT)).unwrap();
    assert_eq!(
        hub.register_module(&s(ADMIN), ModuleKind::Mint, &s("contract9")),
        Err(HubError::ModuleAlreadyRegistered)
    );
    assert_eq!(hub.module_address(ModuleKind::Mint), Some(&s(MINT)));
}

#[test]
fn buying_an_unlisted_asset_fails() {
    let mut p = setup();
    mint_token(&mut p, USER);
    assert_eq!(buy(&mut p, RANDOM, 1, vec![Coin::new(10, NATIVE_DENOM)]).err(), Some(MarketError::NotListed));
    assert_eq!(p.market.execute_delist_fixed_token(&p.mint, &mut p.token, &s(USER), 1, 1), Err(MarketError::NotListed));
    assert_eq!(p.market.execute_update_price(&s(USER), 1, 1, 5), Err(MarketError::NotListed));
}

#[test]
fn listing_a_missing_asset_fails() {
    let mut p = setup();
    let r = p.market.execute_list_fixed_token(&p.mint, &mut p.token, &s(USER), 1, 5, 10);
    assert_eq!(r, Err(MarketError::Token(TokenError::TokenNotFound)));
}

#[test]
fn marketplace_refuses_fee_above_one() {
    assert_eq!(
        Marketplace::instantiate(MARKETPLACE, ADMIN, dec("1.5"), NATIVE_DENOM).err(),
        Some(MarketError::InvalidFeePercentage)
    );
}

#[test]
fn buy_fails_while_collection_transfer_is_locked() {
    let mut p = setup();
    mint_token(&mut p, USER);
    setup_marketplace_listing(&mut p, 1, 1_000);
    p.token.execute_update_locks(&s(ADMIN), Locks { mint_lock: false, burn_lock: false, transfer_lock: true, send_lock: false }).unwrap();
    let r = buy(&mut p, RANDOM, 1, vec![Coin::new(1_000, NATIVE_DENOM)]);
    assert_eq!(r.err(), Some(MarketError::Token(TokenError::TransferLocked)));
    assert!(p.market.query_fixed_listing(1, 1).is_some());
    assert_eq!(p.token.owner_of(1), Some(&s(USER)));
}

#[test]
fn listing_refuses_send_and_burn_locks() {
    let mut p = setup();
    mint_token(&mut p, USER);
    setup_token_module_operators(&mut p, vec![s(MARKETPLACE)]);
    p.token.execute_update_token_locks(&s(ADMIN), 1, Locks { mint_lock: false, burn_lock: false, transfer_lock: false, send_lock: true }).unwrap();
    assert_eq!(p.market.execute_list_fixed_token(&p.mint, &mut p.token, &s(USER), 1, 1, 10), Err(MarketError::SendLocked));
    p.token.execute_update_token_locks(&s(ADMIN), 1, Locks { mint_lock: false, burn_lock: true, transfer_lock: false, send_lock: false }).unwrap();
    assert_eq!(p.market.execute_list_fixed_token(&p.mint, &mut p.token, &s(USER), 1, 1, 10), Err(MarketError::BurnLocked));
}
