use vstd::prelude::*;

use crate::funds::{check_funds, funds_fault, funds_ok, Coin, FundsError};
use crate::keymap::{is_window, KeyMap};
use crate::locks::{listing_locks, no_locks, Locks};
use crate::split::{split_of, split_sale, valid_rate, Decimal};
use crate::mint::{bound_to, MintModule};
use crate::token::{asset_locks, is_admin, TokenError, TokenModule, TokenState};

verus! {

/// The number of distinct asset ids in a collection.
pub const IDS_PER_COLLECTION: u64 = 0x1_0000_0000;

/// The page size of a listing query without a limit.
pub const DEFAULT_LISTING_LIMIT: u32 = 30;

/// A fixed-price offer of one asset.
#[derive(Debug)]
pub struct FixedListing {
    pub collection_id: u32,
    pub token_id: u32,
    pub price: u128,
    pub owner: String,
}

/// The abstract value of a listing.
pub struct ListingView {
    pub collection_id: u32,
    pub token_id: u32,
    pub price: u128,
    pub owner: Seq<char>,
}

impl FixedListing {
    pub open spec fn view(&self) -> ListingView {
        ListingView {
            collection_id: self.collection_id,
            token_id: self.token_id,
            price: self.price,
            owner: self.owner@,
        }
    }

    /// A copy of this listing.
    pub fn copy(&self) -> (r: FixedListing)
        ensures
            r.view() == self.view(),
    {
        FixedListing {
            collection_id: self.collection_id,
            token_id: self.token_id,
            price: self.price,
            owner: self.owner.clone(),
        }
    }
}

/// Why the marketplace refused an action.
#[derive(Debug, PartialEq, Eq)]
pub enum MarketError {
    /// The asset module given is not the one bound to the collection.
    CollectionIdNotFound,
    Unauthorized,
    NotListed,
    SelfPurchase,
    TransferLocked,
    SendLocked,
    BurnLocked,
    InvalidFeePercentage,
    /// The fees exceed the price.
    Arithmetic,
    Funds(FundsError),
    /// The asset module refused a call made on the marketplace's behalf.
    Token(TokenError),
}

/// A payment of `amount` to `recipient`.
#[derive(Debug)]
pub struct Payout {
    pub recipient: String,
    pub amount: u128,
}

/// The transfers that settle a purchase, all or none of which take place.
#[derive(Debug)]
pub struct Settlement {
    /// To the collection's creator, when the royalty is above zero.
    pub royalty: Option<Payout>,
    /// To the seller: the price less both fees.
    pub seller: Payout,
    /// The marketplace's cut, handed to the fee actor.
    pub marketplace_fee: u128,
    /// The beneficiary named in the fee distribution: the hub admin.
    pub fee_beneficiary: String,
    pub denom: String,
}

/// The abstract state of the marketplace.
#[verifier::ext_equal]
pub struct MarketState {
    pub own: Seq<char>,
    pub admin: Seq<char>,
    pub fee_percentage: Decimal,
    pub native_denom: Seq<char>,
    pub listings: Map<u64, ListingView>,
}

/// The key of the listing of asset `token_id` of collection `collection_id`.
pub open spec fn listing_key(collection_id: u32, token_id: u32) -> u64 {
    (collection_id * IDS_PER_COLLECTION + token_id) as u64
}

/// The error a lock record gives a would-be listing, if it locks anything a
/// listing needs.
pub open spec fn lock_fault(l: Locks) -> Option<MarketError> {
    if l.transfer_lock {
        Some(MarketError::TransferLocked)
    } else if l.send_lock {
        Some(MarketError::SendLocked)
    } else if l.burn_lock {
        Some(MarketError::BurnLocked)
    } else {
        None
    }
}

/// Whether the transfer, send and burn locks of a record are all set.
pub open spec fn holds_listing_locks(l: Locks) -> bool {
    l.transfer_lock && l.send_lock && l.burn_lock
}

/// Listing/lock coherence for collection `collection_id`, whose asset
/// module is `t`: an asset is listed exactly when its transfer, send and
/// burn locks are all set.
pub open spec fn coherent(m: MarketState, t: TokenState, collection_id: u32) -> bool {
    forall|token_id: u32|
        #![trigger m.listings.contains_key(listing_key(collection_id, token_id))]
        #![trigger t.token_locks.contains_key(token_id as u64)]
        m.listings.contains_key(listing_key(collection_id, token_id)) <==> (t.token_locks.contains_key(
            token_id as u64,
        ) && holds_listing_locks(t.token_locks[token_id as u64]))
}

/// The first failing check of a listing by `sender`.
pub open spec fn list_fault(
    m: MarketState,
    t: TokenState,
    sender: Seq<char>,
    token_id: u32,
) -> Option<MarketError> {
    let id = token_id as u64;
    if !t.owners.contains_key(id) {
        Some(MarketError::Token(TokenError::TokenNotFound))
    } else if t.owners[id] != sender {
        Some(MarketError::Unauthorized)
    } else if lock_fault(t.locks) is Some {
        lock_fault(t.locks)
    } else if asset_locks(t, id) is Some && lock_fault(asset_locks(t, id)->Some_0) is Some {
        lock_fault(asset_locks(t, id)->Some_0)
    } else if !is_admin(t, m.own, true) {
        Some(MarketError::Token(TokenError::Unauthorized))
    } else {
        None
    }
}

/// The states after asset `token_id` of `collection_id` is listed at `price` by `sender`.
pub open spec fn listed_states(
    m: MarketState,
    t: TokenState,
    sender: Seq<char>,
    collection_id: u32,
    token_id: u32,
    price: u128,
) -> (MarketState, TokenState) {
    (
        MarketState {
            listings: m.listings.insert(
                listing_key(collection_id, token_id),
                ListingView { collection_id, token_id, price, owner: sender },
            ),
            ..m
        },
        TokenState { token_locks: t.token_locks.insert(token_id as u64, listing_locks()), ..t },
    )
}

/// The first failing check of a delisting by `sender`.
pub open spec fn delist_fault(
    m: MarketState,
    t: TokenState,
    sender: Seq<char>,
    collection_id: u32,
    token_id: u32,
) -> Option<MarketError> {
    let k = listing_key(collection_id, token_id);
    if !m.listings.contains_key(k) {
        Some(MarketError::NotListed)
    } else if m.listings[k].owner != sender {
        Some(MarketError::Unauthorized)
    } else if !is_admin(t, m.own, true) {
        Some(MarketError::Token(TokenError::Unauthorized))
    } else if !t.owners.contains_key(token_id as u64) {
        Some(MarketError::Token(TokenError::TokenNotFound))
    } else {
        None
    }
}

/// The states after the listing of asset `token_id` of `collection_id` is withdrawn.
pub open spec fn delisted_states(m: MarketState, t: TokenState, collection_id: u32, token_id: u32) -> (
    MarketState,
    TokenState,
) {
    (
        MarketState { listings: m.listings.remove(listing_key(collection_id, token_id)), ..m },
        TokenState { token_locks: t.token_locks.insert(token_id as u64, no_locks()), ..t },
    )
}

/// The rate of royalty a purchase from `t` pays.
pub open spec fn royalty_rate(t: TokenState) -> Option<Decimal> {
    t.royalty_share
}

/// The first failing step of settling a purchase at `price`, once the
/// listing, the buyer and the payment have been checked.
pub open spec fn settle_fault(m: MarketState, t: TokenState, token_id: u32, price: u128) -> Option<
    MarketError,
> {
    if split_of(price, m.fee_percentage, royalty_rate(t)) is None {
        Some(MarketError::Arithmetic)
    } else if !is_admin(t, m.own, true) {
        Some(MarketError::Token(TokenError::Unauthorized))
    } else if t.operation_lock || t.locks.transfer_lock {
        Some(MarketError::Token(TokenError::TransferLocked))
    } else if !t.owners.contains_key(token_id as u64) {
        Some(MarketError::Token(TokenError::TokenNotFound))
    } else {
        None
    }
}

/// Whether a purchase by `sender` paying `funds` goes through.
pub open spec fn buy_allowed(
    m: MarketState,
    t: TokenState,
    sender: Seq<char>,
    collection_id: u32,
    token_id: u32,
    funds: Seq<Coin>,
) -> bool {
    let k = listing_key(collection_id, token_id);
    &&& m.listings.contains_key(k)
    &&& m.listings[k].owner != sender
    &&& funds_ok(funds, m.native_denom, m.listings[k].price)
    &&& settle_fault(m, t, token_id, m.listings[k].price) is None
}

/// The error a refused purchase reports: the first check that fails.
pub open spec fn buy_fault(
    e: MarketError,
    m: MarketState,
    t: TokenState,
    sender: Seq<char>,
    collection_id: u32,
    token_id: u32,
    funds: Seq<Coin>,
) -> bool {
    let k = listing_key(collection_id, token_id);
    if !m.listings.contains_key(k) {
        e == MarketError::NotListed
    } else if m.listings[k].owner == sender {
        e == MarketError::SelfPurchase
    } else if !funds_ok(funds, m.native_denom, m.listings[k].price) {
        e matches MarketError::Funds(fe) && funds_fault(fe, funds, m.native_denom, m.listings[k].price)
    } else {
        settle_fault(m, t, token_id, m.listings[k].price) == Some(e)
    }
}

/// The states after `buyer` buys asset `token_id` of `collection_id`: the
/// listing is gone, the buyer owns the asset and its locks are cleared.
pub open spec fn bought_states(
    m: MarketState,
    t: TokenState,
    buyer: Seq<char>,
    collection_id: u32,
    token_id: u32,
) -> (MarketState, TokenState) {
    (
        MarketState { listings: m.listings.remove(listing_key(collection_id, token_id)), ..m },
        TokenState {
            owners: t.owners.insert(token_id as u64, buyer),
            token_locks: t.token_locks.insert(token_id as u64, no_locks()),
            ..t
        },
    )
}

/// Different assets of one collection have different listing keys.
pub proof fn lemma_listing_key_injective(c: u32, a: u32, b: u32)
    ensures
        listing_key(c, a) == listing_key(c, b) ==> a == b,
        c * IDS_PER_COLLECTION + a <= u64::MAX,
{
    assert(c * IDS_PER_COLLECTION + a <= u64::MAX) by (nonlinear_arith)
        requires
            c <= u32::MAX,
            a <= u32::MAX,
    ;
    assert(c * IDS_PER_COLLECTION + b <= u64::MAX) by (nonlinear_arith)
        requires
            c <= u32::MAX,
            b <= u32::MAX,
    ;
}

/// The key of a listing.
pub fn key_of(collection_id: u32, token_id: u32) -> (r: u64)
    ensures
        r == listing_key(collection_id, token_id),
{
    proof {
        lemma_listing_key_injective(collection_id, token_id, token_id);
    }
    collection_id as u64 * IDS_PER_COLLECTION + token_id as u64
}

/// The first error of a lock record, for a would-be listing.
fn check_locks(l: Locks) -> (r: Result<(), MarketError>)
    ensures
        match r {
            Ok(()) => lock_fault(l) is None,
            Err(e) => lock_fault(l) == Some(e),
        },
{
    if l.transfer_lock {
        return Err(MarketError::TransferLocked);
    }
    if l.send_lock {
        return Err(MarketError::SendLocked);
    }
    if l.burn_lock {
        return Err(MarketError::BurnLocked);
    }
    Ok(())
}

/// One listing step on asset `token_id` keeps coherence: the listing and a
/// lock record holding the listing locks appear together, or the listing
/// goes and the record stops holding them.
proof fn lemma_coherence_step(
    m0: MarketState,
    t0: TokenState,
    m1: MarketState,
    t1: TokenState,
    collection_id: u32,
    token_id: u32,
    l: Locks,
)
    requires
        coherent(m0, t0, collection_id),
        t1.token_locks == t0.token_locks.insert(token_id as u64, l),
        holds_listing_locks(l) ==> m1.listings.dom() == m0.listings.dom().insert(
            listing_key(collection_id, token_id),
        ),
        !holds_listing_locks(l) ==> m1.listings.dom() == m0.listings.dom().remove(
            listing_key(collection_id, token_id),
        ),
    ensures
        coherent(m1, t1, collection_id),
{
    assert forall|other: u32|
        #![trigger m1.listings.contains_key(listing_key(collection_id, other))]
        #![trigger t1.token_locks.contains_key(other as u64)]
        m1.listings.contains_key(listing_key(collection_id, other)) <==> (t1.token_locks.contains_key(
            other as u64,
        ) && holds_listing_locks(t1.token_locks[other as u64])) by {
        lemma_listing_key_injective(collection_id, token_id, other);
        if other != token_id {
            assert(m0.listings.contains_key(listing_key(collection_id, other)) <==> (
            t0.token_locks.contains_key(other as u64) && holds_listing_locks(
                t0.token_locks[other as u64],
            )));
        }
    }
}

/// Listing/lock coherence holds for a marketplace without listings and an
/// asset module without lock records.
pub proof fn law_coherent_initially(m: MarketState, t: TokenState, collection_id: u32)
    requires
        m.listings == Map::<u64, ListingView>::empty(),
        t.token_locks == Map::<u64, Locks>::empty(),
    ensures
        coherent(m, t, collection_id),
{
}

/// Listing/lock coherence is kept by every listing, delisting and
/// purchase of an asset of the collection: each operation that succeeds
/// moves the listing and the lock triple together, and one that fails
/// changes neither.
pub proof fn law_coherence_preserved(
    m0: MarketState,
    t0: TokenState,
    sender: Seq<char>,
    collection_id: u32,
    token_id: u32,
    price: u128,
)
    requires
        coherent(m0, t0, collection_id),
    ensures
        ({
            let (m1, t1) = listed_states(m0, t0, sender, collection_id, token_id, price);
            coherent(m1, t1, collection_id)
        }),
        ({
            let (m1, t1) = delisted_states(m0, t0, collection_id, token_id);
            coherent(m1, t1, collection_id)
        }),
        ({
            let (m1, t1) = bought_states(m0, t0, sender, collection_id, token_id);
            coherent(m1, t1, collection_id)
        }),
{
    let (m1, t1) = listed_states(m0, t0, sender, collection_id, token_id, price);
    assert(m1.listings.dom() =~= m0.listings.dom().insert(listing_key(collection_id, token_id)));
    lemma_coherence_step(m0, t0, m1, t1, collection_id, token_id, listing_locks());
    let (m2, t2) = delisted_states(m0, t0, collection_id, token_id);
    assert(m2.listings.dom() =~= m0.listings.dom().remove(listing_key(collection_id, token_id)));
    lemma_coherence_step(m0, t0, m2, t2, collection_id, token_id, no_locks());
    let (m3, t3) = bought_states(m0, t0, sender, collection_id, token_id);
    assert(m3.listings.dom() =~= m0.listings.dom().remove(listing_key(collection_id, token_id)));
    lemma_coherence_step(m0, t0, m3, t3, collection_id, token_id, no_locks());
}

/// Idempotent delist-then-list: withdrawing a coherent listing and listing
/// the asset again at another price, both succeeding, leaves a listing with
/// the new price, by the same owner, and the same transfer, send and burn
/// locks as before.
pub proof fn law_relist(
    m0: MarketState,
    t0: TokenState,
    sender: Seq<char>,
    collection_id: u32,
    token_id: u32,
    new_price: u128,
)
    requires
        coherent(m0, t0, collection_id),
        m0.listings.contains_key(listing_key(collection_id, token_id)),
        delist_fault(m0, t0, sender, collection_id, token_id) is None,
        ({
            let (m1, t1) = delisted_states(m0, t0, collection_id, token_id);
            list_fault(m1, t1, sender, token_id) is None
        }),
    ensures
        ({
            let (m1, t1) = delisted_states(m0, t0, collection_id, token_id);
            let (m2, t2) = listed_states(m1, t1, sender, collection_id, token_id, new_price);
            let k = listing_key(collection_id, token_id);
            let id = token_id as u64;
            &&& m2.listings.contains_key(k)
            &&& m2.listings[k].price == new_price
            &&& m2.listings[k].owner == m0.listings[k].owner
            &&& t2.token_locks.contains_key(id)
            &&& t0.token_locks.contains_key(id)
            &&& t2.token_locks[id].transfer_lock == t0.token_locks[id].transfer_lock
            &&& t2.token_locks[id].send_lock == t0.token_locks[id].send_lock
            &&& t2.token_locks[id].burn_lock == t0.token_locks[id].burn_lock
        }),
{
    let k = listing_key(collection_id, token_id);
    assert(m0.listings.contains_key(listing_key(collection_id, token_id)));
    assert(t0.token_locks.contains_key(token_id as u64));
}

/// The fixed-price marketplace.
pub struct Marketplace {
    own: String,
    admin: String,
    fee_percentage: Decimal,
    native_denom: String,
    listings: KeyMap<FixedListing>,
}

impl Marketplace {
    /// The abstract state.
    pub closed spec fn view(&self) -> MarketState {
        MarketState {
            own: self.own@,
            admin: self.admin@,
            fee_percentage: self.fee_percentage,
            native_denom: self.native_denom@,
            listings: self.listings@.map_values(|l: FixedListing| l.view()),
        }
    }

    /// The listings are well formed and the fee rate lies in [0, 1].
    pub closed spec fn wf(&self) -> bool {
        &&& self.listings.wf()
        &&& valid_rate(self.fee_percentage)
        &&& forall|k: u64|
            #[trigger] self.listings@.contains_key(k) ==> listing_key(
                self.listings@[k].collection_id,
                self.listings@[k].token_id,
            ) == k
    }

    /// Creates the marketplace `own`, whose fee actor charges `fee_percentage`
    /// of each sale, trading in `native_denom`.
    pub fn instantiate(own: &str, admin: &str, fee_percentage: Decimal, native_denom: &str) -> (r:
        Result<Marketplace, MarketError>)
        ensures
            r is Ok <==> valid_rate(fee_percentage),
            r matches Err(e) ==> e == MarketError::InvalidFeePercentage,
            r matches Ok(m) ==> {
                &&& m.wf()
                &&& m.view().own == own@
                &&& m.view().admin == admin@
                &&& m.view().fee_percentage == fee_percentage
                &&& m.view().native_denom == native_denom@
                &&& m.view().listings == Map::<u64, ListingView>::empty()
            },
    {
        if !fee_percentage.is_at_most_one() {
            return Err(MarketError::InvalidFeePercentage);
        }
        let m = Marketplace {
            own: own.to_owned(),
            admin: admin.to_owned(),
            fee_percentage,
            native_denom: native_denom.to_owned(),
            listings: KeyMap::new(),
        };
        assert(m.view().listings =~= Map::<u64, ListingView>::empty());
        Ok(m)
    }

    /// Whether `token` is the asset module that `mint` binds to `collection_id`.
    fn check_bound(&self, mint: &MintModule, token: &TokenModule, collection_id: u32) -> (r: bool)
        requires
            mint.wf(),
        ensures
            r == bound_to(mint.view(), collection_id, token.view()),
    {
        match mint.query_collection_address(collection_id) {
            None => false,
            Some(a) => *a == *token.address(),
        }
    }

    /// The marketplace's own address.
    pub fn address(&self) -> (r: &String)
        ensures
            r@ == self.view().own,
    {
        &self.own
    }

    /// The fee rate.
    pub fn fee_percentage(&self) -> (r: Decimal)
        ensures
            r == self.view().fee_percentage,
    {
        self.fee_percentage
    }

    /// The listing of asset `token_id` of `collection_id`, if it is listed.
    pub fn query_fixed_listing(&self, collection_id: u32, token_id: u32) -> (r: Option<FixedListing>)
        requires
            self.wf(),
        ensures
            match r {
                Some(l) => self.view().listings.contains_key(listing_key(collection_id, token_id))
                    && l.view() == self.view().listings[listing_key(collection_id, token_id)],
                None => !self.view().listings.contains_key(listing_key(collection_id, token_id)),
            },
    {
        match self.listings.get(key_of(collection_id, token_id)) {
            Some(l) => Some(l.copy()),
            None => None,
        }
    }

    /// Lists asset `token_id` of `collection_id` (whose asset module is
    /// `token`) at `price`. The sender must own the asset, and neither the
    /// collection nor the asset may lock transfer, send or burn; the asset is
    /// then locked for as long as it stays listed.
    pub fn execute_list_fixed_token(
        &mut self,
        mint: &MintModule,
        token: &mut TokenModule,
        sender: &String,
        collection_id: u32,
        token_id: u32,
        price: u128,
    ) -> (r: Result<(), MarketError>)
        requires
            old(self).wf(),
            old(token).wf(),
            mint.wf(),
        ensures
            final(self).wf(),
            final(token).wf(),
            !bound_to(mint.view(), collection_id, old(token).view()) ==> r == Err::<(), MarketError>(
                MarketError::CollectionIdNotFound,
            ),
            bound_to(mint.view(), collection_id, old(token).view()) ==> match r {
                Ok(()) => list_fault(old(self).view(), old(token).view(), sender@, token_id) is None,
                Err(e) => list_fault(old(self).view(), old(token).view(), sender@, token_id) == Some(e),
            },
            r is Err ==> final(self).view() == old(self).view() && final(token).view() == old(
                token,
            ).view(),
            r is Ok ==> (final(self).view(), final(token).view()) == listed_states(
                old(self).view(),
                old(token).view(),
                sender@,
                collection_id,
                token_id,
                price,
            ),
            coherent(old(self).view(), old(token).view(), collection_id) ==> coherent(
                final(self).view(),
                final(token).view(),
                collection_id,
            ),
    {
        let ghost m0 = self.view();
        let ghost t0 = token.view();
        if !self.check_bound(mint, token, collection_id) {
            return Err(MarketError::CollectionIdNotFound);
        }
        match token.owner_of(token_id) {
            None => {
                return Err(MarketError::Token(TokenError::TokenNotFound));
            },
            Some(o) => {
                if *o != *sender {
                    return Err(MarketError::Unauthorized);
                }
            },
        }
        match check_locks(token.query_locks()) {
            Err(e) => {
                return Err(e);
            },
            Ok(()) => {},
        }
        match token.query_token_locks(token_id) {
            Some(l) => match check_locks(l) {
                Err(e) => {
                    return Err(e);
                },
                Ok(()) => {},
            },
            None => {},
        }
        match token.execute_update_token_locks(&self.own, token_id, Locks::listed()) {
            Err(e) => {
                return Err(MarketError::Token(e));
            },
            Ok(()) => {},
        }
        let listing = FixedListing { collection_id, token_id, price, owner: sender.clone() };
        self.listings.insert(key_of(collection_id, token_id), listing);
        proof {
            let (m1, t1) = listed_states(m0, t0, sender@, collection_id, token_id, price);
            assert(self.view().listings =~= m1.listings);
            if coherent(m0, t0, collection_id) {
                law_coherence_preserved(m0, t0, sender@, collection_id, token_id, price);
            }
        }
        Ok(())
    }

    /// Withdraws the sender's listing of asset `token_id` of
    /// `collection_id` and releases the asset's locks.
    pub fn execute_delist_fixed_token(
        &mut self,
        mint: &MintModule,
        token: &mut TokenModule,
        sender: &String,
        collection_id: u32,
        token_id: u32,
    ) -> (r: Result<(), MarketError>)
        requires
            old(self).wf(),
            old(token).wf(),
            mint.wf(),
        ensures
            final(self).wf(),
            final(token).wf(),
            !bound_to(mint.view(), collection_id, old(token).view()) ==> r == Err::<(), MarketError>(
                MarketError::CollectionIdNotFound,
            ),
            bound_to(mint.view(), collection_id, old(token).view()) ==> match r {
                Ok(()) => delist_fault(
                    old(self).view(),
                    old(token).view(),
                    sender@,
                    collection_id,
                    token_id,
                ) is None,
                Err(e) => delist_fault(
                    old(self).view(),
                    old(token).view(),
                    sender@,
                    collection_id,
                    token_id,
                ) == Some(e),
            },
            r is Err ==> final(self).view() == old(self).view() && final(token).view() == old(
                token,
            ).view(),
            r is Ok ==> (final(self).view(), final(token).view()) == delisted_states(
                old(self).view(),
                old(token).view(),
                collection_id,
                token_id,
            ),
            coherent(old(self).view(), old(token).view(), collection_id) ==> coherent(
                final(self).view(),
                final(token).view(),
                collection_id,
            ),
    {
        let ghost m0 = self.view();
        let ghost t0 = token.view();
        if !self.check_bound(mint, token, collection_id) {
            return Err(MarketError::CollectionIdNotFound);
        }
        let k = key_of(collection_id, token_id);
        match self.listings.get(k) {
            None => {
                return Err(MarketError::NotListed);
            },
            Some(l) => {
                if l.owner != *sender {
                    return Err(MarketError::Unauthorized);
                }
            },
        }
        match token.execute_update_token_locks(&self.own, token_id, Locks::unlocked()) {
            Err(e) => {
                return Err(MarketError::Token(e));
            },
            Ok(()) => {},
        }
        self.listings.remove(k);
        proof {
            let (m1, t1) = delisted_states(m0, t0, collection_id, token_id);
            assert(self.view().listings =~= m1.listings);
            if coherent(m0, t0, collection_id) {
                law_coherence_preserved(m0, t0, sender@, collection_id, token_id, 0);
            }
        }
        Ok(())
    }

    /// Changes the price of the sender's listing.
    pub fn execute_update_price(&mut self, sender: &String, collection_id: u32, token_id: u32, price: u128) -> (r:
        Result<(), MarketError>)
        requires
            old(self).wf(),
        ensures
            final(self).wf(),
            r is Ok <==> old(self).view().listings.contains_key(listing_key(collection_id, token_id))
                && old(self).view().listings[listing_key(collection_id, token_id)].owner == sender@,
            r matches Err(e) ==> e == if !old(self).view().listings.contains_key(
                listing_key(collection_id, token_id),
            ) {
                MarketError::NotListed
            } else {
                MarketError::Unauthorized
            },
            r is Err ==> final(self).view() == old(self).view(),
            r is Ok ==> final(self).view() == (MarketState {
                listings: old(self).view().listings.insert(
                    listing_key(collection_id, token_id),
                    ListingView {
                        price,
                        ..old(self).view().listings[listing_key(collection_id, token_id)]
                    },
                ),
                ..old(self).view()
            }),
    {
        let ghost m0 = self.view();
        let k = key_of(collection_id, token_id);
        let updated = match self.listings.get(k) {
            None => {
                return Err(MarketError::NotListed);
            },
            Some(l) => {
                if l.owner != *sender {
                    return Err(MarketError::Unauthorized);
                }
                FixedListing {
                    collection_id: l.collection_id,
                    token_id: l.token_id,
                    price,
                    owner: l.owner.clone(),
                }
            },
        };
        self.listings.insert(k, updated);
        assert(self.view().listings =~= m0.listings.insert(
            k,
            ListingView { price, ..m0.listings[k] },
        ));
        Ok(())
    }

    /// Buys the listed asset `token_id` of `collection_id` for the sender,
    /// who pays with `funds`. The listing goes; the asset passes to the buyer
    /// and its locks are released; the price is split into the marketplace
    /// fee, the royalty (at the collection's rate at this moment) and the
    /// seller's payout, as the returned settlement says.
    pub fn execute_buy(
        &mut self,
        mint: &MintModule,
        token: &mut TokenModule,
        sender: &String,
        collection_id: u32,
        token_id: u32,
        funds: &Vec<Coin>,
    ) -> (r: Result<Settlement, MarketError>)
        requires
            old(self).wf(),
            old(token).wf(),
            mint.wf(),
        ensures
            final(self).wf(),
            final(token).wf(),
            r is Ok <==> bound_to(mint.view(), collection_id, old(token).view()) && buy_allowed(
                old(self).view(),
                old(token).view(),
                sender@,
                collection_id,
                token_id,
                funds@,
            ),
            r matches Err(e) ==> if !bound_to(mint.view(), collection_id, old(token).view()) {
                e == MarketError::CollectionIdNotFound
            } else {
                buy_fault(
                    e,
                    old(self).view(),
                    old(token).view(),
                    sender@,
                    collection_id,
                    token_id,
                    funds@,
                )
            },
            r is Err ==> final(self).view() == old(self).view() && final(token).view() == old(
                token,
            ).view(),
            r matches Ok(st) ==> {
                let listing = old(self).view().listings[listing_key(collection_id, token_id)];
                let split = split_of(
                    listing.price,
                    old(self).view().fee_percentage,
                    royalty_rate(old(token).view()),
                )->Some_0;
                &&& (final(self).view(), final(token).view()) == bought_states(
                    old(self).view(),
                    old(token).view(),
                    sender@,
                    collection_id,
                    token_id,
                )
                &&& st.seller.recipient@ == listing.owner
                &&& st.seller.amount == split.seller_payout
                &&& st.marketplace_fee == split.marketplace_fee
                &&& if split.royalty_fee > 0 {
                    st.royalty matches Some(p) && p.recipient@ == old(token).view().creator
                        && p.amount == split.royalty_fee
                } else {
                    st.royalty is None
                }
                &&& st.marketplace_fee + split.royalty_fee + st.seller.amount == listing.price
                &&& st.fee_beneficiary@ == old(self).view().admin
                &&& st.denom@ == old(self).view().native_denom
            },
            coherent(old(self).view(), old(token).view(), collection_id) ==> coherent(
                final(self).view(),
                final(token).view(),
                collection_id,
            ),
    {
        let ghost m0 = self.view();
        let ghost t0 = token.view();
        if !self.check_bound(mint, token, collection_id) {
            return Err(MarketError::CollectionIdNotFound);
        }
        let k = key_of(collection_id, token_id);
        let (price, seller) = match self.listings.get(k) {
            None => {
                return Err(MarketError::NotListed);
            },
            Some(l) => (l.price, l.owner.clone()),
        };
        if seller == *sender {
            return Err(MarketError::SelfPurchase);
        }
        match check_funds(funds, &self.native_denom, price) {
            Err(e) => {
                return Err(MarketError::Funds(e));
            },
            Ok(()) => {},
        }
        let split = match split_sale(price, self.fee_percentage, token.royalty_share()) {
            Err(_) => {
                return Err(MarketError::Arithmetic);
            },
            Ok(s) => s,
        };
        proof {
            crate::split::law_split_conserves(price, m0.fee_percentage, royalty_rate(t0));
        }
        match token.execute_admin_transfer(&self.own, token_id, sender) {
            Err(e) => {
                return Err(MarketError::Token(e));
            },
            Ok(()) => {},
        }
        // The transfer just went through on the marketplace's authority and
        // the asset still exists, so releasing its locks cannot fail.
        match token.execute_update_token_locks(&self.own, token_id, Locks::unlocked()) {
            Err(_) => {
                assert(false);
                return Err(MarketError::Arithmetic);
            },
            Ok(()) => {},
        }
        self.listings.remove(k);
        let royalty = if split.royalty_fee > 0 {
            Some(Payout { recipient: token.creator().clone(), amount: split.royalty_fee })
        } else {
            None
        };
        proof {
            let (m1, t1) = bought_states(m0, t0, sender@, collection_id, token_id);
            assert(self.view().listings =~= m1.listings);
            assert(token.view() =~= t1);
            if coherent(m0, t0, collection_id) {
                law_coherence_preserved(m0, t0, sender@, collection_id, token_id, 0);
            }
        }
        Ok(
            Settlement {
                royalty,
                seller: Payout { recipient: seller, amount: split.seller_payout },
                marketplace_fee: split.marketplace_fee,
                fee_beneficiary: self.admin.clone(),
                denom: self.native_denom.clone(),
            },
        )
    }

    /// A page of the listings of `collection_id`: those after asset
    /// `start_after`, ascending by asset id, at most `limit` of them (30 by
    /// default).
    pub fn query_fixed_listings(&self, collection_id: u32, start_after: Option<u32>, limit: Option<u32>) -> (r:
        Vec<FixedListing>)
        requires
            self.wf(),
        ensures
            start_after == Some(u32::MAX) ==> r@.len() == 0,
            start_after != Some(u32::MAX) ==> is_window(
                self.view().listings,
                listing_key(
                    collection_id,
                    match start_after {
                        Some(a) => (a + 1) as u32,
                        None => 0,
                    },
                ),
                listing_key(collection_id, u32::MAX),
                match limit {
                    Some(l) => l as nat,
                    None => DEFAULT_LISTING_LIMIT as nat,
                },
                r@.map_values(|l: FixedListing| listing_key(l.collection_id, l.token_id)),
            ),
            forall|i: int|
                0 <= i < r@.len() ==> (#[trigger] r@[i]).view() == self.view().listings[listing_key(
                    r@[i].collection_id,
                    r@[i].token_id,
                )],
    {
        let first: u32 = match start_after {
            Some(a) => {
                if a == u32::MAX {
                    return Vec::new();
                }
                a + 1
            },
            None => 0,
        };
        let lim: usize = match limit {
            Some(l) => l as usize,
            None => DEFAULT_LISTING_LIMIT as usize,
        };
        let ghost m = self.view().listings;
        assert(forall|k: u64| #[trigger] m.contains_key(k) == self.listings@.contains_key(k));
        let keys = self.listings.keys_in_range(
            key_of(collection_id, first),
            key_of(collection_id, u32::MAX),
            lim,
        );
        let mut out: Vec<FixedListing> = Vec::new();
        let mut i: usize = 0;
        while i < keys.len()
            invariant
                self.wf(),
                m == self.view().listings,
                is_window(
                    m,
                    listing_key(collection_id, first),
                    listing_key(collection_id, u32::MAX),
                    lim as nat,
                    keys@,
                ),
                i <= keys@.len(),
                out@.len() == i,
                forall|j: int|
                    0 <= j < i ==> listing_key((#[trigger] out@[j]).collection_id, out@[j].token_id)
                        == keys@[j],
                forall|j: int|
                    0 <= j < i ==> (#[trigger] out@[j]).view() == m[listing_key(
                        out@[j].collection_id,
                        out@[j].token_id,
                    )],
            decreases keys@.len() - i,
        {
            let k = keys[i];
            assert(m.contains_key(keys@[i as int]));
            match self.listings.get(k) {
                Some(l) => {
                    assert(m[k] == l.view());
                    out.push(l.copy());
                },
                None => {
                    assert(false);
                },
            }
            i = i + 1;
        }
        assert(out@.map_values(|l: FixedListing| listing_key(l.collection_id, l.token_id)) =~= keys@);
        out
    }
}

} // verus!
