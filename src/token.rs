use vstd::hash_map::StringHashMap;
use vstd::prelude::*;
use vstd::utf8::encode_utf8;

use crate::auth::{addrs_view, check_admin_privileges, privileged, Unauthorized};
use crate::funds::{check_funds, funds_fault, funds_ok, Coin, FundsError, Payment};
use crate::keymap::KeyMap;
use crate::locks::{locked, Action, Locks};
use crate::metadata::Metadata;
use crate::mint::{instantiated_address, parse_instantiate_reply};
use crate::split::{Decimal, DECIMAL_FRACTIONAL};

verus! {

/// The longest collection description accepted, in bytes of UTF-8.
pub const MAX_DESCRIPTION_LENGTH: usize = 512;

/// The correlation id of the metadata actor's creation.
pub const METADATA_REPLY_ID: u64 = 1;

/// The kind of a collection.
#[derive(Clone, Copy, Debug, PartialEq, Eq, Structural)]
pub enum CollectionType {
    /// Assets whose images live under one IPFS folder.
    Standard,
    Normal,
    Linked,
}

/// What a collection declares about itself.
#[derive(Debug)]
pub struct CollectionInfo {
    pub collection_type: CollectionType,
    pub name: String,
    pub description: String,
    pub image: String,
    pub external_link: Option<String>,
}

/// The mutable configuration of a collection.
#[derive(Debug)]
pub struct CollectionConfig {
    pub per_address_limit: Option<u32>,
    /// The time (in seconds) from which minting is open.
    pub start_time: Option<u64>,
    pub max_token_limit: Option<u32>,
    pub unit_price: Option<u128>,
    pub native_denom: String,
    pub ipfs_link: Option<String>,
}

/// The symbol of a collection and the address allowed to mint into it.
#[derive(Debug)]
pub struct TokenInfo {
    pub symbol: String,
    pub minter: String,
}

/// Everything an asset module is created with.
#[derive(Debug)]
pub struct InstantiateMsg {
    pub admin: String,
    pub creator: String,
    pub token_info: TokenInfo,
    pub collection_config: CollectionConfig,
    pub collection_info: CollectionInfo,
    pub royalty_share: Option<Decimal>,
}

/// The queries an asset module answers.
#[derive(Debug)]
pub enum QueryMsg {
    OwnerOf { token_id: String, include_expired: Option<bool> },
    Approval { token_id: String, spender: String, include_expired: Option<bool> },
    Approvals { token_id: String, include_expired: Option<bool> },
    AllOperators {
        owner: String,
        include_expired: Option<bool>,
        start_after: Option<String>,
        limit: Option<u32>,
    },
    NumTokens {},
    ContractInfo {},
    NftInfo { token_id: String },
    AllNftInfo { token_id: String, include_expired: Option<bool> },
    Tokens { owner: String, start_after: Option<String>, limit: Option<u32> },
    AllTokens { start_after: Option<String>, limit: Option<u32> },
    Minter {},
    Locks {},
    TokenLocks { token_id: String },
    MintedTokensPerAddress { address: String },
    CollectionInfo {},
    Contracts {},
    Config {},
    ContractOperators {},
}

/// The configuration of an asset module, as its config query reports it.
#[derive(Debug)]
pub struct ConfigResponse {
    pub admin: String,
    pub native_denom: String,
    pub per_address_limit: Option<u32>,
    pub start_time: Option<u64>,
    pub max_token_limit: Option<u32>,
    pub unit_price: Option<u128>,
    pub royalty_share: Option<Decimal>,
}

/// How many assets an address has minted.
#[derive(Clone, Copy, Debug, PartialEq, Eq, Structural)]
pub struct MintedTokenAmountResponse {
    pub amount: u32,
}

/// The (empty) migration message.
#[derive(Clone, Copy, Debug, PartialEq, Eq, Structural)]
pub struct MigrateMsg {}

/// Why an asset module refused an action.
#[derive(Debug, PartialEq, Eq)]
pub enum TokenError {
    Unauthorized,
    MintLocked,
    BurnLocked,
    TransferLocked,
    SendLocked,
    TokenLimitReached,
    MintingNotStarted,
    InvalidStartTime,
    AlreadyStarted,
    InvalidPerAddressLimit,
    InvalidMaxTokenLimit,
    InvalidRoyaltyShare,
    IpfsNotFound,
    DescriptionTooLong,
    TokenNotFound,
    InvalidReplyId,
    MetadataInstantiateError,
    Funds(FundsError),
}

/// The request to create the metadata actor of a collection; the host
/// answers it by calling back with `correlation_id`.
#[derive(Clone, Copy, Debug, PartialEq, Eq, Structural)]
pub struct MetadataRequest {
    pub correlation_id: u64,
    pub metadata_type: Metadata,
}

/// The abstract state of an asset module.
#[verifier::ext_equal]
pub struct TokenState {
    pub own: Seq<char>,
    pub admin: Seq<char>,
    pub creator: Seq<char>,
    /// The actor that created this one (the collection factory).
    pub parent: Seq<char>,
    /// The only address allowed to mint.
    pub minter: Seq<char>,
    pub operators: Seq<Seq<char>>,
    pub locks: Locks,
    pub token_locks: Map<u64, Locks>,
    pub operation_lock: bool,
    pub last_token_id: u32,
    pub owners: Map<u64, Seq<char>>,
    pub minted: Map<Seq<char>, u32>,
    pub per_address_limit: Option<u32>,
    pub start_time: Option<u64>,
    pub max_token_limit: Option<u32>,
    pub unit_price: Option<u128>,
    pub native_denom: Seq<char>,
    pub royalty_share: Option<Decimal>,
    /// The whitelist sub-actor, if one is bound.
    pub whitelist: Option<Seq<char>>,
    /// The royalty sub-actor, if one is bound.
    pub royalty: Option<Seq<char>>,
    /// The metadata sub-actor, if one is bound.
    pub metadata: Option<Seq<char>>,
}

/// What a successful mint produced.
#[derive(Debug)]
pub struct MintReceipt {
    pub token_id: u32,
    /// The payment forwarded to the admin, when a price is due.
    pub payment: Option<Payment>,
}

/// An asset module: ownership, locks and mint counters of one collection.
pub struct TokenModule {
    own: String,
    admin: String,
    creator: String,
    parent: String,
    minter: String,
    symbol: String,
    info: CollectionInfo,
    config: CollectionConfig,
    royalty_share: Option<Decimal>,
    operators: Vec<String>,
    locks: Locks,
    token_locks: KeyMap<Locks>,
    operation_lock: bool,
    last_token_id: u32,
    owners: KeyMap<String>,
    minted: StringHashMap<u32>,
    whitelist: Option<String>,
    royalty: Option<String>,
    metadata: Option<String>,
}

/// The view of an optional address.
pub open spec fn opt_view(o: Option<String>) -> Option<Seq<char>> {
    match o {
        Some(s) => Some(s@),
        None => None,
    }
}

/// The record of asset `id`, if it has one.
pub open spec fn asset_locks(s: TokenState, id: u64) -> Option<Locks> {
    if s.token_locks.contains_key(id) {
        Some(s.token_locks[id])
    } else {
        None
    }
}

/// Whether `action` on asset `id` is blocked, the emergency switch included.
pub open spec fn blocked(s: TokenState, action: Action, id: u64) -> bool {
    s.operation_lock || locked(action, s.locks, asset_locks(s, id))
}

/// Whether `sender` may act as the module's admin; `with_operators` says
/// whether the operators count.
pub open spec fn is_admin(s: TokenState, sender: Seq<char>, with_operators: bool) -> bool {
    privileged(
        sender,
        s.own,
        s.admin,
        Some(s.parent),
        if with_operators {
            s.operators
        } else {
            Seq::empty()
        },
    )
}

/// How many assets `owner` has minted.
pub open spec fn minted_count(s: TokenState, owner: Seq<char>) -> u32 {
    if s.minted.contains_key(owner) {
        s.minted[owner]
    } else {
        0
    }
}

/// Whether minting one more asset would break the supply cap.
pub open spec fn supply_exhausted(s: TokenState) -> bool {
    s.last_token_id == u32::MAX || (s.max_token_limit matches Some(m) && s.last_token_id + 1 > m)
}

/// Whether minting one more asset to `owner` would break the per-address cap.
pub open spec fn quota_exhausted(s: TokenState, owner: Seq<char>) -> bool {
    minted_count(s, owner) == u32::MAX || (s.per_address_limit matches Some(l) && minted_count(
        s,
        owner,
    ) + 1 > l)
}

/// The price that a mint owes, when one is owed.
pub open spec fn price_due(s: TokenState) -> Option<u128> {
    match s.unit_price {
        Some(p) => if p > 0 {
            Some(p)
        } else {
            None
        },
        None => None,
    }
}

/// Whether a mint by `sender` for `owner` at time `now` with `funds` goes through.
pub open spec fn mint_allowed(
    s: TokenState,
    sender: Seq<char>,
    owner: Seq<char>,
    funds: Seq<Coin>,
    now: u64,
) -> bool {
    &&& !blocked(s, Action::Mint, (s.last_token_id + 1) as u64)
    &&& !(s.start_time matches Some(t) && now < t)
    &&& !supply_exhausted(s)
    &&& !quota_exhausted(s, owner)
    &&& (price_due(s) matches Some(p) ==> funds_ok(funds, s.native_denom, p))
    &&& sender == s.minter
}

/// The error a refused mint reports: the first check that fails.
pub open spec fn mint_fault(
    e: TokenError,
    s: TokenState,
    sender: Seq<char>,
    owner: Seq<char>,
    funds: Seq<Coin>,
    now: u64,
) -> bool {
    if blocked(s, Action::Mint, (s.last_token_id + 1) as u64) {
        e == TokenError::MintLocked
    } else if s.start_time matches Some(t) && now < t {
        e == TokenError::MintingNotStarted
    } else if supply_exhausted(s) || quota_exhausted(s, owner) {
        e == TokenError::TokenLimitReached
    } else if price_due(s) matches Some(p) && !funds_ok(funds, s.native_denom, p) {
        e matches TokenError::Funds(fe) && funds_fault(fe, funds, s.native_denom, price_due(s)->Some_0)
    } else {
        e == TokenError::Unauthorized
    }
}

/// The state after asset `last_token_id + 1` is minted to `owner`.
pub open spec fn minted_state(s: TokenState, owner: Seq<char>) -> TokenState {
    let id = (s.last_token_id + 1) as u32;
    TokenState {
        last_token_id: id,
        owners: s.owners.insert(id as u64, owner),
        minted: s.minted.insert(owner, (minted_count(s, owner) + 1) as u32),
        ..s
    }
}

/// The error for a refused owner-initiated transfer, send or burn.
pub open spec fn owner_action_fault(
    e: TokenError,
    s: TokenState,
    action: Action,
    sender: Seq<char>,
    id: u64,
) -> bool {
    if blocked(s, action, id) {
        e == match action {
            Action::Burn => TokenError::BurnLocked,
            Action::Send => TokenError::SendLocked,
            _ => TokenError::TransferLocked,
        }
    } else if !s.owners.contains_key(id) {
        e == TokenError::TokenNotFound
    } else {
        e == TokenError::Unauthorized
    }
}

/// Whether the owner-initiated `action` on asset `id` by `sender` goes through.
pub open spec fn owner_action_allowed(s: TokenState, action: Action, sender: Seq<char>, id: u64) -> bool {
    !blocked(s, action, id) && s.owners.contains_key(id) && s.owners[id] == sender
}

/// Mint quota monotonicity: a mint that goes through never takes the
/// recipient's count above the per-address limit in force, nor the number of
/// assets minted above the supply cap.
pub proof fn law_mint_within_quota(
    s: TokenState,
    sender: Seq<char>,
    owner: Seq<char>,
    funds: Seq<Coin>,
    now: u64,
)
    requires
        mint_allowed(s, sender, owner, funds, now),
    ensures
        ({
            let t = minted_state(s, owner);
            &&& t.per_address_limit matches Some(l) ==> minted_count(t, owner) <= l
            &&& t.max_token_limit matches Some(m) ==> t.last_token_id <= m
            &&& minted_count(t, owner) == minted_count(s, owner) + 1
            &&& t.last_token_id == s.last_token_id + 1
        }),
{
}

impl TokenModule {
    /// The abstract state.
    pub closed spec fn view(&self) -> TokenState {
        TokenState {
            own: self.own@,
            admin: self.admin@,
            creator: self.creator@,
            parent: self.parent@,
            minter: self.minter@,
            operators: addrs_view(self.operators@),
            locks: self.locks,
            token_locks: self.token_locks@,
            operation_lock: self.operation_lock,
            last_token_id: self.last_token_id,
            owners: self.owners@.map_values(|a: String| a@),
            minted: self.minted@,
            per_address_limit: self.config.per_address_limit,
            start_time: self.config.start_time,
            max_token_limit: self.config.max_token_limit,
            unit_price: self.config.unit_price,
            native_denom: self.config.native_denom@,
            royalty_share: self.royalty_share,
            whitelist: opt_view(self.whitelist),
            royalty: opt_view(self.royalty),
            metadata: opt_view(self.metadata),
        }
    }

    /// The internal maps are well formed.
    pub closed spec fn wf(&self) -> bool {
        &&& self.token_locks.wf()
        &&& self.owners.wf()
        &&& (self.royalty_share matches Some(rs) ==> rs.atomics <= DECIMAL_FRACTIONAL)
    }

    /// Creates the asset module `own`, on behalf of `parent`, at time `now`.
    pub fn instantiate(own: &str, parent: &str, msg: InstantiateMsg, now: u64) -> (r: Result<
        TokenModule,
        TokenError,
    >)
        ensures
            r matches Ok(t) ==> {
                &&& t.wf()
                &&& t.view().own == own@
                &&& t.view().parent == parent@
                &&& t.view().admin == msg.admin@
                &&& t.view().creator == msg.creator@
                &&& t.view().minter == msg.token_info.minter@
                &&& t.view().operators == Seq::<Seq<char>>::empty()
                &&& t.view().locks == crate::locks::no_locks()
                &&& t.view().token_locks == Map::<u64, Locks>::empty()
                &&& !t.view().operation_lock
                &&& t.view().last_token_id == 0
                &&& t.view().owners == Map::<u64, Seq<char>>::empty()
                &&& t.view().minted == Map::<Seq<char>, u32>::empty()
                &&& t.view().per_address_limit == msg.collection_config.per_address_limit
                &&& t.view().start_time == msg.collection_config.start_time
                &&& t.view().max_token_limit == msg.collection_config.max_token_limit
                &&& t.view().unit_price == msg.collection_config.unit_price
                &&& t.view().native_denom == msg.collection_config.native_denom@
                &&& t.view().royalty_share == msg.royalty_share
                &&& t.view().whitelist is None
                &&& t.view().royalty is None
                &&& t.view().metadata is None
            },
            r is Ok <==> {
                &&& !(msg.collection_config.start_time matches Some(st) && now >= st)
                &&& msg.collection_config.per_address_limit != Some(0u32)
                &&& msg.collection_config.max_token_limit != Some(0u32)
                &&& !(msg.royalty_share matches Some(rs) && rs.atomics > DECIMAL_FRACTIONAL)
                &&& !(msg.collection_info.collection_type == CollectionType::Standard
                    && msg.collection_config.ipfs_link is None)
                &&& encode_utf8(msg.collection_info.description@).len() <= MAX_DESCRIPTION_LENGTH
            },
            r matches Err(e) ==> e == (if msg.collection_config.start_time matches Some(st)
                && now >= st {
                TokenError::InvalidStartTime
            } else if msg.collection_config.per_address_limit == Some(0u32) {
                TokenError::InvalidPerAddressLimit
            } else if msg.collection_config.max_token_limit == Some(0u32) {
                TokenError::InvalidMaxTokenLimit
            } else if msg.royalty_share matches Some(rs) && rs.atomics > DECIMAL_FRACTIONAL {
                TokenError::InvalidRoyaltyShare
            } else if msg.collection_info.collection_type == CollectionType::Standard
                && msg.collection_config.ipfs_link is None {
                TokenError::IpfsNotFound
            } else {
                TokenError::DescriptionTooLong
            }),
    {
        if let Some(st) = msg.collection_config.start_time {
            if now >= st {
                return Err(TokenError::InvalidStartTime);
            }
        }
        if let Some(l) = msg.collection_config.per_address_limit {
            if l == 0 {
                return Err(TokenError::InvalidPerAddressLimit);
            }
        }
        if let Some(m) = msg.collection_config.max_token_limit {
            if m == 0 {
                return Err(TokenError::InvalidMaxTokenLimit);
            }
        }
        if let Some(rs) = msg.royalty_share {
            if !rs.is_at_most_one() {
                return Err(TokenError::InvalidRoyaltyShare);
            }
        }
        if msg.collection_info.collection_type == CollectionType::Standard
            && msg.collection_config.ipfs_link.is_none() {
            return Err(TokenError::IpfsNotFound);
        }
        let description_bytes = msg.collection_info.description.as_str().as_bytes();
        if description_bytes.len() > MAX_DESCRIPTION_LENGTH {
            return Err(TokenError::DescriptionTooLong);
        }
        let owners: KeyMap<String> = KeyMap::new();
        let t = TokenModule {
            own: own.to_owned(),
            admin: msg.admin,
            creator: msg.creator,
            parent: parent.to_owned(),
            minter: msg.token_info.minter,
            symbol: msg.token_info.symbol,
            info: msg.collection_info,
            config: msg.collection_config,
            royalty_share: msg.royalty_share,
            operators: Vec::new(),
            locks: Locks::unlocked(),
            token_locks: KeyMap::new(),
            operation_lock: false,
            last_token_id: 0,
            owners,
            minted: StringHashMap::new(),
            whitelist: None,
            royalty: None,
            metadata: None,
        };
        assert(t.view().owners =~= Map::<u64, Seq<char>>::empty());
        assert(t.view().operators =~= Seq::<Seq<char>>::empty());
        Ok(t)
    }

    /// The admin and the mint configuration.
    pub fn query_config(&self) -> (r: ConfigResponse)
        ensures
            r.admin@ == self.view().admin,
            r.native_denom@ == self.view().native_denom,
            r.per_address_limit == self.view().per_address_limit,
            r.start_time == self.view().start_time,
            r.max_token_limit == self.view().max_token_limit,
            r.unit_price == self.view().unit_price,
            r.royalty_share == self.view().royalty_share,
    {
        ConfigResponse {
            admin: self.admin.clone(),
            native_denom: self.config.native_denom.clone(),
            per_address_limit: self.config.per_address_limit,
            start_time: self.config.start_time,
            max_token_limit: self.config.max_token_limit,
            unit_price: self.config.unit_price,
            royalty_share: self.royalty_share,
        }
    }

    /// The module's own address.
    pub fn address(&self) -> (r: &String)
        ensures
            r@ == self.view().own,
    {
        &self.own
    }

    /// The address credited with the collection's royalties.
    pub fn creator(&self) -> (r: &String)
        ensures
            r@ == self.view().creator,
    {
        &self.creator
    }

    /// The royalty rate, if one is configured.
    pub fn royalty_share(&self) -> (r: Option<Decimal>)
        requires
            self.wf(),
        ensures
            r == self.view().royalty_share,
            r matches Some(rs) ==> rs.atomics <= DECIMAL_FRACTIONAL,
    {
        self.royalty_share
    }

    /// The collection-wide lock record.
    pub fn query_locks(&self) -> (r: Locks)
        ensures
            r == self.view().locks,
    {
        self.locks
    }

    /// The lock record of asset `token_id`, if it has one.
    pub fn query_token_locks(&self, token_id: u32) -> (r: Option<Locks>)
        requires
            self.wf(),
        ensures
            r == asset_locks(self.view(), token_id as u64),
    {
        match self.token_locks.get(token_id as u64) {
            Some(l) => Some(*l),
            None => None,
        }
    }

    /// The owner of asset `token_id`, if it exists.
    pub fn owner_of(&self, token_id: u32) -> (r: Option<&String>)
        requires
            self.wf(),
        ensures
            match r {
                Some(o) => self.view().owners.contains_key(token_id as u64) && o@
                    == self.view().owners[token_id as u64],
                None => !self.view().owners.contains_key(token_id as u64),
            },
    {
        self.owners.get(token_id as u64)
    }

    /// How many assets `address` has minted.
    pub fn query_minted_tokens_per_address(&self, address: &str) -> (r: MintedTokenAmountResponse)
        ensures
            r.amount == minted_count(self.view(), address@),
    {
        match self.minted.get(address) {
            Some(n) => MintedTokenAmountResponse { amount: *n },
            None => MintedTokenAmountResponse { amount: 0 },
        }
    }

    /// The operators, in the order they were given.
    pub fn query_operators(&self) -> (r: &Vec<String>)
        ensures
            addrs_view(r@) == self.view().operators,
    {
        &self.operators
    }

    /// The collection's native denomination.
    pub fn native_denom(&self) -> (r: &String)
        ensures
            r@ == self.view().native_denom,
    {
        &self.config.native_denom
    }

    /// The configured per-address mint limit.
    pub fn per_address_limit(&self) -> (r: Option<u32>)
        ensures
            r == self.view().per_address_limit,
    {
        self.config.per_address_limit
    }

    /// The configured start time.
    pub fn start_time(&self) -> (r: Option<u64>)
        ensures
            r == self.view().start_time,
    {
        self.config.start_time
    }

    /// Whether the emergency switch is on.
    pub fn operation_lock(&self) -> (r: bool)
        ensures
            r == self.view().operation_lock,
    {
        self.operation_lock
    }

    fn check_admin(&self, sender: &String, with_operators: bool) -> (r: Result<(), TokenError>)
        ensures
            r is Ok <==> is_admin(self.view(), sender@, with_operators),
            r matches Err(e) ==> e == TokenError::Unauthorized,
    {
        let ops = if with_operators {
            Some(&self.operators)
        } else {
            None
        };
        match check_admin_privileges(sender, &self.own, &self.admin, Some(&self.parent), ops) {
            Ok(()) => Ok(()),
            Err(Unauthorized) => Err(TokenError::Unauthorized),
        }
    }

    /// Checks an owner-initiated `action` on asset `id`.
    fn check_owner_action(&self, action: Action, sender: &String, id: u32) -> (r: Result<(), TokenError>)
        requires
            self.wf(),
        ensures
            r is Ok <==> owner_action_allowed(self.view(), action, sender@, id as u64),
            r matches Err(e) ==> owner_action_fault(e, self.view(), action, sender@, id as u64),
    {
        let asset = self.token_locks.get(id as u64);
        if self.operation_lock || crate::locks::is_locked(action, &self.locks, asset) {
            return Err(
                match action {
                    Action::Burn => TokenError::BurnLocked,
                    Action::Send => TokenError::SendLocked,
                    _ => TokenError::TransferLocked,
                },
            );
        }
        match self.owners.get(id as u64) {
            None => Err(TokenError::TokenNotFound),
            Some(o) => {
                if *o == *sender {
                    Ok(())
                } else {
                    Err(TokenError::Unauthorized)
                }
            },
        }
    }

    /// Replaces the collection-wide lock record.
    pub fn execute_update_locks(&mut self, sender: &String, locks: Locks) -> (r: Result<(), TokenError>)
        requires
            old(self).wf(),
        ensures
            final(self).wf(),
            r is Ok <==> is_admin(old(self).view(), sender@, false),
            r matches Err(e) ==> e == TokenError::Unauthorized,
            r is Err ==> final(self).view() == old(self).view(),
            r is Ok ==> final(self).view() == (TokenState { locks, ..old(self).view() }),
    {
        match self.check_admin(sender, false) {
            Err(e) => Err(e),
            Ok(()) => {
                self.locks = locks;
                Ok(())
            },
        }
    }

    /// Sets the lock record of an existing asset.
    pub fn execute_update_token_locks(&mut self, sender: &String, token_id: u32, locks: Locks) -> (r: Result<
        (),
        TokenError,
    >)
        requires
            old(self).wf(),
        ensures
            final(self).wf(),
            r is Ok <==> is_admin(old(self).view(), sender@, true) && old(
                self,
            ).view().owners.contains_key(token_id as u64),
            r matches Err(e) ==> e == if !is_admin(old(self).view(), sender@, true) {
                TokenError::Unauthorized
            } else {
                TokenError::TokenNotFound
            },
            r is Err ==> final(self).view() == old(self).view(),
            r is Ok ==> final(self).view() == (TokenState {
                token_locks: old(self).view().token_locks.insert(token_id as u64, locks),
                ..old(self).view()
            }),
    {
        match self.check_admin(sender, true) {
            Err(e) => Err(e),
            Ok(()) => {
                if !self.owners.contains_key(token_id as u64) {
                    return Err(TokenError::TokenNotFound);
                }
                self.token_locks.insert(token_id as u64, locks);
                Ok(())
            },
        }
    }

    /// Turns the emergency switch on or off.
    pub fn execute_update_operation_lock(&mut self, sender: &String, lock: bool) -> (r: Result<(), TokenError>)
        requires
            old(self).wf(),
        ensures
            final(self).wf(),
            r is Ok <==> is_admin(old(self).view(), sender@, true),
            r matches Err(e) ==> e == TokenError::Unauthorized,
            r is Err ==> final(self).view() == old(self).view(),
            r is Ok ==> final(self).view() == (TokenState { operation_lock: lock, ..old(self).view() }),
    {
        match self.check_admin(sender, true) {
            Err(e) => Err(e),
            Ok(()) => {
                self.operation_lock = lock;
                Ok(())
            },
        }
    }

    /// Replaces the operators.
    pub fn execute_update_operators(&mut self, sender: &String, addrs: Vec<String>) -> (r: Result<
        (),
        TokenError,
    >)
        requires
            old(self).wf(),
        ensures
            final(self).wf(),
            r is Ok <==> is_admin(old(self).view(), sender@, true),
            r matches Err(e) ==> e == TokenError::Unauthorized,
            r is Err ==> final(self).view() == old(self).view(),
            r is Ok ==> final(self).view() == (TokenState {
                operators: addrs_view(addrs@),
                ..old(self).view()
            }),
    {
        match self.check_admin(sender, true) {
            Err(e) => Err(e),
            Ok(()) => {
                self.operators = addrs;
                Ok(())
            },
        }
    }

    /// Mints the next asset to `owner`. The emergency switch and the mint
    /// locks are checked first, then the start time, the supply and
    /// per-address caps, the payment of the unit price if one is set, and
    /// last that `sender` is the minter.
    pub fn execute_mint(&mut self, sender: &String, owner: &String, funds: &Vec<Coin>, now: u64) -> (r:
        Result<MintReceipt, TokenError>)
        requires
            old(self).wf(),
        ensures
            final(self).wf(),
            r is Ok <==> mint_allowed(old(self).view(), sender@, owner@, funds@, now),
            r matches Err(e) ==> mint_fault(e, old(self).view(), sender@, owner@, funds@, now),
            r is Err ==> final(self).view() == old(self).view(),
            r matches Ok(m) ==> {
                &&& m.token_id == old(self).view().last_token_id + 1
                &&& final(self).view() == minted_state(old(self).view(), owner@)
                &&& match price_due(old(self).view()) {
                    Some(p) => m.payment matches Some(c) && c.amount == p && c.recipient@ == old(
                        self,
                    ).view().admin && c.denom@ == old(
                        self,
                    ).view().native_denom,
                    None => m.payment is None,
                }
            },
    {
        let ghost s = self.view();
        let next = self.last_token_id as u64 + 1;
        let asset = self.token_locks.get(next);
        if self.operation_lock || crate::locks::is_locked(Action::Mint, &self.locks, asset) {
            return Err(TokenError::MintLocked);
        }
        if let Some(t) = self.config.start_time {
            if now < t {
                return Err(TokenError::MintingNotStarted);
            }
        }
        if self.last_token_id == u32::MAX {
            return Err(TokenError::TokenLimitReached);
        }
        if let Some(m) = self.config.max_token_limit {
            if next > m as u64 {
                return Err(TokenError::TokenLimitReached);
            }
        }
        let count: u32 = match self.minted.get(owner.as_str()) {
            Some(n) => *n,
            None => 0,
        };
        if count == u32::MAX {
            return Err(TokenError::TokenLimitReached);
        }
        if let Some(l) = self.config.per_address_limit {
            if count as u64 + 1 > l as u64 {
                return Err(TokenError::TokenLimitReached);
            }
        }
        let mut payment: Option<Payment> = None;
        if let Some(p) = self.config.unit_price {
            if p > 0 {
                match check_funds(funds, &self.config.native_denom, p) {
                    Err(e) => {
                        return Err(TokenError::Funds(e));
                    },
                    Ok(()) => {
                        payment = Some(
                            Payment {
                                recipient: self.admin.clone(),
                                denom: self.config.native_denom.clone(),
                                amount: p,
                            },
                        );
                    },
                }
            }
        }
        if *sender != self.minter {
            return Err(TokenError::Unauthorized);
        }
        let id = self.last_token_id + 1;
        self.last_token_id = id;
        self.owners.insert(id as u64, owner.clone());
        self.minted.insert(owner.clone(), count + 1);
        assert(self.view().owners =~= s.owners.insert(id as u64, owner@));
        assert(self.view() =~= minted_state(s, owner@));
        Ok(MintReceipt { token_id: id, payment })
    }

    /// Destroys asset `token_id`, with its lock record; only its owner may.
    pub fn execute_burn(&mut self, sender: &String, token_id: u32) -> (r: Result<(), TokenError>)
        requires
            old(self).wf(),
        ensures
            final(self).wf(),
            r is Ok <==> owner_action_allowed(old(self).view(), Action::Burn, sender@, token_id as u64),
            r matches Err(e) ==> owner_action_fault(
                e,
                old(self).view(),
                Action::Burn,
                sender@,
                token_id as u64,
            ),
            r is Err ==> final(self).view() == old(self).view(),
            r is Ok ==> final(self).view() == (TokenState {
                owners: old(self).view().owners.remove(token_id as u64),
                token_locks: old(self).view().token_locks.remove(token_id as u64),
                ..old(self).view()
            }),
    {
        let ghost s = self.view();
        match self.check_owner_action(Action::Burn, sender, token_id) {
            Err(e) => Err(e),
            Ok(()) => {
                self.owners.remove(token_id as u64);
                self.token_locks.remove(token_id as u64);
                assert(self.view().owners =~= s.owners.remove(token_id as u64));
                Ok(())
            },
        }
    }

    /// Moves asset `token_id` from its owner, the sender, to `recipient`.
    pub fn execute_transfer(&mut self, sender: &String, token_id: u32, recipient: &String) -> (r: Result<
        (),
        TokenError,
    >)
        requires
            old(self).wf(),
        ensures
            final(self).wf(),
            r is Ok <==> owner_action_allowed(
                old(self).view(),
                Action::Transfer,
                sender@,
                token_id as u64,
            ),
            r matches Err(e) ==> owner_action_fault(
                e,
                old(self).view(),
                Action::Transfer,
                sender@,
                token_id as u64,
            ),
            r is Err ==> final(self).view() == old(self).view(),
            r is Ok ==> final(self).view() == (TokenState {
                owners: old(self).view().owners.insert(token_id as u64, recipient@),
                ..old(self).view()
            }),
    {
        let ghost s = self.view();
        match self.check_owner_action(Action::Transfer, sender, token_id) {
            Err(e) => Err(e),
            Ok(()) => {
                self.owners.insert(token_id as u64, recipient.clone());
                assert(self.view().owners =~= s.owners.insert(token_id as u64, recipient@));
                Ok(())
            },
        }
    }

    /// Sends asset `token_id` from its owner, the sender, to the actor `contract`.
    pub fn execute_send(&mut self, sender: &String, token_id: u32, contract: &String) -> (r: Result<
        (),
        TokenError,
    >)
        requires
            old(self).wf(),
        ensures
            final(self).wf(),
            r is Ok <==> owner_action_allowed(old(self).view(), Action::Send, sender@, token_id as u64),
            r matches Err(e) ==> owner_action_fault(
                e,
                old(self).view(),
                Action::Send,
                sender@,
                token_id as u64,
            ),
            r is Err ==> final(self).view() == old(self).view(),
            r is Ok ==> final(self).view() == (TokenState {
                owners: old(self).view().owners.insert(token_id as u64, contract@),
                ..old(self).view()
            }),
    {
        let ghost s = self.view();
        match self.check_owner_action(Action::Send, sender, token_id) {
            Err(e) => Err(e),
            Ok(()) => {
                self.owners.insert(token_id as u64, contract.clone());
                assert(self.view().owners =~= s.owners.insert(token_id as u64, contract@));
                Ok(())
            },
        }
    }

    /// Moves asset `token_id` to `recipient` on the authority of an admin or
    /// operator rather than the owner. The emergency switch and the
    /// collection-wide transfer lock still apply; the asset's own lock record
    /// does not, since it belongs to the operator that holds the asset.
    pub fn execute_admin_transfer(&mut self, sender: &String, token_id: u32, recipient: &String) -> (r:
        Result<(), TokenError>)
        requires
            old(self).wf(),
        ensures
            final(self).wf(),
            r is Ok <==> {
                &&& is_admin(old(self).view(), sender@, true)
                &&& !old(self).view().operation_lock
                &&& !old(self).view().locks.transfer_lock
                &&& old(self).view().owners.contains_key(token_id as u64)
            },
            r matches Err(e) ==> e == if !is_admin(old(self).view(), sender@, true) {
                TokenError::Unauthorized
            } else if old(self).view().operation_lock || old(self).view().locks.transfer_lock {
                TokenError::TransferLocked
            } else {
                TokenError::TokenNotFound
            },
            r is Err ==> final(self).view() == old(self).view(),
            r is Ok ==> final(self).view() == (TokenState {
                owners: old(self).view().owners.insert(token_id as u64, recipient@),
                ..old(self).view()
            }),
    {
        let ghost s = self.view();
        match self.check_admin(sender, true) {
            Err(e) => {
                return Err(e);
            },
            Ok(()) => {},
        }
        if self.operation_lock || self.locks.transfer_lock {
            return Err(TokenError::TransferLocked);
        }
        if !self.owners.contains_key(token_id as u64) {
            return Err(TokenError::TokenNotFound);
        }
        self.owners.insert(token_id as u64, recipient.clone());
        assert(self.view().owners =~= s.owners.insert(token_id as u64, recipient@));
        Ok(())
    }

    /// Sets or clears the per-address mint limit; a limit of zero is refused.
    pub fn execute_update_per_address_limit(&mut self, sender: &String, per_address_limit: Option<u32>) -> (r:
        Result<(), TokenError>)
        requires
            old(self).wf(),
        ensures
            final(self).wf(),
            r is Ok <==> is_admin(old(self).view(), sender@, false) && per_address_limit != Some(0u32),
            r matches Err(e) ==> e == if !is_admin(old(self).view(), sender@, false) {
                TokenError::Unauthorized
            } else {
                TokenError::InvalidPerAddressLimit
            },
            r is Err ==> final(self).view() == old(self).view(),
            r is Ok ==> final(self).view() == (TokenState { per_address_limit, ..old(self).view() }),
    {
        match self.check_admin(sender, false) {
            Err(e) => Err(e),
            Ok(()) => {
                if per_address_limit == Some(0u32) {
                    return Err(TokenError::InvalidPerAddressLimit);
                }
                self.config.per_address_limit = per_address_limit;
                Ok(())
            },
        }
    }

    /// Moves or clears the start time at time `now`: refused once minting has
    /// started, and for a start time already past.
    pub fn execute_update_start_time(&mut self, sender: &String, start_time: Option<u64>, now: u64) -> (r:
        Result<(), TokenError>)
        requires
            old(self).wf(),
        ensures
            final(self).wf(),
            r is Ok <==> {
                &&& is_admin(old(self).view(), sender@, false)
                &&& !(old(self).view().start_time matches Some(t) && now >= t)
                &&& !(start_time matches Some(t) && now > t)
            },
            r matches Err(e) ==> e == if !is_admin(old(self).view(), sender@, false) {
                TokenError::Unauthorized
            } else if old(self).view().start_time matches Some(t) && now >= t {
                TokenError::AlreadyStarted
            } else {
                TokenError::InvalidStartTime
            },
            r is Err ==> final(self).view() == old(self).view(),
            r is Ok ==> final(self).view() == (TokenState { start_time, ..old(self).view() }),
    {
        match self.check_admin(sender, false) {
            Err(e) => {
                return Err(e);
            },
            Ok(()) => {},
        }
        if let Some(t) = self.config.start_time {
            if now >= t {
                return Err(TokenError::AlreadyStarted);
            }
        }
        if let Some(t) = start_time {
            if now > t {
                return Err(TokenError::InvalidStartTime);
            }
        }
        self.config.start_time = start_time;
        Ok(())
    }

    /// Sets or clears the royalty rate; a rate above one is refused.
    pub fn execute_update_royalty_share(&mut self, sender: &String, royalty_share: Option<Decimal>) -> (r:
        Result<(), TokenError>)
        requires
            old(self).wf(),
        ensures
            final(self).wf(),
            r is Ok <==> is_admin(old(self).view(), sender@, false) && !(royalty_share matches Some(
                rs,
            ) && rs.atomics > DECIMAL_FRACTIONAL),
            r matches Err(e) ==> e == if !is_admin(old(self).view(), sender@, false) {
                TokenError::Unauthorized
            } else {
                TokenError::InvalidRoyaltyShare
            },
            r is Err ==> final(self).view() == old(self).view(),
            r is Ok ==> final(self).view() == (TokenState { royalty_share, ..old(self).view() }),
    {
        match self.check_admin(sender, false) {
            Err(e) => Err(e),
            Ok(()) => {
                if let Some(rs) = royalty_share {
                    if !rs.is_at_most_one() {
                        return Err(TokenError::InvalidRoyaltyShare);
                    }
                }
                self.royalty_share = royalty_share;
                Ok(())
            },
        }
    }

    /// Binds or clears the whitelist sub-actor.
    pub fn execute_update_whitelist(&mut self, sender: &String, whitelist: Option<String>) -> (r: Result<(), TokenError>)
        requires
            old(self).wf(),
        ensures
            final(self).wf(),
            r is Ok <==> is_admin(old(self).view(), sender@, false),
            r matches Err(e) ==> e == TokenError::Unauthorized,
            r is Err ==> final(self).view() == old(self).view(),
            r is Ok ==> final(self).view() == (TokenState { whitelist: opt_view(whitelist), ..old(self).view() }),
    {
        match self.check_admin(sender, false) {
            Err(e) => Err(e),
            Ok(()) => {
                self.whitelist = whitelist;
                Ok(())
            },
        }
    }

    /// Binds or clears the royalty sub-actor.
    pub fn execute_update_royalty(&mut self, sender: &String, royalty: Option<String>) -> (r: Result<(), TokenError>)
        requires
            old(self).wf(),
        ensures
            final(self).wf(),
            r is Ok <==> is_admin(old(self).view(), sender@, false),
            r matches Err(e) ==> e == TokenError::Unauthorized,
            r is Err ==> final(self).view() == old(self).view(),
            r is Ok ==> final(self).view() == (TokenState { royalty: opt_view(royalty), ..old(self).view() }),
    {
        match self.check_admin(sender, false) {
            Err(e) => Err(e),
            Ok(()) => {
                self.royalty = royalty;
                Ok(())
            },
        }
    }

    /// Binds or clears the metadata sub-actor.
    pub fn execute_update_metadata(&mut self, sender: &String, metadata: Option<String>) -> (r: Result<(), TokenError>)
        requires
            old(self).wf(),
        ensures
            final(self).wf(),
            r is Ok <==> is_admin(old(self).view(), sender@, false),
            r matches Err(e) ==> e == TokenError::Unauthorized,
            r is Err ==> final(self).view() == old(self).view(),
            r is Ok ==> final(self).view() == (TokenState { metadata: opt_view(metadata), ..old(self).view() }),
    {
        match self.check_admin(sender, false) {
            Err(e) => Err(e),
            Ok(()) => {
                self.metadata = metadata;
                Ok(())
            },
        }
    }

    /// The whitelist sub-actor, if one is bound.
    pub fn whitelist(&self) -> (r: Option<&String>)
        ensures
            match r {
                Some(a) => self.view().whitelist == Some(a@),
                None => self.view().whitelist is None,
            },
    {
        self.whitelist.as_ref()
    }

    /// The metadata sub-actor, if one is bound.
    pub fn metadata(&self) -> (r: Option<&String>)
        ensures
            match r {
                Some(a) => self.view().metadata == Some(a@),
                None => self.view().metadata is None,
            },
    {
        self.metadata.as_ref()
    }

    /// Asks for a metadata actor of kind `metadata_type`; its address arrives
    /// through `reply`. Only the admin may ask.
    pub fn execute_init_metadata_contract(&self, sender: &String, metadata_type: Metadata) -> (r: Result<
        MetadataRequest,
        TokenError,
    >)
        ensures
            r is Ok <==> is_admin(self.view(), sender@, false),
            r matches Err(e) ==> e == TokenError::Unauthorized,
            r matches Ok(req) ==> req.correlation_id == METADATA_REPLY_ID && req.metadata_type
                == metadata_type,
    {
        match self.check_admin(sender, false) {
            Err(e) => Err(e),
            Ok(()) => Ok(MetadataRequest { correlation_id: METADATA_REPLY_ID, metadata_type }),
        }
    }

    /// The continuation of the metadata actor's creation: binds its address
    /// (`outcome`), or fails when the creation failed.
    pub fn reply(&mut self, correlation_id: u64, outcome: Option<String>) -> (r: Result<(), TokenError>)
        requires
            old(self).wf(),
        ensures
            final(self).wf(),
            r is Ok <==> correlation_id == METADATA_REPLY_ID && outcome is Some,
            r matches Err(e) ==> e == if correlation_id != METADATA_REPLY_ID {
                TokenError::InvalidReplyId
            } else {
                TokenError::MetadataInstantiateError
            },
            r is Err ==> final(self).view() == old(self).view(),
            r is Ok ==> final(self).view() == (TokenState { metadata: opt_view(outcome), ..old(self).view() }),
    {
        if correlation_id != METADATA_REPLY_ID {
            return Err(TokenError::InvalidReplyId);
        }
        match outcome {
            None => Err(TokenError::MetadataInstantiateError),
            Some(addr) => {
                self.metadata = Some(addr);
                Ok(())
            },
        }
    }

    /// The continuation of the metadata actor's creation from the raw reply
    /// data, decoded into the actor's address.
    pub fn reply_with_data(&mut self, correlation_id: u64, data: &Vec<u8>) -> (r: Result<(), TokenError>)
        requires
            old(self).wf(),
        ensures
            final(self).wf(),
            r is Ok <==> correlation_id == METADATA_REPLY_ID && instantiated_address(data@) is Some,
            r matches Err(e) ==> e == if correlation_id != METADATA_REPLY_ID {
                TokenError::InvalidReplyId
            } else {
                TokenError::MetadataInstantiateError
            },
            r is Err ==> final(self).view() == old(self).view(),
            r is Ok ==> final(self).view() == (TokenState {
                metadata: instantiated_address(data@),
                ..old(self).view()
            }),
    {
        if correlation_id != METADATA_REPLY_ID {
            return Err(TokenError::InvalidReplyId);
        }
        let outcome = parse_instantiate_reply(data);
        self.reply(correlation_id, outcome)
    }
}

} // verus!
