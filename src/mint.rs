use vstd::prelude::*;

use crate::auth::{addrs_view, check_admin_privileges, contains_addr, privileged, Unauthorized};
use crate::funds::{check_funds, funds_fault, funds_ok, Coin, FundsError, Payment};
use crate::keymap::{is_window, KeyMap};
use crate::link::{link_verdict, linked_to, LinkError, LinkMsg};
use crate::token::{
    mint_allowed, mint_fault, minted_state, opt_view, CollectionInfo, MintReceipt, TokenError,
    TokenModule, TokenState,
};

verus! {

/// The page size of a listing query without a limit.
pub const DEFAULT_LIMIT: u8 = 30;

/// The queries the collection factory answers.
#[derive(Debug)]
pub enum QueryMsg {
    Config {},
    CollectionAddress(u32),
}

/// Why the collection factory refused an action.
#[derive(Debug, PartialEq, Eq)]
pub enum MintError {
    Unauthorized,
    LockedMint,
    CollectionIdNotFound,
    /// Every collection id has been handed out.
    CollectionLimitReached,
    SelfLinkedCollection,
    AlreadyWhitelisted,
    AlreadyBlacklisted,
    AddressNotWhitelisted,
    InvalidReplyCorrelationId,
    ChildInstantiationFailed,
    Funds(FundsError),
    Token(TokenError),
    Permission(LinkError),
}

/// The request to create the asset module of a new collection from code
/// `code_id`, with `funds` attached; the host answers it by calling back
/// with `correlation_id`.
#[derive(Debug)]
pub struct ChildRequest {
    pub correlation_id: u64,
    pub collection_id: u32,
    pub code_id: u64,
    /// The creator of the collection: the sender of the creation.
    pub creator: String,
    /// The only address allowed to mint into the collection: the factory.
    pub minter: String,
    /// The admin of the new asset module: the factory's admin.
    pub admin: String,
    pub funds: Vec<Coin>,
}

/// What the fee and whitelist actors answered about a mint's price.
#[derive(Clone, Copy, Debug, PartialEq, Eq, Structural)]
pub struct MintQuote {
    /// Whether a fee actor is registered; without one, minting is free.
    pub fee_module: bool,
    /// Whether the collection has an active allow-list.
    pub whitelist_active: bool,
    /// Whether the buyer is on that allow-list.
    pub whitelisted: bool,
    /// The allow-list price, if the fee actor has one.
    pub whitelist_price: Option<u128>,
    /// The standard price, if the fee actor has one.
    pub price: Option<u128>,
}

/// One entry of a registry listing.
#[derive(Debug)]
pub struct CollectionEntry {
    pub collection_id: u32,
    pub address: String,
}

/// The abstract state of the collection factory.
#[verifier::ext_equal]
pub struct MintState {
    pub own: Seq<char>,
    pub admin: Seq<char>,
    /// The hub that created the factory.
    pub parent: Seq<char>,
    pub operators: Seq<Seq<char>>,
    pub public_collection_creation: bool,
    pub mint_lock: bool,
    pub last_collection_id: u32,
    /// Active collections: id to the address of its asset module.
    pub collections: Map<u64, Seq<char>>,
    /// Blacklisted collections: id to address.
    pub blacklist: Map<u64, Seq<char>>,
    pub infos: Map<u64, CollectionInfo>,
    pub linked: Map<u64, Seq<u32>>,
    /// Creations awaiting their child's address: correlation id to collection id.
    pub pending: Map<u64, u32>,
}

/// The registry invariant: an id is never both active and blacklisted, no
/// registered or pending id lies beyond the last one handed out, and a
/// pending id is in neither registry.
pub open spec fn registry_ok(s: MintState) -> bool {
    &&& forall|k: u64| !(#[trigger] s.collections.contains_key(k) && s.blacklist.contains_key(k))
    &&& forall|k: u64| #[trigger] s.collections.contains_key(k) ==> k <= s.last_collection_id
    &&& forall|k: u64| #[trigger] s.blacklist.contains_key(k) ==> k <= s.last_collection_id
    &&& forall|k: u64|
        #[trigger] s.pending.contains_key(k) ==> {
            &&& s.pending[k] as u64 == k
            &&& 1 <= k <= s.last_collection_id
            &&& !s.collections.contains_key(k)
            &&& !s.blacklist.contains_key(k)
        }
}

/// Whether `sender` holds admin privileges over the factory.
pub open spec fn factory_admin(s: MintState, sender: Seq<char>) -> bool {
    privileged(sender, s.own, s.admin, Some(s.parent), s.operators)
}

/// Whether every id of `ids` is an active collection.
pub open spec fn all_active(s: MintState, ids: Seq<u32>) -> bool {
    forall|i: int| 0 <= i < ids.len() ==> s.collections.contains_key(#[trigger] ids[i] as u64)
}

/// The price a mint resolves to under `q`, for a collection that has a
/// whitelist sub-actor bound when `has_whitelist`; `None` when the buyer is
/// not on an active allow-list.
pub open spec fn resolved_price(q: MintQuote, has_whitelist: bool) -> Option<u128> {
    if !q.fee_module {
        Some(0)
    } else if has_whitelist && q.whitelist_active {
        if q.whitelisted {
            Some(
                match q.whitelist_price {
                    Some(p) => p,
                    None => 0,
                },
            )
        } else {
            None
        }
    } else {
        Some(
            match q.price {
                Some(p) => p,
                None => 0,
            },
        )
    }
}

/// Whether `token` is the asset module bound to collection `id`.
pub open spec fn bound_to(s: MintState, id: u32, token: TokenState) -> bool {
    s.collections.contains_key(id as u64) && s.collections[id as u64] == token.own
}

/// The name of the address that an instantiation reply's data carries, or
/// `None` when the data does not decode.
pub uninterp spec fn instantiated_address(data: Seq<u8>) -> Option<Seq<char>>;

/// Relies on cw_utils::parse_instantiate_response_data, which decodes the
/// protobuf reply of an instantiation into the new actor's address, and fails
/// on malformed data; the outcome depends on the bytes alone.
#[verifier::external_body]
pub(crate) fn parse_instantiate_reply(data: &Vec<u8>) -> (r: Option<String>)
    ensures
        opt_view(r) == instantiated_address(data@),
{
    match cw_utils::parse_instantiate_response_data(data.as_slice()) {
        Ok(res) => Some(res.contract_address),
        Err(_) => None,
    }
}

/// The addresses of `addrs`, each once, in order of first occurrence.
fn dedup_addrs(addrs: &Vec<String>) -> (r: Vec<String>)
    ensures
        addrs_view(r@).no_duplicates(),
        addrs_view(r@).to_set() == addrs_view(addrs@).to_set(),
{
    let ghost a = addrs_view(addrs@);
    let mut out: Vec<String> = Vec::new();
    let mut i: usize = 0;
    while i < addrs.len()
        invariant
            a == addrs_view(addrs@),
            i <= addrs@.len(),
            addrs_view(out@).no_duplicates(),
            forall|x: Seq<char>| addrs_view(out@).contains(x) <==> a.subrange(0, i as int).contains(x),
        decreases addrs@.len() - i,
    {
        let ghost before = addrs_view(out@);
        let ghost y = a[i as int];
        let ghost pre = a.subrange(0, i as int);
        let ghost post = a.subrange(0, i + 1);
        assert(post =~= pre.push(y));
        assert(forall|x: Seq<char>| #[trigger] before.contains(x) <==> pre.contains(x));
        let present = contains_addr(&out, &addrs[i]);
        if !present {
            out.push(addrs[i].clone());
            assert(addrs_view(out@) =~= before.push(y));
        }
        assert forall|x: Seq<char>| addrs_view(out@).contains(x) <==> post.contains(x) by {
            if addrs_view(out@).contains(x) {
                let j = choose|j: int| 0 <= j < addrs_view(out@).len() && addrs_view(out@)[j] == x;
                if j < before.len() {
                    assert(before[j] == x);
                    assert(before.contains(x));
                    let k = choose|k: int| 0 <= k < pre.len() && pre[k] == x;
                    assert(post[k] == x);
                } else {
                    assert(post[i as int] == x);
                }
            }
            if post.contains(x) {
                let k = choose|k: int| 0 <= k < post.len() && post[k] == x;
                if k < i {
                    assert(pre[k] == x);
                    assert(pre.contains(x));
                    assert(before.contains(x));
                    let j = choose|j: int| 0 <= j < before.len() && before[j] == x;
                    assert(addrs_view(out@)[j] == x);
                } else if present {
                    assert(before.contains(y));
                    let j = choose|j: int| 0 <= j < before.len() && before[j] == y;
                    assert(addrs_view(out@)[j] == x);
                } else {
                    assert(addrs_view(out@)[before.len() as int] == x);
                }
            }
        }
        assert(addrs_view(out@).no_duplicates()) by {
            if !present {
                assert forall|p: int, q: int|
                    0 <= p < q < addrs_view(out@).len() implies addrs_view(out@)[p] != addrs_view(
                        out@,
                    )[q] by {
                    if q == before.len() {
                        assert(!before.contains(y));
                        assert(before[p] != y);
                    }
                }
            }
        }
        i = i + 1;
    }
    assert(a.subrange(0, addrs@.len() as int) =~= a);
    assert(addrs_view(out@).to_set() =~= a.to_set());
    out
}

/// The view of an optional list of ids.
pub open spec fn opt_seq(o: Option<Vec<u32>>) -> Option<Seq<u32>> {
    match o {
        Some(v) => Some(v@),
        None => None,
    }
}

/// Whether `v` holds `x`.
pub(crate) fn contains_id(v: &Vec<u32>, x: u32) -> (r: bool)
    ensures
        r == v@.contains(x),
{
    let mut i: usize = 0;
    while i < v.len()
        invariant
            i <= v@.len(),
            forall|j: int| 0 <= j < i ==> v@[j] != x,
        decreases v@.len() - i,
    {
        if v[i] == x {
            assert(v@[i as int] == x);
            return true;
        }
        i = i + 1;
    }
    false
}

/// The state after a creation: the id handed out, its information and links
/// recorded, and the creation pending on its child.
pub open spec fn created_state(s: MintState, info: CollectionInfo, linked: Option<Seq<u32>>) -> MintState {
    let id = (s.last_collection_id + 1) as u32;
    MintState {
        last_collection_id: id,
        infos: s.infos.insert(id as u64, info),
        linked: match linked {
            Some(ids) => s.linked.insert(id as u64, ids),
            None => s.linked,
        },
        pending: s.pending.insert(id as u64, id),
        ..s
    }
}

/// Whether a creation by `sender` with `linked` goes through.
pub open spec fn create_allowed(s: MintState, sender: Seq<char>, linked: Option<Seq<u32>>) -> bool {
    &&& (s.public_collection_creation || factory_admin(s, sender))
    &&& s.last_collection_id < u32::MAX
    &&& (linked matches Some(ids) ==> !ids.contains((s.last_collection_id + 1) as u32) && all_active(
        s,
        ids,
    ))
}

/// The state once the child of pending creation `cid` reported `addr`.
pub open spec fn bound_state(s: MintState, cid: u64, addr: Seq<char>) -> MintState {
    MintState {
        collections: s.collections.insert(s.pending[cid] as u64, addr),
        pending: s.pending.remove(cid),
        ..s
    }
}

/// The state once the child of pending creation `cid` failed: everything the
/// creation recorded is taken back, the id included when it was the last.
pub open spec fn rolled_back_state(s: MintState, cid: u64) -> MintState {
    let id = s.pending[cid];
    MintState {
        last_collection_id: if id == s.last_collection_id {
            (id - 1) as u32
        } else {
            s.last_collection_id
        },
        infos: s.infos.remove(id as u64),
        linked: s.linked.remove(id as u64),
        pending: s.pending.remove(cid),
        ..s
    }
}

/// The outcome of a continuation for correlation id `cid`, the child having
/// reported `outcome` (its address, or `None` on failure).
pub open spec fn reply_ensures(
    s: MintState,
    t: MintState,
    cid: u64,
    outcome: Option<Seq<char>>,
    r: Result<u32, MintError>,
) -> bool {
    if !s.pending.contains_key(cid) {
        r == Err::<u32, MintError>(MintError::InvalidReplyCorrelationId) && t == s
    } else {
        match outcome {
            Some(addr) => r == Ok::<u32, MintError>(s.pending[cid]) && t == bound_state(s, cid, addr),
            None => r == Err::<u32, MintError>(MintError::ChildInstantiationFailed) && t
                == rolled_back_state(s, cid),
        }
    }
}

/// The mint price due under `q`, and whether `funds` pays it.
pub open spec fn quote_paid(q: MintQuote, has_whitelist: bool, funds: Seq<Coin>, denom: Seq<char>) -> bool {
    resolved_price(q, has_whitelist) matches Some(p) && (p > 0 ==> funds_ok(funds, denom, p))
}

/// Moving a registered id from one registry to the other keeps the
/// registry invariant.
proof fn lemma_move_keeps_registry(s: MintState, t: MintState, c: u64, to_active: bool)
    requires
        registry_ok(s),
        t.last_collection_id == s.last_collection_id,
        t.pending == s.pending,
        to_active ==> s.blacklist.contains_key(c) && t.collections == s.collections.insert(
            c,
            s.blacklist[c],
        ) && t.blacklist == s.blacklist.remove(c),
        !to_active ==> s.collections.contains_key(c) && t.blacklist == s.blacklist.insert(
            c,
            s.collections[c],
        ) && t.collections == s.collections.remove(c),
    ensures
        registry_ok(t),
{
    assert forall|k: u64| !(#[trigger] t.collections.contains_key(k) && t.blacklist.contains_key(k)) by {
        if k != c {
            assert(!(s.collections.contains_key(k) && s.blacklist.contains_key(k)));
        }
    }
    assert forall|k: u64| #[trigger] t.collections.contains_key(k) implies k <= t.last_collection_id by {
        if k == c {
            if to_active {
                assert(s.blacklist.contains_key(c));
            }
        } else {
            assert(s.collections.contains_key(k));
        }
    }
    assert forall|k: u64| #[trigger] t.blacklist.contains_key(k) implies k <= t.last_collection_id by {
        if k == c {
            if !to_active {
                assert(s.collections.contains_key(c));
            }
        } else {
            assert(s.blacklist.contains_key(k));
        }
    }
    assert forall|k: u64| #[trigger] t.pending.contains_key(k) implies {
        &&& t.pending[k] as u64 == k
        &&& 1 <= k <= t.last_collection_id
        &&& !t.collections.contains_key(k)
        &&& !t.blacklist.contains_key(k)
    } by {
        assert(s.pending.contains_key(k));
        if to_active {
            assert(s.blacklist.contains_key(c));
        } else {
            assert(s.collections.contains_key(c));
        }
    }
}

/// Whether a mint through the factory into collection `id`, by `sender`,
/// goes through; the asset module then sees the factory as the minter.
pub open spec fn factory_mint_allowed(
    s: MintState,
    t: TokenState,
    sender: Seq<char>,
    id: u32,
    q: MintQuote,
    funds: Seq<Coin>,
    now: u64,
) -> bool {
    &&& !s.mint_lock
    &&& bound_to(s, id, t)
    &&& quote_paid(q, t.whitelist is Some, funds, t.native_denom)
    &&& mint_allowed(t, s.own, sender, Seq::empty(), now)
}

/// The error a refused mint through the factory reports.
pub open spec fn factory_mint_fault(
    e: MintError,
    s: MintState,
    t: TokenState,
    sender: Seq<char>,
    id: u32,
    q: MintQuote,
    funds: Seq<Coin>,
    now: u64,
) -> bool {
    if s.mint_lock {
        e == MintError::LockedMint
    } else if !bound_to(s, id, t) {
        e == MintError::CollectionIdNotFound
    } else if resolved_price(q, t.whitelist is Some) is None {
        e == MintError::AddressNotWhitelisted
    } else if resolved_price(q, t.whitelist is Some)->Some_0 > 0 && !funds_ok(
        funds,
        t.native_denom,
        resolved_price(q, t.whitelist is Some)->Some_0,
    ) {
        e matches MintError::Funds(fe) && funds_fault(
            fe,
            funds,
            t.native_denom,
            resolved_price(q, t.whitelist is Some)->Some_0,
        )
    } else {
        e matches MintError::Token(te) && mint_fault(te, t, s.own, sender, Seq::empty(), now)
    }
}

/// The error a refused mint by the factory's admin reports, after the
/// privilege and permission checks.
pub open spec fn admin_mint_fault(
    e: MintError,
    s: MintState,
    t: TokenState,
    recipient: Seq<char>,
    id: u32,
    now: u64,
) -> bool {
    if !bound_to(s, id, t) {
        e == MintError::CollectionIdNotFound
    } else {
        e matches MintError::Token(te) && mint_fault(te, t, s.own, recipient, Seq::empty(), now)
    }
}

/// The collections registry that a listing query reads.
pub open spec fn registry(s: MintState, blacklist: bool) -> Map<u64, Seq<char>> {
    if blacklist {
        s.blacklist
    } else {
        s.collections
    }
}

/// The first id a listing query may return.
pub open spec fn first_after(start_after: Option<u32>) -> u64 {
    match start_after {
        Some(a) => (a + 1) as u64,
        None => 0,
    }
}

/// The page size of a listing query.
pub open spec fn page_size(limit: Option<u8>) -> nat {
    match limit {
        Some(l) => l as nat,
        None => DEFAULT_LIMIT as nat,
    }
}

/// The collection factory: the registry of collections and their asset modules.
pub struct MintModule {
    own: String,
    admin: String,
    parent: String,
    operators: Vec<String>,
    public_collection_creation: bool,
    mint_lock: bool,
    last_collection_id: u32,
    collections: KeyMap<String>,
    blacklist: KeyMap<String>,
    infos: KeyMap<CollectionInfo>,
    linked: KeyMap<Vec<u32>>,
    pending: KeyMap<u32>,
}

impl MintModule {
    /// The abstract state.
    pub closed spec fn view(&self) -> MintState {
        MintState {
            own: self.own@,
            admin: self.admin@,
            parent: self.parent@,
            operators: addrs_view(self.operators@),
            public_collection_creation: self.public_collection_creation,
            mint_lock: self.mint_lock,
            last_collection_id: self.last_collection_id,
            collections: self.collections@.map_values(|a: String| a@),
            blacklist: self.blacklist@.map_values(|a: String| a@),
            infos: self.infos@,
            linked: self.linked@.map_values(|v: Vec<u32>| v@),
            pending: self.pending@,
        }
    }

    /// The internal maps are well formed and the registry invariant holds.
    pub closed spec fn wf(&self) -> bool {
        &&& self.collections.wf()
        &&& self.blacklist.wf()
        &&& self.infos.wf()
        &&& self.linked.wf()
        &&& self.pending.wf()
        &&& registry_ok(self.view())
    }

    /// Creates the factory `own`, administered by `admin`, on behalf of the hub `parent`.
    pub fn instantiate(own: &str, parent: &str, admin: &str) -> (r: MintModule)
        ensures
            r.wf(),
            r.view().own == own@,
            r.view().parent == parent@,
            r.view().admin == admin@,
            r.view().operators == Seq::<Seq<char>>::empty(),
            !r.view().public_collection_creation,
            !r.view().mint_lock,
            r.view().last_collection_id == 0,
            r.view().collections == Map::<u64, Seq<char>>::empty(),
            r.view().blacklist == Map::<u64, Seq<char>>::empty(),
            r.view().infos == Map::<u64, CollectionInfo>::empty(),
            r.view().linked == Map::<u64, Seq<u32>>::empty(),
            r.view().pending == Map::<u64, u32>::empty(),
    {
        let r = MintModule {
            own: own.to_owned(),
            admin: admin.to_owned(),
            parent: parent.to_owned(),
            operators: Vec::new(),
            public_collection_creation: false,
            mint_lock: false,
            last_collection_id: 0,
            collections: KeyMap::new(),
            blacklist: KeyMap::new(),
            infos: KeyMap::new(),
            linked: KeyMap::new(),
            pending: KeyMap::new(),
        };
        assert(r.view().collections =~= Map::<u64, Seq<char>>::empty());
        assert(r.view().blacklist =~= Map::<u64, Seq<char>>::empty());
        assert(r.view().linked =~= Map::<u64, Seq<u32>>::empty());
        assert(r.view().operators =~= Seq::<Seq<char>>::empty());
        r
    }

    /// The factory's own address.
    pub fn address(&self) -> (r: &String)
        ensures
            r@ == self.view().own,
    {
        &self.own
    }

    fn check_admin(&self, sender: &String) -> (r: Result<(), MintError>)
        ensures
            r is Ok <==> factory_admin(self.view(), sender@),
            r matches Err(e) ==> e == MintError::Unauthorized,
    {
        match check_admin_privileges(
            sender,
            &self.own,
            &self.admin,
            Some(&self.parent),
            Some(&self.operators),
        ) {
            Ok(()) => Ok(()),
            Err(Unauthorized) => Err(MintError::Unauthorized),
        }
    }

    /// Whether every id of `ids` is an active collection.
    pub fn check_collection_ids_exists(&self, ids: &Vec<u32>) -> (r: bool)
        requires
            self.wf(),
        ensures
            r == all_active(self.view(), ids@),
    {
        let mut i: usize = 0;
        while i < ids.len()
            invariant
                self.wf(),
                i <= ids@.len(),
                forall|j: int| 0 <= j < i ==> self.view().collections.contains_key(#[trigger] ids@[j] as u64),
            decreases ids@.len() - i,
        {
            if !self.collections.contains_key(ids[i] as u64) {
                return false;
            }
            i = i + 1;
        }
        true
    }

    /// The address of active collection `collection_id`, if it is active.
    pub fn query_collection_address(&self, collection_id: u32) -> (r: Option<&String>)
        requires
            self.wf(),
        ensures
            match r {
                Some(a) => self.view().collections.contains_key(collection_id as u64) && a@
                    == self.view().collections[collection_id as u64],
                None => !self.view().collections.contains_key(collection_id as u64),
            },
    {
        self.collections.get(collection_id as u64)
    }

    /// The declared information of collection `collection_id`.
    pub fn query_collection_info(&self, collection_id: u32) -> (r: Option<&CollectionInfo>)
        requires
            self.wf(),
        ensures
            match r {
                Some(i) => self.view().infos.contains_key(collection_id as u64) && *i
                    == self.view().infos[collection_id as u64],
                None => !self.view().infos.contains_key(collection_id as u64),
            },
    {
        self.infos.get(collection_id as u64)
    }

    /// The collections linked to `collection_id`; none when nothing was declared.
    pub fn query_linked_collections(&self, collection_id: u32) -> (r: Vec<u32>)
        requires
            self.wf(),
        ensures
            r@ == linked_to(self.view().linked, collection_id),
    {
        match self.linked.get(collection_id as u64) {
            Some(v) => v.clone(),
            None => Vec::new(),
        }
    }

    /// The operators.
    pub fn query_operators(&self) -> (r: &Vec<String>)
        ensures
            addrs_view(r@) == self.view().operators,
    {
        &self.operators
    }

    /// Opens or closes collection creation to everyone.
    pub fn execute_update_public_collection_creation(&mut self, sender: &String, public_collection_creation: bool) -> (r:
        Result<(), MintError>)
        requires
            old(self).wf(),
        ensures
            final(self).wf(),
            r is Ok <==> factory_admin(old(self).view(), sender@),
            r matches Err(e) ==> e == MintError::Unauthorized,
            r is Err ==> final(self).view() == old(self).view(),
            r is Ok ==> final(self).view() == (MintState {
                public_collection_creation,
                ..old(self).view()
            }),
    {
        match self.check_admin(sender) {
            Err(e) => Err(e),
            Ok(()) => {
                self.public_collection_creation = public_collection_creation;
                Ok(())
            },
        }
    }

    /// Blocks or unblocks every mint through the factory.
    pub fn execute_update_mint_lock(&mut self, sender: &String, lock: bool) -> (r: Result<(), MintError>)
        requires
            old(self).wf(),
        ensures
            final(self).wf(),
            r is Ok <==> factory_admin(old(self).view(), sender@),
            r matches Err(e) ==> e == MintError::Unauthorized,
            r is Err ==> final(self).view() == old(self).view(),
            r is Ok ==> final(self).view() == (MintState { mint_lock: lock, ..old(self).view() }),
    {
        match self.check_admin(sender) {
            Err(e) => Err(e),
            Ok(()) => {
                self.mint_lock = lock;
                Ok(())
            },
        }
    }

    /// Replaces the operators by the set of `addrs`, each address once.
    pub fn execute_update_operators(&mut self, sender: &String, addrs: Vec<String>) -> (r: Result<(), MintError>)
        requires
            old(self).wf(),
        ensures
            final(self).wf(),
            r is Ok <==> factory_admin(old(self).view(), sender@),
            r matches Err(e) ==> e == MintError::Unauthorized,
            r is Err ==> final(self).view() == old(self).view(),
            r is Ok ==> {
                &&& final(self).view() == (MintState {
                    operators: final(self).view().operators,
                    ..old(self).view()
                })
                &&& final(self).view().operators.no_duplicates()
                &&& final(self).view().operators.to_set() == addrs_view(addrs@).to_set()
            },
    {
        match self.check_admin(sender) {
            Err(e) => Err(e),
            Ok(()) => {
                self.operators = dedup_addrs(&addrs);
                Ok(())
            },
        }
    }

    /// Registers a new collection: hands out the next id, records its
    /// information and links, and leaves it pending until its asset module
    /// reports its address. The links must name active collections other
    /// than the new one.
    pub fn execute_create_collection(
        &mut self,
        sender: &String,
        code_id: u64,
        info: CollectionInfo,
        linked_collections: Option<Vec<u32>>,
        funds: Vec<Coin>,
    ) -> (r: Result<ChildRequest, MintError>)
        requires
            old(self).wf(),
        ensures
            final(self).wf(),
            r is Ok <==> create_allowed(
                old(self).view(),
                sender@,
                opt_seq(linked_collections),
            ),
            r matches Err(e) ==> e == if !(old(self).view().public_collection_creation || factory_admin(
                old(self).view(),
                sender@,
            )) {
                MintError::Unauthorized
            } else if old(self).view().last_collection_id == u32::MAX {
                MintError::CollectionLimitReached
            } else if linked_collections matches Some(v) && v@.contains(
                (old(self).view().last_collection_id + 1) as u32,
            ) {
                MintError::SelfLinkedCollection
            } else {
                MintError::CollectionIdNotFound
            },
            r is Err ==> final(self).view() == old(self).view(),
            r matches Ok(req) ==> {
                &&& req.collection_id == old(self).view().last_collection_id + 1
                &&& req.correlation_id == req.collection_id
                &&& req.code_id == code_id
                &&& req.creator@ == sender@
                &&& req.minter@ == old(self).view().own
                &&& req.admin@ == old(self).view().admin
                &&& req.funds@ == funds@
                &&& final(self).view() == created_state(
                    old(self).view(),
                    info,
                    opt_seq(linked_collections),
                )
            },
    {
        let ghost s = self.view();
        if !self.public_collection_creation {
            match self.check_admin(sender) {
                Err(e) => {
                    return Err(e);
                },
                Ok(()) => {},
            }
        }
        if self.last_collection_id == u32::MAX {
            return Err(MintError::CollectionLimitReached);
        }
        let id = self.last_collection_id + 1;
        if let Some(ids) = &linked_collections {
            if contains_id(ids, id) {
                return Err(MintError::SelfLinkedCollection);
            }
            if !self.check_collection_ids_exists(ids) {
                return Err(MintError::CollectionIdNotFound);
            }
        }
        let ghost gi = info;
        let ghost lv = opt_seq(linked_collections);
        self.last_collection_id = id;
        self.infos.insert(id as u64, info);
        match linked_collections {
            Some(ids) => {
                self.linked.insert(id as u64, ids);
            },
            None => {},
        }
        self.pending.insert(id as u64, id);
        let ghost t = created_state(s, gi, lv);
        assert(self.view().linked =~= t.linked);
        assert(self.view() =~= t);
        Ok(
            ChildRequest {
                correlation_id: id as u64,
                collection_id: id,
                code_id,
                creator: sender.clone(),
                minter: self.own.clone(),
                admin: self.admin.clone(),
                funds,
            },
        )
    }

    /// The continuation of a creation: binds the child's address when it
    /// reports one (`outcome`), and takes the creation back when it failed.
    pub fn reply(&mut self, correlation_id: u64, outcome: Option<String>) -> (r: Result<u32, MintError>)
        requires
            old(self).wf(),
        ensures
            final(self).wf(),
            reply_ensures(old(self).view(), final(self).view(), correlation_id, opt_view(outcome), r),
    {
        let ghost s = self.view();
        let id: u32 = match self.pending.get(correlation_id) {
            None => {
                return Err(MintError::InvalidReplyCorrelationId);
            },
            Some(id) => *id,
        };
        assert(registry_ok(s));
        assert(s.pending.contains_key(correlation_id));
        assert(s.pending[correlation_id] == id);
        assert(id as u64 == correlation_id && id >= 1);
        match outcome {
            Some(addr) => {
                self.pending.remove(correlation_id);
                self.collections.insert(id as u64, addr);
                assert(self.view().collections =~= bound_state(s, correlation_id, addr@).collections);
                assert(self.view() =~= bound_state(s, correlation_id, addr@));
                Ok(id)
            },
            None => {
                self.pending.remove(correlation_id);
                self.infos.remove(id as u64);
                self.linked.remove(id as u64);
                if id == self.last_collection_id {
                    self.last_collection_id = id - 1;
                }
                assert(self.view().linked =~= rolled_back_state(s, correlation_id).linked);
                assert(self.view() =~= rolled_back_state(s, correlation_id));
                Err(MintError::ChildInstantiationFailed)
            },
        }
    }

    /// The continuation of a creation from the raw reply data of the
    /// instantiation, decoded into the child's address.
    pub fn reply_with_data(&mut self, correlation_id: u64, data: &Vec<u8>) -> (r: Result<u32, MintError>)
        requires
            old(self).wf(),
        ensures
            final(self).wf(),
            reply_ensures(
                old(self).view(),
                final(self).view(),
                correlation_id,
                instantiated_address(data@),
                r,
            ),
    {
        let outcome = parse_instantiate_reply(data);
        self.reply(correlation_id, outcome)
    }

    /// Declares the collections linked to an active collection.
    pub fn execute_update_linked_collections(&mut self, sender: &String, collection_id: u32, linked_collections: Vec<u32>) -> (r:
        Result<(), MintError>)
        requires
            old(self).wf(),
        ensures
            final(self).wf(),
            r is Ok <==> {
                &&& factory_admin(old(self).view(), sender@)
                &&& !linked_collections@.contains(collection_id)
                &&& old(self).view().collections.contains_key(collection_id as u64)
                &&& all_active(old(self).view(), linked_collections@)
            },
            r matches Err(e) ==> e == if !factory_admin(old(self).view(), sender@) {
                MintError::Unauthorized
            } else if linked_collections@.contains(collection_id) {
                MintError::SelfLinkedCollection
            } else {
                MintError::CollectionIdNotFound
            },
            r is Err ==> final(self).view() == old(self).view(),
            r is Ok ==> final(self).view() == (MintState {
                linked: old(self).view().linked.insert(collection_id as u64, linked_collections@),
                ..old(self).view()
            }),
    {
        let ghost s = self.view();
        match self.check_admin(sender) {
            Err(e) => {
                return Err(e);
            },
            Ok(()) => {},
        }
        if contains_id(&linked_collections, collection_id) {
            return Err(MintError::SelfLinkedCollection);
        }
        if !self.collections.contains_key(collection_id as u64) || !self.check_collection_ids_exists(
            &linked_collections,
        ) {
            return Err(MintError::CollectionIdNotFound);
        }
        let ghost v = linked_collections@;
        self.linked.insert(collection_id as u64, linked_collections);
        assert(self.view().linked =~= s.linked.insert(collection_id as u64, v));
        Ok(())
    }

    /// Moves a blacklisted collection back to the active registry.
    pub fn execute_whitelist_collection(&mut self, sender: &String, collection_id: u32) -> (r: Result<(), MintError>)
        requires
            old(self).wf(),
        ensures
            final(self).wf(),
            r is Ok <==> {
                &&& factory_admin(old(self).view(), sender@)
                &&& !old(self).view().collections.contains_key(collection_id as u64)
                &&& old(self).view().blacklist.contains_key(collection_id as u64)
            },
            r matches Err(e) ==> e == if !factory_admin(old(self).view(), sender@) {
                MintError::Unauthorized
            } else if old(self).view().collections.contains_key(collection_id as u64) {
                MintError::AlreadyWhitelisted
            } else {
                MintError::CollectionIdNotFound
            },
            r is Err ==> final(self).view() == old(self).view(),
            r is Ok ==> final(self).view() == (MintState {
                collections: old(self).view().collections.insert(
                    collection_id as u64,
                    old(self).view().blacklist[collection_id as u64],
                ),
                blacklist: old(self).view().blacklist.remove(collection_id as u64),
                ..old(self).view()
            }),
    {
        let ghost s = self.view();
        match self.check_admin(sender) {
            Err(e) => {
                return Err(e);
            },
            Ok(()) => {},
        }
        if self.collections.contains_key(collection_id as u64) {
            return Err(MintError::AlreadyWhitelisted);
        }
        match self.blacklist.remove(collection_id as u64) {
            None => {
                assert(self.view() =~= s);
                Err(MintError::CollectionIdNotFound)
            },
            Some(addr) => {
                self.collections.insert(collection_id as u64, addr);
                assert(self.view().collections =~= s.collections.insert(
                    collection_id as u64,
                    s.blacklist[collection_id as u64],
                ));
                assert(self.view().blacklist =~= s.blacklist.remove(collection_id as u64));
                proof {
                    lemma_move_keeps_registry(s, self.view(), collection_id as u64, true);
                }
                Ok(())
            },
        }
    }

    /// Moves an active collection to the blacklist.
    pub fn execute_blacklist_collection(&mut self, sender: &String, collection_id: u32) -> (r: Result<(), MintError>)
        requires
            old(self).wf(),
        ensures
            final(self).wf(),
            r is Ok <==> {
                &&& factory_admin(old(self).view(), sender@)
                &&& !old(self).view().blacklist.contains_key(collection_id as u64)
                &&& old(self).view().collections.contains_key(collection_id as u64)
            },
            r matches Err(e) ==> e == if !factory_admin(old(self).view(), sender@) {
                MintError::Unauthorized
            } else if old(self).view().blacklist.contains_key(collection_id as u64) {
                MintError::AlreadyBlacklisted
            } else {
                MintError::CollectionIdNotFound
            },
            r is Err ==> final(self).view() == old(self).view(),
            r is Ok ==> final(self).view() == (MintState {
                blacklist: old(self).view().blacklist.insert(
                    collection_id as u64,
                    old(self).view().collections[collection_id as u64],
                ),
                collections: old(self).view().collections.remove(collection_id as u64),
                ..old(self).view()
            }),
    {
        let ghost s = self.view();
        match self.check_admin(sender) {
            Err(e) => {
                return Err(e);
            },
            Ok(()) => {},
        }
        if self.blacklist.contains_key(collection_id as u64) {
            return Err(MintError::AlreadyBlacklisted);
        }
        match self.collections.remove(collection_id as u64) {
            None => {
                assert(self.view() =~= s);
                Err(MintError::CollectionIdNotFound)
            },
            Some(addr) => {
                self.blacklist.insert(collection_id as u64, addr);
                assert(self.view().blacklist =~= s.blacklist.insert(
                    collection_id as u64,
                    s.collections[collection_id as u64],
                ));
                assert(self.view().collections =~= s.collections.remove(collection_id as u64));
                proof {
                    lemma_move_keeps_registry(s, self.view(), collection_id as u64, false);
                }
                Ok(())
            },
        }
    }

    /// Mints the next asset of collection `collection_id` to `sender`. The
    /// price comes from `quote` (what the fee and whitelist actors answered;
    /// the allow-list counts only when the collection has a whitelist actor);
    /// a price above zero must be paid exactly by `funds`, and is forwarded to
    /// the admin. `token` is the asset module the collection is bound to.
    pub fn execute_mint(
        &self,
        sender: &String,
        collection_id: u32,
        quote: MintQuote,
        funds: &Vec<Coin>,
        token: &mut TokenModule,
        now: u64,
    ) -> (r: Result<MintReceipt, MintError>)
        requires
            self.wf(),
            old(token).wf(),
        ensures
            final(token).wf(),
            r is Ok <==> factory_mint_allowed(
                self.view(),
                old(token).view(),
                sender@,
                collection_id,
                quote,
                funds@,
                now,
            ),
            r matches Err(e) ==> factory_mint_fault(
                e,
                self.view(),
                old(token).view(),
                sender@,
                collection_id,
                quote,
                funds@,
                now,
            ),
            r is Err ==> final(token).view() == old(token).view(),
            r matches Ok(m) ==> {
                &&& m.token_id == old(token).view().last_token_id + 1
                &&& final(token).view() == minted_state(old(token).view(), sender@)
                &&& if resolved_price(quote, old(token).view().whitelist is Some)->Some_0 > 0 {
                    m.payment matches Some(c) && c.recipient@ == self.view().admin && c.amount == resolved_price(
                        quote,
                        old(token).view().whitelist is Some,
                    )->Some_0 && c.denom@ == old(token).view().native_denom
                } else {
                    m.payment is None
                }
            },
    {
        if self.mint_lock {
            return Err(MintError::LockedMint);
        }
        match self.collections.get(collection_id as u64) {
            None => {
                return Err(MintError::CollectionIdNotFound);
            },
            Some(addr) => {
                if *addr != *token.address() {
                    return Err(MintError::CollectionIdNotFound);
                }
            },
        }
        let price: u128 = if !quote.fee_module {
            0
        } else if token.whitelist().is_some() && quote.whitelist_active {
            if !quote.whitelisted {
                return Err(MintError::AddressNotWhitelisted);
            }
            match quote.whitelist_price {
                Some(p) => p,
                None => 0,
            }
        } else {
            match quote.price {
                Some(p) => p,
                None => 0,
            }
        };
        if price > 0 {
            match check_funds(funds, token.native_denom(), price) {
                Err(e) => {
                    return Err(MintError::Funds(e));
                },
                Ok(()) => {},
            }
        }
        let no_funds: Vec<Coin> = Vec::new();
        match token.execute_mint(&self.own, sender, &no_funds, now) {
            Err(e) => Err(MintError::Token(e)),
            Ok(receipt) => {
                let payment = if price > 0 {
                    Some(
                        Payment {
                            recipient: self.admin.clone(),
                            denom: token.native_denom().clone(),
                            amount: price,
                        },
                    )
                } else {
                    None
                };
                Ok(MintReceipt { token_id: receipt.token_id, payment })
            },
        }
    }

    /// Mints into `token` on the factory's authority, without price or allow-list.
    fn mint_as_factory(&self, collection_id: u32, recipient: &String, token: &mut TokenModule, now: u64) -> (r:
        Result<MintReceipt, MintError>)
        requires
            self.wf(),
            old(token).wf(),
        ensures
            final(token).wf(),
            r is Ok <==> bound_to(self.view(), collection_id, old(token).view()) && mint_allowed(
                old(token).view(),
                self.view().own,
                recipient@,
                Seq::empty(),
                now,
            ),
            r matches Err(e) ==> admin_mint_fault(
                e,
                self.view(),
                old(token).view(),
                recipient@,
                collection_id,
                now,
            ),
            r is Err ==> final(token).view() == old(token).view(),
            r matches Ok(m) ==> m.token_id == old(token).view().last_token_id + 1 && final(token).view()
                == minted_state(old(token).view(), recipient@),
    {
        match self.collections.get(collection_id as u64) {
            None => {
                return Err(MintError::CollectionIdNotFound);
            },
            Some(addr) => {
                if *addr != *token.address() {
                    return Err(MintError::CollectionIdNotFound);
                }
            },
        }
        let no_funds: Vec<Coin> = Vec::new();
        match token.execute_mint(&self.own, recipient, &no_funds, now) {
            Err(e) => Err(MintError::Token(e)),
            Ok(receipt) => Ok(MintReceipt { token_id: receipt.token_id, payment: None }),
        }
    }

    /// Mints the next asset of a collection to `recipient`, free of charge;
    /// only the factory's admin or operators may.
    pub fn execute_admin_mint(
        &self,
        sender: &String,
        collection_id: u32,
        recipient: &String,
        token: &mut TokenModule,
        now: u64,
    ) -> (r: Result<MintReceipt, MintError>)
        requires
            self.wf(),
            old(token).wf(),
        ensures
            final(token).wf(),
            r is Ok <==> factory_admin(self.view(), sender@) && bound_to(
                self.view(),
                collection_id,
                old(token).view(),
            ) && mint_allowed(old(token).view(), self.view().own, recipient@, Seq::empty(), now),
            r matches Err(e) ==> if !factory_admin(self.view(), sender@) {
                e == MintError::Unauthorized
            } else {
                admin_mint_fault(e, self.view(), old(token).view(), recipient@, collection_id, now)
            },
            r is Err ==> final(token).view() == old(token).view(),
            r matches Ok(m) ==> m.token_id == old(token).view().last_token_id + 1 && final(token).view()
                == minted_state(old(token).view(), recipient@),
    {
        match self.check_admin(sender) {
            Err(e) => Err(e),
            Ok(()) => self.mint_as_factory(collection_id, recipient, token, now),
        }
    }

    /// An admin mint that only lands if the link permission check on `links`
    /// passes first.
    pub fn execute_permission_mint(
        &self,
        sender: &String,
        links: &Vec<LinkMsg>,
        collection_id: u32,
        recipient: &String,
        token: &mut TokenModule,
        now: u64,
    ) -> (r: Result<MintReceipt, MintError>)
        requires
            self.wf(),
            old(token).wf(),
        ensures
            final(token).wf(),
            r is Ok <==> {
                &&& factory_admin(self.view(), sender@)
                &&& link_verdict(self.view().linked, links@) is None
                &&& bound_to(self.view(), collection_id, old(token).view())
                &&& mint_allowed(old(token).view(), self.view().own, recipient@, Seq::empty(), now)
            },
            r matches Err(e) ==> if !factory_admin(self.view(), sender@) {
                e == MintError::Unauthorized
            } else if link_verdict(self.view().linked, links@) is Some {
                e == MintError::Permission(link_verdict(self.view().linked, links@)->Some_0)
            } else {
                admin_mint_fault(e, self.view(), old(token).view(), recipient@, collection_id, now)
            },
            r is Err ==> final(token).view() == old(token).view(),
            r matches Ok(m) ==> m.token_id == old(token).view().last_token_id + 1 && final(token).view()
                == minted_state(old(token).view(), recipient@),
    {
        match self.check_admin(sender) {
            Err(e) => {
                return Err(e);
            },
            Ok(()) => {},
        }
        match crate::link::execute_check(self, links) {
            Err(e) => Err(MintError::Permission(e)),
            Ok(()) => self.mint_as_factory(collection_id, recipient, token, now),
        }
    }

    /// A page of the active (or blacklisted) registry: the entries after
    /// `start_after`, ascending by id, at most `limit` of them (30 by default).
    pub fn query_collections(&self, blacklist: bool, start_after: Option<u32>, limit: Option<u8>) -> (r: Vec<
        CollectionEntry,
    >)
        requires
            self.wf(),
        ensures
            is_window(
                registry(self.view(), blacklist),
                first_after(start_after),
                u32::MAX as u64,
                page_size(limit),
                r@.map_values(|e: CollectionEntry| e.collection_id as u64),
            ),
            forall|i: int|
                0 <= i < r@.len() ==> (#[trigger] r@[i]).address@ == registry(self.view(), blacklist)[r@[i].collection_id as u64],
    {
        let lo: u64 = match start_after {
            Some(a) => a as u64 + 1,
            None => 0,
        };
        let lim: usize = match limit {
            Some(l) => l as usize,
            None => DEFAULT_LIMIT as usize,
        };
        let reg = if blacklist {
            &self.blacklist
        } else {
            &self.collections
        };
        let ghost m = registry(self.view(), blacklist);
        assert(forall|k: u64| #[trigger] m.contains_key(k) == reg@.contains_key(k));
        let keys = reg.keys_in_range(lo, u32::MAX as u64, lim);
        assert(is_window(m, lo, u32::MAX as u64, lim as nat, keys@));
        let mut out: Vec<CollectionEntry> = Vec::new();
        let mut i: usize = 0;
        while i < keys.len()
            invariant
                reg.wf(),
                m == reg@.map_values(|a: String| a@),
                is_window(m, lo, u32::MAX as u64, lim as nat, keys@),
                i <= keys@.len(),
                out@.len() == i,
                forall|j: int| 0 <= j < i ==> (#[trigger] out@[j]).collection_id as u64 == keys@[j],
                forall|j: int| 0 <= j < i ==> (#[trigger] out@[j]).address@ == m[out@[j].collection_id as u64],
            decreases keys@.len() - i,
        {
            let k = keys[i];
            assert(m.contains_key(keys@[i as int]));
            match reg.get(k) {
                Some(a) => {
                    out.push(CollectionEntry { collection_id: k as u32, address: a.clone() });
                },
                None => {
                    assert(false);
                },
            }
            i = i + 1;
        }
        assert(out@.map_values(|e: CollectionEntry| e.collection_id as u64) =~= keys@);
        out
    }
}

/// Collection id disjointness: in a well-formed factory, no id is both in
/// the active registry and in the blacklist.
pub proof fn law_registries_disjoint(m: &MintModule, id: u32)
    requires
        m.wf(),
    ensures
        !(m.view().collections.contains_key(id as u64) && m.view().blacklist.contains_key(id as u64)),
{
    assert(registry_ok(m.view()));
    assert(!(m.view().collections.contains_key(id as u64) && m.view().blacklist.contains_key(id as u64)));
}

} // verus!
