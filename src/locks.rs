use vstd::prelude::*;

verus! {

/// The four lock flags, held collection-wide and optionally per asset.
#[derive(Clone, Copy, Debug, PartialEq, Eq, Structural)]
pub struct Locks {
    pub mint_lock: bool,
    pub burn_lock: bool,
    pub transfer_lock: bool,
    pub send_lock: bool,
}

/// A mutating action that a lock can gate.
#[derive(Clone, Copy, Debug, PartialEq, Eq, Structural)]
pub enum Action {
    Mint,
    Burn,
    Transfer,
    Send,
}

/// The flag of `locks` that gates `action`.
pub open spec fn flag(action: Action, locks: Locks) -> bool {
    match action {
        Action::Mint => locks.mint_lock,
        Action::Burn => locks.burn_lock,
        Action::Transfer => locks.transfer_lock,
        Action::Send => locks.send_lock,
    }
}

/// The effective lock: the collection-wide flag, or the asset's own flag
/// when the asset has a lock record.
pub open spec fn locked(action: Action, collection: Locks, asset: Option<Locks>) -> bool {
    flag(action, collection) || (asset is Some && flag(action, asset->Some_0))
}

/// The lock triple a fixed listing holds on its asset.
pub open spec fn listing_locks() -> Locks {
    Locks { mint_lock: false, burn_lock: true, transfer_lock: true, send_lock: true }
}

/// No lock set.
pub open spec fn no_locks() -> Locks {
    Locks { mint_lock: false, burn_lock: false, transfer_lock: false, send_lock: false }
}

impl Locks {
    /// All four flags cleared.
    pub fn unlocked() -> (r: Locks)
        ensures
            r == no_locks(),
    {
        Locks { mint_lock: false, burn_lock: false, transfer_lock: false, send_lock: false }
    }

    /// Transfer, send and burn locked; mint left open.
    pub fn listed() -> (r: Locks)
        ensures
            r == listing_locks(),
    {
        Locks { mint_lock: false, burn_lock: true, transfer_lock: true, send_lock: true }
    }

    /// Whether this record sets the flag for `action`.
    pub fn blocks(&self, action: Action) -> (r: bool)
        ensures
            r == flag(action, *self),
    {
        match action {
            Action::Mint => self.mint_lock,
            Action::Burn => self.burn_lock,
            Action::Transfer => self.transfer_lock,
            Action::Send => self.send_lock,
        }
    }
}

/// Whether `action` is locked, given the collection-wide record and the
/// asset's own record if it has one.
pub fn is_locked(action: Action, collection: &Locks, asset: Option<&Locks>) -> (r: bool)
    ensures
        r == locked(action, *collection, match asset { Some(a) => Some(*a), None => None }),
{
    if collection.blocks(action) {
        return true;
    }
    match asset {
        Some(a) => a.blocks(action),
        None => false,
    }
}

} // verus!
