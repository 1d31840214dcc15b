use vstd::prelude::*;

use crate::mint::{contains_id, MintModule};

verus! {

/// One reference to check: the collections that an action on
/// `collection_id` draws on.
#[derive(Debug)]
pub struct LinkMsg {
    pub collection_id: u32,
    pub collection_ids: Vec<u32>,
}

/// Why a link permission check denied an action.
#[derive(Clone, Copy, Debug, PartialEq, Eq, Structural)]
pub enum LinkError {
    /// The action references nothing to check.
    EmptyReferenceSet,
    /// A referenced collection is not declared as linked to its primary collection.
    ReferenceNotAuthorized,
}

/// The collections declared as linked to `id`.
pub open spec fn linked_to(linked: Map<u64, Seq<u32>>, id: u32) -> Seq<u32> {
    if linked.contains_key(id as u64) {
        linked[id as u64]
    } else {
        Seq::empty()
    }
}

/// The verdict on one reference.
pub open spec fn msg_verdict(linked: Map<u64, Seq<u32>>, m: LinkMsg) -> Option<LinkError> {
    if m.collection_ids@.len() == 0 {
        Some(LinkError::EmptyReferenceSet)
    } else if exists|j: int|
        0 <= j < m.collection_ids@.len() && !linked_to(linked, m.collection_id).contains(
            #[trigger] m.collection_ids@[j],
        ) {
        Some(LinkError::ReferenceNotAuthorized)
    } else {
        None
    }
}

/// The verdict on the references from index `i` on: that of the first one
/// refused, if any.
pub open spec fn verdict_from(linked: Map<u64, Seq<u32>>, msgs: Seq<LinkMsg>, i: int) -> Option<
    LinkError,
>
    decreases msgs.len() - i,
{
    if i < 0 || i >= msgs.len() {
        None
    } else if msg_verdict(linked, msgs[i]) is Some {
        msg_verdict(linked, msgs[i])
    } else {
        verdict_from(linked, msgs, i + 1)
    }
}

/// The verdict on a whole check: an empty list references nothing.
pub open spec fn link_verdict(linked: Map<u64, Seq<u32>>, msgs: Seq<LinkMsg>) -> Option<LinkError> {
    if msgs.len() == 0 {
        Some(LinkError::EmptyReferenceSet)
    } else {
        verdict_from(linked, msgs, 0)
    }
}

/// The link permission check: every reference must name at least one
/// collection, and every collection it names must be declared as linked to
/// its primary collection in the factory `mint`.
pub fn execute_check(mint: &MintModule, msgs: &Vec<LinkMsg>) -> (r: Result<(), LinkError>)
    requires
        mint.wf(),
    ensures
        match r {
            Ok(()) => link_verdict(mint.view().linked, msgs@) is None,
            Err(e) => link_verdict(mint.view().linked, msgs@) == Some(e),
        },
{
    let ghost linked = mint.view().linked;
    if msgs.len() == 0 {
        return Err(LinkError::EmptyReferenceSet);
    }
    let mut i: usize = 0;
    while i < msgs.len()
        invariant
            mint.wf(),
            linked == mint.view().linked,
            i <= msgs@.len(),
            verdict_from(linked, msgs@, 0) == verdict_from(linked, msgs@, i as int),
        decreases msgs@.len() - i,
    {
        let m = &msgs[i];
        if m.collection_ids.len() == 0 {
            return Err(LinkError::EmptyReferenceSet);
        }
        let allowed = mint.query_linked_collections(m.collection_id);
        let mut j: usize = 0;
        while j < m.collection_ids.len()
            invariant
                i < msgs@.len(),
                linked == mint.view().linked,
                msgs@[i as int] == *m,
                verdict_from(linked, msgs@, 0) == verdict_from(linked, msgs@, i as int),
                allowed@ == linked_to(linked, m.collection_id),
                j <= m.collection_ids@.len(),
                forall|x: int| 0 <= x < j ==> allowed@.contains(#[trigger] m.collection_ids@[x]),
            decreases m.collection_ids@.len() - j,
        {
            if !contains_id(&allowed, m.collection_ids[j]) {
                assert(msg_verdict(linked, *m) == Some(LinkError::ReferenceNotAuthorized));
                assert(msgs@[i as int] == *m);
                assert(verdict_from(linked, msgs@, i as int) == Some(
                    LinkError::ReferenceNotAuthorized,
                ));
                return Err(LinkError::ReferenceNotAuthorized);
            }
            j = j + 1;
        }
        assert(msg_verdict(linked, *m) is None);
        i = i + 1;
    }
    Ok(())
}

} // verus!
