use vstd::prelude::*;

verus! {

/// The caller was not allowed to perform the action.
#[derive(Debug, PartialEq, Eq)]
pub struct Unauthorized;

/// Whether `sender` holds admin privileges over an actor: it is the actor
/// itself, its admin, its parent (the actor that created it), or one of its
/// operators.
pub open spec fn privileged(
    sender: Seq<char>,
    own: Seq<char>,
    admin: Seq<char>,
    parent: Option<Seq<char>>,
    operators: Seq<Seq<char>>,
) -> bool {
    sender == own || sender == admin || parent == Some(sender) || operators.contains(sender)
}

/// The views of a list of addresses.
pub open spec fn addrs_view(addrs: Seq<String>) -> Seq<Seq<char>> {
    addrs.map_values(|a: String| a@)
}

/// Checks that `sender` is privileged; `operators` is `None` where the
/// action admits no operators.
pub fn check_admin_privileges(
    sender: &String,
    own: &String,
    admin: &String,
    parent: Option<&String>,
    operators: Option<&Vec<String>>,
) -> (r: Result<(), Unauthorized>)
    ensures
        r is Ok <==> privileged(
            sender@,
            own@,
            admin@,
            match parent { Some(p) => Some(p@), None => None },
            match operators { Some(o) => addrs_view(o@), None => Seq::empty() },
        ),
{
    if *sender == *own || *sender == *admin {
        return Ok(());
    }
    if let Some(p) = parent {
        if *sender == *p {
            return Ok(());
        }
    }
    match operators {
        Some(ops) => {
            if contains_addr(ops, sender) {
                Ok(())
            } else {
                Err(Unauthorized)
            }
        },
        None => {
            assert(!Seq::<Seq<char>>::empty().contains(sender@));
            Err(Unauthorized)
        },
    }
}

/// Whether `addr` occurs in `addrs`.
pub fn contains_addr(addrs: &Vec<String>, addr: &String) -> (r: bool)
    ensures
        r == addrs_view(addrs@).contains(addr@),
{
    let mut i: usize = 0;
    while i < addrs.len()
        invariant
            i <= addrs.len(),
            forall|j: int| 0 <= j < i ==> addrs@[j]@ != addr@,
        decreases addrs.len() - i,
    {
        if addrs[i] == *addr {
            assert(addrs_view(addrs@)[i as int] == addr@);
            return true;
        }
        i = i + 1;
    }
    assert(!addrs_view(addrs@).contains(addr@)) by {
        if addrs_view(addrs@).contains(addr@) {
            let j = choose|j: int| 0 <= j < addrs_view(addrs@).len() && addrs_view(addrs@)[j] == addr@;
            assert(addrs@[j]@ == addr@);
        }
    }
    false
}

} // verus!
