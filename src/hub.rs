use vstd::prelude::*;

use crate::keymap::KeyMap;

verus! {

/// The kinds of module a hub binds.
#[derive(Clone, Copy, Debug, PartialEq, Eq, Structural)]
pub enum ModuleKind {
    Mint,
    Permission,
    Merge,
    Marketplace,
    Fee,
}

/// The registry key of a module kind.
pub open spec fn kind_code(kind: ModuleKind) -> u64 {
    match kind {
        ModuleKind::Mint => 0,
        ModuleKind::Permission => 1,
        ModuleKind::Merge => 2,
        ModuleKind::Marketplace => 3,
        ModuleKind::Fee => 4,
    }
}

fn code_of(kind: ModuleKind) -> (r: u64)
    ensures
        r == kind_code(kind),
{
    match kind {
        ModuleKind::Mint => 0,
        ModuleKind::Permission => 1,
        ModuleKind::Merge => 2,
        ModuleKind::Marketplace => 3,
        ModuleKind::Fee => 4,
    }
}

/// Why the hub refused a registration.
#[derive(Clone, Copy, Debug, PartialEq, Eq, Structural)]
pub enum HubError {
    Unauthorized,
    /// The kind is already bound; a bound module is never replaced.
    ModuleAlreadyRegistered,
}

/// The abstract state of a hub.
#[verifier::ext_equal]
pub struct HubState {
    pub own: Seq<char>,
    /// The account that instantiated the hub.
    pub admin: Seq<char>,
    pub modules: Map<u64, Seq<char>>,
}

/// The hub: one bound address per module kind.
pub struct Hub {
    own: String,
    admin: String,
    modules: KeyMap<String>,
}

impl Hub {
    pub closed spec fn view(&self) -> HubState {
        HubState {
            own: self.own@,
            admin: self.admin@,
            modules: self.modules@.map_values(|a: String| a@),
        }
    }

    pub closed spec fn wf(&self) -> bool {
        self.modules.wf()
    }

    /// Creates the hub `own`, instantiated by `sender`, who becomes its admin.
    pub fn instantiate(own: &str, sender: &str) -> (r: Hub)
        ensures
            r.wf(),
            r.view().own == own@,
            r.view().admin == sender@,
            r.view().modules == Map::<u64, Seq<char>>::empty(),
    {
        let r = Hub { own: own.to_owned(), admin: sender.to_owned(), modules: KeyMap::new() };
        assert(r.view().modules =~= Map::<u64, Seq<char>>::empty());
        r
    }

    /// The address bound to `kind`, if any.
    pub fn module_address(&self, kind: ModuleKind) -> (r: Option<&String>)
        requires
            self.wf(),
        ensures
            match r {
                Some(a) => self.view().modules.contains_key(kind_code(kind)) && a@
                    == self.view().modules[kind_code(kind)],
                None => !self.view().modules.contains_key(kind_code(kind)),
            },
    {
        self.modules.get(code_of(kind))
    }

    /// Binds `addr` to `kind`; only the admin may, and only once per kind.
    pub fn register_module(&mut self, sender: &String, kind: ModuleKind, addr: &String) -> (r: Result<
        (),
        HubError,
    >)
        requires
            old(self).wf(),
        ensures
            final(self).wf(),
            r is Ok <==> sender@ == old(self).view().admin && !old(self).view().modules.contains_key(
                kind_code(kind),
            ),
            r matches Err(e) ==> e == if sender@ != old(self).view().admin {
                HubError::Unauthorized
            } else {
                HubError::ModuleAlreadyRegistered
            },
            r is Err ==> final(self).view() == old(self).view(),
            r is Ok ==> final(self).view() == (HubState {
                modules: old(self).view().modules.insert(kind_code(kind), addr@),
                ..old(self).view()
            }),
    {
        let ghost s = self.view();
        if *sender != self.admin {
            return Err(HubError::Unauthorized);
        }
        let code = code_of(kind);
        if self.modules.contains_key(code) {
            return Err(HubError::ModuleAlreadyRegistered);
        }
        self.modules.insert(code, addr.clone());
        assert(self.view().modules =~= s.modules.insert(kind_code(kind), addr@));
        Ok(())
    }
}

} // verus!
