use vstd::prelude::*;

verus! {

/// How the metadata of a collection's assets is organised.
#[derive(Clone, Copy, Debug, PartialEq, Eq, Structural)]
pub enum Metadata {
    OneToOne,
    Static,
    Dynamic,
}

impl Metadata {
    /// The snake-case name of the metadata kind.
    pub fn as_str(&self) -> (r: &'static str)
        ensures
            r@ == match *self {
                Metadata::OneToOne => "one_to_one"@,
                Metadata::Static => "static"@,
                Metadata::Dynamic => "dynamic"@,
            },
    {
        match self {
            Metadata::OneToOne => "one_to_one",
            Metadata::Static => "static",
            Metadata::Dynamic => "dynamic",
        }
    }
}

} // verus!
