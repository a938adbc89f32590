//! The shared, read-only external dependency behind the service
//! factory: a capability that every session's service instance may
//! consult without owning. Two interchangeable providers stand behind
//! one trait.

use vstd::prelude::*;

verus! {

/// A read-only external dependency, shared by all sessions.
pub trait ExternalState {
    /// The value this provider answers with.
    spec fn spec_value(&self) -> Seq<char>;

    fn get_value(&self) -> (r: String)
        ensures
            r@ == self.spec_value(),
    ;
}

/// First provider.
#[derive(Clone, Copy, PartialEq, Eq, Structural, Debug)]
pub struct ExternalA {}

/// Second provider.
#[derive(Clone, Copy, PartialEq, Eq, Structural, Debug)]
pub struct ExternalB {}

impl ExternalState for ExternalA {
    open spec fn spec_value(&self) -> Seq<char> {
        "A"@
    }

    fn get_value(&self) -> (r: String) {
        "A".to_owned()
    }
}

impl ExternalState for ExternalB {
    open spec fn spec_value(&self) -> Seq<char> {
        "B"@
    }

    fn get_value(&self) -> (r: String) {
        "B".to_owned()
    }
}

} // verus!
