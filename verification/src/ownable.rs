//! A resource with a single named owner that can be handed over.

use vstd::prelude::*;

verus! {

/// Something owned by exactly one named owner at a time.
#[derive(Debug, Clone)]
pub struct Ownable {
    owner: String,
}

impl Ownable {
    /// The current owner's name.
    pub closed spec fn spec_owner(self) -> Seq<char> {
        self.owner@
    }

    pub fn new(owner: &str) -> (o: Ownable)
        ensures
            o.spec_owner() == owner@,
    {
        Ownable { owner: owner.to_owned() }
    }

    /// Hands the resource over: the new owner replaces the old one.
    pub fn transfer_ownership(&mut self, new_owner: &str)
        ensures
            final(self).spec_owner() == new_owner@,
    {
        self.owner = new_owner.to_owned();
    }

    /// A pure query: the current owner's name.
    pub fn get_owner(&self) -> (r: &str)
        ensures
            r@ == self.spec_owner(),
    {
        self.owner.as_str()
    }
}

} // verus!
