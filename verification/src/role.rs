//! Roles and their single optional parent, plus time-bounded role
//! delegations.
//!
//! A role owns its optional parent outright, so a parent chain is a finite
//! tree path and can never form a cycle: dominance queries terminate by
//! construction.

use vstd::prelude::*;

verus! {

/// A named role with an optional owned parent role.
#[derive(Debug)]
pub struct Role {
    pub name: String,
    pub parent_role: Option<Box<Role>>,
}

impl Clone for Role {
    /// A clone of a role is equal to it, parent chain included.
    fn clone(&self) -> (r: Role)
        ensures
            r == *self,
        decreases self,
    {
        Role {
            name: self.name.clone(),
            parent_role: match &self.parent_role {
                Option::Some(p) => Option::Some(Box::new((**p).clone())),
                Option::None => Option::None,
            },
        }
    }
}

impl Role {
    /// True iff `name` is the name of this role or of some ancestor in its
    /// parent chain.
    pub open spec fn spec_in_chain(self, name: Seq<char>) -> bool
        decreases self,
    {
        self.name@ == name || match self.parent_role {
            Option::Some(p) => p.spec_in_chain(name),
            Option::None => false,
        }
    }

    pub fn new(name: &str, parent: Option<Box<Role>>) -> (r: Role)
        ensures
            r.name@ == name@,
            r.parent_role == parent,
    {
        Role { name: name.to_owned(), parent_role: parent }
    }

    /// True iff `other`'s name appears in this role's parent chain,
    /// inclusive of this role itself.
    pub fn is_higher_or_equal(&self, other: &Role) -> (r: bool)
        ensures
            r == self.spec_in_chain(other.name@),
        decreases self,
    {
        if self.name == other.name {
            true
        } else {
            match &self.parent_role {
                Option::Some(parent) => parent.is_higher_or_equal(other),
                Option::None => false,
            }
        }
    }
}

/// Every role dominates itself: `is_higher_or_equal` is reflexive.
pub proof fn lemma_higher_or_equal_reflexive(r: Role)
    ensures
        r.spec_in_chain(r.name@),
{
}

/// Dominance runs up a chain: a role whose parent is `parent`, whose own
/// parent is `grand`, dominates `grand`; and when `grand` has no parent of
/// its own and its chain (just its own name) misses `child`'s name, `grand`
/// does not dominate `child`.
pub proof fn lemma_chain_dominance(child: Role, parent: Role, grand: Role)
    requires
        child.parent_role matches Option::Some(p) && *p == parent,
        parent.parent_role matches Option::Some(q) && *q == grand,
    ensures
        child.spec_in_chain(grand.name@),
        grand.parent_role is None && grand.name@ != child.name@ ==> !grand.spec_in_chain(
            child.name@,
        ),
{
    assert(grand.spec_in_chain(grand.name@));
    assert(parent.spec_in_chain(grand.name@));
}

/// A time-bounded loan of a role from `delegator` to `delegatee`,
/// valid strictly before `expiration`.
pub struct RoleDelegation {
    pub delegator: String,
    pub delegatee: String,
    pub role: Role,
    pub expiration: u64,
}

impl RoleDelegation {
    pub fn new(delegator: &str, delegatee: &str, role: Role, expiration: u64) -> (d:
        RoleDelegation)
        ensures
            d.delegator@ == delegator@,
            d.delegatee@ == delegatee@,
            d.role == role,
            d.expiration == expiration,
    {
        RoleDelegation {
            delegator: delegator.to_owned(),
            delegatee: delegatee.to_owned(),
            role,
            expiration,
        }
    }

    /// True iff the delegation is valid at `now`: strictly before its
    /// expiration.
    pub open spec fn spec_valid(self, now: u64) -> bool {
        now < self.expiration
    }

    /// The delegation is valid at `now` iff `now` lies strictly before its
    /// expiration.
    pub fn is_valid_at(&self, now: u64) -> (r: bool)
        ensures
            r == self.spec_valid(now),
    {
        now < self.expiration
    }

    /// Checks validity against the system clock: the result is the
    /// validity at some instant, so a delegation that expires at time zero
    /// is never valid.
    pub fn is_valid(&self) -> (r: bool)
        ensures
            exists|now: u64| r == self.spec_valid(now),
            self.expiration == 0 ==> !r,
    {
        let now = crate::clock::now_seconds();
        self.is_valid_at(now)
    }
}

} // verus!
