//! Resources with role allow-lists, and named groups of resources.
//!
//! Access is an exact string match against the allow-list: no hierarchy
//! expansion happens here; a caller who wants hierarchical grants walks the
//! role chain first.

use vstd::prelude::*;

verus! {

/// A named resource and the role names allowed to access it.
#[derive(Debug, Clone)]
pub struct Resource {
    pub name: String,
    pub allowed_roles: Vec<String>,
}

impl Resource {
    /// True iff `role` is a member of the allow-list.
    pub open spec fn spec_allows(self, role: Seq<char>) -> bool {
        exists|i: int| 0 <= i < self.allowed_roles@.len() && self.allowed_roles@[i]@ == role
    }

    pub fn new(name: &str, allowed_roles: Vec<String>) -> (r: Resource)
        ensures
            r.name@ == name@,
            r.allowed_roles == allowed_roles,
    {
        Resource { name: name.to_owned(), allowed_roles }
    }

    /// A pure query: true iff `role` is on the allow-list, by exact string
    /// match.
    pub fn is_access_allowed(&self, role: &str) -> (r: bool)
        ensures
            r == self.spec_allows(role@),
    {
        let target: String = role.to_owned();
        let mut i: usize = 0;
        while i < self.allowed_roles.len()
            invariant
                0 <= i <= self.allowed_roles@.len(),
                forall|j: int| 0 <= j < i ==> self.allowed_roles@[j]@ != role@,
                target@ == role@,
            decreases self.allowed_roles@.len() - i,
        {
            if self.allowed_roles[i] == target {
                assert(self.allowed_roles@[i as int]@ == role@);
                return true;
            }
            i = i + 1;
        }
        false
    }
}

/// A named group of resources; access to the group is access to any member.
pub struct ResourceGroup {
    pub group_name: String,
    pub resources: Vec<Resource>,
}

impl ResourceGroup {
    /// True iff some member resource allows `role`.
    pub open spec fn spec_allows(self, role: Seq<char>) -> bool {
        exists|i: int| 0 <= i < self.resources@.len() && self.resources@[i].spec_allows(role)
    }

    pub fn new(group_name: &str, resources: Vec<Resource>) -> (g: ResourceGroup)
        ensures
            g.group_name@ == group_name@,
            g.resources == resources,
    {
        ResourceGroup { group_name: group_name.to_owned(), resources }
    }

    /// A pure query: the logical OR of `is_access_allowed` over the members.
    pub fn is_access_allowed(&self, role: &str) -> (r: bool)
        ensures
            r == self.spec_allows(role@),
    {
        let mut i: usize = 0;
        while i < self.resources.len()
            invariant
                0 <= i <= self.resources@.len(),
                forall|j: int| 0 <= j < i ==> !self.resources@[j].spec_allows(role@),
            decreases self.resources@.len() - i,
        {
            if self.resources[i].is_access_allowed(role) {
                return true;
            }
            i = i + 1;
        }
        false
    }
}

} // verus!
