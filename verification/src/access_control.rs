//! The roles assigned to one user, and the pure queries over them.
//!
//! The role list keeps insertion order and permits duplicates, but every
//! query is a plain existential over it, so the order never shows in a
//! result.

use vstd::prelude::*;

use crate::resource::Resource;
use crate::role::Role;

verus! {

/// The per-user aggregate of assigned roles.
pub struct AccessControl {
    pub user_roles: Vec<Role>,
}

impl AccessControl {
    /// True iff some assigned role's name is on the resource's allow-list.
    pub open spec fn spec_has_access(self, resource: Resource) -> bool {
        exists|i: int|
            0 <= i < self.user_roles@.len() && resource.spec_allows(self.user_roles@[i].name@)
    }

    /// True iff some assigned role carries `name`.
    pub open spec fn spec_has_role(self, name: Seq<char>) -> bool {
        exists|i: int| 0 <= i < self.user_roles@.len() && self.user_roles@[i].name@ == name
    }

    pub fn new() -> (ac: AccessControl)
        ensures
            ac.user_roles@ == Seq::<Role>::empty(),
    {
        AccessControl { user_roles: Vec::new() }
    }

    /// Appends a role; no deduplication takes place.
    pub fn add_role(&mut self, role: Role)
        ensures
            final(self).user_roles@ == old(self).user_roles@.push(role),
    {
        self.user_roles.push(role);
    }

    /// A pure query: true iff any assigned role grants access to
    /// `resource`. The result does not depend on the order of the roles.
    pub fn has_access(&self, resource: &Resource) -> (r: bool)
        ensures
            r == self.spec_has_access(*resource),
    {
        let mut i: usize = 0;
        while i < self.user_roles.len()
            invariant
                0 <= i <= self.user_roles@.len(),
                forall|j: int| 0 <= j < i ==> !resource.spec_allows(self.user_roles@[j].name@),
            decreases self.user_roles@.len() - i,
        {
            if resource.is_access_allowed(self.user_roles[i].name.as_str()) {
                return true;
            }
            i = i + 1;
        }
        false
    }

    /// A pure query: true iff the user has a role named `role_name`.
    pub fn has_role(&self, role_name: &str) -> (r: bool)
        ensures
            r == self.spec_has_role(role_name@),
    {
        let target: String = role_name.to_owned();
        let mut i: usize = 0;
        while i < self.user_roles.len()
            invariant
                0 <= i <= self.user_roles@.len(),
                forall|j: int| 0 <= j < i ==> self.user_roles@[j].name@ != role_name@,
                target@ == role_name@,
            decreases self.user_roles@.len() - i,
        {
            if self.user_roles[i].name == target {
                assert(self.user_roles@[i as int].name@ == role_name@);
                return true;
            }
            i = i + 1;
        }
        false
    }
}

} // verus!
