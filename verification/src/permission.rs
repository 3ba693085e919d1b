//! A named action on a resource, optionally gated by a condition tag.

use vstd::prelude::*;

verus! {

/// A permission: an action name, the resource it applies to, and an
/// optional condition tag.
#[derive(Debug, Clone)]
pub struct Permission {
    pub name: String,
    pub resource: String,
    pub condition: Option<String>,
}

impl Permission {
    /// A permission with no condition is always granted; one with a
    /// condition is granted iff the candidate tag is present and matches it
    /// exactly (case-sensitive, no normalization).
    pub open spec fn spec_granted(self, condition: Option<String>) -> bool {
        match self.condition {
            Option::Some(c) => match condition {
                Option::Some(candidate) => candidate@ == c@,
                Option::None => false,
            },
            Option::None => true,
        }
    }

    /// A pure query: whether the permission is granted for the candidate
    /// condition tag.
    pub fn is_granted(&self, condition: Option<String>) -> (r: bool)
        ensures
            r == self.spec_granted(condition),
    {
        match &self.condition {
            Option::Some(c) => match &condition {
                Option::Some(candidate) => *candidate == *c,
                Option::None => false,
            },
            Option::None => true,
        }
    }
}

} // verus!
