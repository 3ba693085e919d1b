//! The top-level facade: the user table and one shared rate limiter,
//! composed into a single admission decision.
//!
//! The rate limiter is shared across all users: one global admission
//! budget, not a per-user one. Lookups honour only the first entry for a
//! username; `add_user` appends even for a name already present, so a
//! second entry for the same name is dead state.

use vstd::prelude::*;

use crate::access_control::AccessControl;
use crate::lookup::lemma_first_index;
use crate::lookup::spec_first_index;
use crate::lookup::spec_first_value;
use crate::rate_limiter::RateLimiter;
use crate::resource::Resource;
use crate::role::Role;

verus! {

/// Maps usernames to their access control and gates every check through
/// one shared rate limiter.
pub struct AccessManager {
    pub users: Vec<(String, AccessControl)>,
    pub rate_limiter: RateLimiter,
}

impl AccessManager {
    /// The access control consulted for `username`: that of the first
    /// entry carrying the name, if any.
    pub open spec fn spec_user(self, username: Seq<char>) -> Option<AccessControl> {
        spec_first_value(self.users@, username)
    }

    /// The admission decision for a check arriving at `now`: the user is
    /// known, the shared limiter admits the request, and some assigned
    /// role is on the resource's allow-list. An unknown user is denied
    /// without consuming any budget.
    pub open spec fn spec_grants(self, username: Seq<char>, resource: Resource, now: u64) -> bool {
        match self.spec_user(username) {
            Option::Some(ac) => self.rate_limiter.spec_admits(now) && ac.spec_has_access(resource),
            Option::None => false,
        }
    }

    /// A manager with no users and the default admission budget of 100
    /// requests per 60-second window.
    pub fn new() -> (m: AccessManager)
        ensures
            m.users@ == Seq::<(String, AccessControl)>::empty(),
            m.rate_limiter.max_requests == 100,
            m.rate_limiter.window == 60,
            m.rate_limiter.requests == 0,
            m.rate_limiter.spec_wf(),
    {
        AccessManager { users: Vec::new(), rate_limiter: RateLimiter::new(100, 60) }
    }

    /// Appends an entry for `username` holding a fresh access control
    /// seeded with `role`. A name already present gets a second, dead
    /// entry; lookups keep seeing the first.
    pub fn add_user(&mut self, username: &str, role: Role)
        ensures
            final(self).users@.len() == old(self).users@.len() + 1,
            final(self).users@.subrange(0, old(self).users@.len() as int) == old(self).users@,
            final(self).users@.last().0@ == username@,
            final(self).users@.last().1.user_roles@ == seq![role],
            final(self).rate_limiter == old(self).rate_limiter,
    {
        let mut access_control = AccessControl::new();
        access_control.add_role(role);
        self.users.push((username.to_owned(), access_control));
    }

    /// The index of the first entry for `username`, if any.
    fn find_user_index(&self, username: &str) -> (idx: Option<usize>)
        ensures
            match idx {
                Option::Some(i) => spec_first_index(self.users@, username@) == Option::Some(
                    i as int,
                ),
                Option::None => spec_first_index(self.users@, username@) is None,
            },
    {
        let target: String = username.to_owned();
        let mut i: usize = 0;
        while i < self.users.len()
            invariant
                0 <= i <= self.users@.len(),
                forall|j: int| 0 <= j < i ==> self.users@[j].0@ != username@,
                target@ == username@,
            decreases self.users@.len() - i,
        {
            if self.users[i].0 == target {
                proof {
                    lemma_first_index(self.users@, username@);
                }
                return Option::Some(i);
            }
            i = i + 1;
        }
        proof {
            lemma_first_index(self.users@, username@);
        }
        Option::None
    }

    /// Decides one access request arriving at `now`: an unknown user is
    /// denied and nothing changes; for a known user the shared limiter
    /// takes one step at `now`, and the request is granted iff the limiter
    /// admitted it and some assigned role is on the allow-list.
    pub fn check_access_at(&mut self, username: &str, resource: &Resource, now: u64) -> (r: bool)
        ensures
            r == old(self).spec_grants(username@, *resource, now),
            final(self).users@ == old(self).users@,
            old(self).spec_user(username@) is Some ==> final(self).rate_limiter == old(
                self,
            ).rate_limiter.spec_stepped(now),
            old(self).spec_user(username@) is None ==> *final(self) == *old(self),
    {
        match self.find_user_index(username) {
            Option::Some(i) => {
                proof {
                    lemma_first_index(self.users@, username@);
                }
                let admitted = self.rate_limiter.is_within_limit_at(now);
                if admitted {
                    self.users[i].1.has_access(resource)
                } else {
                    false
                }
            },
            Option::None => false,
        }
    }

    /// Decides one access request against the current system time. The
    /// user table never changes; an unknown user is denied with no budget
    /// consumed; a grant can only go to a known user with a role on the
    /// allow-list; and the limiter moves by one step taken at some
    /// instant.
    pub fn check_access(&mut self, username: &str, resource: &Resource) -> (r: bool)
        ensures
            final(self).users@ == old(self).users@,
            final(self).rate_limiter.max_requests == old(self).rate_limiter.max_requests,
            final(self).rate_limiter.window == old(self).rate_limiter.window,
            old(self).rate_limiter.spec_wf() ==> final(self).rate_limiter.spec_wf(),
            final(self).rate_limiter.start_time >= old(self).rate_limiter.start_time,
            old(self).spec_user(username@) is None ==> !r && *final(self) == *old(self),
            r ==> (old(self).spec_user(username@) matches Option::Some(ac)
                && ac.spec_has_access(*resource)),
            exists|now: u64|
                r == old(self).spec_grants(username@, *resource, now) && (old(self).spec_user(
                    username@,
                ) is Some ==> final(self).rate_limiter == old(self).rate_limiter.spec_stepped(
                    now,
                )),
    {
        let now = crate::clock::now_seconds();
        self.check_access_at(username, resource, now)
    }

    /// Appends `role` to the first entry for `username`; silently a no-op
    /// when the user is unknown.
    pub fn add_role_to_user(&mut self, username: &str, role: Role)
        ensures
            final(self).rate_limiter == old(self).rate_limiter,
            spec_first_index(old(self).users@, username@) is None ==> *final(self) == *old(self),
            spec_first_index(old(self).users@, username@) matches Option::Some(i) ==> {
                &&& final(self).users@.len() == old(self).users@.len()
                &&& (forall|j: int|
                    0 <= j < old(self).users@.len() && j != i ==> final(self).users@[j] == old(
                        self,
                    ).users@[j])
                &&& final(self).users@[i].0 == old(self).users@[i].0
                &&& final(self).users@[i].1.user_roles@ == old(
                    self,
                ).users@[i].1.user_roles@.push(role)
            },
    {
        match self.find_user_index(username) {
            Option::Some(i) => {
                proof {
                    lemma_first_index(self.users@, username@);
                }
                let mut pair = self.users.remove(i);
                pair.1.add_role(role);
                self.users.insert(i, pair);
            },
            Option::None => {},
        }
    }
}

/// The admission gate dominates role evaluation: whenever the shared
/// limiter does not admit a request at `now`, no user is granted access at
/// `now`, whatever roles they hold.
pub proof fn lemma_admission_gate_dominates(
    m: AccessManager,
    username: Seq<char>,
    resource: Resource,
    now: u64,
)
    requires
        !m.rate_limiter.spec_admits(now),
    ensures
        !m.spec_grants(username, resource, now),
{
}

} // verus!
