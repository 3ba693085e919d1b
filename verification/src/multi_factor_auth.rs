//! A second-factor token bound to a user and an expiration instant.

use vstd::prelude::*;

verus! {

/// A second factor: an opaque token compared for equality, valid strictly
/// before its expiration.
#[derive(Debug, Clone)]
pub struct MultiFactorAuth {
    pub user: String,
    pub factor_token: String,
    pub token_expiration: u64,
}

impl MultiFactorAuth {
    pub fn new(user: &str, factor_token: &str, token_expiration: u64) -> (m: MultiFactorAuth)
        ensures
            m.user@ == user@,
            m.factor_token@ == factor_token@,
            m.token_expiration == token_expiration,
    {
        MultiFactorAuth {
            user: user.to_owned(),
            factor_token: factor_token.to_owned(),
            token_expiration,
        }
    }

    /// True iff `token` verifies at `now`: strictly before the expiration
    /// and matching the stored token exactly.
    pub open spec fn spec_verifies(self, token: Seq<char>, now: u64) -> bool {
        now < self.token_expiration && self.factor_token@ == token
    }

    /// The token verifies at `now` iff `now` lies strictly before the
    /// expiration and the candidate matches the stored token exactly.
    pub fn verify_token_at(&self, token: &str, now: u64) -> (r: bool)
        ensures
            r == self.spec_verifies(token@, now),
    {
        let candidate: String = token.to_owned();
        now < self.token_expiration && self.factor_token == candidate
    }

    /// Verifies against the system clock: the result is the verification
    /// at some instant, so a mismatched token never verifies, and neither
    /// does a token that expires at time zero.
    pub fn verify_token(&self, token: &str) -> (r: bool)
        ensures
            exists|now: u64| r == self.spec_verifies(token@, now),
            r ==> self.factor_token@ == token@,
            self.token_expiration == 0 ==> !r,
    {
        let now = crate::clock::now_seconds();
        self.verify_token_at(token, now)
    }
}

} // verus!
