//! Time-bounded sessions and the manager that holds them.
//!
//! A peripheral collaborator of the authorization core: sessions take no
//! part in access decisions, they are only created, checked for expiry and
//! removed by token or by user.

use vstd::prelude::*;

verus! {

/// One session: a user, an opaque token compared for equality, and an
/// expiration instant.
#[derive(Debug, Clone)]
pub struct Session {
    pub user: String,
    pub session_token: String,
    pub expiration: u64,
}

impl Session {
    pub fn new(user: &str, session_token: &str, expiration: u64) -> (s: Session)
        ensures
            s.user@ == user@,
            s.session_token@ == session_token@,
            s.expiration == expiration,
    {
        Session {
            user: user.to_owned(),
            session_token: session_token.to_owned(),
            expiration,
        }
    }

    /// True iff the session is valid at `now`: strictly before its
    /// expiration.
    pub open spec fn spec_valid(self, now: u64) -> bool {
        now < self.expiration
    }

    /// The session is valid at `now` iff `now` lies strictly before its
    /// expiration.
    pub fn is_session_valid_at(&self, now: u64) -> (r: bool)
        ensures
            r == self.spec_valid(now),
    {
        now < self.expiration
    }

    /// Checks validity against the system clock: the result is the
    /// validity at some instant, so a session that expires at time zero is
    /// never valid.
    pub fn is_session_valid(&self) -> (r: bool)
        ensures
            exists|now: u64| r == self.spec_valid(now),
            self.expiration == 0 ==> !r,
    {
        let now = crate::clock::now_seconds();
        self.is_session_valid_at(now)
    }
}

/// The sessions of `sessions` whose token does not read `token`.
pub open spec fn spec_without_token(sessions: Seq<Session>, token: Seq<char>) -> Seq<Session> {
    sessions.filter(|s: Session| s.session_token@ != token)
}

/// The sessions of `sessions` whose user does not read `user`.
pub open spec fn spec_without_user(sessions: Seq<Session>, user: Seq<char>) -> Seq<Session> {
    sessions.filter(|s: Session| s.user@ != user)
}

proof fn lemma_without_token_push(s: Seq<Session>, x: Session, token: Seq<char>)
    ensures
        spec_without_token(s.push(x), token) == if x.session_token@ != token {
            spec_without_token(s, token).push(x)
        } else {
            spec_without_token(s, token)
        },
{
    reveal(Seq::filter);
    assert(s.push(x).drop_last() =~= s);
    assert(s.push(x).last() == x);
}

proof fn lemma_without_user_push(s: Seq<Session>, x: Session, user: Seq<char>)
    ensures
        spec_without_user(s.push(x), user) == if x.user@ != user {
            spec_without_user(s, user).push(x)
        } else {
            spec_without_user(s, user)
        },
{
    reveal(Seq::filter);
    assert(s.push(x).drop_last() =~= s);
    assert(s.push(x).last() == x);
}

proof fn lemma_without_token_empty(token: Seq<char>)
    ensures
        spec_without_token(Seq::<Session>::empty(), token) == Seq::<Session>::empty(),
{
    reveal(Seq::filter);
}

proof fn lemma_without_user_empty(user: Seq<char>)
    ensures
        spec_without_user(Seq::<Session>::empty(), user) == Seq::<Session>::empty(),
{
    reveal(Seq::filter);
}

/// An unordered collection of sessions, removable by token or by user.
pub struct MultiSessionManager {
    pub sessions: Vec<Session>,
}

impl MultiSessionManager {
    pub fn new() -> (m: MultiSessionManager)
        ensures
            m.sessions@ == Seq::<Session>::empty(),
    {
        MultiSessionManager { sessions: Vec::new() }
    }

    pub fn add_session(&mut self, session: Session)
        ensures
            final(self).sessions@ == old(self).sessions@.push(session),
    {
        self.sessions.push(session);
    }

    /// Removes every session whose token reads `session_token`, keeping
    /// the others in order.
    pub fn end_session(&mut self, session_token: &str)
        ensures
            final(self).sessions@ == spec_without_token(old(self).sessions@, session_token@),
    {
        let target: String = session_token.to_owned();
        let mut remaining: Vec<Session> = Vec::new();
        core::mem::swap(&mut self.sessions, &mut remaining);
        let ghost orig: Seq<Session> = remaining@;
        proof {
            lemma_without_token_empty(session_token@);
            assert(orig.subrange(0, 0) =~= Seq::<Session>::empty());
        }
        while remaining.len() > 0
            invariant
                target@ == session_token@,
                remaining@.len() <= orig.len(),
                remaining@ == orig.subrange(
                    orig.len() - remaining@.len(),
                    orig.len() as int,
                ),
                self.sessions@ == spec_without_token(
                    orig.subrange(0, orig.len() - remaining@.len()),
                    session_token@,
                ),
            decreases remaining@.len(),
        {
            let ghost k: int = orig.len() - remaining@.len();
            let s = remaining.remove(0);
            proof {
                assert(s == orig[k]);
                assert(remaining@ =~= orig.subrange(k + 1, orig.len() as int));
                assert(orig.subrange(0, k + 1) =~= orig.subrange(0, k as int).push(orig[k]));
                lemma_without_token_push(orig.subrange(0, k as int), orig[k], session_token@);
            }
            if !(s.session_token == target) {
                self.sessions.push(s);
            }
        }
        proof {
            assert(orig.subrange(0, orig.len() as int) =~= orig);
        }
    }

    /// Removes every session of `user`, keeping the others in order.
    pub fn end_all_sessions(&mut self, user: &str)
        ensures
            final(self).sessions@ == spec_without_user(old(self).sessions@, user@),
    {
        let target: String = user.to_owned();
        let mut remaining: Vec<Session> = Vec::new();
        core::mem::swap(&mut self.sessions, &mut remaining);
        let ghost orig: Seq<Session> = remaining@;
        proof {
            lemma_without_user_empty(user@);
            assert(orig.subrange(0, 0) =~= Seq::<Session>::empty());
        }
        while remaining.len() > 0
            invariant
                target@ == user@,
                remaining@.len() <= orig.len(),
                remaining@ == orig.subrange(
                    orig.len() - remaining@.len(),
                    orig.len() as int,
                ),
                self.sessions@ == spec_without_user(
                    orig.subrange(0, orig.len() - remaining@.len()),
                    user@,
                ),
            decreases remaining@.len(),
        {
            let ghost k: int = orig.len() - remaining@.len();
            let s = remaining.remove(0);
            proof {
                assert(s == orig[k]);
                assert(remaining@ =~= orig.subrange(k + 1, orig.len() as int));
                assert(orig.subrange(0, k + 1) =~= orig.subrange(0, k as int).push(orig[k]));
                lemma_without_user_push(orig.subrange(0, k as int), orig[k], user@);
            }
            if !(s.user == target) {
                self.sessions.push(s);
            }
        }
        proof {
            assert(orig.subrange(0, orig.len() as int) =~= orig);
        }
    }
}

} // verus!
