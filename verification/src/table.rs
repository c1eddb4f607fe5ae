//! The session table: a hash map from user to session, kept behind a small
//! set of operations whose effect on the table's contents is stated here and
//! taken on trust from the map's implementation.

use vstd::prelude::*;
use crate::ids::ActorId;
use crate::session::{Session, SessionView};

verus! {

/// The sessions of all users, in a hash map keyed by the two halves of the
/// user's identifier.
#[verifier::external_body]
pub struct SessionTable {
    inner: gstd::collections::HashMap<(u128, u128), Session>,
}

/// What the table holds: each user that has a session, with the session's value.
pub uninterp spec fn table_sessions(table: SessionTable) -> Map<ActorId, SessionView>;

/// The contents of a table without entries.
pub open spec fn no_sessions() -> Map<ActorId, SessionView> {
    Map::empty()
}

/// `entries` lists `sessions` completely and truly, each user once, in some order.
pub open spec fn lists_exactly(
    entries: Seq<(ActorId, Session)>,
    sessions: Map<ActorId, SessionView>,
) -> bool {
    &&& forall|i: int|
        0 <= i < entries.len() ==> sessions.contains_key((#[trigger] entries[i]).0)
            && sessions[entries[i].0] == entries[i].1@
    &&& forall|i: int, j: int|
        0 <= i < j < entries.len() ==> (#[trigger] entries[i]).0 != (#[trigger] entries[j]).0
    &&& forall|user: ActorId| #[trigger]
        sessions.contains_key(user) ==> exists|i: int|
            0 <= i < entries.len() && (#[trigger] entries[i]).0 == user
}

impl SessionTable {
    /// `HashMap::new`: a map that holds nothing.
    #[verifier::external_body]
    pub(crate) fn new() -> (created: SessionTable)
        ensures
            table_sessions(created) == no_sessions(),
    {
        SessionTable { inner: gstd::collections::HashMap::new() }
    }

    /// `HashMap::contains_key`: whether the user has an entry.
    #[verifier::external_body]
    pub(crate) fn contains_key(&self, user: ActorId) -> (present: bool)
        ensures
            present == table_sessions(*self).contains_key(user),
    {
        self.inner.contains_key(&(user.hi, user.lo))
    }

    /// `HashMap::get`: the user's session, if there is one.
    #[verifier::external_body]
    pub(crate) fn get(&self, user: ActorId) -> (found: Option<&Session>)
        ensures
            found is Some == table_sessions(*self).contains_key(user),
            found is Some ==> found->0@ == table_sessions(*self)[user],
    {
        self.inner.get(&(user.hi, user.lo))
    }

    /// `HashMap::insert`: afterwards the user's entry is `session`, whether
    /// or not there was one before, and no other entry has changed.
    #[verifier::external_body]
    pub(crate) fn insert(&mut self, user: ActorId, session: Session)
        ensures
            table_sessions(*final(self)) == table_sessions(*old(self)).insert(user, session@),
    {
        self.inner.insert((user.hi, user.lo), session);
    }

    /// `HashMap::remove`: takes the user's entry out and returns its session,
    /// or returns nothing and changes nothing if there was none.
    #[verifier::external_body]
    pub(crate) fn remove(&mut self, user: ActorId) -> (taken: Option<Session>)
        ensures
            taken is Some == table_sessions(*old(self)).contains_key(user),
            taken is Some ==> taken->0@ == table_sessions(*old(self))[user],
            table_sessions(*final(self)) == table_sessions(*old(self)).remove(user),
    {
        self.inner.remove(&(user.hi, user.lo))
    }

    /// `HashMap::iter`, collected: every entry once, as a pair of the user
    /// and a copy of the session, in an order that the map chooses.
    #[verifier::external_body]
    pub(crate) fn entries(&self) -> (entries: Vec<(ActorId, Session)>)
        ensures
            lists_exactly(entries@, table_sessions(*self)),
    {
        self.inner.iter().map(|(key, session)| (ActorId { hi: key.0, lo: key.1 }, session.clone())).collect()
    }
}

} // verus!
