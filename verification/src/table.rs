use vstd::prelude::*;
use gstd::ActorId;
use gstd::collections::HashMap;
use crate::io::{UserEvent, UserEventView, UserStatus};

verus! {

/// One user's record: how the game stands and what was last said about it.
#[derive(Debug, Clone)]
pub struct UserSession {
    pub status: UserStatus,
    /// Guesses answered by the oracle so far.
    pub tries: u32,
    /// Positions the latest guess had right.
    pub correct_position: Vec<u8>,
    /// Positions whose letter of the latest guess occurs elsewhere in the word.
    pub contained_in_word: Vec<u8>,
    /// The latest reply computed for the user.
    pub last_event: UserEvent,
}

/// What a record says.
pub struct SessionView {
    pub status: UserStatus,
    pub tries: u32,
    pub correct_position: Seq<u8>,
    pub contained_in_word: Seq<u8>,
    pub last_event: UserEventView,
}

impl View for UserSession {
    type V = SessionView;

    open spec fn view(&self) -> SessionView {
        SessionView {
            status: self.status,
            tries: self.tries,
            correct_position: self.correct_position@,
            contained_in_word: self.contained_in_word@,
            last_event: self.last_event@,
        }
    }
}

/// The records by user, kept in `gstd::collections::HashMap`. Verus sees
/// nothing inside: `table_entries` names what the map holds, and the four
/// functions below that are marked `external_body` say, unproved, what the
/// map's own methods do to it.
#[verifier::external_body]
pub struct SessionTable {
    inner: HashMap<ActorId, UserSession>,
}

/// The records that a table holds, by user.
pub uninterp spec fn table_entries(t: SessionTable) -> Map<ActorId, UserSession>;

impl View for SessionTable {
    type V = Map<ActorId, SessionView>;

    open spec fn view(&self) -> Map<ActorId, SessionView> {
        Map::new(
            |u: ActorId| table_entries(*self).dom().contains(u),
            |u: ActorId| table_entries(*self)[u]@,
        )
    }
}

impl SessionTable {
    /// Calls `HashMap::new`: the new map holds nothing.
    #[verifier::external_body]
    pub(crate) fn new() -> (table: SessionTable)
        ensures
            table_entries(table).dom() == Set::<ActorId>::empty(),
    {
        SessionTable { inner: HashMap::new() }
    }

    /// Calls `HashMap::get`: the record stored under `user`, if there is one.
    #[verifier::external_body]
    pub(crate) fn get(&self, user: &ActorId) -> (r: Option<&UserSession>)
        ensures
            match r {
                Some(session) => table_entries(*self).dom().contains(*user) && *session
                    == table_entries(*self)[*user],
                None => !table_entries(*self).dom().contains(*user),
            },
    {
        self.inner.get(user)
    }

    /// Calls `HashMap::insert`: afterwards `user` maps to `session`, whether
    /// or not it had a record before, and every other user's record is as it
    /// was. The call does not unwind: hashing and comparing identities cannot
    /// fail, a failed allocation aborts, and the map cannot outgrow the
    /// address space.
    #[verifier::external_body]
    pub(crate) fn insert(&mut self, user: ActorId, session: UserSession)
        ensures
            table_entries(*final(self)) == table_entries(*old(self)).insert(user, session),
        no_unwind
    {
        self.inner.insert(user, session);
    }

    /// Calls `HashMap::iter`, which visits every entry once, in an order that
    /// is left open: the result names each user of the table exactly once,
    /// with the status of that user's record.
    #[verifier::external_body]
    pub(crate) fn statuses(&self) -> (r: Vec<(ActorId, UserStatus)>)
        ensures
            forall|i: int|
                0 <= i < r@.len() ==> table_entries(*self).dom().contains(#[trigger] r@[i].0)
                    && r@[i].1 == table_entries(*self)[r@[i].0].status,
            forall|u: ActorId| #[trigger]
                table_entries(*self).dom().contains(u) ==> exists|i: int|
                    0 <= i < r@.len() && (#[trigger] r@[i]).0 == u,
            forall|i: int, j: int|
                0 <= i < j < r@.len() ==> (#[trigger] r@[i]).0 != (#[trigger] r@[j]).0,
    {
        self.inner.iter().map(|(user, session)| (*user, session.status)).collect()
    }

    /// The record of `user`, if there is one.
    pub(crate) fn find(&self, user: &ActorId) -> (r: Option<&UserSession>)
        ensures
            match r {
                Some(session) => self@.dom().contains(*user) && session@ == self@[*user],
                None => !self@.dom().contains(*user),
            },
    {
        self.get(user)
    }

    /// Stores `session` as the record of `user`.
    pub(crate) fn put(&mut self, user: ActorId, session: UserSession)
        ensures
            final(self)@ == old(self)@.insert(user, session@),
        no_unwind
    {
        self.insert(user, session);
        assert(self@ =~= old(self)@.insert(user, session@));
    }
}

} // verus!
