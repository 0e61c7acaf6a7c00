//! The session table: which continuation token belongs to which live
//! interactive transaction.
use vstd::prelude::*;

use std::collections::HashMap;

use crate::error::{Error, Misuse};

verus! {

broadcast use vstd::std_specs::hash::group_hash_axioms;

/// Maps the id of each live transaction to its session token: a baton for
/// the HTTP pipeline, a stream for WebSocket connections. Ids are handed out
/// in increasing order starting at 1 and never reused, so that a released id
/// stays unknown for good.
pub struct SessionTable<T> {
    next_id: u64,
    sessions: HashMap<u64, T>,
}

pub struct SessionTableView<T> {
    /// The id that the next transaction gets.
    pub next_id: u64,
    /// The live sessions.
    pub sessions: Map<u64, T>,
}

impl<T> SessionTableView<T> {
    /// Every live id was handed out before, and none is 0.
    pub open spec fn well_formed(self) -> bool {
        &&& self.next_id >= 1
        &&& forall|id: u64| #[trigger]
            self.sessions.contains_key(id) ==> 1 <= id < self.next_id
    }
}

impl<T> View for SessionTable<T> {
    type V = SessionTableView<T>;

    closed spec fn view(&self) -> SessionTableView<T> {
        SessionTableView { next_id: self.next_id, sessions: self.sessions@ }
    }
}

impl<T> SessionTable<T> {
    /// A table with no session, whose first id is 1.
    pub fn new() -> (r: SessionTable<T>)
        ensures
            r@.next_id == 1,
            r@.sessions == Map::<u64, T>::empty(),
            r@.well_formed(),
    {
        SessionTable { next_id: 1, sessions: HashMap::new() }
    }

    /// Opens a session for a fresh transaction id and returns the id.
    pub fn open(&mut self, token: T) -> (r: Result<u64, Error>)
        requires
            old(self)@.well_formed(),
        ensures
            final(self)@.well_formed(),
            match r {
                Ok(id) => {
                    &&& id == old(self)@.next_id
                    &&& !old(self)@.sessions.contains_key(id)
                    &&& final(self)@.next_id == id + 1
                    &&& final(self)@.sessions == old(self)@.sessions.insert(id, token)
                },
                Err(e) => {
                    &&& old(self)@.next_id == u64::MAX
                    &&& e == Error::Misuse(Misuse::TransactionIdsExhausted)
                    &&& final(self)@ == old(self)@
                },
            },
    {
        if self.next_id == u64::MAX {
            return Err(Error::Misuse(Misuse::TransactionIdsExhausted));
        }
        let id = self.next_id;
        self.sessions.insert(id, token);
        self.next_id = id + 1;
        assert forall|k: u64| #[trigger] self@.sessions.contains_key(k) implies 1 <= k
            < self@.next_id by {
            if k != id {
                assert(old(self)@.sessions.contains_key(k));
            }
        }
        Ok(id)
    }

    /// The session of transaction `id`, if it is live.
    pub fn get(&self, id: u64) -> (r: Option<&T>)
        ensures
            match r {
                Some(t) => self@.sessions.contains_key(id) && *t == self@.sessions[id],
                None => !self@.sessions.contains_key(id),
            },
    {
        self.sessions.get(&id)
    }

    /// Replaces the token of a live session; an id without a live session is
    /// a misuse and leaves the table as it was.
    pub fn update(&mut self, id: u64, token: T) -> (r: Result<(), Error>)
        requires
            old(self)@.well_formed(),
        ensures
            final(self)@.well_formed(),
            old(self)@.sessions.contains_key(id) ==> {
                &&& r is Ok
                &&& final(self)@.sessions == old(self)@.sessions.insert(id, token)
                &&& final(self)@.next_id == old(self)@.next_id
            },
            !old(self)@.sessions.contains_key(id) ==> {
                &&& r == Err::<(), Error>(Error::Misuse(Misuse::NoSuchSession { tx_id: id }))
                &&& final(self)@ == old(self)@
            },
    {
        if self.sessions.contains_key(&id) {
            self.sessions.insert(id, token);
            assert forall|k: u64| #[trigger] self@.sessions.contains_key(k) implies 1 <= k
                < self@.next_id by {
                assert(old(self)@.sessions.contains_key(k));
            }
            Ok(())
        } else {
            Err(Error::Misuse(Misuse::NoSuchSession { tx_id: id }))
        }
    }

    /// Ends the session of transaction `id` and hands back its token. The id
    /// is unknown from then on.
    pub fn release(&mut self, id: u64) -> (r: Option<T>)
        requires
            old(self)@.well_formed(),
        ensures
            final(self)@.well_formed(),
            final(self)@.sessions == old(self)@.sessions.remove(id),
            final(self)@.next_id == old(self)@.next_id,
            match r {
                Some(t) => old(self)@.sessions.contains_key(id) && t == old(self)@.sessions[id],
                None => !old(self)@.sessions.contains_key(id),
            },
    {
        let r = self.sessions.remove(&id);
        assert forall|k: u64| #[trigger] self@.sessions.contains_key(k) implies 1 <= k
            < self@.next_id by {
            assert(old(self)@.sessions.contains_key(k));
        }
        r
    }
}

} // verus!
