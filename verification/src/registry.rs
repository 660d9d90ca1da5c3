//! The table of the sessions that are live.
//!
//! The table owns its sessions. A session enters it when a request opens it
//! and leaves it once, when it is replaced or removed; what leaves is handed
//! to the caller, who closes its endpoint.

use crate::session::Session;
use std::collections::HashMap;
use vstd::prelude::*;

verus! {

/// Whether each session of `sessions` stands under its own id, and no id is
/// negative.
pub open spec fn well_keyed<E>(sessions: Map<i64, Session<E>>) -> bool {
    forall|id: i64| #[trigger] sessions.contains_key(id) ==> id >= 0 && sessions[id].id == id
}

/// The sessions that are live, each under its id.
///
/// A method that changes the table takes the map out, changes it and puts it
/// back, so that what the table holds is well keyed at every moment.
pub struct SessionRegistry<E> {
    sessions: HashMap<i64, Session<E>>,
}

impl<E> View for SessionRegistry<E> {
    type V = Map<i64, Session<E>>;

    closed spec fn view(&self) -> Map<i64, Session<E>> {
        self.sessions@
    }
}

impl<E> SessionRegistry<E> {
    /// What holds of every table: it is well keyed.
    #[verifier::type_invariant]
    pub open spec fn keyed(self) -> bool {
        well_keyed(self@)
    }

    /// Makes a table without sessions.
    pub fn new() -> (registry: Self)
        ensures
            registry@ == Map::<i64, Session<E>>::empty(),
    {
        SessionRegistry { sessions: HashMap::new() }
    }

    /// Whether a session is live under `id`.
    pub fn contains(&self, id: i64) -> (live: bool)
        ensures
            live == self@.contains_key(id),
            well_keyed(self@),
    {
        proof {
            use_type_invariant(self);
        }
        self.sessions.contains_key(&id)
    }

    /// Looks up the session that is live under `id`.
    pub fn get(&self, id: i64) -> (found: Option<&Session<E>>)
        ensures
            match found {
                Some(session) => self@.contains_key(id) && *session == self@[id],
                None => !self@.contains_key(id),
            },
            well_keyed(self@),
    {
        proof {
            use_type_invariant(self);
        }
        self.sessions.get(&id)
    }

    /// How many sessions are live.
    pub fn len(&self) -> (count: usize)
        ensures
            count == self@.len(),
    {
        self.sessions.len()
    }

    /// Puts `session` into the table under its id. Where a session was live
    /// under that id it leaves the table and is returned, to be closed.
    pub fn create_or_replace(&mut self, session: Session<E>) -> (closed: Option<Session<E>>)
        requires
            session.id >= 0,
        ensures
            final(self)@ == old(self)@.insert(session.id, session),
            closed == old(self)@.get(session.id),
            well_keyed(final(self)@),
    {
        proof {
            use_type_invariant(&*self);
        }
        let id: i64 = session.id;
        let mut sessions: HashMap<i64, Session<E>> = HashMap::new();
        std::mem::swap(&mut self.sessions, &mut sessions);
        let closed = sessions.insert(id, session);
        std::mem::swap(&mut self.sessions, &mut sessions);
        closed
    }

    /// Moves the session under `id` to the WebSocket endpoint `outbound`.
    ///
    /// Where a session is live under `id`, the endpoint that it had is
    /// returned as `Ok`, to be flushed and closed. Where none is, nothing
    /// changes and `outbound` comes back as `Err`.
    pub fn update_transport(&mut self, id: i64, outbound: E) -> (swapped: Result<E, E>)
        ensures
            match swapped {
                Ok(previous) => {
                    &&& old(self)@.contains_key(id)
                    &&& previous == old(self)@[id].outbound
                    &&& final(self)@ == old(self)@.insert(id, old(self)@[id].upgraded(outbound))
                },
                Err(unused) => {
                    &&& !old(self)@.contains_key(id)
                    &&& unused == outbound
                    &&& final(self)@ == old(self)@
                },
            },
            well_keyed(final(self)@),
    {
        proof {
            use_type_invariant(&*self);
        }
        let mut sessions: HashMap<i64, Session<E>> = HashMap::new();
        std::mem::swap(&mut self.sessions, &mut sessions);
        let swapped = match sessions.remove(&id) {
            Some(session) => {
                let (moved, previous) = session.upgrade_from_http(outbound);
                sessions.insert(id, moved);
                assert(sessions@ =~= old(self)@.insert(id, old(self)@[id].upgraded(outbound)));
                Ok(previous)
            },
            None => {
                assert(sessions@ =~= old(self)@);
                Err(outbound)
            },
        };
        std::mem::swap(&mut self.sessions, &mut sessions);
        swapped
    }

    /// Takes the session under `id` out of the table and returns it, to be
    /// closed. Where none is live under `id`, nothing changes.
    pub fn remove_and_close(&mut self, id: i64) -> (closed: Option<Session<E>>)
        ensures
            final(self)@ == old(self)@.remove(id),
            closed == old(self)@.get(id),
            well_keyed(final(self)@),
    {
        proof {
            use_type_invariant(&*self);
        }
        let mut sessions: HashMap<i64, Session<E>> = HashMap::new();
        std::mem::swap(&mut self.sessions, &mut sessions);
        let closed = sessions.remove(&id);
        std::mem::swap(&mut self.sessions, &mut sessions);
        closed
    }
}

} // verus!
