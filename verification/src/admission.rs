//! The session admission controller: an in-memory model of the session and
//! RSVP tables, on which the capacity check and the row write form one
//! atomic step, the way the store is expected to run them in one
//! serializable transaction.
//!
//! Well-formedness of the store carries the capacity invariant: for every
//! session, the number of fully accepted RSVPs plus the host's own slot
//! never exceeds the session's capacity.

use crate::domain::CoreError;
use crate::domain::RsvpDecision;
use crate::domain::Session;
use crate::domain::SessionRsvp;
use vstd::prelude::*;

verus! {

/// Whether a row occupies a slot of `session_id`: it belongs to the session
/// and both the player and the host have accepted.
pub open spec fn counts_as_accepted(rsvp: SessionRsvp, session_id: u128) -> bool {
    rsvp.session_id == session_id && rsvp.player_decision is Accepted
        && rsvp.host_decision is Accepted
}

/// How many rows occupy a slot of `session_id`.
pub open spec fn accepted_count(rsvps: Seq<SessionRsvp>, session_id: u128) -> int
    decreases rsvps.len(),
{
    if rsvps.len() == 0 {
        0
    } else {
        accepted_count(rsvps.drop_last(), session_id) + if counts_as_accepted(
            rsvps.last(),
            session_id,
        ) {
            1int
        } else {
            0int
        }
    }
}

/// Whether the row is the (session, player) pair's row.
pub open spec fn is_pair(rsvp: SessionRsvp, session_id: u128, player_id: u128) -> bool {
    rsvp.session_id == session_id && rsvp.player_id == player_id
}

/// Whether some row already exists for the (session, player) pair.
pub open spec fn has_pair(rsvps: Seq<SessionRsvp>, session_id: u128, player_id: u128) -> bool {
    exists|i: int| 0 <= i < rsvps.len() && is_pair(#[trigger] rsvps[i], session_id, player_id)
}

/// Whether a session with this id exists.
pub open spec fn has_session(sessions: Seq<Session>, session_id: u128) -> bool {
    exists|i: int| 0 <= i < sessions.len() && #[trigger] sessions[i].id == session_id
}

/// The admission rule: a further RSVP may be accepted only while the
/// accepted rows, the host's slot and the new row all fit the capacity.
pub open spec fn admits_rsvp(session: Session, accepted: int) -> bool {
    accepted + 1 < session.max_players
}

/// The row a first-time RSVP writes: the player's requested decision, and
/// the host's side auto-accepted for a private session, pending for a
/// public one.
pub open spec fn new_rsvp_row(session: Session, player_id: u128, requested: RsvpDecision) -> SessionRsvp {
    SessionRsvp {
        session_id: session.id,
        player_id: player_id,
        player_decision: requested,
        host_decision: if session.public {
            RsvpDecision::Pending
        } else {
            RsvpDecision::Accepted
        },
    }
}

pub proof fn lemma_accepted_count_push(rsvps: Seq<SessionRsvp>, rsvp: SessionRsvp, session_id: u128)
    ensures
        accepted_count(rsvps.push(rsvp), session_id) == accepted_count(rsvps, session_id)
            + if counts_as_accepted(rsvp, session_id) {
            1int
        } else {
            0int
        },
{
    assert(rsvps.push(rsvp).drop_last() =~= rsvps);
    assert(rsvps.push(rsvp).last() == rsvp);
}

pub proof fn lemma_accepted_count_update(
    rsvps: Seq<SessionRsvp>,
    i: int,
    rsvp: SessionRsvp,
    session_id: u128,
)
    requires
        0 <= i < rsvps.len(),
    ensures
        accepted_count(rsvps.update(i, rsvp), session_id) == accepted_count(rsvps, session_id)
            - (if counts_as_accepted(rsvps[i], session_id) {
            1int
        } else {
            0int
        }) + (if counts_as_accepted(rsvp, session_id) {
            1int
        } else {
            0int
        }),
    decreases rsvps.len(),
{
    if i == rsvps.len() - 1 {
        assert(rsvps.update(i, rsvp).drop_last() =~= rsvps.drop_last());
        assert(rsvps.update(i, rsvp).last() == rsvp);
    } else {
        assert(rsvps.update(i, rsvp).drop_last() =~= rsvps.drop_last().update(i, rsvp));
        assert(rsvps.update(i, rsvp).last() == rsvps.last());
        assert(rsvps.drop_last()[i] == rsvps[i]);
        lemma_accepted_count_update(rsvps.drop_last(), i, rsvp, session_id);
    }
}

pub proof fn lemma_accepted_count_absent(rsvps: Seq<SessionRsvp>, session_id: u128)
    requires
        forall|i: int| 0 <= i < rsvps.len() ==> (#[trigger] rsvps[i]).session_id != session_id,
    ensures
        accepted_count(rsvps, session_id) == 0,
    decreases rsvps.len(),
{
    if rsvps.len() > 0 {
        assert(forall|i: int|
            0 <= i < rsvps.drop_last().len() ==> (#[trigger] rsvps.drop_last()[i]).session_id
                != session_id);
        lemma_accepted_count_absent(rsvps.drop_last(), session_id);
    }
}

pub proof fn lemma_accepted_count_take_step(rsvps: Seq<SessionRsvp>, i: int, session_id: u128)
    requires
        0 <= i < rsvps.len(),
    ensures
        accepted_count(rsvps.take(i + 1), session_id) == accepted_count(rsvps.take(i), session_id)
            + if counts_as_accepted(rsvps[i], session_id) {
            1int
        } else {
            0int
        },
{
    assert(rsvps.take(i + 1).drop_last() =~= rsvps.take(i));
    assert(rsvps.take(i + 1).last() == rsvps[i]);
}

/// One admission evaluation over already-fetched state, for a caller that
/// runs the count and the write inside a single store transaction: whether
/// the session admits one more RSVP, and the row a first-time acceptance
/// writes. A rejection is `CapacityExceeded` and writes nothing.
pub fn evaluate_rsvp(
    session: &Session,
    accepted: usize,
    player_id: u128,
    requested: RsvpDecision,
) -> (r: Result<SessionRsvp, CoreError>)
    ensures
        r is Ok <==> admits_rsvp(*session, accepted as int),
        r matches Ok(row) ==> row == new_rsvp_row(*session, player_id, requested),
        r is Err ==> r == Err::<SessionRsvp, CoreError>(CoreError::CapacityExceeded),
{
    if (accepted as i128) + 1 < (session.max_players as i128) {
        let host_decision = if session.public {
            RsvpDecision::Pending
        } else {
            RsvpDecision::Accepted
        };
        Ok(SessionRsvp {
            session_id: session.id,
            player_id,
            player_decision: requested,
            host_decision,
        })
    } else {
        Err(CoreError::CapacityExceeded)
    }
}

/// The session and RSVP tables as the admission controller sees them: each
/// admission step runs as one atomic read-count-then-write unit over them.
pub struct SessionStore {
    pub sessions: Vec<Session>,
    pub rsvps: Vec<SessionRsvp>,
}

impl SessionStore {
    /// Session ids are unique.
    pub open spec fn sessions_unique(self) -> bool {
        forall|i: int, j: int|
            #![trigger self.sessions@[i], self.sessions@[j]]
            0 <= i < j < self.sessions@.len() ==> self.sessions@[i].id != self.sessions@[j].id
    }

    /// At most one row exists per (session, player) pair.
    pub open spec fn pairs_unique(self) -> bool {
        forall|i: int, j: int|
            #![trigger self.rsvps@[i], self.rsvps@[j]]
            0 <= i < j < self.rsvps@.len() ==> !(self.rsvps@[i].session_id
                == self.rsvps@[j].session_id && self.rsvps@[i].player_id
                == self.rsvps@[j].player_id)
    }

    /// Every RSVP row belongs to an existing session.
    pub open spec fn rsvps_reference_sessions(self) -> bool {
        forall|i: int|
            0 <= i < self.rsvps@.len() ==> has_session(
                self.sessions@,
                (#[trigger] self.rsvps@[i]).session_id,
            )
    }

    /// The capacity invariant: accepted rows plus the host's slot never
    /// exceed any session's capacity.
    pub open spec fn capacity_respected(self) -> bool {
        forall|i: int|
            0 <= i < self.sessions@.len() ==> accepted_count(
                self.rsvps@,
                (#[trigger] self.sessions@[i]).id,
            ) + 1 <= self.sessions@[i].max_players
    }

    /// Well-formedness of the store, preserved by every operation.
    pub open spec fn wf(self) -> bool {
        self.sessions_unique() && self.pairs_unique() && self.rsvps_reference_sessions()
            && self.capacity_respected()
    }

    /// The index of the session named by `session_id`; meaningful only when
    /// `has_session` holds.
    pub open spec fn session_index(self, session_id: u128) -> int {
        choose|i: int| 0 <= i < self.sessions@.len() && #[trigger] self.sessions@[i].id == session_id
    }

    /// The session named by `session_id`; meaningful only when `has_session`
    /// holds.
    pub open spec fn session_named(self, session_id: u128) -> Session {
        self.sessions@[self.session_index(session_id)]
    }

    /// An empty store, trivially well formed.
    pub fn new() -> (store: SessionStore)
        ensures
            store.wf(),
            store.sessions@ == Seq::<Session>::empty(),
            store.rsvps@ == Seq::<SessionRsvp>::empty(),
    {
        SessionStore { sessions: Vec::new(), rsvps: Vec::new() }
    }

    fn find_session(&self, session_id: u128) -> (r: Option<usize>)
        ensures
            match r {
                Some(i) => i < self.sessions@.len() && self.sessions@[i as int].id == session_id,
                None => !has_session(self.sessions@, session_id),
            },
    {
        let mut i: usize = 0;
        while i < self.sessions.len()
            invariant
                i <= self.sessions@.len(),
                forall|j: int| 0 <= j < i ==> (#[trigger] self.sessions@[j]).id != session_id,
            decreases self.sessions@.len() - i,
        {
            if self.sessions[i].id == session_id {
                return Some(i);
            }
            i = i + 1;
        }
        None
    }

    fn find_pair(&self, session_id: u128, player_id: u128) -> (r: Option<usize>)
        ensures
            match r {
                Some(i) => i < self.rsvps@.len() && is_pair(
                    self.rsvps@[i as int],
                    session_id,
                    player_id,
                ),
                None => !has_pair(self.rsvps@, session_id, player_id),
            },
    {
        let mut i: usize = 0;
        while i < self.rsvps.len()
            invariant
                i <= self.rsvps@.len(),
                forall|j: int|
                    0 <= j < i ==> !is_pair(#[trigger] self.rsvps@[j], session_id, player_id),
            decreases self.rsvps@.len() - i,
        {
            let row = self.rsvps[i];
            if row.session_id == session_id && row.player_id == player_id {
                return Some(i);
            }
            i = i + 1;
        }
        None
    }

    /// How many RSVPs of this session are accepted on both sides.
    pub fn accepted_count_for(&self, session_id: u128) -> (n: usize)
        ensures
            n == accepted_count(self.rsvps@, session_id),
    {
        let mut n: usize = 0;
        let mut i: usize = 0;
        proof {
            assert(self.rsvps@.take(0) =~= Seq::<SessionRsvp>::empty());
        }
        while i < self.rsvps.len()
            invariant
                i <= self.rsvps@.len(),
                n <= i,
                n == accepted_count(self.rsvps@.take(i as int), session_id),
            decreases self.rsvps@.len() - i,
        {
            proof {
                lemma_accepted_count_take_step(self.rsvps@, i as int, session_id);
            }
            let row = self.rsvps[i];
            if row.session_id == session_id && row.player_decision == RsvpDecision::Accepted
                && row.host_decision == RsvpDecision::Accepted {
                n = n + 1;
            }
            i = i + 1;
        }
        proof {
            assert(self.rsvps@.take(self.rsvps@.len() as int) =~= self.rsvps@);
        }
        n
    }

    /// Registers a session. Rejects a capacity that cannot even hold the
    /// host with `ValidationError`, and a reused id with `Conflict`.
    pub fn add_session(&mut self, session: Session) -> (r: Result<(), CoreError>)
        requires
            old(self).wf(),
        ensures
            final(self).wf(),
            final(self).rsvps@ == old(self).rsvps@,
            r == Err::<(), CoreError>(CoreError::ValidationError) <==> session.max_players < 1,
            r == Err::<(), CoreError>(CoreError::Conflict) <==> session.max_players >= 1
                && has_session(old(self).sessions@, session.id),
            r is Ok <==> session.max_players >= 1 && !has_session(old(self).sessions@, session.id),
            r is Ok ==> final(self).sessions@ == old(self).sessions@.push(session),
            r is Err ==> final(self).sessions@ == old(self).sessions@,
    {
        if session.max_players < 1 {
            return Err(CoreError::ValidationError);
        }
        match self.find_session(session.id) {
            Some(_) => Err(CoreError::Conflict),
            None => {
                proof {
                    assert(forall|i: int|
                        0 <= i < self.rsvps@.len() ==> (#[trigger] self.rsvps@[i]).session_id
                            != session.id);
                    lemma_accepted_count_absent(self.rsvps@, session.id);
                }
                self.sessions.push(session);
                proof {
                    assert forall|i: int|
                        0 <= i < self.rsvps@.len() implies has_session(
                        self.sessions@,
                        (#[trigger] self.rsvps@[i]).session_id,
                    ) by {
                        assert(has_session(old(self).sessions@, self.rsvps@[i].session_id));
                        let w = choose|j: int|
                            0 <= j < old(self).sessions@.len() && #[trigger] old(
                                self,
                            ).sessions@[j].id == self.rsvps@[i].session_id;
                        assert(self.sessions@[w].id == self.rsvps@[i].session_id);
                    }
                }
                Ok(())
            },
        }
    }

    /// One atomic admission step: evaluates the capacity rule for the
    /// session and, if it admits the player, writes or supersedes the
    /// (session, player) row; a rejection changes nothing.
    pub fn submit_rsvp(
        &mut self,
        session_id: u128,
        player_id: u128,
        requested: RsvpDecision,
    ) -> (r: Result<(), CoreError>)
        requires
            old(self).wf(),
        ensures
            final(self).wf(),
            final(self).sessions@ == old(self).sessions@,
            r == Err::<(), CoreError>(CoreError::NotFound) <==> !has_session(
                old(self).sessions@,
                session_id,
            ),
            r == Err::<(), CoreError>(CoreError::CapacityExceeded) <==> has_session(
                old(self).sessions@,
                session_id,
            ) && !admits_rsvp(
                old(self).session_named(session_id),
                accepted_count(old(self).rsvps@, session_id),
            ),
            r is Ok <==> has_session(old(self).sessions@, session_id) && admits_rsvp(
                old(self).session_named(session_id),
                accepted_count(old(self).rsvps@, session_id),
            ),
            r is Err ==> final(self).rsvps@ == old(self).rsvps@,
            r is Ok && !has_pair(old(self).rsvps@, session_id, player_id) ==> final(self).rsvps@
                == old(self).rsvps@.push(
                new_rsvp_row(old(self).session_named(session_id), player_id, requested),
            ),
            r is Ok && has_pair(old(self).rsvps@, session_id, player_id) ==> {
                &&& final(self).rsvps@.len() == old(self).rsvps@.len()
                &&& forall|i: int|
                    0 <= i < old(self).rsvps@.len() && is_pair(
                        #[trigger] old(self).rsvps@[i],
                        session_id,
                        player_id,
                    ) ==> final(self).rsvps@[i] == (SessionRsvp {
                        player_decision: requested,
                        ..old(self).rsvps@[i]
                    })
                &&& forall|i: int|
                    0 <= i < old(self).rsvps@.len() && !is_pair(
                        #[trigger] old(self).rsvps@[i],
                        session_id,
                        player_id,
                    ) ==> final(self).rsvps@[i] == old(self).rsvps@[i]
            },
    {
        let idx = match self.find_session(session_id) {
            None => {
                return Err(CoreError::NotFound);
            },
            Some(i) => i,
        };
        let session = self.sessions[idx];
        proof {
            let w = self.session_index(session_id);
            assert(0 <= w < self.sessions@.len() && self.sessions@[w].id == session_id);
            if w != idx as int {
                assert(self.sessions@[w].id != self.sessions@[idx as int].id);
            }
            assert(self.session_named(session_id) == session);
        }
        let accepted = self.accepted_count_for(session_id);
        let fresh = match evaluate_rsvp(&session, accepted, player_id, requested) {
            Err(e) => {
                return Err(e);
            },
            Ok(row) => row,
        };
        match self.find_pair(session_id, player_id) {
            Some(pair_idx) => {
                let old_row = self.rsvps[pair_idx];
                let new_row = SessionRsvp { player_decision: requested, ..old_row };
                self.rsvps[pair_idx] = new_row;
                proof {
                    self.lemma_wf_after_update(*old(self), session, pair_idx as int, new_row);
                    assert forall|i: int|
                        0 <= i < old(self).rsvps@.len() && is_pair(
                            #[trigger] old(self).rsvps@[i],
                            session_id,
                            player_id,
                        ) implies self.rsvps@[i] == (SessionRsvp {
                        player_decision: requested,
                        ..old(self).rsvps@[i]
                    }) by {
                        if i != pair_idx as int {
                            assert(old(self).rsvps@[i].session_id == old(
                                self,
                            ).rsvps@[pair_idx as int].session_id && old(self).rsvps@[i].player_id
                                == old(self).rsvps@[pair_idx as int].player_id);
                        }
                    }
                }
                Ok(())
            },
            None => {
                self.rsvps.push(fresh);
                proof {
                    self.lemma_wf_after_push(*old(self), session, fresh);
                }
                Ok(())
            },
        }
    }

    proof fn lemma_wf_after_push(self, prior: SessionStore, session: Session, new_row: SessionRsvp)
        requires
            prior.wf(),
            self.sessions@ == prior.sessions@,
            has_session(prior.sessions@, new_row.session_id),
            !has_pair(prior.rsvps@, new_row.session_id, new_row.player_id),
            self.rsvps@ == prior.rsvps@.push(new_row),
            has_session(prior.sessions@, session.id),
            session == prior.session_named(session.id),
            session.id == new_row.session_id,
            admits_rsvp(session, accepted_count(prior.rsvps@, session.id)),
        ensures
            self.wf(),
    {
        assert forall|i: int|
            0 <= i < self.sessions@.len() implies accepted_count(
            self.rsvps@,
            (#[trigger] self.sessions@[i]).id,
        ) + 1 <= self.sessions@[i].max_players by {
            lemma_accepted_count_push(prior.rsvps@, new_row, self.sessions@[i].id);
            if self.sessions@[i].id == session.id {
                let w = prior.session_index(session.id);
                if w != i {
                    assert(prior.sessions@[w].id != prior.sessions@[i].id);
                }
                assert(self.sessions@[i] == session);
            }
        }
        assert forall|i: int|
            0 <= i < self.rsvps@.len() implies has_session(
            self.sessions@,
            (#[trigger] self.rsvps@[i]).session_id,
        ) by {
            if i < prior.rsvps@.len() {
                assert(self.rsvps@[i] == prior.rsvps@[i]);
            } else {
                assert(self.rsvps@[i] == new_row);
            }
        }
        assert forall|i: int, j: int|
            #![trigger self.rsvps@[i], self.rsvps@[j]]
            0 <= i < j < self.rsvps@.len() implies !(self.rsvps@[i].session_id
            == self.rsvps@[j].session_id && self.rsvps@[i].player_id
            == self.rsvps@[j].player_id) by {
            if j == prior.rsvps@.len() {
                assert(self.rsvps@[i] == prior.rsvps@[i]);
                assert(!is_pair(prior.rsvps@[i], new_row.session_id, new_row.player_id));
            } else {
                assert(self.rsvps@[i] == prior.rsvps@[i]);
                assert(self.rsvps@[j] == prior.rsvps@[j]);
            }
        }
    }

    proof fn lemma_wf_after_update(
        self,
        prior: SessionStore,
        session: Session,
        at: int,
        new_row: SessionRsvp,
    )
        requires
            prior.wf(),
            self.sessions@ == prior.sessions@,
            0 <= at < prior.rsvps@.len(),
            new_row.session_id == prior.rsvps@[at].session_id,
            new_row.player_id == prior.rsvps@[at].player_id,
            self.rsvps@ == prior.rsvps@.update(at, new_row),
            has_session(prior.sessions@, session.id),
            session == prior.session_named(session.id),
            session.id == new_row.session_id,
            admits_rsvp(session, accepted_count(prior.rsvps@, session.id)),
        ensures
            self.wf(),
    {
        assert forall|i: int|
            0 <= i < self.sessions@.len() implies accepted_count(
            self.rsvps@,
            (#[trigger] self.sessions@[i]).id,
        ) + 1 <= self.sessions@[i].max_players by {
            lemma_accepted_count_update(prior.rsvps@, at, new_row, self.sessions@[i].id);
            if self.sessions@[i].id == session.id {
                let w = prior.session_index(session.id);
                if w != i {
                    assert(prior.sessions@[w].id != prior.sessions@[i].id);
                }
                assert(self.sessions@[i] == session);
            } else {
                assert(prior.rsvps@[at].session_id != self.sessions@[i].id);
                assert(!counts_as_accepted(prior.rsvps@[at], self.sessions@[i].id));
                assert(!counts_as_accepted(new_row, self.sessions@[i].id));
            }
        }
        assert forall|i: int|
            0 <= i < self.rsvps@.len() implies has_session(
            self.sessions@,
            (#[trigger] self.rsvps@[i]).session_id,
        ) by {
            if i != at {
                assert(self.rsvps@[i] == prior.rsvps@[i]);
            } else {
                assert(self.rsvps@[i].session_id == prior.rsvps@[at].session_id);
            }
        }
        assert forall|i: int, j: int|
            #![trigger self.rsvps@[i], self.rsvps@[j]]
            0 <= i < j < self.rsvps@.len() implies !(self.rsvps@[i].session_id
            == self.rsvps@[j].session_id && self.rsvps@[i].player_id
            == self.rsvps@[j].player_id) by {
            assert(self.rsvps@[i].session_id == prior.rsvps@[i].session_id);
            assert(self.rsvps@[i].player_id == prior.rsvps@[i].player_id);
            assert(self.rsvps@[j].session_id == prior.rsvps@[j].session_id);
            assert(self.rsvps@[j].player_id == prior.rsvps@[j].player_id);
        }
    }
}

/// The capacity invariant, read off a well-formed store: for every session,
/// at every point in time, the accepted attendance plus the host's slot
/// stays within the session's capacity.
pub proof fn lemma_capacity_invariant(store: SessionStore, i: int)
    requires
        store.wf(),
        0 <= i < store.sessions@.len(),
    ensures
        accepted_count(store.rsvps@, store.sessions@[i].id) + 1 <= store.sessions@[i].max_players,
{
}

} // verus!
