use pickup_core::admission::evaluate_rsvp;
use pickup_core::admission::SessionStore;
use pickup_core::domain::CoreError;
use pickup_core::domain::RsvpDecision;
use pickup_core::domain::Session;

fn session(id: u128, public: bool, max_players: i32) -> Session {
    Session { id, sport_id: 9, host_id: 7, public, max_players }
}

#[test]
fn capacity_boundary_second_rsvp_rejected() {
    // Capacity 2 means the host plus one slot: one fully accepted RSVP fills
    // the session, so the next request must be rejected.
    let mut store = SessionStore::new();
    store.add_session(session(1, false, 2)).unwrap();
    assert_eq!(store.submit_rsvp(1, 100, RsvpDecision::Accepted), Ok(()));
    assert_eq!(
        store.submit_rsvp(1, 101, RsvpDecision::Accepted),
        Err(CoreError::CapacityExceeded)
    );
    // The rejection changed nothing.
    assert_eq!(store.rsvps.len(), 1);
    assert_eq!(store.rsvps[0].player_id, 100);
}

#[test]
fn capacity_boundary_other_arrival_order() {
    // The same boundary with the players swapped: whoever lands second is
    // the one rejected.
    let mut store = SessionStore::new();
    store.add_session(session(1, false, 2)).unwrap();
    assert_eq!(store.submit_rsvp(1, 101, RsvpDecision::Accepted), Ok(()));
    assert_eq!(
        store.submit_rsvp(1, 100, RsvpDecision::Accepted),
        Err(CoreError::CapacityExceeded)
    );
    assert_eq!(store.rsvps.len(), 1);
    assert_eq!(store.rsvps[0].player_id, 101);
}

#[test]
fn rsvp_unknown_session_not_found() {
    let mut store = SessionStore::new();
    store.add_session(session(1, true, 4)).unwrap();
    assert_eq!(store.submit_rsvp(2, 100, RsvpDecision::Accepted), Err(CoreError::NotFound));
    assert!(store.rsvps.is_empty());
}

#[test]
fn private_session_auto_accepts_host_side() {
    let mut store = SessionStore::new();
    store.add_session(session(1, false, 4)).unwrap();
    store.submit_rsvp(1, 100, RsvpDecision::Accepted).unwrap();
    assert_eq!(store.rsvps[0].host_decision, RsvpDecision::Accepted);
    assert_eq!(store.rsvps[0].player_decision, RsvpDecision::Accepted);
}

#[test]
fn public_session_leaves_host_side_pending() {
    let mut store = SessionStore::new();
    store.add_session(session(1, true, 4)).unwrap();
    store.submit_rsvp(1, 100, RsvpDecision::Accepted).unwrap();
    assert_eq!(store.rsvps[0].host_decision, RsvpDecision::Pending);
}

#[test]
fn second_rsvp_updates_the_pair() {
    // A later request from the same player supersedes the row instead of
    // adding a duplicate, and keeps the host's side untouched.
    let mut store = SessionStore::new();
    store.add_session(session(1, false, 4)).unwrap();
    store.submit_rsvp(1, 100, RsvpDecision::Accepted).unwrap();
    store.submit_rsvp(1, 100, RsvpDecision::Declined).unwrap();
    assert_eq!(store.rsvps.len(), 1);
    assert_eq!(store.rsvps[0].player_decision, RsvpDecision::Declined);
    assert_eq!(store.rsvps[0].host_decision, RsvpDecision::Accepted);
}

#[test]
fn freed_slot_admits_the_next_player() {
    // Capacity 4: a decline while room remains frees its slot, so two more
    // players fit where only one would have; the admission rule still gates
    // every submission, including the decline itself.
    let mut store = SessionStore::new();
    store.add_session(session(1, false, 4)).unwrap();
    store.submit_rsvp(1, 100, RsvpDecision::Accepted).unwrap();
    store.submit_rsvp(1, 101, RsvpDecision::Accepted).unwrap();
    store.submit_rsvp(1, 100, RsvpDecision::Declined).unwrap();
    assert_eq!(store.accepted_count_for(1), 1);
    store.submit_rsvp(1, 102, RsvpDecision::Accepted).unwrap();
    store.submit_rsvp(1, 103, RsvpDecision::Accepted).unwrap();
    assert_eq!(store.accepted_count_for(1), 3);
    assert_eq!(
        store.submit_rsvp(1, 104, RsvpDecision::Accepted),
        Err(CoreError::CapacityExceeded)
    );
}

#[test]
fn session_capacity_below_host_rejected() {
    let mut store = SessionStore::new();
    assert_eq!(store.add_session(session(1, true, 0)).unwrap_err(), CoreError::ValidationError);
    assert!(store.sessions.is_empty());
}

#[test]
fn duplicate_session_id_conflicts() {
    let mut store = SessionStore::new();
    store.add_session(session(1, true, 4)).unwrap();
    assert_eq!(store.add_session(session(1, false, 8)).unwrap_err(), CoreError::Conflict);
    assert_eq!(store.sessions.len(), 1);
}

#[test]
fn accepted_count_ignores_half_accepted_rows() {
    // On a public session the host's side stays pending, so the row does not
    // occupy a slot yet.
    let mut store = SessionStore::new();
    store.add_session(session(1, true, 2)).unwrap();
    store.submit_rsvp(1, 100, RsvpDecision::Accepted).unwrap();
    assert_eq!(store.accepted_count_for(1), 0);
    // A further player is still admitted: no slot is taken.
    assert_eq!(store.submit_rsvp(1, 101, RsvpDecision::Accepted), Ok(()));
}

#[test]
fn evaluate_rsvp_decides_on_fetched_state() {
    let s = session(1, false, 2);
    let row = evaluate_rsvp(&s, 0, 100, RsvpDecision::Accepted).unwrap();
    assert_eq!(row.session_id, 1);
    assert_eq!(row.player_id, 100);
    assert_eq!(row.player_decision, RsvpDecision::Accepted);
    assert_eq!(row.host_decision, RsvpDecision::Accepted);
    assert_eq!(evaluate_rsvp(&s, 1, 101, RsvpDecision::Accepted), Err(CoreError::CapacityExceeded));
}

#[test]
fn extreme_capacity_admits_everyone() {
    let mut store = SessionStore::new();
    store.add_session(session(1, false, i32::MAX)).unwrap();
    for player in 0..50u128 {
        assert_eq!(store.submit_rsvp(1, player, RsvpDecision::Accepted), Ok(()));
    }
    assert_eq!(store.accepted_count_for(1), 50);
}
