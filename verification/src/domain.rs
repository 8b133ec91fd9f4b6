//! Domain types shared by the admission controller, the settlement state
//! machine and the rating engine.
//!
//! Identifiers are carried as `u128` values (the transport's opaque ids fit
//! in them) and timestamps as microseconds since the epoch in an `i64`.

use vstd::prelude::*;

verus! {

/// Three-valued wire status used by the transport both for a player's RSVP
/// answer and for a score confirmation.
#[derive(Clone, Copy, PartialEq, Eq, Structural, Debug)]
pub enum Rsvp {
    Pending,
    Yes,
    No,
}

/// One side's decision on a session attendance request.
#[derive(Clone, Copy, PartialEq, Eq, Structural, Debug)]
pub enum RsvpDecision {
    Pending,
    Accepted,
    Declined,
}

/// Life cycle of a reported game: `Pending` until the opponent answers, then
/// `Confirmed` or `Disputed`, both terminal.
#[derive(Clone, Copy, PartialEq, Eq, Structural, Debug)]
pub enum ConfirmationState {
    Pending,
    Confirmed,
    Disputed,
}

/// One round's result, seen from the reporter's side.
#[derive(Clone, Copy, PartialEq, Eq, Structural, Debug)]
pub enum RoundOutcome {
    Win,
    Loss,
    Draw,
}

/// The error taxonomy of the core. Business rejections are terminal and leave
/// no partial state behind; `PersistenceFailure` stands for a transient store
/// error reported by the gateway around this core.
#[derive(Clone, Copy, PartialEq, Eq, Structural, Debug)]
pub enum CoreError {
    NotFound,
    CapacityExceeded,
    Unauthorized,
    NotAcceptable,
    Conflict,
    ValidationError,
    PersistenceFailure,
}

/// A scheduled sport gathering. `max_players` is the capacity the host set;
/// the host always occupies one slot.
#[derive(Clone, Copy, PartialEq, Eq, Structural, Debug)]
pub struct Session {
    pub id: u128,
    pub sport_id: u128,
    pub host_id: u128,
    pub public: bool,
    pub max_players: i32,
}

/// A player's attendance request for a session, one row per
/// (session, player) pair, carrying the two independent decisions.
#[derive(Clone, Copy, PartialEq, Eq, Structural, Debug)]
pub struct SessionRsvp {
    pub session_id: u128,
    pub player_id: u128,
    pub player_decision: RsvpDecision,
    pub host_decision: RsvpDecision,
}

/// One reported head-to-head game. `player_a` is the reporter, `player_b`
/// the opponent whose confirmation settles the game.
#[derive(Clone, Copy, PartialEq, Eq, Structural, Debug)]
pub struct Game {
    pub id: u128,
    pub session_id: u128,
    pub player_a: u128,
    pub player_b: u128,
    pub confirmation_state: ConfirmationState,
    pub created_at: i64,
}

/// One participant's raw score in one round of a game.
#[derive(Clone, Copy, PartialEq, Eq, Structural, Debug)]
pub struct ScoreEntry {
    pub game_id: u128,
    pub player_id: u128,
    pub round: usize,
    pub score: i32,
}

/// The two raw scores of one round, `score_1` on the reporter's side and
/// `score_2` on the opponent's.
#[derive(Clone, Copy, PartialEq, Eq, Structural, Debug)]
pub struct ScoreData {
    pub score_1: i32,
    pub score_2: i32,
}

/// The label the store uses for each wire status value.
pub open spec fn rsvp_label(rsvp: Rsvp) -> Seq<char> {
    match rsvp {
        Rsvp::Pending => "Pending"@,
        Rsvp::Yes => "Yes"@,
        Rsvp::No => "No"@,
    }
}

/// The store's textual form of a wire status value.
pub fn get_rsvp_str(rsvp: Rsvp) -> (r: &'static str)
    ensures
        r@ == rsvp_label(rsvp),
{
    match rsvp {
        Rsvp::Pending => "Pending",
        Rsvp::Yes => "Yes",
        Rsvp::No => "No",
    }
}

/// A wire status value read as a player's attendance decision.
pub fn rsvp_to_decision(rsvp: Rsvp) -> (r: RsvpDecision)
    ensures
        r == (match rsvp {
            Rsvp::Pending => RsvpDecision::Pending,
            Rsvp::Yes => RsvpDecision::Accepted,
            Rsvp::No => RsvpDecision::Declined,
        }),
{
    match rsvp {
        Rsvp::Pending => RsvpDecision::Pending,
        Rsvp::Yes => RsvpDecision::Accepted,
        Rsvp::No => RsvpDecision::Declined,
    }
}

/// A wire status value read as a confirmation decision.
pub fn rsvp_to_confirmation(rsvp: Rsvp) -> (r: ConfirmationState)
    ensures
        r == (match rsvp {
            Rsvp::Pending => ConfirmationState::Pending,
            Rsvp::Yes => ConfirmationState::Confirmed,
            Rsvp::No => ConfirmationState::Disputed,
        }),
{
    match rsvp {
        Rsvp::Pending => ConfirmationState::Pending,
        Rsvp::Yes => ConfirmationState::Confirmed,
        Rsvp::No => ConfirmationState::Disputed,
    }
}

/// Orders a pair of participant ids so that the viewer comes first; used when
/// a profile or a match is rendered from either player's side.
pub fn orient_pair(viewer: u128, first: u128, second: u128) -> (r: (u128, u128))
    ensures
        viewer == first ==> r == (first, second),
        viewer != first ==> r == (second, first),
{
    if viewer == first {
        (first, second)
    } else {
        (second, first)
    }
}

} // verus!
