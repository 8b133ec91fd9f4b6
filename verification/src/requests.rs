//! Plain request and row shapes exchanged with the surrounding application:
//! what a caller sends in and the flat rows a query hands back.

use vstd::prelude::*;

verus! {

/// Credentials presented at sign-in.
#[derive(Clone, PartialEq, Eq, Debug)]
pub struct SignIn {
    pub username: String,
    pub password: String,
}

/// A password change for an existing player.
#[derive(Clone, PartialEq, Eq, Debug)]
pub struct EditPlayer {
    pub username: String,
    pub password: String,
}

/// A request to remove a player account.
#[derive(Clone, PartialEq, Eq, Debug)]
pub struct DeletePlayer {
    pub username: String,
}

/// A request to attach a sport to a player.
#[derive(Clone, PartialEq, Eq, Debug)]
pub struct CreatePlayerSport {
    pub username: String,
    pub sport: String,
}

/// A request to detach a sport from a player.
#[derive(Clone, PartialEq, Eq, Debug)]
pub struct DeletePlayerSport {
    pub username: String,
    pub sport: String,
}

/// A request for the sessions a player is attending or hosting.
#[derive(Clone, PartialEq, Eq, Debug)]
pub struct GetUpcomingSessions {
    pub username: String,
}

/// A request for a player's profile page.
#[derive(Clone, PartialEq, Eq, Debug)]
pub struct GetUserProfile {
    pub username: String,
}

/// A free-text player search.
#[derive(Clone, PartialEq, Eq, Debug)]
pub struct SearchPlayers {
    pub query: String,
}

/// One attendee's username, as a session's attendance list hands it back.
#[derive(Clone, PartialEq, Eq, Debug)]
pub struct SessionRsvpUsername {
    pub username: String,
}

/// The two usernames of a reported match.
#[derive(Clone, PartialEq, Eq, Debug)]
pub struct MatchUsernameData {
    pub username_1: String,
    pub username_2: String,
}

/// A counting query's single row; `None` stands for an empty aggregate.
#[derive(Clone, Copy, PartialEq, Eq, Structural, Debug)]
pub struct Count {
    pub count: Option<i64>,
}

} // verus!
