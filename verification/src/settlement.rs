//! The game settlement state machine: a reported game starts `Pending` and
//! is settled by the opponent's confirmation, which either disputes it or
//! confirms it and produces the two new rating rows.
//!
//! Both steps are pure: the caller fetches the rows they need, and persists
//! what comes back in one transaction, so a failure leaves no partial state.

use crate::domain::ConfirmationState;
use crate::domain::CoreError;
use crate::domain::Game;
use crate::domain::RoundOutcome;
use crate::domain::ScoreData;
use crate::domain::ScoreEntry;
use crate::rating::Rating;
use crate::rating::chained_update;
use crate::rating::update_ratings;
use skillratings::glicko2::Glicko2Rating;
use vstd::prelude::*;

verus! {

/// One round's outcome, from the reporter's side: strictly greater score is
/// a win, strictly smaller a loss, equal a draw.
pub open spec fn outcome_of(round: ScoreData) -> RoundOutcome {
    if round.score_1 > round.score_2 {
        RoundOutcome::Win
    } else if round.score_1 < round.score_2 {
        RoundOutcome::Loss
    } else {
        RoundOutcome::Draw
    }
}

/// The ordered outcomes of a game's rounds, from the reporter's side.
pub open spec fn outcomes_of(rounds: Seq<ScoreData>) -> Seq<RoundOutcome> {
    Seq::new(rounds.len(), |i: int| outcome_of(rounds[i]))
}

/// Turns raw per-round scores into the ordered outcome list the rating
/// engine consumes.
pub fn derive_outcomes(rounds: &Vec<ScoreData>) -> (r: Vec<RoundOutcome>)
    ensures
        r@ == outcomes_of(rounds@),
{
    let mut outcomes: Vec<RoundOutcome> = Vec::new();
    let mut i: usize = 0;
    while i < rounds.len()
        invariant
            i <= rounds@.len(),
            outcomes@.len() == i,
            forall|j: int| 0 <= j < i ==> outcomes@[j] == outcome_of(#[trigger] rounds@[j]),
        decreases rounds@.len() - i,
    {
        let round = rounds[i];
        if round.score_1 > round.score_2 {
            outcomes.push(RoundOutcome::Win);
        } else if round.score_1 < round.score_2 {
            outcomes.push(RoundOutcome::Loss);
        } else {
            outcomes.push(RoundOutcome::Draw);
        }
        i = i + 1;
    }
    proof {
        assert(outcomes@ =~= outcomes_of(rounds@));
    }
    outcomes
}

/// A freshly reported game together with its score ledger rows; the caller
/// persists all of it atomically, or nothing.
#[derive(Debug)]
pub struct ReportedGame {
    pub game: Game,
    pub scores: Vec<ScoreEntry>,
}

/// A report is well formed when it has at least one round and names two
/// distinct participants.
pub open spec fn report_valid(reporter_id: u128, opponent_id: u128, rounds: Seq<ScoreData>) -> bool {
    rounds.len() > 0 && reporter_id != opponent_id
}

/// Builds the `Pending` game row and its score ledger for one report: for
/// every round, one entry per participant, zero-indexed and contiguous.
/// Rejects an empty or self-directed report with `ValidationError`.
pub fn report(
    session_id: u128,
    game_id: u128,
    reporter_id: u128,
    opponent_id: u128,
    rounds: &Vec<ScoreData>,
    created_at: i64,
) -> (r: Result<ReportedGame, CoreError>)
    ensures
        r is Ok <==> report_valid(reporter_id, opponent_id, rounds@),
        r is Err ==> r == Err::<ReportedGame, CoreError>(CoreError::ValidationError),
        r matches Ok(reported) ==> {
            &&& reported.game == (Game {
                id: game_id,
                session_id: session_id,
                player_a: reporter_id,
                player_b: opponent_id,
                confirmation_state: ConfirmationState::Pending,
                created_at: created_at,
            })
            &&& reported.scores@.len() == 2 * rounds@.len()
            &&& forall|i: int|
                #![trigger rounds@[i]]
                0 <= i < rounds@.len() ==> reported.scores@[2 * i] == (ScoreEntry {
                    game_id: game_id,
                    player_id: reporter_id,
                    round: i as usize,
                    score: rounds@[i].score_1,
                })
            &&& forall|i: int|
                #![trigger rounds@[i]]
                0 <= i < rounds@.len() ==> reported.scores@[2 * i + 1] == (ScoreEntry {
                    game_id: game_id,
                    player_id: opponent_id,
                    round: i as usize,
                    score: rounds@[i].score_2,
                })
        },
{
    if rounds.len() == 0 || reporter_id == opponent_id {
        return Err(CoreError::ValidationError);
    }
    let game = Game {
        id: game_id,
        session_id: session_id,
        player_a: reporter_id,
        player_b: opponent_id,
        confirmation_state: ConfirmationState::Pending,
        created_at: created_at,
    };
    let mut scores: Vec<ScoreEntry> = Vec::new();
    let mut i: usize = 0;
    while i < rounds.len()
        invariant
            i <= rounds@.len(),
            scores@.len() == 2 * i,
            forall|j: int|
                0 <= j < i ==> scores@[2 * j] == (ScoreEntry {
                    game_id: game_id,
                    player_id: reporter_id,
                    round: j as usize,
                    score: #[trigger] rounds@[j].score_1,
                }),
            forall|j: int|
                0 <= j < i ==> scores@[2 * j + 1] == (ScoreEntry {
                    game_id: game_id,
                    player_id: opponent_id,
                    round: j as usize,
                    score: #[trigger] rounds@[j].score_2,
                }),
        decreases rounds@.len() - i,
    {
        let round = rounds[i];
        scores.push(ScoreEntry { game_id, player_id: reporter_id, round: i, score: round.score_1 });
        scores.push(ScoreEntry { game_id, player_id: opponent_id, round: i, score: round.score_2 });
        i = i + 1;
    }
    Ok(ReportedGame { game, scores })
}

/// What a settled confirmation hands back: the game row with its new state,
/// and, when the game was confirmed, the two new rating rows.
#[derive(Debug)]
pub struct ConfirmOutcome {
    pub game: Game,
    pub ratings: Option<(Rating, Rating)>,
}

/// The settlement transition. Only the opponent may settle, only a `Pending`
/// game can be settled, and only a `Confirmed` settlement produces ratings:
/// the reporter's and opponent's priors folded over the round outcomes,
/// stamped with `now`.
pub open spec fn confirm_spec(
    game: Game,
    confirming_player_id: u128,
    decision: ConfirmationState,
    sport_id: u128,
    rating_a: Glicko2Rating,
    rating_b: Glicko2Rating,
    rounds: Seq<ScoreData>,
    now: i64,
) -> Result<ConfirmOutcome, CoreError> {
    if confirming_player_id != game.player_b {
        Err(CoreError::Unauthorized)
    } else if !(game.confirmation_state is Pending) {
        Err(CoreError::NotAcceptable)
    } else if decision is Pending {
        Err(CoreError::ValidationError)
    } else if decision is Disputed {
        Ok(ConfirmOutcome {
            game: Game { confirmation_state: ConfirmationState::Disputed, ..game },
            ratings: None,
        })
    } else {
        let pair = chained_update(rating_a, rating_b, outcomes_of(rounds));
        Ok(ConfirmOutcome {
            game: Game { confirmation_state: ConfirmationState::Confirmed, ..game },
            ratings: Some(
                (
                    Rating { player_id: game.player_a, sport_id: sport_id, value: pair.0, updated: now },
                    Rating { player_id: game.player_b, sport_id: sport_id, value: pair.1, updated: now },
                ),
            ),
        })
    }
}

/// Settles one game: checks the confirmer and the state, transitions the
/// game, and on `Confirmed` folds the round outcomes into the two players'
/// new rating rows. An error carries no outcome, so nothing changes.
pub fn confirm(
    game: &Game,
    confirming_player_id: u128,
    decision: ConfirmationState,
    sport_id: u128,
    rating_a: Glicko2Rating,
    rating_b: Glicko2Rating,
    rounds: &Vec<ScoreData>,
    now: i64,
) -> (r: Result<ConfirmOutcome, CoreError>)
    ensures
        r == confirm_spec(
            *game,
            confirming_player_id,
            decision,
            sport_id,
            rating_a,
            rating_b,
            rounds@,
            now,
        ),
{
    if confirming_player_id != game.player_b {
        return Err(CoreError::Unauthorized);
    }
    if !matches!(game.confirmation_state, ConfirmationState::Pending) {
        return Err(CoreError::NotAcceptable);
    }
    match decision {
        ConfirmationState::Pending => Err(CoreError::ValidationError),
        ConfirmationState::Disputed => Ok(ConfirmOutcome {
            game: Game { confirmation_state: ConfirmationState::Disputed, ..*game },
            ratings: None,
        }),
        ConfirmationState::Confirmed => {
            let outcomes = derive_outcomes(rounds);
            let pair = update_ratings(rating_a, rating_b, &outcomes);
            Ok(ConfirmOutcome {
                game: Game { confirmation_state: ConfirmationState::Confirmed, ..*game },
                ratings: Some(
                    (
                        Rating {
                            player_id: game.player_a,
                            sport_id: sport_id,
                            value: pair.0,
                            updated: now,
                        },
                        Rating {
                            player_id: game.player_b,
                            sport_id: sport_id,
                            value: pair.1,
                            updated: now,
                        },
                    ),
                ),
            })
        },
    }
}

/// Settlement is final: once a confirmation has succeeded, every further
/// confirm attempt on the settled game fails, so no rating row is ever
/// produced twice; for the opponent the answer is `NotAcceptable`.
pub proof fn lemma_confirm_is_final(
    game: Game,
    confirming_player_id: u128,
    decision: ConfirmationState,
    sport_id: u128,
    rating_a: Glicko2Rating,
    rating_b: Glicko2Rating,
    rounds: Seq<ScoreData>,
    now: i64,
    settled: ConfirmOutcome,
    later_player_id: u128,
    later_decision: ConfirmationState,
    later_sport_id: u128,
    later_rating_a: Glicko2Rating,
    later_rating_b: Glicko2Rating,
    later_rounds: Seq<ScoreData>,
    later_now: i64,
)
    requires
        confirm_spec(
            game,
            confirming_player_id,
            decision,
            sport_id,
            rating_a,
            rating_b,
            rounds,
            now,
        ) == Ok::<ConfirmOutcome, CoreError>(settled),
    ensures
        confirm_spec(
            settled.game,
            later_player_id,
            later_decision,
            later_sport_id,
            later_rating_a,
            later_rating_b,
            later_rounds,
            later_now,
        ) is Err,
        later_player_id == settled.game.player_b ==> confirm_spec(
            settled.game,
            later_player_id,
            later_decision,
            later_sport_id,
            later_rating_a,
            later_rating_b,
            later_rounds,
            later_now,
        ) == Err::<ConfirmOutcome, CoreError>(CoreError::NotAcceptable),
{
}

/// The anti-self-dealing rule: the reporter of a game with two distinct
/// participants can never settle it; the attempt is `Unauthorized`, and an
/// error carries no outcome, so the game stays `Pending`.
pub proof fn lemma_self_confirm_rejected(
    game: Game,
    decision: ConfirmationState,
    sport_id: u128,
    rating_a: Glicko2Rating,
    rating_b: Glicko2Rating,
    rounds: Seq<ScoreData>,
    now: i64,
)
    requires
        game.player_a != game.player_b,
    ensures
        confirm_spec(
            game,
            game.player_a,
            decision,
            sport_id,
            rating_a,
            rating_b,
            rounds,
            now,
        ) == Err::<ConfirmOutcome, CoreError>(CoreError::Unauthorized),
{
}

} // verus!
