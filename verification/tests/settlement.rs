use pickup_core::domain::ConfirmationState;
use pickup_core::domain::CoreError;
use pickup_core::domain::Game;
use pickup_core::domain::RoundOutcome;
use pickup_core::domain::ScoreData;
use pickup_core::settlement::confirm;
use pickup_core::settlement::derive_outcomes;
use pickup_core::settlement::report;
use skillratings::glicko2::glicko2;
use skillratings::glicko2::Glicko2Config;
use skillratings::glicko2::Glicko2Rating;
use skillratings::Outcomes;

fn rounds(pairs: &[(i32, i32)]) -> Vec<ScoreData> {
    pairs.iter().map(|p| ScoreData { score_1: p.0, score_2: p.1 }).collect()
}

#[test]
fn report_builds_pending_game_and_ledger() {
    let scores = rounds(&[(21, 15), (18, 21)]);
    let reported = report(5, 6, 100, 101, &scores, 1234).unwrap();
    assert_eq!(
        reported.game,
        Game {
            id: 6,
            session_id: 5,
            player_a: 100,
            player_b: 101,
            confirmation_state: ConfirmationState::Pending,
            created_at: 1234,
        }
    );
    assert_eq!(reported.scores.len(), 4);
    for (i, entry) in reported.scores.iter().enumerate() {
        assert_eq!(entry.game_id, 6);
        assert_eq!(entry.round, i / 2);
    }
    assert_eq!(reported.scores[0].player_id, 100);
    assert_eq!(reported.scores[0].score, 21);
    assert_eq!(reported.scores[1].player_id, 101);
    assert_eq!(reported.scores[1].score, 15);
    assert_eq!(reported.scores[2].score, 18);
    assert_eq!(reported.scores[3].score, 21);
}

#[test]
fn report_rejects_empty_rounds() {
    let scores: Vec<ScoreData> = Vec::new();
    assert_eq!(report(5, 6, 100, 101, &scores, 0).unwrap_err(), CoreError::ValidationError);
}

#[test]
fn report_rejects_self_directed_game() {
    let scores = rounds(&[(21, 15)]);
    assert_eq!(report(5, 6, 100, 100, &scores, 0).unwrap_err(), CoreError::ValidationError);
}

#[test]
fn outcomes_follow_score_comparison() {
    let scores = rounds(&[(21, 15), (18, 21), (10, 10)]);
    assert_eq!(
        derive_outcomes(&scores),
        vec![RoundOutcome::Win, RoundOutcome::Loss, RoundOutcome::Draw]
    );
}

fn pending_game() -> Game {
    Game {
        id: 6,
        session_id: 5,
        player_a: 100,
        player_b: 101,
        confirmation_state: ConfirmationState::Pending,
        created_at: 1000,
    }
}

#[test]
fn self_confirm_is_unauthorized() {
    // The reporter may never settle their own report, and the failed
    // attempt carries no state change or ratings.
    let scores = rounds(&[(21, 15)]);
    let a = Glicko2Rating::new();
    let b = Glicko2Rating::new();
    let r = confirm(&pending_game(), 100, ConfirmationState::Confirmed, 9, a, b, &scores, 2000);
    assert_eq!(r.unwrap_err(), CoreError::Unauthorized);
}

#[test]
fn stranger_confirm_is_unauthorized() {
    let scores = rounds(&[(21, 15)]);
    let a = Glicko2Rating::new();
    let b = Glicko2Rating::new();
    let r = confirm(&pending_game(), 999, ConfirmationState::Confirmed, 9, a, b, &scores, 2000);
    assert_eq!(r.unwrap_err(), CoreError::Unauthorized);
}

#[test]
fn settled_game_cannot_be_confirmed_again() {
    // Settling is final: a second confirmation of either settled state is
    // NotAcceptable and yields no rating rows.
    let scores = rounds(&[(21, 15)]);
    let a = Glicko2Rating::new();
    let b = Glicko2Rating::new();
    let settled = confirm(
        &pending_game(),
        101,
        ConfirmationState::Confirmed,
        9,
        a,
        b,
        &scores,
        2000,
    )
    .unwrap();
    let again = confirm(&settled.game, 101, ConfirmationState::Confirmed, 9, a, b, &scores, 3000);
    assert_eq!(again.unwrap_err(), CoreError::NotAcceptable);

    let disputed =
        confirm(&pending_game(), 101, ConfirmationState::Disputed, 9, a, b, &scores, 2000).unwrap();
    let again = confirm(&disputed.game, 101, ConfirmationState::Confirmed, 9, a, b, &scores, 3000);
    assert_eq!(again.unwrap_err(), CoreError::NotAcceptable);
}

#[test]
fn disputed_settlement_produces_no_ratings() {
    let scores = rounds(&[(21, 15)]);
    let a = Glicko2Rating::new();
    let b = Glicko2Rating::new();
    let out =
        confirm(&pending_game(), 101, ConfirmationState::Disputed, 9, a, b, &scores, 2000).unwrap();
    assert_eq!(out.game.confirmation_state, ConfirmationState::Disputed);
    assert!(out.ratings.is_none());
}

#[test]
fn pending_decision_is_rejected() {
    let scores = rounds(&[(21, 15)]);
    let a = Glicko2Rating::new();
    let b = Glicko2Rating::new();
    let r = confirm(&pending_game(), 101, ConfirmationState::Pending, 9, a, b, &scores, 2000);
    assert_eq!(r.unwrap_err(), CoreError::ValidationError);
}

#[test]
fn settlement_happy_path() {
    // Player A reported [[21,15],[18,21]]; B confirms. The outcomes are
    // [Win, Loss] from A's side, and the two rating rows equal the chained
    // Glicko-2 updates of the priors, stamped later than any prior row.
    let scores = rounds(&[(21, 15), (18, 21)]);
    let prior_a = Glicko2Rating { rating: 1400.0, deviation: 80.0, volatility: 0.06 };
    let prior_b = Glicko2Rating { rating: 1550.0, deviation: 110.0, volatility: 0.06 };
    let prior_updated: i64 = 1500;
    let now: i64 = 2000;
    let out = confirm(
        &pending_game(),
        101,
        ConfirmationState::Confirmed,
        9,
        prior_a,
        prior_b,
        &scores,
        now,
    )
    .unwrap();
    assert_eq!(out.game.confirmation_state, ConfirmationState::Confirmed);

    let config = Glicko2Config::new();
    let (step_a, step_b) = glicko2(&prior_a, &prior_b, &Outcomes::WIN, &config);
    let (want_a, want_b) = glicko2(&step_a, &step_b, &Outcomes::LOSS, &config);

    let (row_a, row_b) = out.ratings.unwrap();
    assert_eq!(row_a.player_id, 100);
    assert_eq!(row_b.player_id, 101);
    assert_eq!(row_a.sport_id, 9);
    assert_eq!(row_b.sport_id, 9);
    assert_eq!(row_a.value, want_a);
    assert_eq!(row_b.value, want_b);
    // The engine really moved the ratings.
    assert_ne!(row_a.value, prior_a);
    assert_ne!(row_b.value, prior_b);
    // One row per player, each newer than any prior rating row.
    assert!(row_a.updated > prior_updated);
    assert!(row_b.updated > prior_updated);
}
