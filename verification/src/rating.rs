//! The rating update engine: folds an ordered sequence of round outcomes
//! into updated per-player Glicko-2 ratings.
//!
//! The rating triple itself is the `skillratings` crate's `Glicko2Rating`
//! and is carried through this module opaquely: the engine decides nothing
//! from the numbers inside it, it only chains the crate's single-round
//! update, round by round, with the crate's fixed default configuration.

use crate::domain::RoundOutcome;
use skillratings::glicko2::Glicko2Config;
use skillratings::glicko2::Glicko2Rating;
use skillratings::glicko2::glicko2;
use skillratings::Outcomes;
use vstd::prelude::*;

verus! {

#[verifier::external_type_specification]
#[verifier::external_body]
pub struct ExGlicko2Rating(Glicko2Rating);

/// One row of a player's append-only rating history for a sport. The triple
/// inside `value` is written only by this engine; `updated` orders the
/// history, and the most recent row is the player's current rating.
#[derive(Debug)]
pub struct Rating {
    pub player_id: u128,
    pub sport_id: u128,
    pub value: Glicko2Rating,
    pub updated: i64,
}

/// The rating pair that one call of `skillratings::glicko2::glicko2` returns
/// for the given pair and outcome; the crate documents the call as a pure
/// function of the two ratings, the outcome and the (fixed) configuration.
pub uninterp spec fn glicko2_round_result(
    rating_a: Glicko2Rating,
    rating_b: Glicko2Rating,
    outcome: RoundOutcome,
) -> (Glicko2Rating, Glicko2Rating);

/// Holds of the fixed initial rating triple that a player has before any
/// confirmed game.
pub uninterp spec fn is_initial_rating(rating: Glicko2Rating) -> bool;

/// Relies on `skillratings::glicko2::glicko2`, the single-round Glicko-2
/// update: a deterministic computation over the two ratings and the outcome,
/// run with the crate's default `Glicko2Config` so results are reproducible.
#[verifier::external_body]
fn glicko2_round(
    rating_a: &Glicko2Rating,
    rating_b: &Glicko2Rating,
    outcome: RoundOutcome,
) -> (r: (Glicko2Rating, Glicko2Rating))
    ensures
        r == glicko2_round_result(*rating_a, *rating_b, outcome),
{
    let out = match outcome {
        RoundOutcome::Win => Outcomes::WIN,
        RoundOutcome::Loss => Outcomes::LOSS,
        RoundOutcome::Draw => Outcomes::DRAW,
    };
    glicko2(rating_a, rating_b, &out, &Glicko2Config::new())
}

/// Relies on `skillratings::glicko2::Glicko2Rating::new`, the fixed initial
/// rating triple (rating 1500.0, deviation 350.0, volatility 0.06).
#[verifier::external_body]
fn initial_rating() -> (r: Glicko2Rating)
    ensures
        is_initial_rating(r),
{
    Glicko2Rating::new()
}

/// A player's rating going into a game: the most recent persisted one, or
/// the fixed initial triple when none exists yet.
pub fn rating_or_initial(prior: Option<Glicko2Rating>) -> (r: Glicko2Rating)
    ensures
        prior is Some ==> r == prior->0,
        prior is None ==> is_initial_rating(r),
{
    match prior {
        Option::Some(rating) => rating,
        Option::None => initial_rating(),
    }
}

/// The chained update over an ordered outcome sequence: the output pair of
/// each round is the input pair of the next.
pub open spec fn chained_update(
    rating_a: Glicko2Rating,
    rating_b: Glicko2Rating,
    outcomes: Seq<RoundOutcome>,
) -> (Glicko2Rating, Glicko2Rating)
    decreases outcomes.len(),
{
    if outcomes.len() == 0 {
        (rating_a, rating_b)
    } else {
        let first = glicko2_round_result(rating_a, rating_b, outcomes[0]);
        chained_update(first.0, first.1, outcomes.drop_first())
    }
}

/// Folds the ordered outcomes of one game into the two players' new ratings,
/// applying the single-round update sequentially.
pub fn update_ratings(
    rating_a: Glicko2Rating,
    rating_b: Glicko2Rating,
    outcomes: &Vec<RoundOutcome>,
) -> (r: (Glicko2Rating, Glicko2Rating))
    ensures
        r == chained_update(rating_a, rating_b, outcomes@),
{
    let mut current_a = rating_a;
    let mut current_b = rating_b;
    let mut i: usize = 0;
    proof {
        assert(outcomes@.skip(0) =~= outcomes@);
    }
    while i < outcomes.len()
        invariant
            i <= outcomes@.len(),
            chained_update(rating_a, rating_b, outcomes@) == chained_update(
                current_a,
                current_b,
                outcomes@.skip(i as int),
            ),
        decreases outcomes@.len() - i,
    {
        proof {
            assert(outcomes@.skip(i as int)[0] == outcomes@[i as int]);
            assert(outcomes@.skip(i as int).drop_first() =~= outcomes@.skip(i as int + 1));
        }
        let next = glicko2_round(&current_a, &current_b, outcomes[i]);
        current_a = next.0;
        current_b = next.1;
        i = i + 1;
    }
    proof {
        assert(outcomes@.skip(outcomes@.len() as int) =~= Seq::<RoundOutcome>::empty());
    }
    (current_a, current_b)
}

/// The engine is deterministic: identical starting ratings and an identical
/// ordered outcome list always yield identical output ratings.
pub proof fn lemma_update_deterministic(
    rating_a1: Glicko2Rating,
    rating_b1: Glicko2Rating,
    outcomes1: Seq<RoundOutcome>,
    rating_a2: Glicko2Rating,
    rating_b2: Glicko2Rating,
    outcomes2: Seq<RoundOutcome>,
)
    requires
        rating_a1 == rating_a2,
        rating_b1 == rating_b2,
        outcomes1 == outcomes2,
    ensures
        chained_update(rating_a1, rating_b1, outcomes1) == chained_update(
            rating_a2,
            rating_b2,
            outcomes2,
        ),
{
}

} // verus!
