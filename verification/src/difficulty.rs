//! The difficulty system.
//!
//! Each simulation step advances every entity's `difficulty_ticks`
//! accumulator by a kind-dependent amount. A game with assigned workers
//! gains elapsed time scaled by `min(workers * 0.75, 1)`, so extra workers
//! beyond the second stop accelerating growth. The player gains elapsed
//! time scaled by the idle capacity `workers_cap - workers`, and gains
//! nothing while the worker count exceeds the capacity (a guard, not a
//! correction).

use vstd::prelude::*;
use crate::entity::{Game, Player};
use crate::fixed::{lemma_u64_mul_fits_u128, Fixed};

verus! {

/// A game's difficulty rate in millis: `min(workers * 0.75, 1)` units.
pub open spec fn game_rate_millis(workers: u64) -> int {
    if workers * 750 < 1000 {
        workers * 750
    } else {
        1000
    }
}

/// The millis a game's difficulty accumulator gains in one step: elapsed
/// time times the rate, truncated to millis; nothing without workers.
pub open spec fn game_difficulty_inc(workers: u64, delta_millis: u64) -> int {
    if workers > 0 {
        (delta_millis * game_rate_millis(workers)) / 1000
    } else {
        0
    }
}

/// The millis the player's difficulty accumulator gains in one step:
/// elapsed time times the idle capacity, and nothing while the worker
/// count exceeds the capacity.
pub open spec fn player_difficulty_inc(workers: u64, workers_cap: u64, delta_millis: u64) -> int {
    if workers <= workers_cap {
        delta_millis * (workers_cap - workers)
    } else {
        0
    }
}

/// A game after one difficulty step: only the accumulator has moved.
pub open spec fn game_after_difficulty(g: Game, delta: Fixed) -> Game {
    Game {
        difficulty_ticks: Fixed {
            millis: (g.difficulty_ticks.millis + game_difficulty_inc(g.workers, delta.millis)) as u64,
        },
        ..g
    }
}

/// The player after one difficulty step: only the accumulator has moved.
pub open spec fn player_after_difficulty(p: Player, delta: Fixed) -> Player {
    Player {
        difficulty_ticks: Fixed {
            millis: (p.difficulty_ticks.millis
                + player_difficulty_inc(p.workers, p.workers_cap, delta.millis)) as u64,
        },
        ..p
    }
}

/// A game's difficulty gain is never negative.
pub proof fn lemma_game_difficulty_inc_nonneg(workers: u64, delta_millis: u64)
    ensures
        game_difficulty_inc(workers, delta_millis) >= 0,
{
    assert(delta_millis * game_rate_millis(workers) >= 0) by (nonlinear_arith)
        requires
            delta_millis >= 0,
            game_rate_millis(workers) >= 0,
    ;
}

/// The player's difficulty gain is never negative.
pub proof fn lemma_player_difficulty_inc_nonneg(workers: u64, workers_cap: u64, delta_millis: u64)
    ensures
        player_difficulty_inc(workers, workers_cap, delta_millis) >= 0,
{
    if workers <= workers_cap {
        assert(delta_millis * (workers_cap - workers) >= 0) by (nonlinear_arith)
            requires
                delta_millis >= 0,
                workers_cap - workers >= 0,
        ;
    }
}

/// A game's difficulty rate in millis, capped at one unit per unit of
/// elapsed time.
pub fn game_difficulty_rate(workers: u64) -> (r: Fixed)
    ensures
        r.millis == game_rate_millis(workers),
        r.millis <= 1000,
{
    if workers >= 2 {
        Fixed { millis: 1000 }
    } else {
        Fixed { millis: workers * 750 }
    }
}

/// Advance one game's difficulty accumulator by one step of `delta`
/// elapsed time. Only the accumulator changes, and it never decreases.
pub fn tick_game_difficulty(g: &mut Game, delta: Fixed)
    requires
        old(g).difficulty_ticks.millis + game_difficulty_inc(old(g).workers, delta.millis)
            <= u64::MAX,
    ensures
        *final(g) == game_after_difficulty(*old(g), delta),
        final(g).difficulty_ticks.millis == old(g).difficulty_ticks.millis
            + game_difficulty_inc(old(g).workers, delta.millis),
        final(g).difficulty_ticks.millis >= old(g).difficulty_ticks.millis,
{
    proof {
        lemma_game_difficulty_inc_nonneg(g.workers, delta.millis);
    }
    if g.workers > 0 {
        let rate = game_difficulty_rate(g.workers);
        proof {
            lemma_u64_mul_fits_u128(delta.millis, rate.millis);
        }
        let product: u128 = (delta.millis as u128) * (rate.millis as u128);
        let inc: u64 = (product / 1000) as u64;
        g.difficulty_ticks = Fixed { millis: g.difficulty_ticks.millis + inc };
    }
}

/// Advance the player's difficulty accumulator by one step of `delta`
/// elapsed time. Only the accumulator changes, and it never decreases.
pub fn tick_player_difficulty(p: &mut Player, delta: Fixed)
    requires
        old(p).difficulty_ticks.millis
            + player_difficulty_inc(old(p).workers, old(p).workers_cap, delta.millis) <= u64::MAX,
    ensures
        *final(p) == player_after_difficulty(*old(p), delta),
        final(p).difficulty_ticks.millis == old(p).difficulty_ticks.millis
            + player_difficulty_inc(old(p).workers, old(p).workers_cap, delta.millis),
        final(p).difficulty_ticks.millis >= old(p).difficulty_ticks.millis,
{
    proof {
        lemma_player_difficulty_inc_nonneg(p.workers, p.workers_cap, delta.millis);
    }
    if p.workers <= p.workers_cap {
        let idle: u64 = p.workers_cap - p.workers;
        proof {
            lemma_u64_mul_fits_u128(delta.millis, idle);
        }
        let product: u128 = (delta.millis as u128) * (idle as u128);
        let inc: u64 = product as u64;
        p.difficulty_ticks = Fixed { millis: p.difficulty_ticks.millis + inc };
    }
}

} // verus!
