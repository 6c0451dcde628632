//! The economy system.
//!
//! Each simulation step advances every game's currency pool by elapsed
//! time times its worker count times its reward rate. A game without
//! workers accrues nothing, and the player's currency is not advanced by
//! this system: no cross-entity currency flow exists in this engine.

use vstd::prelude::*;
use vstd::arithmetic::div_mod::lemma_fundamental_div_mod;
use crate::entity::Game;
use crate::fixed::{lemma_u64_mul_fits_u128, Fixed};

verus! {

/// The millis a game's currency pool gains in one step: elapsed time
/// times workers times the reward rate, truncated to millis; nothing
/// without workers.
pub open spec fn economy_inc(workers: u64, rewards_millis: u64, delta_millis: u64) -> int {
    if workers > 0 {
        (delta_millis * workers * rewards_millis) / 1000
    } else {
        0
    }
}

/// A game after one economy step: only the currency pool has moved.
pub open spec fn game_after_economy(g: Game, delta: Fixed) -> Game {
    Game {
        currency: Fixed {
            millis: (g.currency.millis + economy_inc(g.workers, g.rewards.millis, delta.millis))
                as u64,
        },
        ..g
    }
}

/// A game's currency gain is never negative.
pub proof fn lemma_economy_inc_nonneg(workers: u64, rewards_millis: u64, delta_millis: u64)
    ensures
        economy_inc(workers, rewards_millis, delta_millis) >= 0,
{
    assert(delta_millis * workers * rewards_millis >= 0) by (nonlinear_arith)
        requires
            delta_millis >= 0,
            workers >= 0,
            rewards_millis >= 0,
    ;
}

/// Advance one game's currency pool by one step of `delta` elapsed time.
/// Only the currency changes, and it never decreases.
pub fn tick_game_currency(g: &mut Game, delta: Fixed)
    requires
        old(g).currency.millis + economy_inc(old(g).workers, old(g).rewards.millis, delta.millis)
            <= u64::MAX,
    ensures
        *final(g) == game_after_economy(*old(g), delta),
        final(g).currency.millis == old(g).currency.millis
            + economy_inc(old(g).workers, old(g).rewards.millis, delta.millis),
        final(g).currency.millis >= old(g).currency.millis,
{
    proof {
        lemma_economy_inc_nonneg(g.workers, g.rewards.millis, delta.millis);
    }
    if g.workers > 0 {
        proof {
            lemma_u64_mul_fits_u128(delta.millis, g.workers);
        }
        let worked: u128 = (delta.millis as u128) * (g.workers as u128);
        proof {
            let full = delta.millis * g.workers * g.rewards.millis;
            lemma_fundamental_div_mod(full, 1000);
            assert(full <= 1000 * (full / 1000) + 999);
            assert(worked * g.rewards.millis == full);
        }
        let product: u128 = worked * (g.rewards.millis as u128);
        let inc: u64 = (product / 1000) as u64;
        g.currency = Fixed { millis: g.currency.millis + inc };
    }
}

} // verus!
