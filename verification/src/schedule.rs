//! The tick scheduler.
//!
//! One simulation step advances the whole world by `delta` elapsed time:
//! the difficulty system runs first, then the economy system, each seeing
//! the mutations of the one before it. Reporting runs on its own cadence,
//! modelled by a repeating timer advanced from the same clock.

use vstd::prelude::*;
use crate::difficulty::{game_after_difficulty, game_difficulty_inc, player_after_difficulty,
    player_difficulty_inc};
use crate::economy::{economy_inc, game_after_economy};
use crate::fixed::Fixed;
use crate::world::World;

verus! {

/// Advance the whole world by one simulation step of `delta` elapsed
/// time: every entity gains its difficulty increment, then every game
/// gains its currency increment. Within the step, no entity's currency
/// or difficulty accumulator decreases.
pub fn simulation_step(w: &mut World, delta: Fixed)
    requires
        old(w).player.difficulty_ticks.millis + player_difficulty_inc(
            old(w).player.workers,
            old(w).player.workers_cap,
            delta.millis,
        ) <= u64::MAX,
        forall|i: int|
            0 <= i < old(w).games@.len() ==> old(w).games@[i].difficulty_ticks.millis
                + game_difficulty_inc(old(w).games@[i].workers, delta.millis) <= u64::MAX,
        forall|i: int|
            0 <= i < old(w).games@.len() ==> old(w).games@[i].currency.millis + economy_inc(
                old(w).games@[i].workers,
                old(w).games@[i].rewards.millis,
                delta.millis,
            ) <= u64::MAX,
    ensures
        final(w).player == player_after_difficulty(old(w).player, delta),
        final(w).games@.len() == old(w).games@.len(),
        forall|i: int|
            0 <= i < old(w).games@.len() ==> final(w).games@[i] == game_after_economy(
                game_after_difficulty(old(w).games@[i], delta),
                delta,
            ),
        final(w).player.difficulty_ticks.millis >= old(w).player.difficulty_ticks.millis,
        final(w).player.currency.millis >= old(w).player.currency.millis,
        forall|i: int|
            0 <= i < old(w).games@.len() ==> final(w).games@[i].difficulty_ticks.millis
                >= old(w).games@[i].difficulty_ticks.millis,
        forall|i: int|
            0 <= i < old(w).games@.len() ==> final(w).games@[i].currency.millis
                >= old(w).games@[i].currency.millis,
{
    w.difficulty_system(delta);
    w.economy_system(delta);
}

/// A repeating timer: it fires each time the elapsed time it has absorbed
/// reaches its period, and keeps the overshoot.
#[derive(Clone, Copy, PartialEq, Eq, Structural, Debug)]
pub struct Cadence {
    /// The repeat period; always positive.
    pub period_millis: u64,
    /// Time absorbed since the last firing; always below the period.
    pub elapsed_millis: u64,
}

impl Cadence {
    /// A well-formed cadence: a positive period, and less than one full
    /// period absorbed.
    pub open spec fn wf(self) -> bool {
        0 < self.period_millis && self.elapsed_millis < self.period_millis
    }

    /// A fresh cadence that first fires once `period` has elapsed.
    pub fn new(period: Fixed) -> (r: Cadence)
        requires
            period.millis > 0,
        ensures
            r.period_millis == period.millis,
            r.elapsed_millis == 0,
            r.wf(),
    {
        Cadence { period_millis: period.millis, elapsed_millis: 0 }
    }

    /// Absorb `delta` elapsed time. The cadence fires exactly when the
    /// absorbed time reaches the period; what remains past a whole number
    /// of periods is kept toward the next firing.
    pub fn advance(&mut self, delta: Fixed) -> (fired: bool)
        requires
            old(self).wf(),
            old(self).elapsed_millis + delta.millis <= u64::MAX,
        ensures
            final(self).period_millis == old(self).period_millis,
            fired == (old(self).elapsed_millis + delta.millis >= old(self).period_millis),
            final(self).elapsed_millis == (old(self).elapsed_millis + delta.millis)
                % (old(self).period_millis as int),
            final(self).wf(),
    {
        let total: u64 = self.elapsed_millis + delta.millis;
        if total >= self.period_millis {
            self.elapsed_millis = total % self.period_millis;
            true
        } else {
            proof {
                vstd::arithmetic::div_mod::lemma_small_mod(
                    total as nat,
                    self.period_millis as nat,
                );
            }
            self.elapsed_millis = total;
            false
        }
    }
}

} // verus!
