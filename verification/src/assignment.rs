//! The worker assignment system.
//!
//! A signed "workers to add" quantity, maintained by the player through a
//! `PendingWorkers` counter, is committed to a target game's worker count.
//! Adding is unclamped; removing saturates at zero; a separate reset
//! unconditionally clears the count.

use vstd::prelude::*;
use crate::entity::Game;

verus! {

/// The magnitude of a signed delta, as an unsigned count.
pub open spec fn magnitude_of(delta: i64) -> int {
    if delta >= 0 {
        delta as int
    } else {
        -(delta as int)
    }
}

/// The worker count after committing a signed delta: a positive delta is
/// added in full, a negative one is subtracted saturating at zero, and a
/// zero delta changes nothing.
pub open spec fn workers_after_add(workers: u64, delta: i64) -> int {
    if delta > 0 {
        workers + delta
    } else if delta < 0 {
        if magnitude_of(delta) <= workers {
            workers - magnitude_of(delta)
        } else {
            0
        }
    } else {
        workers as int
    }
}

/// The worker count after removing `magnitude` workers, saturating at zero.
pub open spec fn workers_after_reduce(workers: u64, magnitude: u64) -> int {
    if magnitude <= workers {
        workers - magnitude
    } else {
        0
    }
}

/// A game with its worker count replaced and every other attribute kept.
pub open spec fn game_with_workers(g: Game, workers: u64) -> Game {
    Game { workers, ..g }
}

/// A game after a worker reset: no workers, everything else kept.
pub open spec fn reset_of(g: Game) -> Game {
    game_with_workers(g, 0)
}

/// Remove `magnitude` workers from a game, saturating at zero: removing
/// more workers than are present leaves the count at zero, never a
/// negative value or an underflow.
pub fn reduce_workers(g: &mut Game, magnitude: u64)
    ensures
        *final(g) == game_with_workers(*old(g), (workers_after_reduce(old(g).workers, magnitude)) as u64),
        final(g).workers == workers_after_reduce(old(g).workers, magnitude),
        magnitude > old(g).workers ==> final(g).workers == 0,
        final(g).workers <= old(g).workers,
{
    if magnitude <= g.workers {
        g.workers = g.workers - magnitude;
    } else {
        g.workers = 0;
    }
}

/// Commit a signed worker delta to a game. A positive delta is added with
/// no clamp against the capacity; a negative delta removes its magnitude,
/// saturating at zero; a zero delta is a no-op. Only the worker count
/// changes.
pub fn add_workers(g: &mut Game, delta: i64)
    requires
        delta > 0 ==> old(g).workers + delta <= u64::MAX,
    ensures
        *final(g) == game_with_workers(*old(g), (workers_after_add(old(g).workers, delta)) as u64),
        final(g).workers == workers_after_add(old(g).workers, delta),
{
    if delta > 0 {
        g.workers = g.workers + (delta as u64);
    } else if delta < 0 {
        let mag128: i128 = -(delta as i128);
        let mag: u64 = mag128 as u64;
        reduce_workers(g, mag);
    }
}

/// Reset a game's workers to zero unconditionally. Only the worker count
/// changes.
pub fn reset_workers(g: &mut Game)
    ensures
        *final(g) == reset_of(*old(g)),
        final(g).workers == 0,
{
    g.workers = 0;
}

/// Resetting a game's workers twice is the same as resetting them once.
pub proof fn lemma_reset_idempotent(g: Game)
    ensures
        reset_of(reset_of(g)) == reset_of(g),
{
}

/// The pending "workers to add" counter the player adjusts before
/// committing it to a game.
#[derive(Clone, Copy, PartialEq, Eq, Structural, Debug)]
pub struct PendingWorkers {
    pub count: i64,
}

/// A signed value halved by integer division, truncating toward zero.
pub open spec fn halved_toward_zero(x: int) -> int {
    if x >= 0 {
        x / 2
    } else {
        -((-x) / 2)
    }
}

impl PendingWorkers {
    /// A fresh counter, holding nothing to add.
    pub fn new() -> (r: PendingWorkers)
        ensures
            r.count == 0,
    {
        PendingWorkers { count: 0 }
    }

    /// Set the counter to one.
    pub fn set_one(&mut self)
        ensures
            final(self).count == 1,
    {
        self.count = 1;
    }

    /// Double the counter.
    pub fn double(&mut self)
        requires
            i64::MIN <= old(self).count * 2 <= i64::MAX,
        ensures
            final(self).count == old(self).count * 2,
    {
        self.count = self.count * 2;
    }

    /// Halve the counter by integer division, truncating toward zero.
    pub fn halve(&mut self)
        ensures
            final(self).count == halved_toward_zero(old(self).count as int),
    {
        if self.count >= 0 {
            let half: u64 = (self.count as u64) / 2;
            self.count = half as i64;
        } else {
            let mag128: i128 = -(self.count as i128);
            let half: u64 = (mag128 as u64) / 2;
            self.count = -(half as i64);
        }
    }

    /// Negate the counter.
    pub fn negate(&mut self)
        requires
            old(self).count != i64::MIN,
        ensures
            final(self).count == -old(self).count,
    {
        self.count = -self.count;
    }
}

} // verus!
