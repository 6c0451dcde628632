//! The entity records of the simulation.
//!
//! A single `Player` and one `Game` per catalog entry are created at startup
//! and persist for the whole session; only their attribute values change.
//! A `GameTemplate` is one immutable catalog entry; the live `Game` state is
//! built from it once, at startup.

use vstd::prelude::*;
use crate::fixed::Fixed;

verus! {

/// The player singleton.
#[derive(Clone, Debug)]
pub struct Player {
    /// Accumulated resource; never decreased by any system.
    pub currency: Fixed,
    /// Workers currently held by the player.
    pub workers: u64,
    /// Maximum assignable workers.
    pub workers_cap: u64,
    /// Static multiplier reserved for a future difficulty curve.
    pub difficulty_base: Fixed,
    /// Static multiplier reserved for a future difficulty curve.
    pub difficulty_growth: Fixed,
    /// Difficulty accumulator; never decreased by any system.
    pub difficulty_ticks: Fixed,
    /// Reserved prestige counter, inert in this engine.
    pub reborn_points: Fixed,
    /// Reserved prestige counter, inert in this engine.
    pub idle_tokens: Fixed,
}

/// The player as created at startup: no currency, no workers, capacity one,
/// difficulty base of one unit and growth of a tenth of a unit, all
/// accumulators at zero.
pub open spec fn initial_player() -> Player {
    Player {
        currency: Fixed { millis: 0 },
        workers: 0,
        workers_cap: 1,
        difficulty_base: Fixed { millis: 1000 },
        difficulty_growth: Fixed { millis: 100 },
        difficulty_ticks: Fixed { millis: 0 },
        reborn_points: Fixed { millis: 0 },
        idle_tokens: Fixed { millis: 0 },
    }
}

impl Player {
    /// Create the player singleton with its startup attribute values.
    pub fn new() -> (r: Player)
        ensures
            r == initial_player(),
    {
        Player {
            currency: Fixed::zero(),
            workers: 0,
            workers_cap: 1,
            difficulty_base: Fixed::from_millis(1000),
            difficulty_growth: Fixed::from_millis(100),
            difficulty_ticks: Fixed::zero(),
            reborn_points: Fixed::zero(),
            idle_tokens: Fixed::zero(),
        }
    }
}

/// One catalog entry: the static description a game is created from.
#[derive(Clone, Debug)]
pub struct GameTemplate {
    pub name: String,
    pub price: Fixed,
    pub subscription: bool,
    pub difficulty_base: Fixed,
    pub difficulty_growth: Fixed,
    pub difficulty_ticks: Fixed,
    pub rewards: Fixed,
    pub worth: Fixed,
    pub workers: u64,
    pub workers_cap: u64,
    pub currency: Fixed,
    pub population: u64,
}

/// The live state of one game.
#[derive(Clone, Debug)]
pub struct Game {
    /// Unique identifier, used for lookup and display.
    pub name: String,
    /// Acquisition cost, carried but not consumed by any system.
    pub price: Fixed,
    /// Acquisition type, carried but not consumed by any system.
    pub subscription: bool,
    /// Static multiplier reserved for a future difficulty curve.
    pub difficulty_base: Fixed,
    /// Static multiplier reserved for a future difficulty curve.
    pub difficulty_growth: Fixed,
    /// Difficulty accumulator; grows only while workers are assigned.
    pub difficulty_ticks: Fixed,
    /// Currency earned per worker per unit of simulated time.
    pub rewards: Fixed,
    /// Valuation multiplier, carried but unused by current systems.
    pub worth: Fixed,
    /// Workers assigned to this game.
    pub workers: u64,
    /// Maximum workers for this game.
    pub workers_cap: u64,
    /// Currency accrued by this game, a pool separate from the player's.
    pub currency: Fixed,
    /// Static flavor attribute, display only.
    pub population: u64,
}

/// The live game state a template gives rise to: every attribute is taken
/// over unchanged.
pub open spec fn game_of_template(t: GameTemplate) -> Game {
    Game {
        name: t.name,
        price: t.price,
        subscription: t.subscription,
        difficulty_base: t.difficulty_base,
        difficulty_growth: t.difficulty_growth,
        difficulty_ticks: t.difficulty_ticks,
        rewards: t.rewards,
        worth: t.worth,
        workers: t.workers,
        workers_cap: t.workers_cap,
        currency: t.currency,
        population: t.population,
    }
}

impl Game {
    /// Build the live state of one game from its catalog entry.
    pub fn from_template(t: &GameTemplate) -> (r: Game)
        ensures
            r == game_of_template(*t),
    {
        Game {
            name: t.name.clone(),
            price: t.price,
            subscription: t.subscription,
            difficulty_base: t.difficulty_base,
            difficulty_growth: t.difficulty_growth,
            difficulty_ticks: t.difficulty_ticks,
            rewards: t.rewards,
            worth: t.worth,
            workers: t.workers,
            workers_cap: t.workers_cap,
            currency: t.currency,
            population: t.population,
        }
    }

    /// An exact copy of this game's live state.
    pub fn duplicate(&self) -> (r: Game)
        ensures
            r == *self,
    {
        Game {
            name: self.name.clone(),
            price: self.price,
            subscription: self.subscription,
            difficulty_base: self.difficulty_base,
            difficulty_growth: self.difficulty_growth,
            difficulty_ticks: self.difficulty_ticks,
            rewards: self.rewards,
            worth: self.worth,
            workers: self.workers,
            workers_cap: self.workers_cap,
            currency: self.currency,
            population: self.population,
        }
    }
}

} // verus!
