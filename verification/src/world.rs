//! The entity store.
//!
//! A `World` owns the player singleton and the ordered collection of games,
//! both created once at startup from the catalog. The tick systems and the
//! worker assignment run over the store; a worker assignment names its
//! target game, and a name that matches no game is deliberately a no-op.

use vstd::prelude::*;
use vstd::pervasive::VecAdditionalExecFns;
use crate::assignment::{add_workers, reset_of, reset_workers, game_with_workers, workers_after_add};
use crate::difficulty::{
    game_after_difficulty, game_difficulty_inc, lemma_game_difficulty_inc_nonneg,
    player_after_difficulty, player_difficulty_inc, tick_game_difficulty, tick_player_difficulty,
};
use crate::economy::{economy_inc, game_after_economy, tick_game_currency};
use crate::entity::{game_of_template, Game, GameTemplate, initial_player, Player};
use crate::fixed::Fixed;

verus! {

/// Whether index `i` holds the first game of the store named `name`.
pub open spec fn is_first_match(games: Seq<Game>, name: Seq<char>, i: int) -> bool {
    &&& 0 <= i < games.len()
    &&& games[i].name@ == name
    &&& forall|j: int| 0 <= j < i ==> games[j].name@ != name
}

/// The player singleton and the ordered collection of games.
#[derive(Clone, Debug)]
pub struct World {
    pub player: Player,
    pub games: Vec<Game>,
}

impl World {
    /// Build the startup state: the initial player, and one live game per
    /// catalog entry, in catalog order.
    pub fn from_catalog(catalog: &Vec<GameTemplate>) -> (r: World)
        ensures
            r.player == initial_player(),
            r.games@.len() == catalog@.len(),
            forall|i: int|
                0 <= i < catalog@.len() ==> r.games@[i] == game_of_template(catalog@[i]),
    {
        let mut games: Vec<Game> = Vec::new();
        let n = catalog.len();
        let mut i: usize = 0;
        while i < n
            invariant
                n == catalog@.len(),
                i <= n,
                games@.len() == i,
                forall|j: int| 0 <= j < i ==> games@[j] == game_of_template(catalog@[j]),
            decreases n - i,
        {
            games.push(Game::from_template(&catalog[i]));
            i = i + 1;
        }
        World { player: Player::new(), games }
    }

    /// The player singleton.
    pub fn get_player(&self) -> (r: &Player)
        ensures
            *r == self.player,
    {
        &self.player
    }

    /// The live games, in creation order.
    pub fn games(&self) -> (r: &Vec<Game>)
        ensures
            *r == self.games,
    {
        &self.games
    }

    /// The index of the first game named `name`, or `None` when no game
    /// carries that name.
    pub fn find_game(&self, name: &String) -> (r: Option<usize>)
        ensures
            match r {
                Some(i) => is_first_match(self.games@, name@, i as int),
                None => forall|j: int| 0 <= j < self.games@.len() ==> self.games@[j].name@ != name@,
            },
    {
        let n = self.games.len();
        let mut i: usize = 0;
        while i < n
            invariant
                n == self.games@.len(),
                i <= n,
                forall|j: int| 0 <= j < i ==> self.games@[j].name@ != name@,
            decreases n - i,
        {
            if self.games[i].name == *name {
                return Some(i);
            }
            i = i + 1;
        }
        None
    }

    /// Commit a signed worker delta to the first game named `name`. When no
    /// game carries that name the store is left unchanged: the miss is a
    /// deliberate no-op, not an error.
    pub fn assign_workers(&mut self, name: &String, delta: i64)
        requires
            delta > 0 ==> forall|i: int|
                is_first_match(old(self).games@, name@, i) ==> old(self).games@[i].workers + delta
                    <= u64::MAX,
        ensures
            final(self).player == old(self).player,
            final(self).games@.len() == old(self).games@.len(),
            forall|i: int|
                0 <= i < old(self).games@.len() ==> final(self).games@[i] == (
                if is_first_match(old(self).games@, name@, i) {
                    game_with_workers(
                        old(self).games@[i],
                        (workers_after_add(old(self).games@[i].workers, delta)) as u64,
                    )
                } else {
                    old(self).games@[i]
                }),
    {
        let found = self.find_game(name);
        if let Some(i) = found {
            let mut g = self.games[i].duplicate();
            add_workers(&mut g, delta);
            self.games.set(i, g);
        }
    }

    /// Reset the workers of the first game named `name` to zero. When no
    /// game carries that name the store is left unchanged.
    pub fn reset_game_workers(&mut self, name: &String)
        ensures
            final(self).player == old(self).player,
            final(self).games@.len() == old(self).games@.len(),
            forall|i: int|
                0 <= i < old(self).games@.len() ==> final(self).games@[i] == (
                if is_first_match(old(self).games@, name@, i) {
                    reset_of(old(self).games@[i])
                } else {
                    old(self).games@[i]
                }),
    {
        let found = self.find_game(name);
        if let Some(i) = found {
            let mut g = self.games[i].duplicate();
            reset_workers(&mut g);
            self.games.set(i, g);
        }
    }

    /// Run the difficulty system over every entity: the player and each
    /// game gain their one-step difficulty increment. No accumulator
    /// decreases and nothing else changes.
    pub fn difficulty_system(&mut self, delta: Fixed)
        requires
            old(self).player.difficulty_ticks.millis + player_difficulty_inc(
                old(self).player.workers,
                old(self).player.workers_cap,
                delta.millis,
            ) <= u64::MAX,
            forall|i: int|
                0 <= i < old(self).games@.len() ==> old(self).games@[i].difficulty_ticks.millis
                    + game_difficulty_inc(old(self).games@[i].workers, delta.millis) <= u64::MAX,
        ensures
            final(self).player == player_after_difficulty(old(self).player, delta),
            final(self).games@.len() == old(self).games@.len(),
            forall|i: int|
                0 <= i < old(self).games@.len() ==> final(self).games@[i]
                    == game_after_difficulty(old(self).games@[i], delta),
            final(self).player.difficulty_ticks.millis >= old(self).player.difficulty_ticks.millis,
            forall|i: int|
                0 <= i < old(self).games@.len() ==> final(self).games@[i].difficulty_ticks.millis
                    >= old(self).games@[i].difficulty_ticks.millis,
    {
        tick_player_difficulty(&mut self.player, delta);
        let n = self.games.len();
        let mut i: usize = 0;
        while i < n
            invariant
                n == old(self).games@.len(),
                self.games@.len() == n,
                i <= n,
                self.player == player_after_difficulty(old(self).player, delta),
                forall|j: int|
                    0 <= j < i ==> self.games@[j] == game_after_difficulty(
                        old(self).games@[j],
                        delta,
                    ),
                forall|j: int| i <= j < n ==> self.games@[j] == old(self).games@[j],
                forall|j: int|
                    0 <= j < n ==> old(self).games@[j].difficulty_ticks.millis
                        + game_difficulty_inc(old(self).games@[j].workers, delta.millis)
                        <= u64::MAX,
            decreases n - i,
        {
            let mut g = self.games[i].duplicate();
            tick_game_difficulty(&mut g, delta);
            self.games.set(i, g);
            i = i + 1;
        }
        proof {
            assert forall|i: int|
                0 <= i < old(self).games@.len() implies self.games@[i].difficulty_ticks.millis
                >= old(self).games@[i].difficulty_ticks.millis by {
                lemma_game_difficulty_inc_nonneg(old(self).games@[i].workers, delta.millis);
            }
        }
    }

    /// Run the economy system over every game: each gains its one-step
    /// currency increment. No pool decreases, the player is untouched, and
    /// nothing else changes.
    pub fn economy_system(&mut self, delta: Fixed)
        requires
            forall|i: int|
                0 <= i < old(self).games@.len() ==> old(self).games@[i].currency.millis
                    + economy_inc(
                    old(self).games@[i].workers,
                    old(self).games@[i].rewards.millis,
                    delta.millis,
                ) <= u64::MAX,
        ensures
            final(self).player == old(self).player,
            final(self).games@.len() == old(self).games@.len(),
            forall|i: int|
                0 <= i < old(self).games@.len() ==> final(self).games@[i] == game_after_economy(
                    old(self).games@[i],
                    delta,
                ),
            forall|i: int|
                0 <= i < old(self).games@.len() ==> final(self).games@[i].currency.millis
                    >= old(self).games@[i].currency.millis,
    {
        let n = self.games.len();
        let mut i: usize = 0;
        while i < n
            invariant
                n == old(self).games@.len(),
                self.games@.len() == n,
                i <= n,
                self.player == old(self).player,
                forall|j: int|
                    0 <= j < i ==> self.games@[j] == game_after_economy(
                        old(self).games@[j],
                        delta,
                    ),
                forall|j: int| i <= j < n ==> self.games@[j] == old(self).games@[j],
                forall|j: int|
                    0 <= j < n ==> old(self).games@[j].currency.millis + economy_inc(
                        old(self).games@[j].workers,
                        old(self).games@[j].rewards.millis,
                        delta.millis,
                    ) <= u64::MAX,
            decreases n - i,
        {
            let mut g = self.games[i].duplicate();
            tick_game_currency(&mut g, delta);
            self.games.set(i, g);
            i = i + 1;
        }
    }
}

} // verus!
