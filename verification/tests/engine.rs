use idle_engine::assignment::{add_workers, reduce_workers, reset_workers, PendingWorkers};
use idle_engine::difficulty::{tick_game_difficulty, tick_player_difficulty};
use idle_engine::economy::tick_game_currency;
use idle_engine::entity::{Game, GameTemplate, Player};
use idle_engine::fixed::Fixed;
use idle_engine::schedule::{simulation_step, Cadence};
use idle_engine::world::World;

fn sample_game(name: &str, workers: u64, rewards_millis: u64) -> Game {
    Game {
        name: name.to_string(),
        price: Fixed { millis: 0 },
        subscription: false,
        difficulty_base: Fixed { millis: 1000 },
        difficulty_growth: Fixed { millis: 0 },
        difficulty_ticks: Fixed { millis: 0 },
        rewards: Fixed { millis: rewards_millis },
        worth: Fixed { millis: 100 },
        workers,
        workers_cap: 10,
        currency: Fixed { millis: 0 },
        population: 0,
    }
}

#[test]
fn player_starts_with_startup_values() {
    let p = Player::new();
    assert_eq!(p.currency.millis, 0);
    assert_eq!(p.workers, 0);
    assert_eq!(p.workers_cap, 1);
    assert_eq!(p.difficulty_base.millis, 1000);
    assert_eq!(p.difficulty_growth.millis, 100);
    assert_eq!(p.difficulty_ticks.millis, 0);
    assert_eq!(p.reborn_points.millis, 0);
    assert_eq!(p.idle_tokens.millis, 0);
}

#[test]
fn game_difficulty_rate_is_capped() {
    // One step of one second: increments 0, 0.75, 1.0 and 1.0 units.
    let expected = [(0u64, 0u64), (1, 750), (2, 1000), (10, 1000)];
    for (workers, inc) in expected {
        let mut g = sample_game("a", workers, 1000);
        tick_game_difficulty(&mut g, Fixed { millis: 1000 });
        assert_eq!(g.difficulty_ticks.millis, inc);
    }
}

#[test]
fn game_difficulty_accumulates_only_with_workers() {
    let mut g = sample_game("a", 0, 1000);
    tick_game_difficulty(&mut g, Fixed { millis: 5000 });
    assert_eq!(g.difficulty_ticks.millis, 0);
}

#[test]
fn player_difficulty_counts_idle_capacity() {
    let mut p = Player::new();
    p.workers = 3;
    p.workers_cap = 5;
    p.difficulty_ticks = Fixed { millis: 0 };
    tick_player_difficulty(&mut p, Fixed { millis: 2000 });
    assert_eq!(p.difficulty_ticks.millis, 4000);
}

#[test]
fn player_difficulty_guard_blocks_excess_workers() {
    let mut p = Player::new();
    p.workers = 6;
    p.workers_cap = 5;
    p.difficulty_ticks = Fixed { millis: 1234 };
    tick_player_difficulty(&mut p, Fixed { millis: 2000 });
    assert_eq!(p.difficulty_ticks.millis, 1234);
}

#[test]
fn economy_accrues_per_worker_rewards() {
    // Four workers at 2.5 rewards for one second earn exactly 10 units.
    let mut g = sample_game("a", 4, 2500);
    tick_game_currency(&mut g, Fixed { millis: 1000 });
    assert_eq!(g.currency.millis, 10000);
}

#[test]
fn economy_without_workers_accrues_nothing() {
    let mut g = sample_game("a", 0, 2500);
    tick_game_currency(&mut g, Fixed { millis: 1000 });
    assert_eq!(g.currency.millis, 0);
}

#[test]
fn reduce_workers_saturates_at_zero() {
    let mut g = sample_game("a", 3, 0);
    reduce_workers(&mut g, 7);
    assert_eq!(g.workers, 0);
}

#[test]
fn reduce_workers_subtracts_when_enough() {
    let mut g = sample_game("a", 7, 0);
    reduce_workers(&mut g, 3);
    assert_eq!(g.workers, 4);
}

#[test]
fn add_workers_positive_is_unclamped() {
    let mut g = sample_game("a", 8, 0);
    add_workers(&mut g, 5);
    assert_eq!(g.workers, 13);
}

#[test]
fn add_workers_negative_saturates() {
    let mut g = sample_game("a", 2, 0);
    add_workers(&mut g, -5);
    assert_eq!(g.workers, 0);
    let mut h = sample_game("a", 9, 0);
    add_workers(&mut h, -4);
    assert_eq!(h.workers, 5);
}

#[test]
fn add_workers_zero_is_noop() {
    let mut g = sample_game("a", 2, 0);
    add_workers(&mut g, 0);
    assert_eq!(g.workers, 2);
}

#[test]
fn reset_workers_twice_equals_once() {
    let mut once = sample_game("a", 9, 0);
    reset_workers(&mut once);
    let mut twice = sample_game("a", 9, 0);
    reset_workers(&mut twice);
    reset_workers(&mut twice);
    assert_eq!(once.workers, 0);
    assert_eq!(twice.workers, 0);
    assert_eq!(once.workers, twice.workers);
}

#[test]
fn pending_counter_adjustments() {
    let mut pending = PendingWorkers::new();
    assert_eq!(pending.count, 0);
    pending.set_one();
    assert_eq!(pending.count, 1);
    pending.double();
    pending.double();
    assert_eq!(pending.count, 4);
    pending.halve();
    assert_eq!(pending.count, 2);
    pending.negate();
    assert_eq!(pending.count, -2);
    pending.halve();
    assert_eq!(pending.count, -1);
    pending.halve();
    assert_eq!(pending.count, 0);
}

fn sample_catalog() -> Vec<GameTemplate> {
    vec![
        GameTemplate {
            name: "Rust Colony".to_string(),
            price: Fixed { millis: 500 },
            subscription: false,
            difficulty_base: Fixed { millis: 1000 },
            difficulty_growth: Fixed { millis: 0 },
            difficulty_ticks: Fixed { millis: 0 },
            rewards: Fixed { millis: 2500 },
            worth: Fixed { millis: 100 },
            workers: 4,
            workers_cap: 10,
            currency: Fixed { millis: 0 },
            population: 120,
        },
        GameTemplate {
            name: "Moon Miner".to_string(),
            price: Fixed { millis: 9000 },
            subscription: true,
            difficulty_base: Fixed { millis: 1000 },
            difficulty_growth: Fixed { millis: 200 },
            difficulty_ticks: Fixed { millis: 50 },
            rewards: Fixed { millis: 1000 },
            worth: Fixed { millis: 1 },
            workers: 0,
            workers_cap: 3,
            currency: Fixed { millis: 700 },
            population: 7,
        },
    ]
}

#[test]
fn from_catalog_builds_one_game_per_entry() {
    let world = World::from_catalog(&sample_catalog());
    assert_eq!(world.games.len(), 2);
    assert_eq!(world.games[0].name, "Rust Colony");
    assert_eq!(world.games[0].rewards.millis, 2500);
    assert_eq!(world.games[1].name, "Moon Miner");
    assert_eq!(world.games[1].currency.millis, 700);
    assert_eq!(world.player.workers_cap, 1);
}

#[test]
fn find_game_returns_first_match() {
    let world = World::from_catalog(&sample_catalog());
    assert_eq!(world.find_game(&"Moon Miner".to_string()), Some(1));
    assert_eq!(world.find_game(&"Rust Colony".to_string()), Some(0));
    assert_eq!(world.find_game(&"No Such Game".to_string()), None);
}

#[test]
fn assign_workers_updates_named_game() {
    let mut world = World::from_catalog(&sample_catalog());
    world.assign_workers(&"Moon Miner".to_string(), 5);
    assert_eq!(world.games[1].workers, 5);
    assert_eq!(world.games[0].workers, 4);
    world.assign_workers(&"Moon Miner".to_string(), -9);
    assert_eq!(world.games[1].workers, 0);
}

#[test]
fn assign_workers_misses_silently() {
    let mut world = World::from_catalog(&sample_catalog());
    world.assign_workers(&"No Such Game".to_string(), 5);
    assert_eq!(world.games[0].workers, 4);
    assert_eq!(world.games[1].workers, 0);
}

#[test]
fn reset_game_workers_clears_named_game() {
    let mut world = World::from_catalog(&sample_catalog());
    world.reset_game_workers(&"Rust Colony".to_string());
    assert_eq!(world.games[0].workers, 0);
    world.reset_game_workers(&"Rust Colony".to_string());
    assert_eq!(world.games[0].workers, 0);
}

#[test]
fn simulation_step_is_monotone() {
    let mut world = World::from_catalog(&sample_catalog());
    let before_player_ticks = world.player.difficulty_ticks.millis;
    let before: Vec<(u64, u64)> = world
        .games
        .iter()
        .map(|g| (g.currency.millis, g.difficulty_ticks.millis))
        .collect();
    simulation_step(&mut world, Fixed { millis: 1500 });
    assert!(world.player.difficulty_ticks.millis >= before_player_ticks);
    for (g, (currency, ticks)) in world.games.iter().zip(before.iter()) {
        assert!(g.currency.millis >= *currency);
        assert!(g.difficulty_ticks.millis >= *ticks);
    }
}

#[test]
fn simulation_step_runs_difficulty_then_economy() {
    let mut world = World::from_catalog(&sample_catalog());
    simulation_step(&mut world, Fixed { millis: 1000 });
    // Game 0: four workers, rewards 2.5 -> +10 currency, +1.0 difficulty.
    assert_eq!(world.games[0].currency.millis, 10000);
    assert_eq!(world.games[0].difficulty_ticks.millis, 1000);
    // Game 1: no workers -> nothing accrues.
    assert_eq!(world.games[1].currency.millis, 700);
    assert_eq!(world.games[1].difficulty_ticks.millis, 50);
    // Player: no workers, capacity one -> one second of meta difficulty.
    assert_eq!(world.player.difficulty_ticks.millis, 1000);
    assert_eq!(world.player.currency.millis, 0);
}

#[test]
fn cadence_fires_on_period_and_keeps_overshoot() {
    let mut cadence = Cadence::new(Fixed { millis: 3000 });
    assert!(!cadence.advance(Fixed { millis: 1000 }));
    assert!(!cadence.advance(Fixed { millis: 1999 }));
    assert!(cadence.advance(Fixed { millis: 1 }));
    assert_eq!(cadence.elapsed_millis, 0);
    assert!(cadence.advance(Fixed { millis: 7500 }));
    assert_eq!(cadence.elapsed_millis, 1500);
}
