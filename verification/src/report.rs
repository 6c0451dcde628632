//! The reporting system.
//!
//! On its own cadence, independent of the simulation step, a snapshot of
//! every entity's attributes is rendered as display lines. Fixed-point
//! attributes go through the magnitude-suffixed formatter; counts are
//! rendered as plain decimal numbers.

use vstd::prelude::*;
use vstd::string::StringExecFns;
use crate::entity::{Game, Player};
use crate::format::{dec_rep, format_rep, number_format, u64_to_dec};

verus! {

/// A label followed by an already rendered value.
fn labeled_line(label: &str, value: String) -> (r: String)
    ensures
        r@ == label@ + value@,
{
    let mut s = String::from_str(label);
    s.append(value.as_str());
    s
}

/// The words a truth value displays as.
fn bool_str(b: bool) -> (r: &'static str)
    ensures
        r@ == if b {
            "true"@
        } else {
            "false"@
        },
{
    if b {
        "true"
    } else {
        "false"
    }
}

/// The display snapshot of the player: a heading and one line per
/// attribute, in the fixed order below.
pub fn player_report(p: &Player) -> (r: Vec<String>)
    ensures
        r@.len() == 9,
        r@[0]@ == "Player"@,
        r@[1]@ == "\tCurrency: \t"@ + format_rep(p.currency.millis as nat),
        r@[2]@ == "\tWorkers: \t"@ + dec_rep(p.workers as nat),
        r@[3]@ == "\tWorkers_cap: \t"@ + dec_rep(p.workers_cap as nat),
        r@[4]@ == "\tDiff_base: \t"@ + format_rep(p.difficulty_base.millis as nat),
        r@[5]@ == "\tDiff_grow: \t"@ + format_rep(p.difficulty_growth.millis as nat),
        r@[6]@ == "\tDiff_ticks: \t"@ + format_rep(p.difficulty_ticks.millis as nat),
        r@[7]@ == "\tReborn_points: \t"@ + format_rep(p.reborn_points.millis as nat),
        r@[8]@ == "\tIdle_tokens: \t"@ + format_rep(p.idle_tokens.millis as nat),
{
    let mut lines: Vec<String> = Vec::new();
    lines.push(String::from_str("Player"));
    lines.push(labeled_line("\tCurrency: \t", number_format(p.currency)));
    lines.push(labeled_line("\tWorkers: \t", u64_to_dec(p.workers)));
    lines.push(labeled_line("\tWorkers_cap: \t", u64_to_dec(p.workers_cap)));
    lines.push(labeled_line("\tDiff_base: \t", number_format(p.difficulty_base)));
    lines.push(labeled_line("\tDiff_grow: \t", number_format(p.difficulty_growth)));
    lines.push(labeled_line("\tDiff_ticks: \t", number_format(p.difficulty_ticks)));
    lines.push(labeled_line("\tReborn_points: \t", number_format(p.reborn_points)));
    lines.push(labeled_line("\tIdle_tokens: \t", number_format(p.idle_tokens)));
    lines
}

/// The display snapshot of one game: its name as heading and one line per
/// attribute, in the fixed order below.
pub fn game_report(g: &Game) -> (r: Vec<String>)
    ensures
        r@.len() == 12,
        r@[0]@ == g.name@,
        r@[1]@ == "\tPrice: \t\t"@ + format_rep(g.price.millis as nat),
        r@[2]@ == "\tSubscription: "@ + (if g.subscription {
            "true"@
        } else {
            "false"@
        }),
        r@[3]@ == "\tDiff_base: \t"@ + format_rep(g.difficulty_base.millis as nat),
        r@[4]@ == "\tDiff_grow: \t"@ + format_rep(g.difficulty_growth.millis as nat),
        r@[5]@ == "\tDiff_ticks: \t"@ + format_rep(g.difficulty_ticks.millis as nat),
        r@[6]@ == "\tRewards: \t"@ + format_rep(g.rewards.millis as nat),
        r@[7]@ == "\tWorth: \t\t"@ + format_rep(g.worth.millis as nat),
        r@[8]@ == "\tWorkers: \t"@ + dec_rep(g.workers as nat),
        r@[9]@ == "\tWorkers_cap: \t"@ + dec_rep(g.workers_cap as nat),
        r@[10]@ == "\tCurrency: \t"@ + format_rep(g.currency.millis as nat),
        r@[11]@ == "\tPopulation: \t"@ + dec_rep(g.population as nat),
{
    let mut lines: Vec<String> = Vec::new();
    lines.push(g.name.clone());
    lines.push(labeled_line("\tPrice: \t\t", number_format(g.price)));
    lines.push(labeled_line("\tSubscription: ", String::from_str(bool_str(g.subscription))));
    lines.push(labeled_line("\tDiff_base: \t", number_format(g.difficulty_base)));
    lines.push(labeled_line("\tDiff_grow: \t", number_format(g.difficulty_growth)));
    lines.push(labeled_line("\tDiff_ticks: \t", number_format(g.difficulty_ticks)));
    lines.push(labeled_line("\tRewards: \t", number_format(g.rewards)));
    lines.push(labeled_line("\tWorth: \t\t", number_format(g.worth)));
    lines.push(labeled_line("\tWorkers: \t", u64_to_dec(g.workers)));
    lines.push(labeled_line("\tWorkers_cap: \t", u64_to_dec(g.workers_cap)));
    lines.push(labeled_line("\tCurrency: \t", number_format(g.currency)));
    lines.push(labeled_line("\tPopulation: \t", u64_to_dec(g.population)));
    lines
}

} // verus!
