//! Tick-based economic simulation engine for an incremental game.
//!
//! A single player and a catalog-defined set of games accrue currency and
//! difficulty over discrete simulation steps. All fractional quantities are
//! held as fixed-point values in thousandths of a unit, so every rate formula
//! and every formatting rule is exact integer arithmetic.

pub mod assignment;
pub mod difficulty;
pub mod economy;
pub mod entity;
pub mod fixed;
pub mod format;
pub mod report;
pub mod schedule;
pub mod world;
