//! Deterministic, event-sourced core of a multiplayer farm-economy simulation.
//!
//! The library models bounded resource containers (fields, silos, trucks),
//! a commodity catalog with a nonlinear valuation curve, per-player farms,
//! and the totally ordered event log that keeps every participant's copy of
//! the game state convergent.

use vstd::prelude::*;

pub mod event;
pub mod farm;
pub mod field;
pub mod laws;
pub mod player;
pub mod qty;
pub mod rng;
pub mod silo;
pub mod state;
pub mod tractor;
pub mod truck;
pub mod veggie;

verus! {

/// Time advance per real step; the presence predicates divide by it.
pub const SPEED: u64 = 2;

pub const ONE_MINUTE: u64 = 60;

pub const ONE_HOUR: u64 = ONE_MINUTE * 60;

pub const ONE_DAY: u64 = ONE_HOUR * 24;

/// Base quantity weight of the most common veggie.
pub const QTY_LEAST: u64 = 6;

/// Weight gap between consecutive catalog entries.
pub const QTY_GAP: u64 = 2;

/// Number of entries in the veggie catalog.
pub const VEGGIE_COUNT: u64 = 2;

/// Weight of the rarest veggie: `QTY_LEAST + (VEGGIE_COUNT - 1) * QTY_GAP`.
pub const QTY_MOST: u64 = QTY_LEAST + (VEGGIE_COUNT - 1) * QTY_GAP;

/// Total catalog weight: the average weight times the catalog size.
pub const QTY_TOTAL: u64 = (QTY_LEAST + QTY_MOST) / 2 * VEGGIE_COUNT;

pub type UserId = i64;

pub type Time = u64;

pub type Seed = u64;

pub type Quantity = u64;

pub type Money = u64;

pub type Success = bool;

pub type EventIndex = u64;

} // verus!
