//! Simulation core of a minimal 2D survival game.
//!
//! A single player body moves continuously through a toroidally wrapped
//! window, burning fuel when thrusting and recovering it by flying over
//! fuel cells that a timer-driven spawner drops into the world.  The
//! library holds the whole per-tick update pipeline — player control,
//! movement integration, boundary wrapping, pairwise collision response,
//! the pickup economy and the spawner — over an entity/component store.
//!
//! All quantities are fixed-point integers so that every update is exact:
//! positions are kept in micro-units (one game unit = 1_000_000), speeds
//! in milli-units per second (one unit per second = 1_000), fuel in
//! milli-units, and time in milliseconds.  With those scales one tick of
//! integration is `position += velocity * dt` with no division, which
//! makes motion exactly frame-rate independent.

use vstd::prelude::*;

pub mod collide;
pub mod control;
pub mod entity;
pub mod math;
pub mod motion;
pub mod pickup;
pub mod rng;
pub mod sim;
pub mod spawn;
pub mod store;
pub mod wrap;

use crate::entity::EModel;
use crate::math::abs_val;

verus! {

/// Half of the window width, in micro-units (the window is 800 by 600 units).
pub const HALF_WIDTH: i64 = 400_000_000;

/// Half of the window height, in micro-units.
pub const HALF_HEIGHT: i64 = 300_000_000;

/// Thrust acceleration, in units per second squared; over a tick of
/// `dt` milliseconds it changes a velocity by `THRUST_ACCEL * dt`
/// milli-units per second.
pub const THRUST_ACCEL: i64 = 600;

/// Fuel burnt per pressed direction, in units per second; over a tick of
/// `dt` milliseconds each pressed direction costs `FUEL_RATE * dt`
/// milli-units of fuel.
pub const FUEL_RATE: i64 = 30;

/// Fuel credited for one collected cell, in milli-units (100 units).
pub const REPLENISH: i64 = 100_000;

/// Period of the spawn timer, in milliseconds.
pub const SPAWN_PERIOD_MS: u64 = 1000;

/// A spawned cell's speed is drawn from `[-CELL_SPEED_RANGE,
/// CELL_SPEED_RANGE]` on each axis, in milli-units per second.
pub const CELL_SPEED_RANGE: i64 = 30_000;

/// The player's starting speed is drawn from `[-PLAYER_SPEED_RANGE,
/// PLAYER_SPEED_RANGE]` on each axis, in milli-units per second.
pub const PLAYER_SPEED_RANGE: i64 = 100_000;

/// Full extent of a cell's bounding box, in micro-units (10 units).
pub const CELL_EXTENT: i64 = 10_000_000;

/// Full extent of the player's bounding box, in micro-units (30 units).
pub const PLAYER_EXTENT: i64 = 30_000_000;

/// The player's starting fuel, in milli-units (100 units).
pub const PLAYER_START_FUEL: i64 = 100_000;

/// Largest tick the pipeline accepts, in milliseconds (about 17 minutes).
/// This and the limits below are machine limits: they keep every i64
/// computation of a tick exact, and bound nothing that the game rules
/// care about.
pub const DT_MAX: u64 = 1_000_000;

/// Largest speed component accepted at the start of a tick.
pub const VEL_LIMIT: i64 = 1_000_000_000_000;

/// Largest speed component after the controller has run: thrust adds at
/// most `THRUST_ACCEL * DT_MAX` on one axis.
pub const VEL_PHASE_LIMIT: i64 = VEL_LIMIT + THRUST_ACCEL * 1_000_000;

/// Largest position component accepted at the start of a tick.
pub const POS_LIMIT: i64 = 4_000_000_000_000_000_000;

/// Largest fuel value accepted at the start of a tick.
pub const FUEL_LIMIT: i64 = 1_000_000_000_000_000;

/// Largest entity population accepted by a tick.
pub const COUNT_LIMIT: usize = 1_000_000;

/// The machine limits hold of one entity.
pub open spec fn bounded(e: EModel) -> bool {
    &&& abs_val(e.px) <= POS_LIMIT
    &&& abs_val(e.py) <= POS_LIMIT
    &&& abs_val(e.vx) <= VEL_LIMIT
    &&& abs_val(e.vy) <= VEL_LIMIT
    &&& abs_val(e.fuel) <= FUEL_LIMIT
}

/// The machine limits hold of every entity of the store.
pub open spec fn all_bounded(s: Seq<EModel>) -> bool {
    forall|i: int| 0 <= i < s.len() ==> bounded(#[trigger] s[i])
}

} // verus!
