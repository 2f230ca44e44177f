//! Per-system behaviour of the simulation core.
//!
//! Units: positions in micro-units (one game unit = 1_000_000), speeds
//! in milli-units per second (one unit per second = 1_000), fuel in
//! milli-units, time in milliseconds.

use stranded_core::control::apply_input;
use stranded_core::control::InputState;
use stranded_core::entity::Entity;
use stranded_core::math::mean_i64;
use stranded_core::math::overlap_test;
use stranded_core::motion::integrate;
use stranded_core::pickup::pickup;
use stranded_core::store::EntityStore;
use stranded_core::wrap::wrap_all;
use stranded_core::HALF_HEIGHT;
use stranded_core::HALF_WIDTH;
use stranded_core::REPLENISH;

fn moving_body(px: i64, py: i64, vx: i64, vy: i64) -> Entity {
    let mut e = Entity::blank();
    e.px = px;
    e.py = py;
    e.vx = vx;
    e.vy = vy;
    e.has_pos = true;
    e.has_vel = true;
    e
}

fn rigid_body(px: i64, py: i64, vx: i64, vy: i64, bx: i64, by: i64) -> Entity {
    let mut e = moving_body(px, py, vx, vy);
    e.bx = bx;
    e.by = by;
    e.has_box = true;
    e.rigid = true;
    e
}

fn player_body(px: i64, py: i64, vx: i64, vy: i64, fuel: i64) -> Entity {
    let mut e = moving_body(px, py, vx, vy);
    e.bx = 30_000_000;
    e.by = 30_000_000;
    e.has_box = true;
    e.fuel = fuel;
    e.has_fuel = true;
    e.player = true;
    e.wrap = true;
    e
}

fn cell_body(px: i64, py: i64) -> Entity {
    let mut e = rigid_body(px, py, 0, 0, 10_000_000, 10_000_000);
    e.pickup = true;
    e.wrap = true;
    e
}

#[test]
fn integrate_moves_position() {
    let mut store = EntityStore::new();
    store.create(moving_body(0, 0, 100_000, -50_000));
    integrate(&mut store, 1000);
    let e = store.get(0);
    assert_eq!(e.px, 100_000_000);
    assert_eq!(e.py, -50_000_000);
}

#[test]
fn integrate_ignores_missing_components() {
    let mut store = EntityStore::new();
    let mut e = moving_body(7, 8, 100, 100);
    e.has_vel = false;
    store.create(e);
    integrate(&mut store, 1000);
    assert_eq!(store.get(0).px, 7);
    assert_eq!(store.get(0).py, 8);
}

#[test]
fn integrate_frame_rate_independent() {
    let mut one_tick = EntityStore::new();
    one_tick.create(moving_body(123, 456, 77_000, -33_000));
    integrate(&mut one_tick, 1000);

    let mut ten_ticks = EntityStore::new();
    ten_ticks.create(moving_body(123, 456, 77_000, -33_000));
    for _ in 0..10 {
        integrate(&mut ten_ticks, 100);
    }

    assert_eq!(one_tick.get(0).px, ten_ticks.get(0).px);
    assert_eq!(one_tick.get(0).py, ten_ticks.get(0).py);
}

#[test]
fn wrap_resets_to_opposite_edge() {
    let mut store = EntityStore::new();
    let mut e = moving_body(HALF_WIDTH + 1, 0, 0, 0);
    e.wrap = true;
    store.create(e);
    wrap_all(&mut store, HALF_WIDTH, HALF_HEIGHT);
    assert_eq!(store.get(0).px, -HALF_WIDTH);
}

#[test]
fn wrap_handles_large_overshoot() {
    // Three window widths past the edge still lands exactly on it.
    let mut store = EntityStore::new();
    let mut e = moving_body(-HALF_WIDTH - 3 * 800_000_000, HALF_HEIGHT + 2 * 600_000_000, 0, 0);
    e.wrap = true;
    store.create(e);
    wrap_all(&mut store, HALF_WIDTH, HALF_HEIGHT);
    assert_eq!(store.get(0).px, HALF_WIDTH);
    assert_eq!(store.get(0).py, -HALF_HEIGHT);
}

#[test]
fn wrap_keeps_interior_and_untagged() {
    let mut store = EntityStore::new();
    let mut tagged = moving_body(HALF_WIDTH, -HALF_HEIGHT, 0, 0);
    tagged.wrap = true;
    store.create(tagged);
    store.create(moving_body(HALF_WIDTH + 5, 0, 0, 0));
    wrap_all(&mut store, HALF_WIDTH, HALF_HEIGHT);
    // Exactly on the edge is inside; the untagged entity never wraps.
    assert_eq!(store.get(0).px, HALF_WIDTH);
    assert_eq!(store.get(0).py, -HALF_HEIGHT);
    assert_eq!(store.get(1).px, HALF_WIDTH + 5);
}

#[test]
fn thrust_left_for_one_unit_of_time() {
    // Player at (0,0), velocity (100,100), fuel 100; "left" held for
    // one time unit: velocity becomes (-500, 100), fuel 70, position
    // shifts by (-500, 100).
    let mut store = EntityStore::new();
    store.create(player_body(0, 0, 100_000, 100_000, 100_000));
    let inp = InputState { up: false, down: false, left: true, right: false };
    apply_input(&mut store, inp, 1000);
    let e = store.get(0);
    assert_eq!(e.vx, -500_000);
    assert_eq!(e.vy, 100_000);
    assert_eq!(e.fuel, 70_000);
    integrate(&mut store, 1000);
    assert_eq!(store.get(0).px, -500_000_000);
    assert_eq!(store.get(0).py, 100_000_000);
}

#[test]
fn thrust_two_directions_burns_double() {
    let mut store = EntityStore::new();
    store.create(player_body(0, 0, 0, 0, 50_000));
    let inp = InputState { up: true, down: false, left: false, right: true };
    apply_input(&mut store, inp, 500);
    let e = store.get(0);
    assert_eq!(e.vx, 300_000);
    assert_eq!(e.vy, 300_000);
    // Two directions for half a unit: 2 * 30 * 0.5 = 30 units of fuel.
    assert_eq!(e.fuel, 20_000);
}

#[test]
fn thrust_released_changes_nothing() {
    let mut store = EntityStore::new();
    store.create(player_body(3, 4, 5, 6, 7));
    apply_input(&mut store, InputState::released(), 1000);
    let e = store.get(0);
    assert_eq!((e.vx, e.vy, e.fuel), (5, 6, 7));
}

#[test]
fn pickup_credits_and_despawns() {
    let mut store = EntityStore::new();
    store.create(player_body(0, 0, 0, 0, 100_000));
    let cell_id = store.create(cell_body(10_000_000, 0));
    let far_id = store.create(cell_body(300_000_000, 0));
    pickup(&mut store, 0);
    assert_eq!(store.len(), 2);
    assert_eq!(store.get(0).fuel, 100_000 + REPLENISH);
    for i in 0..store.len() {
        assert_ne!(store.get(i).id, cell_id);
    }
    assert_eq!(store.get(1).id, far_id);
}

#[test]
fn pickup_two_cells_credit_twice() {
    let mut store = EntityStore::new();
    store.create(player_body(0, 0, 0, 0, 0));
    store.create(cell_body(5_000_000, 5_000_000));
    store.create(cell_body(-5_000_000, 0));
    pickup(&mut store, 0);
    assert_eq!(store.len(), 1);
    assert_eq!(store.get(0).fuel, 2 * REPLENISH);
}

#[test]
fn pickup_without_overlap_is_a_no_op() {
    let mut store = EntityStore::new();
    store.create(player_body(0, 0, 0, 0, 42));
    store.create(cell_body(100_000_000, 100_000_000));
    pickup(&mut store, 0);
    assert_eq!(store.len(), 2);
    assert_eq!(store.get(0).fuel, 42);
}

#[test]
fn overlap_is_strict_at_the_boundary() {
    // Two 10-unit boxes whose centres sit exactly 10 units apart touch
    // without overlapping.
    assert!(!overlap_test(0, 0, 10_000_000, 10_000_000, 10_000_000, 0, 10_000_000, 10_000_000));
    assert!(overlap_test(0, 0, 10_000_000, 10_000_000, 9_999_999, 0, 10_000_000, 10_000_000));
}

#[test]
fn mean_truncates_toward_zero() {
    assert_eq!(mean_i64(3, 4), 3);
    assert_eq!(mean_i64(-3, -4), -3);
    assert_eq!(mean_i64(-1, 2), 0);
    assert_eq!(mean_i64(5, 5), 5);
}
