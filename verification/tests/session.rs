//! Session-level behaviour: collision response, spawn cadence, the
//! full tick pipeline and its configuration errors.

use stranded_core::collide::resolve_collisions;
use stranded_core::entity::Entity;
use stranded_core::sim::ConfigError;
use stranded_core::sim::Simulation;
use stranded_core::spawn::run_spawner;
use stranded_core::spawn::SpawnTimer;
use stranded_core::store::EntityStore;
use stranded_core::control::InputState;
use stranded_core::CELL_SPEED_RANGE;
use stranded_core::HALF_HEIGHT;
use stranded_core::HALF_WIDTH;
use stranded_core::PLAYER_SPEED_RANGE;
use stranded_core::PLAYER_START_FUEL;
use stranded_core::SPAWN_PERIOD_MS;

fn rigid_body(px: i64, py: i64, vx: i64, vy: i64, bx: i64, by: i64) -> Entity {
    let mut e = Entity::blank();
    e.px = px;
    e.py = py;
    e.vx = vx;
    e.vy = vy;
    e.bx = bx;
    e.by = by;
    e.has_pos = true;
    e.has_vel = true;
    e.has_box = true;
    e.rigid = true;
    e
}

fn player_body(px: i64, py: i64, vx: i64, vy: i64, fuel: i64) -> Entity {
    let mut e = Entity::blank();
    e.px = px;
    e.py = py;
    e.vx = vx;
    e.vy = vy;
    e.bx = 30_000_000;
    e.by = 30_000_000;
    e.has_pos = true;
    e.has_vel = true;
    e.has_box = true;
    e.fuel = fuel;
    e.has_fuel = true;
    e.player = true;
    e.wrap = true;
    e
}

#[test]
fn collision_averages_both_velocities() {
    let mut store = EntityStore::new();
    store.create(rigid_body(0, 0, 10_000, 0, 20_000_000, 20_000_000));
    store.create(rigid_body(5_000_000, 0, 0, 20_000, 20_000_000, 20_000_000));
    resolve_collisions(&mut store);
    let a = store.get(0);
    let b = store.get(1);
    assert_eq!((a.vx, a.vy), (5_000, 10_000));
    assert_eq!((b.vx, b.vy), (5_000, 10_000));
}

#[test]
fn collision_is_idempotent_while_overlapping() {
    let mut store = EntityStore::new();
    store.create(rigid_body(0, 0, -3, 9, 20_000_000, 20_000_000));
    store.create(rigid_body(5_000_000, 0, -4, 2, 20_000_000, 20_000_000));
    resolve_collisions(&mut store);
    let v_first = (store.get(0).vx, store.get(0).vy, store.get(1).vx, store.get(1).vy);
    // The mean of (-3, -4) truncates toward zero.
    assert_eq!(v_first, (-3, 5, -3, 5));
    resolve_collisions(&mut store);
    let v_second = (store.get(0).vx, store.get(0).vy, store.get(1).vx, store.get(1).vy);
    assert_eq!(v_first, v_second);
}

#[test]
fn collision_needs_overlap_and_rigidity() {
    let mut store = EntityStore::new();
    store.create(rigid_body(0, 0, 7, 0, 10_000_000, 10_000_000));
    store.create(rigid_body(200_000_000, 0, -7, 0, 10_000_000, 10_000_000));
    let mut soft = rigid_body(1_000_000, 0, 99, 0, 10_000_000, 10_000_000);
    soft.rigid = false;
    store.create(soft);
    resolve_collisions(&mut store);
    assert_eq!(store.get(0).vx, 7);
    assert_eq!(store.get(1).vx, -7);
    assert_eq!(store.get(2).vx, 99);
}

#[test]
fn spawn_cadence_four_quarter_ticks() {
    // Period 1.0, ticks of 0.25: no cell after three ticks, exactly
    // one after the fourth.
    let mut store = EntityStore::new();
    let mut timer = SpawnTimer::new(SPAWN_PERIOD_MS);
    for _ in 0..3 {
        let spawned = run_spawner(&mut store, &mut timer, 250);
        assert!(!spawned);
    }
    assert_eq!(store.len(), 0);
    let spawned = run_spawner(&mut store, &mut timer, 250);
    assert!(spawned);
    assert_eq!(store.len(), 1);
    let cell = store.get(0);
    assert!(cell.pickup && cell.rigid && cell.wrap);
    assert!(!cell.player && !cell.has_fuel);
    assert_eq!((cell.bx, cell.by), (10_000_000, 10_000_000));
    assert!(-HALF_WIDTH <= cell.px && cell.px <= HALF_WIDTH);
    assert!(-HALF_HEIGHT <= cell.py && cell.py <= HALF_HEIGHT);
    assert!(-CELL_SPEED_RANGE <= cell.vx && cell.vx <= CELL_SPEED_RANGE);
    assert!(-CELL_SPEED_RANGE <= cell.vy && cell.vy <= CELL_SPEED_RANGE);
}

#[test]
fn spawn_overrun_fires_once_and_carries_remainder() {
    let mut store = EntityStore::new();
    let mut timer = SpawnTimer::new(1000);
    let spawned = run_spawner(&mut store, &mut timer, 2500);
    assert!(spawned);
    assert_eq!(store.len(), 1);
    assert_eq!(timer.elapsed_ms, 500);
}

#[test]
fn session_starts_with_one_player() {
    let sim = Simulation::new();
    assert_eq!(sim.store.len(), 1);
    let p = sim.store.get(0);
    assert!(p.player && p.wrap && !p.rigid && !p.pickup);
    assert_eq!((p.px, p.py), (0, 0));
    assert_eq!(p.fuel, PLAYER_START_FUEL);
    assert_eq!((p.bx, p.by), (30_000_000, 30_000_000));
    assert!(-PLAYER_SPEED_RANGE <= p.vx && p.vx <= PLAYER_SPEED_RANGE);
    assert!(-PLAYER_SPEED_RANGE <= p.vy && p.vy <= PLAYER_SPEED_RANGE);
    assert_eq!(sim.timer.period_ms, SPAWN_PERIOD_MS);
    assert_eq!(sim.timer.elapsed_ms, 0);
    assert_eq!(sim.player_fuel(), Ok(PLAYER_START_FUEL));
}

#[test]
fn tick_without_player_is_a_config_error() {
    let mut sim = Simulation { store: EntityStore::new(), timer: SpawnTimer::new(1000) };
    let r = sim.tick(InputState::released(), 100);
    assert_eq!(r, Err(ConfigError::NoPlayer));
    assert_eq!(sim.store.len(), 0);
    assert_eq!(sim.timer.elapsed_ms, 0);
    assert_eq!(sim.player_fuel(), Err(ConfigError::NoPlayer));
}

#[test]
fn tick_with_two_players_is_a_config_error() {
    let mut store = EntityStore::new();
    store.create(player_body(0, 0, 0, 0, 10));
    store.create(player_body(100_000_000, 0, 0, 0, 20));
    let mut sim = Simulation { store, timer: SpawnTimer::new(1000) };
    let r = sim.tick(InputState::released(), 100);
    assert_eq!(r, Err(ConfigError::MultiplePlayers));
    assert_eq!(sim.store.len(), 2);
    assert_eq!(sim.player_fuel(), Err(ConfigError::MultiplePlayers));
}

#[test]
fn tick_moves_wraps_and_accumulates_time() {
    let mut store = EntityStore::new();
    // Ten units short of the right edge, flying right at 100 units/s.
    store.create(player_body(HALF_WIDTH - 10_000_000, 0, 100_000, 0, 100_000));
    let mut sim = Simulation { store, timer: SpawnTimer::new(SPAWN_PERIOD_MS) };
    let r = sim.tick(InputState::released(), 250);
    assert_eq!(r, Ok(()));
    // 25 milli-units of travel overshoots the edge: hard reset.
    assert_eq!(sim.store.get(0).px, -HALF_WIDTH);
    assert_eq!(sim.timer.elapsed_ms, 250);
    assert_eq!(sim.store.len(), 1);
    assert_eq!(sim.player_fuel(), Ok(100_000));
}

#[test]
fn tick_collects_an_overlapping_cell() {
    let mut store = EntityStore::new();
    store.create(player_body(0, 0, 0, 0, 100_000));
    let mut cell = rigid_body(10_000_000, 0, 0, 0, 10_000_000, 10_000_000);
    cell.pickup = true;
    cell.wrap = true;
    store.create(cell);
    let mut sim = Simulation { store, timer: SpawnTimer::new(SPAWN_PERIOD_MS) };
    let r = sim.tick(InputState::released(), 100);
    assert_eq!(r, Ok(()));
    assert_eq!(sim.store.len(), 1);
    assert_eq!(sim.player_fuel(), Ok(200_000));
}

#[test]
fn tick_of_zero_elapsed_time_is_a_no_op() {
    let mut store = EntityStore::new();
    store.create(player_body(1, 2, 3, 4, 5));
    let mut sim = Simulation { store, timer: SpawnTimer::new(SPAWN_PERIOD_MS) };
    assert_eq!(sim.tick(InputState { up: true, down: false, left: true, right: false }, 0), Ok(()));
    let p = sim.store.get(0);
    assert_eq!((p.px, p.py, p.vx, p.vy, p.fuel), (1, 2, 3, 4, 5));
    assert_eq!(sim.timer.elapsed_ms, 0);
    assert_eq!(sim.store.len(), 1);
}

#[test]
fn tick_spawns_when_the_timer_matures() {
    let mut store = EntityStore::new();
    store.create(player_body(0, 0, 0, 0, 100_000));
    let mut sim = Simulation { store, timer: SpawnTimer::new(SPAWN_PERIOD_MS) };
    for _ in 0..3 {
        assert_eq!(sim.tick(InputState::released(), 250), Ok(()));
        assert_eq!(sim.store.len(), 1);
    }
    assert_eq!(sim.tick(InputState::released(), 250), Ok(()));
    assert_eq!(sim.store.len(), 2);
    assert_eq!(sim.timer.elapsed_ms, 0);
    let cell = sim.store.get(1);
    assert!(cell.pickup && cell.rigid && cell.wrap);
}
