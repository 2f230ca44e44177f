//! The spawner: a repeating timer of fixed period that, on maturing,
//! creates exactly one new cell — rigid, wrap-around, collectible — at
//! a random position inside the window with a random velocity from a
//! fixed symmetric range.
//!
//! Maturation policy: when a tick's `dt` covers the period once or
//! several times over, the timer still fires only once that tick and
//! carries the remainder `(elapsed + dt) % period` over into the next
//! tick.

use vstd::prelude::*;

use crate::entity::EModel;
use crate::entity::Entity;
use crate::rng::draw_in_range;
use crate::store::EntityStore;
use crate::CELL_EXTENT;
use crate::CELL_SPEED_RANGE;
use crate::HALF_HEIGHT;
use crate::HALF_WIDTH;

verus! {

/// The repeating spawn timer: a period and an elapsed accumulator,
/// owned by the simulation session and advanced only inside the tick.
#[derive(Clone, Copy, Debug, PartialEq, Eq, Structural)]
pub struct SpawnTimer {
    pub period_ms: u64,
    pub elapsed_ms: u64,
}

impl SpawnTimer {
    /// Well-formed: a positive period, and the accumulator strictly
    /// inside it.
    pub open spec fn wf(&self) -> bool {
        0 < self.period_ms && self.elapsed_ms < self.period_ms
    }

    /// A fresh timer with nothing accumulated.
    pub fn new(period_ms: u64) -> (t: SpawnTimer)
        requires
            0 < period_ms,
        ensures
            t.period_ms == period_ms,
            t.elapsed_ms == 0,
            t.wf(),
    {
        SpawnTimer { period_ms, elapsed_ms: 0 }
    }

    /// Advance the accumulator by `dt` milliseconds.  The timer fires
    /// exactly when the accumulated time reaches the period; the
    /// remainder beyond whole periods carries over.
    pub fn advance(&mut self, dt: u64) -> (fired: bool)
        requires
            old(self).wf(),
            dt <= u64::MAX - old(self).period_ms,
        ensures
            final(self).period_ms == old(self).period_ms,
            fired == (old(self).elapsed_ms + dt >= old(self).period_ms),
            fired ==> final(self).elapsed_ms == (old(self).elapsed_ms + dt) % (
            old(self).period_ms as int),
            !fired ==> final(self).elapsed_ms == old(self).elapsed_ms + dt,
            final(self).wf(),
    {
        let acc = self.elapsed_ms + dt;
        if acc >= self.period_ms {
            self.elapsed_ms = acc % self.period_ms;
            true
        } else {
            self.elapsed_ms = acc;
            false
        }
    }
}

/// The component record of a freshly spawned cell.
pub open spec fn cell_model(id: int, x: int, y: int, vx: int, vy: int) -> EModel {
    EModel {
        id: id,
        px: x,
        py: y,
        vx: vx,
        vy: vy,
        bx: CELL_EXTENT as int,
        by: CELL_EXTENT as int,
        fuel: 0,
        has_pos: true,
        has_vel: true,
        has_box: true,
        has_fuel: false,
        player: false,
        rigid: true,
        wrap: true,
        pickup: true,
    }
}

/// What is known of a spawned cell: its shape and tags are fixed, its
/// position lies inside the window and its velocity inside the fixed
/// symmetric range; position and velocity are otherwise random.
pub open spec fn spawned_cell_ok(e: EModel, id: int) -> bool {
    &&& e == cell_model(id, e.px, e.py, e.vx, e.vy)
    &&& -HALF_WIDTH <= e.px <= HALF_WIDTH
    &&& -HALF_HEIGHT <= e.py <= HALF_HEIGHT
    &&& -CELL_SPEED_RANGE <= e.vx <= CELL_SPEED_RANGE
    &&& -CELL_SPEED_RANGE <= e.vy <= CELL_SPEED_RANGE
}

/// Create one cell with the given position and velocity.
pub fn spawn_cell(store: &mut EntityStore, x: i64, y: i64, vx: i64, vy: i64) -> (id: u64)
    requires
        old(store).next_id < u64::MAX,
    ensures
        id == old(store).next_id,
        final(store)@ =~= old(store)@.push(
            cell_model(id as int, x as int, y as int, vx as int, vy as int),
        ),
        final(store).next_id == old(store).next_id + 1,
        old(store).wf() ==> final(store).wf(),
{
    let mut e = Entity::blank();
    e.px = x;
    e.py = y;
    e.vx = vx;
    e.vy = vy;
    e.bx = CELL_EXTENT;
    e.by = CELL_EXTENT;
    e.has_pos = true;
    e.has_vel = true;
    e.has_box = true;
    e.rigid = true;
    e.wrap = true;
    e.pickup = true;
    let ghost before = store@;
    let id = store.create(e);
    proof {
        assert(store@[before.len() as int] =~= cell_model(
            id as int,
            x as int,
            y as int,
            vx as int,
            vy as int,
        ));
    }
    id
}

/// Advance the spawn timer by `dt`; when it fires, create exactly one
/// cell at a random position inside the window, with a random velocity.
pub fn run_spawner(store: &mut EntityStore, timer: &mut SpawnTimer, dt: u64) -> (spawned: bool)
    requires
        old(timer).wf(),
        dt <= u64::MAX - old(timer).period_ms,
        old(store).next_id < u64::MAX,
    ensures
        final(timer).period_ms == old(timer).period_ms,
        final(timer).wf(),
        spawned == (old(timer).elapsed_ms + dt >= old(timer).period_ms),
        spawned ==> final(timer).elapsed_ms == (old(timer).elapsed_ms + dt) % (
        old(timer).period_ms as int),
        !spawned ==> final(timer).elapsed_ms == old(timer).elapsed_ms + dt,
        !spawned ==> final(store)@ =~= old(store)@ && final(store).next_id == old(store).next_id,
        spawned ==> {
            &&& final(store)@.len() == old(store)@.len() + 1
            &&& final(store)@.drop_last() =~= old(store)@
            &&& spawned_cell_ok(final(store)@.last(), old(store).next_id as int)
            &&& final(store).next_id == old(store).next_id + 1
        },
        old(store).wf() ==> final(store).wf(),
{
    if timer.advance(dt) {
        let x = draw_in_range(-HALF_WIDTH, HALF_WIDTH);
        let y = draw_in_range(-HALF_HEIGHT, HALF_HEIGHT);
        let vx = draw_in_range(-CELL_SPEED_RANGE, CELL_SPEED_RANGE);
        let vy = draw_in_range(-CELL_SPEED_RANGE, CELL_SPEED_RANGE);
        spawn_cell(store, x, y, vx, vy);
        proof {
            assert(store@.drop_last() =~= old(store)@);
        }
        true
    } else {
        false
    }
}

} // verus!
