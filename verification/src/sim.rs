//! The simulation session: the entity store and the spawn timer, a
//! session constructor that creates the single player, the per-tick
//! update pipeline, and the read-only fuel query for the presentation
//! layer.
//!
//! Tick order: player control, movement integration, boundary wrapping,
//! collision response, pickup economy, spawner.  Exactly one player
//! entity must exist; a tick on a store with zero or several players is
//! a fatal configuration error and changes nothing.

use vstd::prelude::*;

use crate::collide::resolve_collisions;
use crate::collide::resolved_all;
use crate::collide::same_non_vel;
use crate::collide::lemma_resolved_preserves;
use crate::control::apply_input;
use crate::control::controlled_all;
use crate::control::InputState;
use crate::entity::EModel;
use crate::math::abs_val;
use crate::motion::integrate;
use crate::motion::integrated_all;
use crate::pickup::pickup;
use crate::pickup::picked_up;
use crate::pickup::FUEL_PHASE_LIMIT;
use crate::rng::draw_in_range;
use crate::spawn::run_spawner;
use crate::spawn::spawned_cell_ok;
use crate::spawn::SpawnTimer;
use crate::store::EntityStore;
use crate::entity::Entity;
use crate::wrap::wrap_all;
use crate::wrap::wrapped_all;
use crate::all_bounded;
use crate::COUNT_LIMIT;
use crate::DT_MAX;
use crate::HALF_HEIGHT;
use crate::HALF_WIDTH;
use crate::PLAYER_EXTENT;
use crate::PLAYER_SPEED_RANGE;
use crate::PLAYER_START_FUEL;
use crate::SPAWN_PERIOD_MS;
use crate::VEL_PHASE_LIMIT;

verus! {

/// The fatal configuration errors: the session must hold exactly one
/// player entity.
#[derive(Clone, Copy, Debug, PartialEq, Eq, Structural)]
pub enum ConfigError {
    NoPlayer,
    MultiplePlayers,
}

/// How many entities carry the player tag.
pub open spec fn player_count(s: Seq<EModel>) -> int
    decreases s.len(),
{
    if s.len() == 0 {
        0
    } else {
        player_count(s.drop_last()) + if s.last().player {
            1int
        } else {
            0
        }
    }
}

/// The index of the player entity, meaningful when exactly one exists.
pub open spec fn player_index(s: Seq<EModel>) -> int {
    choose|i: int| 0 <= i < s.len() && s[i].player
}

pub proof fn lemma_player_count_nonneg(s: Seq<EModel>)
    ensures
        player_count(s) >= 0,
    decreases s.len(),
{
    if s.len() > 0 {
        lemma_player_count_nonneg(s.drop_last());
    }
}

pub proof fn lemma_player_count_pos(s: Seq<EModel>, i: int)
    requires
        0 <= i < s.len(),
        s[i].player,
    ensures
        player_count(s) >= 1,
    decreases s.len(),
{
    lemma_player_count_nonneg(s.drop_last());
    if i < s.len() - 1 {
        lemma_player_count_pos(s.drop_last(), i);
    }
}

/// Two distinct player entities force a count of at least two: with a
/// count of one the player's index is unique.
pub proof fn lemma_player_count_ge2(s: Seq<EModel>, i: int, j: int)
    requires
        0 <= i < j < s.len(),
        s[i].player,
        s[j].player,
    ensures
        player_count(s) >= 2,
    decreases s.len(),
{
    if j == s.len() - 1 {
        lemma_player_count_pos(s.drop_last(), i);
    } else {
        lemma_player_count_ge2(s.drop_last(), i, j);
    }
}

/// The count reads only the player flags: stores that agree on them
/// entity by entity have the same count.
pub proof fn lemma_player_count_flagwise(s1: Seq<EModel>, s2: Seq<EModel>)
    requires
        s1.len() == s2.len(),
        forall|k: int| 0 <= k < s1.len() ==> #[trigger] s1[k].player == s2[k].player,
    ensures
        player_count(s1) == player_count(s2),
    decreases s1.len(),
{
    if s1.len() > 0 {
        lemma_player_count_flagwise(s1.drop_last(), s2.drop_last());
    }
}

/// Count the player entities and report the first one's index.
pub fn scan_players(store: &EntityStore) -> (r: (usize, usize))
    ensures
        r.0 == player_count(store@),
        r.0 > 0 ==> r.1 < store@.len() && store@[r.1 as int].player,
{
    let n = store.len();
    let mut count: usize = 0;
    let mut first: usize = 0;
    let mut k: usize = 0;
    while k < n
        invariant
            n == store@.len(),
            k <= n,
            count <= k,
            count == player_count(store@.take(k as int)),
            count > 0 ==> first < k && store@[first as int].player,
        decreases n - k,
    {
        let e = store.get(k);
        proof {
            assert(store@.take(k + 1).drop_last() =~= store@.take(k as int));
            assert(store@.take(k + 1).last() == store@[k as int]);
        }
        if e.player {
            if count == 0 {
                first = k;
            }
            count += 1;
        }
        k += 1;
    }
    proof {
        assert(store@.take(n as int) =~= store@);
    }
    (count, first)
}

/// Every player entity carries transform, velocity, box and fuel — the
/// component invariant of the data model.
pub open spec fn player_components_ok(s: Seq<EModel>) -> bool {
    forall|k: int|
        0 <= k < s.len() && (#[trigger] s[k]).player ==> s[k].has_pos && s[k].has_vel
            && s[k].has_box && s[k].has_fuel
}

/// A whole store after one tick, up to the spawner: control, then
/// integration, then wrapping, then collision response, then pickup.
pub open spec fn tick_model(s: Seq<EModel>, inp: InputState, dt: int) -> Seq<EModel> {
    let a = controlled_all(s, inp, dt);
    let b = integrated_all(a, dt);
    let c = wrapped_all(b, HALF_WIDTH as int, HALF_HEIGHT as int);
    let d = resolved_all(c);
    picked_up(d, player_index(d))
}

/// The component record of the player created at session start.
pub open spec fn player_model(id: int, vx: int, vy: int) -> EModel {
    EModel {
        id: id,
        px: 0,
        py: 0,
        vx: vx,
        vy: vy,
        bx: PLAYER_EXTENT as int,
        by: PLAYER_EXTENT as int,
        fuel: PLAYER_START_FUEL as int,
        has_pos: true,
        has_vel: true,
        has_box: true,
        has_fuel: true,
        player: true,
        rigid: false,
        wrap: true,
        pickup: false,
    }
}

/// What is known of the freshly created player: shape, tags, start
/// position and fuel are fixed; the start velocity is random within the
/// fixed symmetric range.
pub open spec fn session_player_ok(e: EModel) -> bool {
    &&& e == player_model(e.id, e.vx, e.vy)
    &&& -PLAYER_SPEED_RANGE <= e.vx <= PLAYER_SPEED_RANGE
    &&& -PLAYER_SPEED_RANGE <= e.vy <= PLAYER_SPEED_RANGE
}

/// The simulation session: the entity store and the spawn timer, the
/// only state that crosses ticks.
pub struct Simulation {
    pub store: EntityStore,
    pub timer: SpawnTimer,
}

impl Simulation {
    /// Well-formed: the store's ids are sound and the timer's
    /// accumulator sits inside its positive period.  The period bound
    /// is a machine limit for advancing the accumulator.
    pub open spec fn wf(&self) -> bool {
        &&& self.store.wf()
        &&& self.timer.wf()
        &&& self.timer.period_ms <= u64::MAX - DT_MAX
    }

    /// The machine limits under which a tick of `dt` milliseconds is
    /// exact, together with the component invariant on players.
    pub open spec fn tick_ready(&self, dt: int) -> bool {
        &&& self.wf()
        &&& 0 <= dt <= DT_MAX
        &&& self.store@.len() <= COUNT_LIMIT
        &&& all_bounded(self.store@)
        &&& player_components_ok(self.store@)
        &&& self.store.next_id < u64::MAX
    }

    /// Open a session: one player at the window's centre with full
    /// fuel and a random drift, and a fresh spawn timer.
    pub fn new() -> (sim: Simulation)
        ensures
            sim.wf(),
            sim.store@.len() == 1,
            session_player_ok(sim.store@[0]),
            player_count(sim.store@) == 1,
            sim.store.next_id == 1,
            sim.timer.period_ms == SPAWN_PERIOD_MS,
            sim.timer.elapsed_ms == 0,
    {
        let mut store = EntityStore::new();
        let mut e = Entity::blank();
        e.px = 0;
        e.py = 0;
        e.vx = draw_in_range(-PLAYER_SPEED_RANGE, PLAYER_SPEED_RANGE);
        e.vy = draw_in_range(-PLAYER_SPEED_RANGE, PLAYER_SPEED_RANGE);
        e.bx = PLAYER_EXTENT;
        e.by = PLAYER_EXTENT;
        e.fuel = PLAYER_START_FUEL;
        e.has_pos = true;
        e.has_vel = true;
        e.has_box = true;
        e.has_fuel = true;
        e.player = true;
        e.wrap = true;
        store.create(e);
        let timer = SpawnTimer::new(SPAWN_PERIOD_MS);
        let sim = Simulation { store, timer };
        proof {
            assert(sim.store@[0] =~= player_model(0, e.vx as int, e.vy as int));
            assert(sim.store@.drop_last() =~= Seq::<EModel>::empty());
            assert(player_count(Seq::<EModel>::empty()) == 0);
            assert(sim.store@.last().player);
            assert(player_count(sim.store@) == 1);
        }
        sim
    }

    /// One tick of the pipeline over `dt` milliseconds under the
    /// decoded input `inp`.
    ///
    /// With exactly one player the store becomes `tick_model` of its
    /// old value, followed — exactly when the spawn timer matures — by
    /// one new cell; otherwise the configuration error says whether
    /// players were missing or duplicated, and nothing changes.
    #[verifier::rlimit(100)]
    pub fn tick(&mut self, inp: InputState, dt: u64) -> (r: Result<(), ConfigError>)
        requires
            old(self).tick_ready(dt as int),
        ensures
            final(self).wf(),
            final(self).timer.period_ms == old(self).timer.period_ms,
            match r {
                Result::Err(e) => {
                    &&& final(self).store@ =~= old(self).store@
                    &&& final(self).store.next_id == old(self).store.next_id
                    &&& final(self).timer == old(self).timer
                    &&& (e == ConfigError::NoPlayer <==> player_count(old(self).store@) == 0)
                    &&& (e == ConfigError::MultiplePlayers <==> player_count(old(self).store@)
                        >= 2)
                    &&& player_count(old(self).store@) != 1
                },
                Result::Ok(()) => {
                    let mid = tick_model(old(self).store@, inp, dt as int);
                    let fired = old(self).timer.elapsed_ms + dt >= old(self).timer.period_ms;
                    &&& player_count(old(self).store@) == 1
                    &&& (fired ==> {
                        &&& final(self).timer.elapsed_ms == (old(self).timer.elapsed_ms + dt) % (
                        old(self).timer.period_ms as int)
                        &&& final(self).store@.len() == mid.len() + 1
                        &&& final(self).store@.drop_last() =~= mid
                        &&& spawned_cell_ok(
                            final(self).store@.last(),
                            old(self).store.next_id as int,
                        )
                    })
                    &&& (!fired ==> {
                        &&& final(self).timer.elapsed_ms == old(self).timer.elapsed_ms + dt
                        &&& final(self).store@ =~= mid
                    })
                },
            },
    {
        let (pc, fpi) = scan_players(&self.store);
        if pc == 0 {
            return Result::Err(ConfigError::NoPlayer);
        }
        if pc > 1 {
            return Result::Err(ConfigError::MultiplePlayers);
        }
        let ghost s0: Seq<EModel> = self.store@;
        let ghost a: Seq<EModel> = controlled_all(s0, inp, dt as int);
        let ghost b: Seq<EModel> = integrated_all(a, dt as int);
        let ghost c: Seq<EModel> = wrapped_all(b, HALF_WIDTH as int, HALF_HEIGHT as int);
        let ghost d: Seq<EModel> = resolved_all(c);

        apply_input(&mut self.store, inp, dt);
        proof {
            assert forall|k: int| 0 <= k < a.len() implies {
                &&& abs_val(#[trigger] a[k].px) <= crate::POS_LIMIT
                &&& abs_val(a[k].py) <= crate::POS_LIMIT
                &&& abs_val(a[k].vx) <= VEL_PHASE_LIMIT
                &&& abs_val(a[k].vy) <= VEL_PHASE_LIMIT
            } by {
                assert(crate::bounded(s0[k]));
            }
        }
        integrate(&mut self.store, dt);
        wrap_all(&mut self.store, HALF_WIDTH, HALF_HEIGHT);
        proof {
            assert forall|k: int|
                0 <= k < c.len() implies abs_val(#[trigger] c[k].vx) <= VEL_PHASE_LIMIT && abs_val(
                c[k].vy,
            ) <= VEL_PHASE_LIMIT by {
                assert(crate::bounded(s0[k]));
            }
        }
        resolve_collisions(&mut self.store);
        proof {
            lemma_resolved_preserves(c);
            assert(same_non_vel(c[fpi as int], d[fpi as int]));
            assert(crate::bounded(s0[fpi as int]));
            assert(d[fpi as int].player && d[fpi as int].has_pos && d[fpi as int].has_box && d[
                fpi as int].has_fuel);
            assert(abs_val(d[fpi as int].fuel) <= FUEL_PHASE_LIMIT);
            assert forall|k: int| 0 <= k < s0.len() implies #[trigger] d[k].player == s0[
                k].player by {
                assert(same_non_vel(c[k], d[k]));
            }
            lemma_player_count_flagwise(d, s0);
        }
        pickup(&mut self.store, fpi);
        proof {
            let cpi = player_index(d);
            assert(0 <= cpi < d.len() && d[cpi].player);
            if cpi != fpi {
                if cpi < fpi {
                    lemma_player_count_ge2(d, cpi, fpi as int);
                } else {
                    lemma_player_count_ge2(d, fpi as int, cpi);
                }
            }
            assert(self.store@ =~= tick_model(s0, inp, dt as int));
        }
        run_spawner(&mut self.store, &mut self.timer, dt);
        Result::Ok(())
    }

    /// The player's fuel, for the presentation layer's read-out; the
    /// configuration error when the session does not hold exactly one
    /// player.
    pub fn player_fuel(&self) -> (r: Result<i64, ConfigError>)
        ensures
            match r {
                Result::Ok(f) => player_count(self.store@) == 1 && exists|i: int|
                    0 <= i < self.store@.len() && (#[trigger] self.store@[i]).player
                        && self.store@[i].fuel == f,
                Result::Err(e) => {
                    &&& (e == ConfigError::NoPlayer <==> player_count(self.store@) == 0)
                    &&& (e == ConfigError::MultiplePlayers <==> player_count(self.store@) >= 2)
                    &&& player_count(self.store@) != 1
                },
            },
    {
        let (pc, fpi) = scan_players(&self.store);
        if pc == 0 {
            Result::Err(ConfigError::NoPlayer)
        } else if pc > 1 {
            Result::Err(ConfigError::MultiplePlayers)
        } else {
            Result::Ok(self.store.get(fpi).fuel)
        }
    }
}

} // verus!
