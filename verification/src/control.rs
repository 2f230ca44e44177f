//! The player controller: the decoded input state is translated into
//! velocity deltas and fuel consumption on the player entity.
//!
//! The four directions are honoured independently — a diagonal is two
//! directions applied together — and each pressed direction burns fuel
//! at the same fixed rate, so two directions burn twice as fast.  No
//! fuel floor is enforced: fuel may go negative.

use vstd::prelude::*;

use crate::entity::EModel;
use crate::store::EntityStore;
use crate::all_bounded;
use crate::DT_MAX;
use crate::FUEL_RATE;
use crate::THRUST_ACCEL;

verus! {

/// The decoded input state: one pressed/released signal per direction.
#[derive(Clone, Copy, Debug, PartialEq, Eq, Structural)]
pub struct InputState {
    pub up: bool,
    pub down: bool,
    pub left: bool,
    pub right: bool,
}

impl InputState {
    /// No direction pressed.
    pub fn released() -> (inp: InputState)
        ensures
            inp == (InputState { up: false, down: false, left: false, right: false }),
    {
        InputState { up: false, down: false, left: false, right: false }
    }
}

/// How many directions are pressed.
pub open spec fn pressed_count(inp: InputState) -> int {
    (if inp.up { 1int } else { 0 }) + (if inp.down { 1int } else { 0 })
        + (if inp.left { 1int } else { 0 }) + (if inp.right { 1int } else { 0 })
}

/// Velocity delta on one axis from its two directions, over `dt`
/// milliseconds: `THRUST_ACCEL * dt` toward each pressed direction.
pub open spec fn axis_delta(neg: bool, pos: bool, dt: int) -> int {
    (if pos { THRUST_ACCEL * dt } else { 0 }) - (if neg { THRUST_ACCEL * dt } else { 0 })
}

/// Fuel burnt by one direction over `dt` milliseconds.
pub open spec fn burn(pressed: bool, dt: int) -> int {
    if pressed {
        FUEL_RATE * dt
    } else {
        0
    }
}

/// Fuel burnt by all four directions together.
pub open spec fn total_burn(inp: InputState, dt: int) -> int {
    burn(inp.up, dt) + burn(inp.down, dt) + burn(inp.left, dt) + burn(inp.right, dt)
}

/// Each pressed direction burns at the same fixed rate, so the total
/// burn is the rate times the number of pressed directions: two held
/// directions consume exactly twice as fast as one.
pub proof fn lemma_burn_rate(inp: InputState, dt: int)
    ensures
        total_burn(inp, dt) == FUEL_RATE * dt * pressed_count(inp),
{
    let b = FUEL_RATE * dt;
    let pc = pressed_count(inp);
    assert(b * 0int == 0 && b * 1int == b && b * 2int == b + b && b * 3int == b + b + b && b
        * 4int == b + b + b + b) by (nonlinear_arith);
}

/// One entity after the controller has run.  Only an entity carrying
/// the player tag together with velocity and fuel is steered.
pub open spec fn controlled(e: EModel, inp: InputState, dt: int) -> EModel {
    if e.player && e.has_vel && e.has_fuel {
        EModel {
            vx: e.vx + axis_delta(inp.left, inp.right, dt),
            vy: e.vy + axis_delta(inp.down, inp.up, dt),
            fuel: e.fuel - total_burn(inp, dt),
            ..e
        }
    } else {
        e
    }
}

/// A whole store after the controller, elementwise.
pub open spec fn controlled_all(s: Seq<EModel>, inp: InputState, dt: int) -> Seq<EModel> {
    s.map_values(|e: EModel| controlled(e, inp, dt))
}

/// Apply thrust and fuel consumption for the pressed directions to the
/// player entity.
#[verifier::rlimit(60)]
pub fn apply_input(store: &mut EntityStore, inp: InputState, dt: u64)
    requires
        dt <= DT_MAX,
        all_bounded(old(store)@),
    ensures
        final(store)@ =~= controlled_all(old(store)@, inp, dt as int),
        final(store).next_id == old(store).next_id,
        old(store).wf() ==> final(store).wf(),
{
    let n = store.len();
    let mut i: usize = 0;
    while i < n
        invariant
            n == old(store)@.len(),
            store@.len() == n,
            i <= n,
            dt <= DT_MAX,
            all_bounded(old(store)@),
            forall|k: int|
                0 <= k < i ==> store@[k] == controlled(#[trigger] old(store)@[k], inp, dt as int),
            forall|k: int| i <= k < n ==> store@[k] == #[trigger] old(store)@[k],
            store.next_id == old(store).next_id,
            old(store).wf() ==> store.wf(),
        decreases n - i,
    {
        let e = store.get(i);
        if e.player && e.has_vel && e.has_fuel {
            proof {
                assert(crate::bounded(old(store)@[i as int]));
            }
            let step: i64 = THRUST_ACCEL * (dt as i64);
            let burn: i64 = FUEL_RATE * (dt as i64);
            let mut e2 = e;
            if inp.left {
                e2.vx = e2.vx - step;
                e2.fuel = e2.fuel - burn;
            }
            if inp.right {
                e2.vx = e2.vx + step;
                e2.fuel = e2.fuel - burn;
            }
            if inp.down {
                e2.vy = e2.vy - step;
                e2.fuel = e2.fuel - burn;
            }
            if inp.up {
                e2.vy = e2.vy + step;
                e2.fuel = e2.fuel - burn;
            }
            proof {
                assert(e2@ =~= controlled(old(store)@[i as int], inp, dt as int));
            }
            store.set(i, e2);
        } else {
            proof {
                assert(e@ =~= controlled(old(store)@[i as int], inp, dt as int));
            }
        }
        i += 1;
    }
}

} // verus!
