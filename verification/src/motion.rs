//! Movement integration: every entity carrying both a transform and a
//! velocity advances by `position += velocity * dt`, independently of
//! every other entity.
//!
//! Because positions are micro-units, speeds milli-units per second and
//! `dt` milliseconds, the product needs no division and the update is
//! exact; integrating is therefore additive in `dt`, which is the
//! frame-rate-independence law proved at the end of this module.

use vstd::prelude::*;

use crate::entity::EModel;
use crate::math::abs_val;
use crate::math::lemma_mul_abs_bound;
use crate::store::EntityStore;
use crate::DT_MAX;
use crate::POS_LIMIT;
use crate::VEL_PHASE_LIMIT;

verus! {

/// One entity after integrating over `dt` milliseconds.
pub open spec fn integrated(e: EModel, dt: int) -> EModel {
    if e.has_pos && e.has_vel {
        EModel { px: e.px + e.vx * dt, py: e.py + e.vy * dt, ..e }
    } else {
        e
    }
}

/// A whole store after integration, elementwise.
pub open spec fn integrated_all(s: Seq<EModel>, dt: int) -> Seq<EModel> {
    s.map_values(|e: EModel| integrated(e, dt))
}

/// The machine limits the integrator itself needs: velocities may carry
/// the controller's thrust on top of the tick-entry limit.
pub open spec fn integrate_bounds(s: Seq<EModel>, dt: int) -> bool {
    &&& 0 <= dt <= DT_MAX
    &&& forall|i: int|
        0 <= i < s.len() ==> {
            &&& abs_val(#[trigger] s[i].px) <= POS_LIMIT
            &&& abs_val(s[i].py) <= POS_LIMIT
            &&& abs_val(s[i].vx) <= VEL_PHASE_LIMIT
            &&& abs_val(s[i].vy) <= VEL_PHASE_LIMIT
        }
}

/// Advance every entity with transform and velocity by one tick of `dt`
/// milliseconds.
pub fn integrate(store: &mut EntityStore, dt: u64)
    requires
        integrate_bounds(old(store)@, dt as int),
    ensures
        final(store)@ =~= integrated_all(old(store)@, dt as int),
        final(store).next_id == old(store).next_id,
        old(store).wf() ==> final(store).wf(),
{
    let n = store.len();
    let mut i: usize = 0;
    while i < n
        invariant
            n == old(store)@.len(),
            store@.len() == n,
            i <= n,
            integrate_bounds(old(store)@, dt as int),
            forall|k: int| 0 <= k < i ==> store@[k] == integrated(#[trigger] old(store)@[k], dt as int),
            forall|k: int| i <= k < n ==> store@[k] == #[trigger] old(store)@[k],
            store.next_id == old(store).next_id,
            old(store).wf() ==> store.wf(),
        decreases n - i,
    {
        let e = store.get(i);
        if e.has_pos && e.has_vel {
            proof {
                assert(abs_val(old(store)@[i as int].px) <= POS_LIMIT);
                lemma_mul_abs_bound(e@.vx, dt as int, VEL_PHASE_LIMIT as int, DT_MAX as int);
                lemma_mul_abs_bound(e@.vy, dt as int, VEL_PHASE_LIMIT as int, DT_MAX as int);
            }
            let mut e2 = e;
            e2.px = e.px + e.vx * (dt as i64);
            e2.py = e.py + e.vy * (dt as i64);
            proof {
                assert(e2@ =~= integrated(old(store)@[i as int], dt as int));
            }
            store.set(i, e2);
        } else {
            proof {
                assert(e@ =~= integrated(old(store)@[i as int], dt as int));
            }
        }
        i += 1;
    }
}

/// Frame-rate independence for linear motion: integrating for `d1` and
/// then for `d2` lands exactly where one tick of `d1 + d2` lands, for
/// every entity.  In particular ten ticks of a tenth of a unit equal one
/// tick of a whole unit.
pub proof fn lemma_integrate_additive(e: EModel, d1: int, d2: int)
    ensures
        integrated(integrated(e, d1), d2) =~= integrated(e, d1 + d2),
{
    assert(e.vx * d1 + e.vx * d2 == e.vx * (d1 + d2)) by (nonlinear_arith);
    assert(e.vy * d1 + e.vy * d2 == e.vy * (d1 + d2)) by (nonlinear_arith);
}

/// The same law over a whole store.
pub proof fn lemma_integrate_all_additive(s: Seq<EModel>, d1: int, d2: int)
    ensures
        integrated_all(integrated_all(s, d1), d2) =~= integrated_all(s, d1 + d2),
{
    assert forall|i: int| 0 <= i < s.len() implies integrated_all(integrated_all(s, d1), d2)[i]
        == integrated_all(s, d1 + d2)[i] by {
        lemma_integrate_additive(s[i], d1, d2);
    }
}

/// A whole store after `n` consecutive integration ticks of `dt` each.
pub open spec fn integrated_n(s: Seq<EModel>, dt: int, n: nat) -> Seq<EModel>
    decreases n,
{
    if n == 0 {
        s
    } else {
        integrated_all(integrated_n(s, dt, (n - 1) as nat), dt)
    }
}

/// Any number of equal sub-ticks integrates exactly like the one tick
/// they add up to: ten ticks of a tenth of a unit land every entity
/// where one tick of a whole unit does.
pub proof fn lemma_integrate_n_ticks(s: Seq<EModel>, dt: int, n: nat)
    ensures
        integrated_n(s, dt, n) =~= integrated_all(s, n * dt),
    decreases n,
{
    if n == 0 {
        assert(integrated_all(s, 0) =~= s);
    } else {
        lemma_integrate_n_ticks(s, dt, (n - 1) as nat);
        lemma_integrate_all_additive(s, (n - 1) as nat * dt, dt);
        let m: int = n - 1;
        assert(m * dt + dt == (m + 1) * dt) by (nonlinear_arith);
    }
}

} // verus!
