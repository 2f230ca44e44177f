//! Toroidal boundary wrapping: an entity tagged wrap-around that leaves
//! the window on one side is reset to the opposite edge.
//!
//! This is a hard reset, not a modulo wrap: however far past the edge a
//! position overshoots in one tick, it lands exactly on the opposite
//! edge.

use vstd::prelude::*;

use crate::entity::EModel;
use crate::store::EntityStore;

verus! {

/// One coordinate after wrapping against the half-extent `h`.
pub open spec fn wrap_coord(x: int, h: int) -> int {
    if x > h {
        -h
    } else if x < -h {
        h
    } else {
        x
    }
}

/// One entity after the wrapper has run.
pub open spec fn wrapped(e: EModel, hw: int, hh: int) -> EModel {
    if e.wrap && e.has_pos {
        EModel { px: wrap_coord(e.px, hw), py: wrap_coord(e.py, hh), ..e }
    } else {
        e
    }
}

/// A whole store after wrapping, elementwise.
pub open spec fn wrapped_all(s: Seq<EModel>, hw: int, hh: int) -> Seq<EModel> {
    s.map_values(|e: EModel| wrapped(e, hw, hh))
}

/// One coordinate, executable.
pub fn wrap_coord_exec(x: i64, h: i64) -> (r: i64)
    requires
        0 <= h,
    ensures
        r == wrap_coord(x as int, h as int),
{
    if x > h {
        -h
    } else if x < -h {
        h
    } else {
        x
    }
}

/// Reset every wrap-around entity that left the window of half-extents
/// `hw` by `hh` onto the opposite edge.
pub fn wrap_all(store: &mut EntityStore, hw: i64, hh: i64)
    requires
        0 < hw,
        0 < hh,
    ensures
        final(store)@ =~= wrapped_all(old(store)@, hw as int, hh as int),
        forall|k: int|
            0 <= k < final(store)@.len() && (#[trigger] final(store)@[k]).wrap
                && final(store)@[k].has_pos ==> {
                &&& -hw <= final(store)@[k].px <= hw
                &&& -hh <= final(store)@[k].py <= hh
            },
        final(store).next_id == old(store).next_id,
        old(store).wf() ==> final(store).wf(),
{
    let n = store.len();
    let mut i: usize = 0;
    while i < n
        invariant
            n == old(store)@.len(),
            store@.len() == n,
            i <= n,
            0 < hw,
            0 < hh,
            forall|k: int|
                0 <= k < i ==> store@[k] == wrapped(#[trigger] old(store)@[k], hw as int, hh as int),
            forall|k: int| i <= k < n ==> store@[k] == #[trigger] old(store)@[k],
            store.next_id == old(store).next_id,
            old(store).wf() ==> store.wf(),
        decreases n - i,
    {
        let e = store.get(i);
        if e.wrap && e.has_pos {
            let mut e2 = e;
            e2.px = wrap_coord_exec(e.px, hw);
            e2.py = wrap_coord_exec(e.py, hh);
            proof {
                assert(e2@ =~= wrapped(old(store)@[i as int], hw as int, hh as int));
            }
            store.set(i, e2);
        } else {
            proof {
                assert(e@ =~= wrapped(old(store)@[i as int], hw as int, hh as int));
            }
        }
        i += 1;
    }
}

/// Wrap correctness: after the wrapper has run, every wrap-around
/// entity's position lies within the window on both axes.
pub proof fn lemma_wrap_in_bounds(e: EModel, hw: int, hh: int)
    requires
        0 < hw,
        0 < hh,
        e.wrap,
        e.has_pos,
    ensures
        -hw <= wrapped(e, hw, hh).px <= hw,
        -hh <= wrapped(e, hw, hh).py <= hh,
{
}

/// A coordinate even one step past the edge is reset exactly onto the
/// opposite edge, however large the overshoot.
pub proof fn lemma_wrap_overshoot(x: int, h: int)
    requires
        x > h,
    ensures
        wrap_coord(x, h) == -h,
{
}

} // verus!
