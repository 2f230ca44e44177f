//! Pairwise collision response among rigid entities.
//!
//! Every unordered pair of distinct rigid entities is tested for
//! bounding-box overlap; an overlapping pair has both velocities
//! replaced by the truncating mean of the two velocities the pair had
//! at the start of the phase.  Pairs are enumerated in index order and
//! every pair is judged on the phase-start snapshot, never on a value
//! another pair wrote earlier in the same tick.  No positional
//! separation is applied.

use vstd::prelude::*;

use crate::entity::EModel;
use crate::entity::Entity;
use crate::math::aabb_overlap;
use crate::math::abs_val;
use crate::math::mean;
use crate::math::mean_i64;
use crate::math::overlap_test;
use crate::store::EntityStore;
use crate::VEL_PHASE_LIMIT;

verus! {

/// An entity that takes part in collision response: rigid, with a
/// transform, a velocity and a bounding box.
pub open spec fn collider(e: EModel) -> bool {
    e.rigid && e.has_pos && e.has_vel && e.has_box
}

/// The two entities' boxes overlap.
pub open spec fn pair_overlaps(a: EModel, b: EModel) -> bool {
    aabb_overlap(a.px, a.py, a.bx, a.by, b.px, b.py, b.bx, b.by)
}

/// The velocities the pair `(i, j)` leaves behind when it collides:
/// both sides get the mean of the snapshot velocities.
pub open spec fn pair_mean_x(pre: Seq<EModel>, i: int, j: int) -> int {
    mean(pre[i].vx, pre[j].vx)
}

pub open spec fn pair_mean_y(pre: Seq<EModel>, i: int, j: int) -> int {
    mean(pre[i].vy, pre[j].vy)
}

/// Judge one pair against the snapshot `pre` and apply its write to
/// `cur`.
pub open spec fn resolve_step(pre: Seq<EModel>, cur: Seq<EModel>, i: int, j: int) -> Seq<
    EModel,
> {
    if 0 <= i < pre.len() && 0 <= j < pre.len() && collider(pre[i]) && collider(pre[j])
        && pair_overlaps(pre[i], pre[j]) {
        let mx = pair_mean_x(pre, i, j);
        let my = pair_mean_y(pre, i, j);
        cur.update(i, EModel { vx: mx, vy: my, ..cur[i] }).update(
            j,
            EModel { vx: mx, vy: my, ..cur[j] },
        )
    } else {
        cur
    }
}

/// Apply the pairs `(i, j), (i, j + 1), ...` of row `i`.
pub open spec fn resolve_row(pre: Seq<EModel>, cur: Seq<EModel>, i: int, j: int) -> Seq<EModel>
    decreases pre.len() - j,
{
    if j >= pre.len() {
        cur
    } else {
        resolve_row(pre, resolve_step(pre, cur, i, j), i, j + 1)
    }
}

/// Apply the rows `i, i + 1, ...`, each row pairing `i` with every
/// larger index.
pub open spec fn resolve_rows(pre: Seq<EModel>, cur: Seq<EModel>, i: int) -> Seq<EModel>
    decreases pre.len() - i,
{
    if i >= pre.len() {
        cur
    } else {
        resolve_rows(pre, resolve_row(pre, cur, i, i + 1), i + 1)
    }
}

/// A whole store after collision response.
pub open spec fn resolved_all(pre: Seq<EModel>) -> Seq<EModel> {
    resolve_rows(pre, pre, 0)
}

/// Machine limit for the mean: every snapshot velocity component within
/// the post-controller bound, so that no sum of two overflows.
pub open spec fn vel_bounded(s: Seq<EModel>) -> bool {
    forall|i: int|
        0 <= i < s.len() ==> abs_val(#[trigger] s[i].vx) <= VEL_PHASE_LIMIT && abs_val(
            s[i].vy,
        ) <= VEL_PHASE_LIMIT
}

/// Unfolding of one step of a row: judging pair `(i, j)` and moving on
/// to `j + 1` is the same row fold.
pub proof fn lemma_row_step(pre: Seq<EModel>, cur: Seq<EModel>, i: int, j: int)
    requires
        0 <= j < pre.len(),
    ensures
        resolve_row(pre, cur, i, j) == resolve_row(pre, resolve_step(pre, cur, i, j), i, j + 1),
{
}

/// Write the same velocity onto both members of a pair, leaving every
/// other field and every other entity alone.
fn set_pair_vel(store: &mut EntityStore, i: usize, j: usize, mx: i64, my: i64)
    requires
        i < old(store)@.len(),
        j < old(store)@.len(),
        i != j,
    ensures
        final(store)@ =~= old(store)@.update(
            i as int,
            EModel { vx: mx as int, vy: my as int, ..old(store)@[i as int] },
        ).update(j as int, EModel { vx: mx as int, vy: my as int, ..old(store)@[j as int] }),
        final(store).next_id == old(store).next_id,
{
    let mut ei = store.get(i);
    ei.vx = mx;
    ei.vy = my;
    store.set(i, ei);
    let mut ej = store.get(j);
    ej.vx = mx;
    ej.vy = my;
    store.set(j, ej);
    proof {
        assert(ei@ =~= (EModel { vx: mx as int, vy: my as int, ..old(store)@[i as int] }));
        assert(ej@ =~= (EModel { vx: mx as int, vy: my as int, ..old(store)@[j as int] }));
    }
}

/// Replace the velocities of every overlapping rigid pair by the mean
/// of the velocities the pair had when the phase began.
#[verifier::rlimit(100)]
pub fn resolve_collisions(store: &mut EntityStore)
    requires
        vel_bounded(old(store)@),
    ensures
        final(store)@ =~= resolved_all(old(store)@),
        final(store).next_id == old(store).next_id,
        old(store).wf() ==> final(store).wf(),
{
    let ghost pre: Seq<EModel> = store@;
    let n = store.len();

    // Snapshot of the phase-start state, read by every pair.
    let mut snap: Vec<Entity> = Vec::new();
    let mut k: usize = 0;
    while k < n
        invariant
            n == store@.len(),
            k <= n,
            snap@.len() == k,
            forall|m: int| 0 <= m < k ==> (#[trigger] snap@[m])@ == store@[m],
        decreases n - k,
    {
        snap.push(store.get(k));
        k += 1;
    }

    let mut i: usize = 0;
    while i < n
        invariant
            pre == old(store)@,
            n == pre.len(),
            store@.len() == n,
            i <= n,
            vel_bounded(pre),
            snap@.len() == n,
            forall|m: int| 0 <= m < n ==> (#[trigger] snap@[m])@ == pre[m],
            resolve_rows(pre, store@, i as int) == resolved_all(pre),
            store.next_id == old(store).next_id,
            forall|m: int| 0 <= m < n ==> (#[trigger] store@[m]).id == pre[m].id,
        decreases n - i,
    {
        let mut j: usize = i + 1;
        while j < n
            invariant
                pre == old(store)@,
                n == pre.len(),
                store@.len() == n,
                i < n,
                i + 1 <= j <= n,
                vel_bounded(pre),
                snap@.len() == n,
                forall|m: int| 0 <= m < n ==> (#[trigger] snap@[m])@ == pre[m],
                resolve_rows(pre, resolve_row(pre, store@, i as int, j as int), i + 1)
                    == resolved_all(pre),
                store.next_id == old(store).next_id,
                forall|m: int| 0 <= m < n ==> (#[trigger] store@[m]).id == pre[m].id,
            decreases n - j,
        {
            let ghost cur0: Seq<EModel> = store@;
            proof {
                lemma_row_step(pre, cur0, i as int, j as int);
            }
            let a = snap[i];
            let b = snap[j];
            if a.rigid && a.has_pos && a.has_vel && a.has_box && b.rigid && b.has_pos && b.has_vel
                && b.has_box && overlap_test(a.px, a.py, a.bx, a.by, b.px, b.py, b.bx, b.by) {
                proof {
                    assert(abs_val(pre[i as int].vx) <= VEL_PHASE_LIMIT);
                    assert(abs_val(pre[j as int].vx) <= VEL_PHASE_LIMIT);
                }
                let mx = mean_i64(a.vx, b.vx);
                let my = mean_i64(a.vy, b.vy);
                set_pair_vel(store, i, j, mx, my);
                proof {
                    assert(store@ =~= resolve_step(pre, cur0, i as int, j as int));
                }
            } else {
                proof {
                    assert(store@ =~= resolve_step(pre, cur0, i as int, j as int));
                }
            }
            j += 1;
        }
        i += 1;
    }
    proof {
        assert(old(store).wf() ==> store.wf());
    }
}

/// `b` is `a` with at most the velocity rewritten: every other
/// component and every tag is the same.
pub open spec fn same_non_vel(a: EModel, b: EModel) -> bool {
    &&& b.id == a.id
    &&& b.px == a.px
    &&& b.py == a.py
    &&& b.bx == a.bx
    &&& b.by == a.by
    &&& b.fuel == a.fuel
    &&& b.has_pos == a.has_pos
    &&& b.has_vel == a.has_vel
    &&& b.has_box == a.has_box
    &&& b.has_fuel == a.has_fuel
    &&& b.player == a.player
    &&& b.rigid == a.rigid
    &&& b.wrap == a.wrap
    &&& b.pickup == a.pickup
}

proof fn lemma_row_preserves(pre: Seq<EModel>, cur: Seq<EModel>, i: int, j: int)
    requires
        cur.len() == pre.len(),
    ensures
        resolve_row(pre, cur, i, j).len() == cur.len(),
        forall|k: int|
            0 <= k < cur.len() ==> same_non_vel(cur[k], #[trigger] resolve_row(pre, cur, i, j)[k]),
    decreases pre.len() - j,
{
    if j < pre.len() {
        assert(resolve_step(pre, cur, i, j).len() == cur.len());
        lemma_row_preserves(pre, resolve_step(pre, cur, i, j), i, j + 1);
    }
}

proof fn lemma_rows_preserves(pre: Seq<EModel>, cur: Seq<EModel>, i: int)
    requires
        cur.len() == pre.len(),
    ensures
        resolve_rows(pre, cur, i).len() == cur.len(),
        forall|k: int|
            0 <= k < cur.len() ==> same_non_vel(cur[k], #[trigger] resolve_rows(pre, cur, i)[k]),
    decreases pre.len() - i,
{
    if i < pre.len() {
        lemma_row_preserves(pre, cur, i, i + 1);
        lemma_rows_preserves(pre, resolve_row(pre, cur, i, i + 1), i + 1);
    }
}

/// Collision response rewrites velocities only: identities, transforms,
/// boxes, fuel and tags all come through unchanged, entity by entity.
pub proof fn lemma_resolved_preserves(s: Seq<EModel>)
    ensures
        resolved_all(s).len() == s.len(),
        forall|k: int| 0 <= k < s.len() ==> same_non_vel(s[k], #[trigger] resolved_all(s)[k]),
{
    lemma_rows_preserves(s, s, 0);
}

/// Collision symmetry: in a store of exactly two overlapping rigid
/// entities, resolution gives both of them the same velocity, the mean
/// of their two earlier velocities, and changes nothing else.
pub proof fn lemma_collision_pair(s: Seq<EModel>)
    requires
        s.len() == 2,
        collider(s[0]),
        collider(s[1]),
        pair_overlaps(s[0], s[1]),
    ensures
        resolved_all(s).len() == 2,
        resolved_all(s)[0] == (EModel {
            vx: mean(s[0].vx, s[1].vx),
            vy: mean(s[0].vy, s[1].vy),
            ..s[0]
        }),
        resolved_all(s)[1] == (EModel {
            vx: mean(s[0].vx, s[1].vx),
            vy: mean(s[0].vy, s[1].vy),
            ..s[1]
        }),
{
    let c1 = resolve_step(s, s, 0, 1);
    assert(resolve_row(s, c1, 0, 2) == c1);
    assert(resolve_row(s, s, 0, 1) == c1);
    assert(resolve_row(s, c1, 1, 2) == c1);
    assert(resolve_rows(s, c1, 2) == c1);
    assert(resolve_rows(s, c1, 1) == c1);
    assert(resolved_all(s) == c1);
    assert(resolved_all(s)[0] =~= (EModel {
        vx: mean(s[0].vx, s[1].vx),
        vy: mean(s[0].vy, s[1].vy),
        ..s[0]
    }));
    assert(resolved_all(s)[1] =~= (EModel {
        vx: mean(s[0].vx, s[1].vx),
        vy: mean(s[0].vy, s[1].vy),
        ..s[1]
    }));
}

/// Collision idempotence: running resolution again at once, while the
/// pair still overlaps, changes nothing — the mean of two equal
/// velocities is that velocity.
pub proof fn lemma_collision_idempotent(s: Seq<EModel>)
    requires
        s.len() == 2,
        collider(s[0]),
        collider(s[1]),
        pair_overlaps(s[0], s[1]),
    ensures
        resolved_all(resolved_all(s)) =~= resolved_all(s),
{
    lemma_collision_pair(s);
    let r = resolved_all(s);
    crate::math::lemma_mean_of_equal(r[0].vx);
    crate::math::lemma_mean_of_equal(r[0].vy);
    lemma_collision_pair(r);
    assert(resolved_all(r)[0] =~= r[0]);
    assert(resolved_all(r)[1] =~= r[1]);
}

} // verus!
