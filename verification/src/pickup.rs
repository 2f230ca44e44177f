//! The pickup economy: every cell overlapping the player is destroyed
//! and credits the player's fuel by a fixed amount, one credit per
//! overlapping cell, each judged independently against the player's
//! state at the start of the phase.

use vstd::prelude::*;

use crate::collide::pair_overlaps;
use crate::entity::EModel;
use crate::entity::Entity;
use crate::math::abs_val;
use crate::math::overlap_test;
use crate::store::EntityStore;
use crate::COUNT_LIMIT;
use crate::FUEL_LIMIT;
use crate::FUEL_RATE;
use crate::REPLENISH;

verus! {

/// Largest player fuel value the pickup phase accepts: the tick-entry
/// limit plus what four held directions can have burnt this tick.
pub const FUEL_PHASE_LIMIT: i64 = FUEL_LIMIT + 4 * FUEL_RATE * 1_000_000;

/// The cell `e` is collected by the player `p`: it is a pickup cell
/// with a transform and a box, it is not the player itself, and its box
/// overlaps the player's.
pub open spec fn cell_taken(p: EModel, e: EModel) -> bool {
    e.pickup && e.has_pos && e.has_box && e.id != p.id && pair_overlaps(p, e)
}

/// The entities that survive the phase, in store order.
pub open spec fn kept_of(s: Seq<EModel>, p: EModel) -> Seq<EModel>
    decreases s.len(),
{
    if s.len() == 0 {
        Seq::empty()
    } else {
        let rest = kept_of(s.drop_last(), p);
        if cell_taken(p, s.last()) {
            rest
        } else {
            rest.push(s.last())
        }
    }
}

/// Credit `credit` to every entity carrying the id `pid` (in a
/// well-formed store, exactly the player).
pub open spec fn credit_player(s: Seq<EModel>, pid: int, credit: int) -> Seq<EModel> {
    s.map_values(
        |e: EModel|
            if e.id == pid {
                EModel { fuel: e.fuel + credit, ..e }
            } else {
                e
            },
    )
}

/// A whole store after the pickup phase, the player standing at `pi`:
/// the overlapping cells are gone and the player is credited once per
/// collected cell.
pub open spec fn picked_up(s: Seq<EModel>, pi: int) -> Seq<EModel> {
    let p = s[pi];
    let kept = kept_of(s, p);
    credit_player(kept, p.id, REPLENISH * (s.len() - kept.len()))
}

/// What survives is a subsequence: every kept entity occurs in the
/// store, and distinct ids stay distinct.
pub proof fn lemma_kept_wf(s: Seq<EModel>, p: EModel)
    requires
        forall|i: int, j: int| 0 <= i < j < s.len() ==> s[i].id != s[j].id,
    ensures
        kept_of(s, p).len() <= s.len(),
        forall|k: int|
            0 <= k < kept_of(s, p).len() ==> exists|m: int|
                0 <= m < s.len() && #[trigger] kept_of(s, p)[k] == s[m],
        forall|i: int, j: int|
            0 <= i < j < kept_of(s, p).len() ==> kept_of(s, p)[i].id != kept_of(s, p)[j].id,
    decreases s.len(),
{
    if s.len() > 0 {
        let rest = s.drop_last();
        lemma_kept_wf(rest, p);
        assert forall|k: int| 0 <= k < kept_of(s, p).len() implies exists|m: int|
            0 <= m < s.len() && #[trigger] kept_of(s, p)[k] == s[m] by {
            if !cell_taken(p, s.last()) && k == kept_of(s, p).len() - 1 {
                assert(kept_of(s, p)[k] == s[s.len() - 1]);
            } else {
                assert(kept_of(rest, p)[k] == kept_of(s, p)[k]);
                let m = choose|m: int| 0 <= m < rest.len() && kept_of(rest, p)[k] == rest[m];
                assert(kept_of(s, p)[k] == s[m]);
            }
        }
        assert forall|i: int, j: int|
            0 <= i < j < kept_of(s, p).len() implies kept_of(s, p)[i].id != kept_of(
            s,
            p,
        )[j].id by {
            if !cell_taken(p, s.last()) && j == kept_of(s, p).len() - 1 {
                let m = choose|m: int| 0 <= m < rest.len() && kept_of(rest, p)[i] == rest[m];
                assert(s[m].id != s[s.len() - 1].id);
            } else {
                assert(kept_of(rest, p)[i].id != kept_of(rest, p)[j].id);
            }
        }
    }
}

/// When no cell overlaps the player, the phase keeps every entity.
pub proof fn lemma_kept_none(s: Seq<EModel>, p: EModel)
    requires
        forall|k: int| 0 <= k < s.len() ==> !cell_taken(p, #[trigger] s[k]),
    ensures
        kept_of(s, p) =~= s,
    decreases s.len(),
{
    if s.len() > 0 {
        lemma_kept_none(s.drop_last(), p);
    }
}

/// When exactly the cell at `ci` overlaps the player, the phase keeps
/// everything else, in order.
pub proof fn lemma_kept_single(s: Seq<EModel>, p: EModel, ci: int)
    requires
        0 <= ci < s.len(),
        cell_taken(p, s[ci]),
        forall|k: int| 0 <= k < s.len() && k != ci ==> !cell_taken(p, #[trigger] s[k]),
    ensures
        kept_of(s, p) =~= s.remove(ci),
    decreases s.len(),
{
    let rest = s.drop_last();
    if ci == s.len() - 1 {
        lemma_kept_none(rest, p);
        assert(s.remove(ci) =~= rest);
    } else {
        lemma_kept_single(rest, p, ci);
        assert(s.remove(ci) =~= rest.remove(ci).push(s.last()));
    }
}

/// Pickup credit: a player with fuel `F` overlapping exactly one cell
/// ends the phase with fuel `F` plus the replenishment amount, and the
/// store no longer holds that cell; nothing else changes.
pub proof fn lemma_pickup_credit(s: Seq<EModel>, pi: int, ci: int)
    requires
        forall|i: int, j: int| 0 <= i < j < s.len() ==> s[i].id != s[j].id,
        0 <= pi < s.len(),
        0 <= ci < s.len(),
        ci != pi,
        cell_taken(s[pi], s[ci]),
        forall|k: int| 0 <= k < s.len() && k != ci ==> !cell_taken(s[pi], #[trigger] s[k]),
    ensures
        picked_up(s, pi) =~= credit_player(s.remove(ci), s[pi].id, REPLENISH as int),
        picked_up(s, pi).len() == s.len() - 1,
        forall|m: int| 0 <= m < picked_up(s, pi).len() ==> picked_up(s, pi)[m].id != s[ci].id,
        picked_up(s, pi)[if pi < ci {
            pi
        } else {
            pi - 1
        }] == (EModel { fuel: s[pi].fuel + REPLENISH, ..s[pi] }),
{
    let p = s[pi];
    lemma_kept_single(s, p, ci);
    let kept = kept_of(s, p);
    assert(kept == s.remove(ci));
    assert(s.len() - kept.len() == 1);
    assert(REPLENISH * 1int == REPLENISH);
    let qi: int = if pi < ci {
        pi
    } else {
        pi - 1
    };
    assert(s.remove(ci)[qi] == s[pi]);
    let cid = s[ci].id;
    assert forall|m: int| 0 <= m < picked_up(s, pi).len() implies picked_up(s, pi)[m].id != cid by {
        if m < ci {
            assert(s.remove(ci)[m] == s[m]);
        } else {
            assert(s.remove(ci)[m] == s[m + 1]);
        }
    }
}

/// Destroy every cell overlapping the player standing at index `pi`
/// and credit the player's fuel once per destroyed cell.
#[verifier::rlimit(60)]
pub fn pickup(store: &mut EntityStore, pi: usize)
    requires
        old(store).wf(),
        pi < old(store)@.len(),
        old(store)@.len() <= COUNT_LIMIT,
        old(store)@[pi as int].player,
        old(store)@[pi as int].has_pos,
        old(store)@[pi as int].has_box,
        old(store)@[pi as int].has_fuel,
        abs_val(old(store)@[pi as int].fuel) <= FUEL_PHASE_LIMIT,
    ensures
        final(store)@ =~= picked_up(old(store)@, pi as int),
        final(store).next_id == old(store).next_id,
        final(store).wf(),
{
    let ghost s: Seq<EModel> = store@;
    let p = store.get(pi);
    let n = store.len();
    let mut out: Vec<Entity> = Vec::new();
    let mut newpi: usize = 0;
    let mut k: usize = 0;
    while k < n
        invariant
            s == old(store)@,
            store == old(store),
            p@ == s[pi as int],
            pi < n,
            n == s.len(),
            k <= n,
            crate::entity::models(out@) =~= kept_of(s.take(k as int), p@),
            out@.len() <= k,
            k > pi ==> newpi < out@.len() && out@[newpi as int]@ == s[pi as int],
        decreases n - k,
    {
        let e = store.get(k);
        let taken = e.pickup && e.has_pos && e.has_box && e.id != p.id && overlap_test(
            p.px,
            p.py,
            p.bx,
            p.by,
            e.px,
            e.py,
            e.bx,
            e.by,
        );
        proof {
            assert(s.take(k + 1).drop_last() =~= s.take(k as int));
            assert(s.take(k + 1).last() == s[k as int]);
        }
        if !taken {
            if k == pi {
                newpi = out.len();
                proof {
                    // The player is never a collected cell of itself.
                    assert(!cell_taken(p@, s[pi as int]));
                }
            }
            out.push(e);
        }
        k += 1;
    }
    proof {
        assert(s.take(n as int) =~= s);
        lemma_kept_wf(s, p@);
    }
    let removed = n - out.len();
    let credit = REPLENISH * (removed as i64);
    let mut pe = out[newpi];
    pe.fuel = pe.fuel + credit;
    out.set(newpi, pe);
    proof {
        let kept = kept_of(s, p@);
        let cr = REPLENISH * (s.len() - kept.len());
        assert(pe@ == (EModel { fuel: kept[newpi as int].fuel + cr, ..kept[newpi as int] }));
        assert forall|m: int| 0 <= m < kept.len() implies crate::entity::models(out@)[m]
            == credit_player(kept, p@.id, cr)[m] by {
            if m != newpi {
                assert(kept[m].id != kept[newpi as int].id);
            }
        }
        assert(crate::entity::models(out@) =~= picked_up(s, pi as int));
    }
    store.ents = out;
    proof {
        let kept = kept_of(s, p@);
        assert forall|i: int, j: int| 0 <= i < j < store@.len() implies store@[i].id
            != store@[j].id by {
            assert(kept[i].id != kept[j].id);
        }
        assert forall|i: int| 0 <= i < store@.len() implies store@[i].id < store.next_id by {
            let m = choose|m: int| 0 <= m < s.len() && kept[i] == s[m];
            assert(s[m].id < store.next_id);
        }
    }
}

} // verus!
