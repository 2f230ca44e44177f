//! The entity store: a linear arena of entities with unique identities.
//!
//! Systems read and rewrite it index by index; creation hands out fresh
//! identifiers from a monotone counter, so a destroyed identity is never
//! reused and "the store no longer contains that cell" is a statement
//! about ids.

use vstd::prelude::*;

use crate::entity::Entity;
use crate::entity::EModel;
use crate::entity::models;

verus! {

/// Holds every live entity.  `next_id` is above every id in the store.
pub struct EntityStore {
    pub ents: Vec<Entity>,
    pub next_id: u64,
}

impl View for EntityStore {
    type V = Seq<EModel>;

    open spec fn view(&self) -> Seq<EModel> {
        models(self.ents@)
    }
}

impl EntityStore {
    /// Well-formed: ids are pairwise distinct and below `next_id`.
    pub open spec fn wf(&self) -> bool {
        &&& forall|i: int, j: int|
            0 <= i < j < self@.len() ==> self@[i].id != self@[j].id
        &&& forall|i: int| 0 <= i < self@.len() ==> self@[i].id < self.next_id
    }

    /// An empty store.
    pub fn new() -> (s: EntityStore)
        ensures
            s@ =~= Seq::<EModel>::empty(),
            s.wf(),
            s.next_id == 0,
    {
        EntityStore { ents: Vec::new(), next_id: 0 }
    }

    /// Number of live entities.
    pub fn len(&self) -> (n: usize)
        ensures
            n == self@.len(),
    {
        self.ents.len()
    }

    /// Read one entity.
    pub fn get(&self, i: usize) -> (e: Entity)
        requires
            i < self@.len(),
        ensures
            e@ == self@[i as int],
    {
        self.ents[i]
    }

    /// Overwrite one entity in place, keeping its identity.
    pub fn set(&mut self, i: usize, e: Entity)
        requires
            i < old(self)@.len(),
            e@.id == old(self)@[i as int].id,
        ensures
            final(self)@ =~= old(self)@.update(i as int, e@),
            final(self).next_id == old(self).next_id,
            old(self).wf() ==> final(self).wf(),
    {
        self.ents.set(i, e);
    }

    /// Create an entity from the given component record, handing it the
    /// next fresh identity.  Returns the id it received.
    pub fn create(&mut self, e: Entity) -> (id: u64)
        requires
            old(self).next_id < u64::MAX,
        ensures
            id == old(self).next_id,
            final(self)@ =~= old(self)@.push(EModel { id: id as int, ..e@ }),
            final(self).next_id == old(self).next_id + 1,
            old(self).wf() ==> final(self).wf(),
    {
        let id = self.next_id;
        let mut ent = e;
        ent.id = id;
        self.ents.push(ent);
        self.next_id = id + 1;
        id
    }
}

} // verus!
