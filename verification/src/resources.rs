//! Resources shared by the systems of a session.

use vstd::prelude::*;
use vstd::std_specs::slice::into_iter_elts;
use std::slice::Iter;
use crate::components::Uuid;



verus! {

/// The most players a lobby takes.
pub const MAX_PLAYERS: usize = 8;

/// Issues identifiers in increasing order, none of them twice.
#[derive(Debug)]
pub struct IdFactory(pub(crate) u32);

impl IdFactory {
    /// The identifier that `generate` hands out next.
    pub open(crate) spec fn next(&self) -> u32 {
        self.0
    }

    /// Whether every identifier has been handed out.
    pub fn exhausted(&self) -> (exhausted: bool)
        ensures
            exhausted == (self.next() == u32::MAX),
    {
        self.0 == u32::MAX
    }

    /// Hands out the next identifier.
    pub fn generate(&mut self) -> (id: Uuid)
        requires
            old(self).next() < u32::MAX,
        ensures
            id == Uuid(old(self).next()),
            final(self).next() == old(self).next() + 1,
    {
        let id = Uuid(self.0);
        self.0 = self.0 + 1;
        id
    }
}

impl Default for IdFactory {
    fn default() -> (factory: IdFactory)
        ensures
            factory.next() == 0,
    {
        IdFactory(0)
    }
}

/// Identifiers of the entities removed since the last flush.
#[derive(Debug)]
pub struct DespawnedList {
    pub(crate) ids: Vec<Uuid>,
}

impl DespawnedList {
    /// The identifiers on the list, oldest first.
    pub open(crate) spec fn view(&self) -> Seq<Uuid> {
        self.ids@
    }

    pub fn push(&mut self, id: Uuid)
        ensures
            final(self)@ == old(self)@.push(id),
    {
        self.ids.push(id);
    }

    pub fn iter(&self) -> (iter: Iter<'_, Uuid>)
        ensures
            into_iter_elts(iter) == self@,
    {
        broadcast use vstd::std_specs::slice::axiom_spec_slice_iter;
        self.ids.iter()
    }

    pub fn clear(&mut self)
        ensures
            final(self)@ == Seq::<Uuid>::empty(),
    {
        self.ids.clear();
    }
}

impl Default for DespawnedList {
    fn default() -> (list: DespawnedList)
        ensures
            list@ == Seq::<Uuid>::empty(),
    {
        DespawnedList { ids: Vec::new() }
    }
}

} // verus!
