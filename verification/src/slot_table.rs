use vstd::prelude::*;

verus! {

/// A table from battle slot numbers to entity ids.
///
/// The table is held in the engine's hash map (`bevy::utils::HashMap`), whose iteration
/// order is not fixed; the table's contents are named by [`slot_contents`].
#[verifier::external_body]
pub struct SlotTable {
    map: bevy::utils::HashMap<usize, u64>,
}

/// What a slot table holds: slot number to entity id.
pub uninterp spec fn slot_contents(table: SlotTable) -> Map<usize, u64>;

impl SlotTable {
    /// Creates an empty table (`HashMap::default`).
    #[verifier::external_body]
    pub(crate) fn new() -> (r: SlotTable)
        ensures
            slot_contents(r).dom() == Set::<usize>::empty(),
    {
        SlotTable { map: bevy::utils::HashMap::default() }
    }

    /// Number of entries (`HashMap::len`).
    #[verifier::external_body]
    pub(crate) fn len(&self) -> (r: usize)
        ensures
            r == slot_contents(*self).len(),
    {
        self.map.len()
    }

    /// Whether the table is empty (`HashMap::is_empty`).
    #[verifier::external_body]
    pub(crate) fn is_empty(&self) -> (r: bool)
        ensures
            r == (slot_contents(*self).dom() == Set::<usize>::empty()),
    {
        self.map.is_empty()
    }

    /// The entity at a slot (`HashMap::get`, copied out).
    #[verifier::external_body]
    pub(crate) fn get(&self, slot: usize) -> (r: Option<u64>)
        ensures
            r == (if slot_contents(*self).contains_key(slot) {
                Some(slot_contents(*self)[slot])
            } else {
                None::<u64>
            }),
    {
        self.map.get(&slot).copied()
    }

    /// Whether a slot is taken (`HashMap::contains_key`).
    #[verifier::external_body]
    pub(crate) fn contains_key(&self, slot: usize) -> (r: bool)
        ensures
            r == slot_contents(*self).contains_key(slot),
    {
        self.map.contains_key(&slot)
    }

    /// Puts an entity in a slot, replacing what was there (`HashMap::insert`).
    #[verifier::external_body]
    pub(crate) fn insert(&mut self, slot: usize, entity: u64)
        ensures
            slot_contents(*final(self)) == slot_contents(*old(self)).insert(slot, entity),
    {
        self.map.insert(slot, entity);
    }

    /// Empties a slot (`HashMap::remove`).
    #[verifier::external_body]
    pub(crate) fn remove(&mut self, slot: usize)
        ensures
            slot_contents(*final(self)) == slot_contents(*old(self)).remove(slot),
    {
        self.map.remove(&slot);
    }

    /// Empties the table (`HashMap::clear`).
    #[verifier::external_body]
    pub(crate) fn clear(&mut self)
        ensures
            slot_contents(*final(self)).dom() == Set::<usize>::empty(),
    {
        self.map.clear();
    }

    /// All entries, in the map's iteration order (`HashMap::iter`), which is not fixed:
    /// what holds of every order is that each entry of the table comes exactly once.
    #[verifier::external_body]
    pub(crate) fn entries(&self) -> (r: Vec<(usize, u64)>)
        ensures
            forall|slot: usize|
                #[trigger] slot_contents(*self).contains_key(slot) ==> exists|i: int|
                    0 <= i < r@.len() && r@[i].0 == slot,
            forall|i: int|
                0 <= i < r@.len() ==> #[trigger] slot_contents(*self).contains_key(r@[i].0)
                    && slot_contents(*self)[r@[i].0] == r@[i].1,
            forall|i: int, j: int|
                0 <= i < j < r@.len() ==> #[trigger] r@[i].0 != #[trigger] r@[j].0,
    {
        self.map.iter().map(|(k, v)| (*k, *v)).collect()
    }

    /// An empty table.
    pub fn empty() -> (r: SlotTable)
        ensures
            slot_contents(r).dom() == Set::<usize>::empty(),
    {
        SlotTable::new()
    }

    /// The number of taken slots.
    pub fn size(&self) -> (r: usize)
        ensures
            r == slot_contents(*self).len(),
    {
        self.len()
    }

    /// The entity in a slot, if the slot is taken.
    pub fn entity_at(&self, slot: usize) -> (r: Option<u64>)
        ensures
            r == (if slot_contents(*self).contains_key(slot) {
                Some(slot_contents(*self)[slot])
            } else {
                None::<u64>
            }),
    {
        self.get(slot)
    }

    /// Puts an entity in a slot, replacing what was there.
    pub fn assign(&mut self, slot: usize, entity: u64)
        ensures
            slot_contents(*final(self)) == slot_contents(*old(self)).insert(slot, entity),
    {
        self.insert(slot, entity);
    }

    /// The taken slots with their entities, each once, in no fixed order.
    pub fn all_entries(&self) -> (r: Vec<(usize, u64)>)
        ensures
            forall|slot: usize|
                #[trigger] slot_contents(*self).contains_key(slot) ==> exists|i: int|
                    0 <= i < r@.len() && r@[i].0 == slot,
            forall|i: int|
                0 <= i < r@.len() ==> #[trigger] slot_contents(*self).contains_key(r@[i].0)
                    && slot_contents(*self)[r@[i].0] == r@[i].1,
            forall|i: int, j: int|
                0 <= i < j < r@.len() ==> #[trigger] r@[i].0 != #[trigger] r@[j].0,
    {
        self.entries()
    }
}

} // verus!
