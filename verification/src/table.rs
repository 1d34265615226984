//! The registry of exported objects.

use vstd::prelude::*;
use vstd::set_lib::lemma_set_disjoint_lens;
use crate::error::PortError;
use crate::service::ServiceObjectId;
use crate::service::NULL_OBJECT_ID;

verus! {

/// The largest number of objects that a table can be made for.
pub const MAX_OBJECTS: usize = 0xffff_fffe;

/// A table from object ids to exported objects.
///
/// Ids start at one and are dense: a vacated id is given out again before a
/// fresh one, the most recently vacated first. Every table that this module
/// hands out is well-formed, and every operation keeps it so.
pub struct ObjectTable<T> {
    /// The entry of id `i` is at index `i - 1`.
    slots: Vec<Option<T>>,
    /// The vacated ids, the most recently vacated last.
    free: Vec<ServiceObjectId>,
    capacity: usize,
}

impl<T> ObjectTable<T> {
    /// The invariant of the table: the vacated ids are exactly the ids below
    /// the span that name no object, each listed once.
    pub closed spec fn wf(self) -> bool {
        &&& self.slots@.len() <= self.capacity <= MAX_OBJECTS
        &&& self.free@.no_duplicates()
        &&& forall|i: int|
            0 <= i < self.free@.len() ==> 1 <= #[trigger] self.free@[i] <= self.slots@.len()
                && self.slots@[self.free@[i] - 1] is None
        &&& forall|j: int|
            0 <= j < self.slots@.len() && (#[trigger] self.slots@[j]) is None
                ==> self.free@.contains((j + 1) as ServiceObjectId)
    }

    /// The objects in the table, by id.
    pub closed spec fn view(self) -> Map<ServiceObjectId, T> {
        Map::new(
            |id: ServiceObjectId| 1 <= id <= self.slots@.len() && self.slots@[id - 1] is Some,
            |id: ServiceObjectId| self.slots@[id - 1]->Some_0,
        )
    }

    /// The vacated ids, the most recently vacated last.
    pub closed spec fn free_ids(self) -> Seq<ServiceObjectId> {
        self.free@
    }

    /// The largest id that was ever given out.
    pub closed spec fn span(self) -> nat {
        self.slots@.len()
    }

    /// The largest number of objects that the table takes.
    pub closed spec fn spec_capacity(self) -> nat {
        self.capacity as nat
    }

    /// The number of objects in the table.
    pub open spec fn spec_len(self) -> nat {
        (self.span() - self.free_ids().len()) as nat
    }

    /// The id that the next object gets.
    pub open spec fn next_id(self) -> ServiceObjectId {
        if self.free_ids().len() > 0 {
            self.free_ids().last()
        } else {
            (self.span() + 1) as ServiceObjectId
        }
    }

    /// What `create` makes of a table with room: `after` holds `object` under
    /// `id`, the id that was next, and nothing else has changed.
    pub open spec fn created(self, after: Self, id: ServiceObjectId, object: T) -> bool {
        &&& self.spec_len() < self.spec_capacity()
        &&& id == self.next_id()
        &&& id != NULL_OBJECT_ID
        &&& !self@.contains_key(id)
        &&& after@ == self@.insert(id, object)
        &&& after.spec_capacity() == self.spec_capacity()
        &&& after.spec_len() == self.spec_len() + 1
        &&& if self.free_ids().len() > 0 {
            &&& after.free_ids() == self.free_ids().drop_last()
            &&& after.span() == self.span()
        } else {
            &&& after.free_ids() == self.free_ids()
            &&& after.span() == self.span() + 1
        }
    }

    /// What `remove` makes of a table that holds `id`: `after` lacks `id`,
    /// which is now the most recently vacated, and nothing else has changed.
    pub open spec fn removed(self, after: Self, id: ServiceObjectId) -> bool {
        &&& self@.contains_key(id)
        &&& after@ == self@.remove(id)
        &&& after.spec_capacity() == self.spec_capacity()
        &&& after.spec_len() == self.spec_len() - 1
        &&& after.free_ids() == self.free_ids().push(id)
        &&& after.span() == self.span()
    }

    /// That `after` holds the same objects under the same ids as the table,
    /// and will give out the same ids.
    pub open spec fn unchanged(self, after: Self) -> bool {
        &&& after@ == self@
        &&& after.spec_capacity() == self.spec_capacity()
        &&& after.free_ids() == self.free_ids()
        &&& after.span() == self.span()
    }

    /// That the table holds nothing and is as it was made.
    pub open spec fn is_fresh(self) -> bool {
        &&& self@ == Map::<ServiceObjectId, T>::empty()
        &&& self.free_ids() == Seq::<ServiceObjectId>::empty()
        &&& self.span() == 0
    }

    /// What holds of every well-formed table: ids are between one and the
    /// span, the span is within the capacity, and an id is vacated exactly
    /// when it is within the span and names no object.
    pub proof fn lemma_wf(self)
        requires
            self.wf(),
        ensures
            self.free_ids().len() <= self.span() <= self.spec_capacity() <= MAX_OBJECTS,
            self.free_ids().no_duplicates(),
            forall|id: ServiceObjectId| #[trigger]
                self@.contains_key(id) ==> 1 <= id <= self.span(),
            forall|id: ServiceObjectId|
                1 <= id <= self.span() ==> (#[trigger] self.free_ids().contains(id)
                    <==> !self@.contains_key(id)),
            forall|id: ServiceObjectId| #[trigger]
                self.free_ids().contains(id) ==> 1 <= id <= self.span(),
            !self@.contains_key(self.next_id()),
            !self@.contains_key(NULL_OBJECT_ID),
            self.next_id() != NULL_OBJECT_ID,
    {
        assert forall|id: ServiceObjectId| 1 <= id <= self.span() implies (
        #[trigger] self.free_ids().contains(id) <==> !self@.contains_key(id)) by {
            if self.free@.contains(id) {
                let i = choose|i: int| 0 <= i < self.free@.len() && self.free@[i] == id;
                assert(self.slots@[self.free@[i] - 1] is None);
            }
            if !self@.contains_key(id) {
                assert(self.slots@[id - 1] is None);
                assert(((id - 1) + 1) as ServiceObjectId == id);
            }
        }
        assert forall|id: ServiceObjectId| #[trigger]
            self.free_ids().contains(id) implies 1 <= id <= self.span() by {
            let i = choose|i: int| 0 <= i < self.free@.len() && self.free@[i] == id;
            assert(1 <= self.free@[i] <= self.slots@.len());
        }
        let next = self.next_id();
        if self.free@.len() > 0 {
            assert(self.free@[self.free@.len() - 1] == next);
            assert(self.free_ids().contains(next));
            assert(1 <= next <= self.span());
        } else {
            assert(next == self.span() + 1);
        }
        assert(!self@.contains_key(next));
        lemma_distinct_within(self.free@, self.slots@.len());
    }

    /// The number of objects is the number of ids that name one.
    pub proof fn lemma_len_counts_objects(self)
        requires
            self.wf(),
        ensures
            self@.dom().finite(),
            self@.dom().len() == self.spec_len(),
    {
        self.lemma_wf();
        let within = ids_up_to(self.span());
        let vacated = self.free@.to_set();
        lemma_ids_up_to(self.span());
        self.free@.unique_seq_to_set();
        assert(self@.dom() + vacated =~= within) by {
            assert forall|id: ServiceObjectId| #[trigger]
                within.contains(id) implies (self@.dom() + vacated).contains(id) by {
                if !self@.contains_key(id) {
                    assert(self.free_ids().contains(id));
                }
            }
            assert forall|id: ServiceObjectId| #[trigger]
                (self@.dom() + vacated).contains(id) implies within.contains(id) by {
                if vacated.contains(id) {
                    assert(self.free_ids().contains(id));
                }
            }
        }
        assert(self@.dom().subset_of(within));
        vstd::set_lib::lemma_len_subset(self@.dom(), within);
        assert(self@.dom().disjoint(vacated)) by {
            assert forall|id: ServiceObjectId|
                !(self@.dom().contains(id) && vacated.contains(id)) by {
                if vacated.contains(id) {
                    assert(self.free_ids().contains(id));
                }
            }
        }
        lemma_set_disjoint_lens(self@.dom(), vacated);
    }

    /// An empty table for at most `size` objects.
    pub fn new(size: usize) -> (table: Self)
        requires
            size <= MAX_OBJECTS,
        ensures
            table.wf(),
            table.is_fresh(),
            table.spec_capacity() == size,
    {
        let table = ObjectTable { slots: Vec::new(), free: Vec::new(), capacity: size };
        assert(table@ =~= Map::<ServiceObjectId, T>::empty());
        table
    }

    /// The largest number of objects that the table takes.
    pub fn capacity(&self) -> (n: usize)
        ensures
            n == self.spec_capacity(),
    {
        self.capacity
    }

    /// The number of objects in the table.
    pub fn len(&self) -> (n: usize)
        requires
            self.wf(),
        ensures
            n == self.spec_len(),
    {
        proof {
            self.lemma_wf();
        }
        self.slots.len() - self.free.len()
    }

    /// Whether the table is empty.
    pub fn is_empty(&self) -> (b: bool)
        requires
            self.wf(),
        ensures
            b == (self.spec_len() == 0),
    {
        self.len() == 0
    }

    /// Whether the table has no room for another object.
    pub fn is_full(&self) -> (b: bool)
        requires
            self.wf(),
        ensures
            b == (self.spec_len() == self.spec_capacity()),
    {
        proof {
            self.lemma_wf();
        }
        self.free.len() == 0 && self.slots.len() == self.capacity
    }

    /// Whether `id` names an object in the table.
    pub fn contains(&self, id: ServiceObjectId) -> (b: bool)
        ensures
            b == self@.contains_key(id),
    {
        id >= 1 && id as usize <= self.slots.len() && self.slots[(id - 1) as usize].is_some()
    }

    /// The object that `id` names.
    pub fn get(&self, id: ServiceObjectId) -> (r: Option<&T>)
        ensures
            match r {
                Some(object) => self@.contains_key(id) && *object == self@[id],
                None => !self@.contains_key(id),
            },
    {
        if id >= 1 && id as usize <= self.slots.len() {
            self.slots[(id - 1) as usize].as_ref()
        } else {
            None
        }
    }

    /// Puts an object into the table and returns its id: the most recently
    /// vacated id, or else the one after the span. A full table takes nothing
    /// and stays as it is.
    pub fn create(&mut self, object: T) -> (r: Result<ServiceObjectId, PortError>)
        requires
            old(self).wf(),
        ensures
            final(self).wf(),
            match r {
                Ok(id) => old(self).created(*final(self), id, object),
                Err(e) => {
                    &&& e == PortError::TableFull
                    &&& old(self).spec_len() == old(self).spec_capacity()
                    &&& old(self).unchanged(*final(self))
                },
            },
    {
        proof {
            old(self).lemma_wf();
        }
        if self.free.len() > 0 {
            let id = self.free.pop().unwrap();
            assert(old(self).free@[old(self).free@.len() - 1] == id);
            assert(self.free@ =~= old(self).free@.drop_last());
            self.slots.set((id - 1) as usize, Some(object));
            proof {
                assert(final(self)@ =~= old(self)@.insert(id, object));
                assert forall|j: int|
                    0 <= j < self.slots@.len() && (#[trigger] self.slots@[j]) is None implies self.free@.contains(
                    (j + 1) as ServiceObjectId,
                ) by {
                    assert(old(self).slots@[j] is None);
                    let k = old(self).free@.index_of((j + 1) as ServiceObjectId);
                    assert(k < old(self).free@.len() - 1);
                    assert(self.free@[k] == (j + 1) as ServiceObjectId);
                }
            }
            Ok(id)
        } else if self.slots.len() < self.capacity {
            self.slots.push(Some(object));
            let id = self.slots.len() as ServiceObjectId;
            proof {
                assert(final(self)@ =~= old(self)@.insert(id, object));
                assert forall|j: int|
                    0 <= j < self.slots@.len() && (#[trigger] self.slots@[j]) is None implies self.free@.contains(
                    (j + 1) as ServiceObjectId,
                ) by {
                    assert(old(self).slots@[j] is None);
                }
            }
            Ok(id)
        } else {
            Err(PortError::TableFull)
        }
    }

    /// Takes the object that `id` names out of the table and vacates the id.
    /// An id that names nothing is an error, and the table stays as it is.
    pub fn remove(&mut self, id: ServiceObjectId) -> (r: Result<T, PortError>)
        requires
            old(self).wf(),
        ensures
            final(self).wf(),
            match r {
                Ok(object) => object == old(self)@[id] && old(self).removed(*final(self), id),
                Err(e) => {
                    &&& e == PortError::UnknownObjectId
                    &&& !old(self)@.contains_key(id)
                    &&& old(self).unchanged(*final(self))
                },
            },
    {
        proof {
            old(self).lemma_wf();
        }
        if !self.contains(id) {
            return Err(PortError::UnknownObjectId);
        }
        let index = (id - 1) as usize;
        // Swap the entry against an empty one: put the empty one last, then
        // let it take the entry's place.
        self.slots.push(None);
        let taken = self.slots.swap_remove(index);
        self.free.push(id);
        proof {
            assert(self.slots@ =~= old(self).slots@.update(index as int, None));
            assert(final(self)@ =~= old(self)@.remove(id));
            assert(!old(self).free@.contains(id));
            assert forall|j: int|
                0 <= j < self.slots@.len() && (#[trigger] self.slots@[j]) is None implies self.free@.contains(
                (j + 1) as ServiceObjectId,
            ) by {
                if j == index {
                    assert(self.free@[self.free@.len() - 1] == id);
                } else {
                    assert(old(self).slots@[j] is None);
                    let k = old(self).free@.index_of((j + 1) as ServiceObjectId);
                    assert(self.free@[k] == (j + 1) as ServiceObjectId);
                }
            }
            assert forall|i: int| 0 <= i < self.free@.len() implies 1 <= #[trigger] self.free@[i]
                <= self.slots@.len() && self.slots@[self.free@[i] - 1] is None by {
                if i < old(self).free@.len() {
                    assert(self.free@[i] == old(self).free@[i]);
                    assert(old(self).free@.contains(old(self).free@[i]));
                }
            }
            assert(self.free@.no_duplicates());
            lemma_distinct_within(self.free@, self.slots@.len());
        }
        Ok(taken.unwrap())
    }

    /// Drops every object. The table is then as it was made.
    pub fn clear(&mut self)
        requires
            old(self).wf(),
        ensures
            final(self).wf(),
            final(self).is_fresh(),
            final(self).spec_capacity() == old(self).spec_capacity(),
    {
        self.slots.clear();
        self.free.clear();
        assert(final(self)@ =~= Map::<ServiceObjectId, T>::empty());
    }
}

/// The ids from one to `bound`.
spec fn ids_up_to(bound: nat) -> Set<ServiceObjectId> {
    Set::new(|id: ServiceObjectId| 1 <= id <= bound)
}

/// There are `bound` ids from one to `bound`, as long as ids reach that far.
proof fn lemma_ids_up_to(bound: nat)
    requires
        bound <= MAX_OBJECTS,
    ensures
        ids_up_to(bound).finite(),
        ids_up_to(bound).len() == bound,
    decreases bound,
{
    if bound == 0 {
        assert(ids_up_to(bound) =~= Set::<ServiceObjectId>::empty());
    } else {
        lemma_ids_up_to((bound - 1) as nat);
        assert(ids_up_to(bound) =~= ids_up_to((bound - 1) as nat).insert(
            bound as ServiceObjectId,
        ));
    }
}

/// Distinct ids between one and `bound` are at most `bound` many.
proof fn lemma_distinct_within(ids: Seq<ServiceObjectId>, bound: nat)
    requires
        ids.no_duplicates(),
        forall|i: int| 0 <= i < ids.len() ==> 1 <= #[trigger] ids[i] <= bound,
    ensures
        ids.len() <= bound,
    decreases bound,
{
    if ids.len() > 0 {
        if bound == 0 {
            assert(1 <= ids[0] <= bound);
        } else {
            let top = bound as ServiceObjectId;
            let rest = if ids.contains(top) {
                let k = ids.index_of(top);
                ids.remove(k)
            } else {
                ids
            };
            if ids.contains(top) {
                let k = ids.index_of(top);
                assert forall|i: int| 0 <= i < rest.len() implies 1 <= #[trigger] rest[i] <= (
                bound - 1) as nat by {
                    if i < k {
                        assert(rest[i] == ids[i]);
                    } else {
                        assert(rest[i] == ids[i + 1]);
                    }
                }
                assert(rest.no_duplicates()) by {
                    assert forall|i: int, j: int|
                        0 <= i < rest.len() && 0 <= j < rest.len() && i != j implies rest[i]
                        != rest[j] by {
                        let a = if i < k { i } else { i + 1 };
                        let b = if j < k { j } else { j + 1 };
                        assert(rest[i] == ids[a]);
                        assert(rest[j] == ids[b]);
                    }
                }
                lemma_distinct_within(rest, (bound - 1) as nat);
            } else {
                assert forall|i: int| 0 <= i < rest.len() implies 1 <= #[trigger] rest[i] <= (
                bound - 1) as nat by {
                    assert(ids.contains(ids[i]));
                }
                lemma_distinct_within(rest, (bound - 1) as nat);
            }
        }
    }
}

} // verus!
