//! A generational sparse set: a slot arena whose handles go stale when their
//! element is removed, with a dense side table that gives iteration order.

use crate::text::{decimal, push_decimal};
use std::marker::PhantomData;
use std::ops::Index;
use vstd::prelude::*;
use vstd::std_specs::cmp::PartialEqSpecImpl;

verus! {

/// A handle to an element of a [`SparseSet`]: a slot number together with the
/// generation of the slot at the time the element was stored.
#[derive(Debug)]
pub struct Id<T> {
    index: u32,
    generation: u32,
    _phantom_data: PhantomData<T>,
}

/// The words for the handle of slot `index` at `generation`.
pub open spec fn id_label(index: u32, generation: u32) -> Seq<char> {
    decimal(index as nat) + "(#"@ + decimal(generation as nat) + ")"@
}

impl<T> Id<T> {
    /// Builds the handle for slot `index` at `generation`.
    pub fn new(index: u32, generation: u32) -> (id: Self)
        ensures
            id == Self::spec_new(index, generation),
    {
        Self { index, generation, _phantom_data: PhantomData }
    }

    /// The handle for slot `index` at `generation`, in specifications.
    pub closed spec fn spec_new(index: u32, generation: u32) -> Self {
        Id { index, generation, _phantom_data: PhantomData }
    }

    /// The slot number, in specifications.
    pub closed spec fn spec_index(&self) -> u32 {
        self.index
    }

    /// The generation, in specifications.
    pub closed spec fn spec_generation(&self) -> u32 {
        self.generation
    }

    /// The slot this handle points at.
    #[verifier::when_used_as_spec(spec_index)]
    pub fn index(&self) -> (index: u32)
        ensures
            index == self.spec_index(),
    {
        self.index
    }

    /// The generation of the slot this handle was issued for.
    #[verifier::when_used_as_spec(spec_generation)]
    pub fn generation(&self) -> (generation: u32)
        ensures
            generation == self.spec_generation(),
    {
        self.generation
    }

    /// The handle in words: the slot number, and the generation in brackets
    /// behind a number sign.
    pub fn label(&self) -> (text: String)
        ensures
            text@ == id_label(self.index(), self.generation()),
    {
        let mut text = String::new();
        push_decimal(&mut text, self.index as u64);
        text.append("(#");
        push_decimal(&mut text, self.generation as u64);
        text.append(")");
        text
    }

    /// A handle is its slot number and its generation, nothing more.
    pub broadcast proof fn lemma_id_is_its_parts(self)
        ensures
            #![trigger self.spec_index()]
            #![trigger self.spec_generation()]
            self == Self::spec_new(self.spec_index(), self.spec_generation()),
    {
    }

    /// The parts of a handle built from parts are those parts.
    pub broadcast proof fn lemma_parts_of_new(index: u32, generation: u32)
        ensures
            (#[trigger] Self::spec_new(index, generation)).spec_index() == index,
            Self::spec_new(index, generation).spec_generation() == generation,
    {
    }
}

impl<T> Clone for Id<T> {
    fn clone(&self) -> (id: Self)
        ensures
            id == *self,
    {
        Self { index: self.index, generation: self.generation, _phantom_data: PhantomData }
    }
}

impl<T> Copy for Id<T> {

}

impl<T> PartialEq for Id<T> {
    fn eq(&self, other: &Self) -> (r: bool) {
        self.index == other.index && self.generation == other.generation
    }
}

impl<T> PartialEqSpecImpl for Id<T> {
    open spec fn obeys_eq_spec() -> bool {
        true
    }

    open spec fn eq_spec(&self, other: &Self) -> bool {
        self.spec_index() == other.spec_index() && self.spec_generation()
            == other.spec_generation()
    }
}

impl<T> Eq for Id<T> {

}

/// One slot of the sparse side: where its element sits in the dense table, and
/// how many elements have been removed from the slot so far.
#[derive(Debug, Clone, Copy, PartialEq, Eq, Structural)]
struct Sparse {
    dense: u32,
    generation: u32,
}

/// One entry of the dense table: the slot of a live element.
#[derive(Debug, Clone, Copy, PartialEq, Eq, Structural)]
struct Dense {
    sparse: u32,
}

impl Sparse {
    /// Puts a new dense value in the mapping and returns the generation number.
    fn put(&mut self, dense: u32) -> (generation: u32)
        ensures
            generation == old(self).generation,
            *final(self) == (Sparse { dense, generation: old(self).generation }),
    {
        self.dense = dense;
        self.generation
    }

    /// Moves the slot on to its next generation, so that handles issued for
    /// the current one no longer match.
    fn next_generation(&mut self)
        requires
            old(self).generation < u32::MAX,
        ensures
            *final(self) == (Sparse {
                dense: old(self).dense,
                generation: (old(self).generation + 1) as u32,
            }),
    {
        self.generation += 1;
    }
}

/// `order` with `id` taken out the way the dense table does it: the last
/// entry moves into the place of `id`, and the table gets one shorter.
pub open spec fn swap_removed<T>(order: Seq<Id<T>>, id: Id<T>) -> Seq<Id<T>> {
    order.update(order.index_of(id), order.last()).drop_last()
}

/// A set of elements addressed by generational handles.
///
/// Elements live in slots. A handle names a slot and the generation the slot
/// had when the element was stored; removing the element moves the slot on to
/// the next generation, so the old handle stops resolving. Live elements are
/// also listed in a dense table, which gives the order of iteration.
#[derive(Clone)]
pub struct SparseSet<T> {
    data: Vec<Option<T>>,
    sparse_to_dense: Vec<Sparse>,
    dense_to_sparse: Vec<Dense>,
    free_sparse_indices: Vec<u32>,
    next_free_id: u32,
}

impl<T> SparseSet<T> {
    /// The representation invariant.
    pub closed spec fn wf(&self) -> bool {
        &&& self.data@.len() == self.sparse_to_dense@.len()
        &&& self.data@.len() == self.next_free_id
        &&& self.dense_to_sparse@.len() + self.free_sparse_indices@.len() <= self.data@.len()
        &&& forall|d: int|
            0 <= d < self.dense_to_sparse@.len() ==> {
                let s = (#[trigger] self.dense_to_sparse@[d]).sparse as int;
                &&& s < self.data@.len()
                &&& self.data@[s] is Some
                &&& self.sparse_to_dense@[s].dense == d
            }
        &&& forall|s: int|
            0 <= s < self.data@.len() && (#[trigger] self.data@[s]) is Some ==> {
                let d = self.sparse_to_dense@[s].dense as int;
                &&& d < self.dense_to_sparse@.len()
                &&& self.dense_to_sparse@[d].sparse == s
            }
        &&& forall|k: int|
            0 <= k < self.free_sparse_indices@.len() ==> {
                let s = (#[trigger] self.free_sparse_indices@[k]) as int;
                &&& s < self.data@.len()
                &&& self.data@[s] is None
            }
        &&& forall|k: int, l: int|
            0 <= k < l < self.free_sparse_indices@.len() ==> self.free_sparse_indices@[k]
                != self.free_sparse_indices@[l]
    }

    /// Whether `id` resolves to an element.
    spec fn contains(&self, id: Id<T>) -> bool {
        &&& id.index < self.data@.len()
        &&& self.sparse_to_dense@[id.index as int].generation == id.generation
        &&& self.data@[id.index as int] is Some
    }

    /// The handle of the element listed at position `d` of the dense table.
    spec fn id_at(&self, d: int) -> Id<T> {
        let s = self.dense_to_sparse@[d].sparse;
        Id::spec_new(s, self.sparse_to_dense@[s as int].generation)
    }

    /// The live elements, by handle.
    pub closed spec fn view(&self) -> Map<Id<T>, T> {
        Map::new(|id: Id<T>| self.contains(id), |id: Id<T>| self.data@[id.index as int]->0)
    }

    /// The handles of the live elements, in iteration order.
    pub closed spec fn order(&self) -> Seq<Id<T>> {
        Seq::new(self.dense_to_sparse@.len(), |d: int| self.id_at(d))
    }

    /// The number of slots created so far. Slots are numbered from zero.
    pub closed spec fn slots(&self) -> nat {
        self.data@.len()
    }

    /// The generation `slot` is at; zero for a slot not yet created.
    pub closed spec fn generation_of(&self, slot: u32) -> u32 {
        if slot < self.sparse_to_dense@.len() {
            self.sparse_to_dense@[slot as int].generation
        } else {
            0
        }
    }

    /// The empty slots waiting to be reused; the last one is reused first.
    pub closed spec fn vacant(&self) -> Seq<u32> {
        self.free_sparse_indices@
    }

    /// The live elements paired with their handles, in iteration order.
    pub open spec fn pairs_in_order(&self) -> Seq<(Id<T>, T)> {
        self.order().map_values(|id: Id<T>| (id, self@[id]))
    }

    /// The live elements, in iteration order.
    pub open spec fn elements_in_order(&self) -> Seq<T> {
        self.order().map_values(|id: Id<T>| self@[id])
    }

    /// Whether `id` was given up for good: it does not resolve, and no later
    /// insertion will hand it out again. That is so once its slot has moved
    /// past its generation, or once the slot, at the last generation, has
    /// been emptied and is not waiting for reuse.
    pub open spec fn retired(&self, id: Id<T>) -> bool {
        &&& id.index() < self.slots()
        &&& {
            ||| id.generation() < self.generation_of(id.index())
            ||| {
                &&& id.generation() == self.generation_of(id.index())
                &&& !self@.dom().contains(id)
                &&& !self.vacant().contains(id.index())
            }
        }
    }

    /// Whether one more element can be stored: a slot is waiting to be
    /// reused, or slot numbers have not run out.
    pub open spec fn has_room(&self) -> bool {
        self.vacant().len() > 0 || self.slots() < u32::MAX
    }

    /// The slot the next insertion will use.
    pub open spec fn next_slot(&self) -> u32 {
        if self.vacant().len() > 0 {
            self.vacant().last()
        } else {
            self.slots() as u32
        }
    }

    /// The iteration order lists every live handle exactly once.
    pub proof fn lemma_order_lists_live_ids(&self)
        requires
            self.wf(),
        ensures
            self.order().no_duplicates(),
            forall|id: Id<T>| self.order().contains(id) <==> self@.dom().contains(id),
    {
        let order = self.order();
        assert forall|i: int, j: int|
            0 <= i < order.len() && 0 <= j < order.len() && i != j implies order[i]
            != order[j] by {
            assert(self.sparse_to_dense@[self.dense_to_sparse@[i].sparse as int].dense == i);
            assert(self.sparse_to_dense@[self.dense_to_sparse@[j].sparse as int].dense == j);
        }
        assert forall|id: Id<T>| order.contains(id) <==> self@.dom().contains(id) by {
            if order.contains(id) {
                let d = choose|d: int| 0 <= d < order.len() && order[d] == id;
                assert(self.data@[self.dense_to_sparse@[d].sparse as int] is Some);
            }
            if self@.dom().contains(id) {
                let d = self.sparse_to_dense@[id.index as int].dense as int;
                assert(self.data@[id.index as int] is Some);
                assert(order[d] == id);
            }
        }
    }

    /// A live handle names a slot that exists, at the generation the slot is
    /// at; so a slot holds at most one live element.
    pub proof fn lemma_live_ids_are_current(&self, id: Id<T>)
        requires
            self.wf(),
            self@.dom().contains(id),
        ensures
            id.index() < self.slots(),
            id.generation() == self.generation_of(id.index()),
    {
    }

    /// The vacant slots exist, are listed once each, and hold nothing; each
    /// slot is live, vacant or neither, so live and vacant slots together do
    /// not outnumber the slots.
    pub proof fn lemma_vacant_slots_are_empty(&self)
        requires
            self.wf(),
        ensures
            self.vacant().no_duplicates(),
            self.order().len() + self.vacant().len() <= self.slots() <= u32::MAX,
            forall|k: int|
                0 <= k < self.vacant().len() ==> (#[trigger] self.vacant()[k]) < self.slots(),
            forall|id: Id<T>|
                self@.dom().contains(id) ==> !self.vacant().contains(#[trigger] id.index()),
    {
        assert forall|id: Id<T>| self@.dom().contains(id) implies !self.vacant().contains(
            #[trigger] id.index(),
        ) by {
            if self.vacant().contains(id.index()) {
                let k = choose|k: int|
                    0 <= k < self.vacant().len() && self.vacant()[k] == id.index;
                assert(self.data@[self.free_sparse_indices@[k] as int] is None);
            }
        }
    }

    /// Taking a handle out of an order that lists it once, at `position`,
    /// moves the last handle to `position`.
    pub proof fn lemma_swap_removed_at(order: Seq<Id<T>>, id: Id<T>, position: int)
        requires
            order.no_duplicates(),
            0 <= position < order.len(),
            order[position] == id,
        ensures
            swap_removed(order, id) == order.update(position, order.last()).drop_last(),
    {
        assert(order.index_of(id) == position);
    }

    /// A retired handle does not resolve.
    pub proof fn lemma_retired_is_not_live(&self, id: Id<T>)
        requires
            self.retired(id),
        ensures
            !self@.dom().contains(id),
    {
    }

    /// An empty set.
    pub fn new() -> (set: Self)
        ensures
            set.wf(),
            set@ == Map::<Id<T>, T>::empty(),
            set.order() == Seq::<Id<T>>::empty(),
            set.slots() == 0,
            set.vacant() == Seq::<u32>::empty(),
            forall|slot: u32| set.generation_of(slot) == 0,
    {
        let set = Self {
            data: Vec::new(),
            sparse_to_dense: Vec::new(),
            dense_to_sparse: Vec::new(),
            free_sparse_indices: Vec::new(),
            next_free_id: 0,
        };
        assert(set@ =~= Map::<Id<T>, T>::empty());
        assert(set.order() =~= Seq::<Id<T>>::empty());
        set
    }

    /// Whether one more element can be stored.
    pub fn can_insert(&self) -> (room: bool)
        requires
            self.wf(),
        ensures
            room == self.has_room(),
    {
        self.free_sparse_indices.len() > 0 || self.next_free_id < u32::MAX
    }

    /// Finds and allocates a free sparse and dense index pair: a slot taken
    /// from those waiting for reuse, or else a new one, and the position just
    /// past the end of the dense table.
    fn allocate_free_indices(&mut self) -> (pair: (u32, u32))
        requires
            old(self).wf(),
            old(self).has_room(),
        ensures
            final(self).wf(),
            pair.0 == old(self).next_slot(),
            pair.0 < final(self).data@.len(),
            final(self).data@[pair.0 as int] is None,
            !final(self).free_sparse_indices@.contains(pair.0),
            pair.1 == old(self).dense_to_sparse@.len(),
            final(self).dense_to_sparse@ == old(self).dense_to_sparse@,
            final(self).dense_to_sparse@.len() + final(self).free_sparse_indices@.len()
                < final(self).data@.len(),
            old(self).vacant().len() > 0 ==> {
                &&& final(self).free_sparse_indices@ == old(self).free_sparse_indices@.drop_last()
                &&& final(self).data@ == old(self).data@
                &&& final(self).sparse_to_dense@ == old(self).sparse_to_dense@
            },
            old(self).vacant().len() == 0 ==> {
                &&& final(self).free_sparse_indices@ == old(self).free_sparse_indices@
                &&& final(self).data@ == old(self).data@.push(None)
                &&& final(self).sparse_to_dense@ == old(self).sparse_to_dense@.push(
                    Sparse { dense: 0, generation: 0 },
                )
            },
    {
        let sparse = match self.free_sparse_indices.pop() {
            Some(i) => {
                proof {
                    let free = old(self).free_sparse_indices@;
                    assert(i == free[free.len() - 1]);
                    assert forall|k: int| 0 <= k < free.len() - 1 implies free.drop_last()[k]
                        != i by {
                        assert(free[k] != free[free.len() - 1]);
                    }
                }
                i
            },
            None => {
                let i = self.next_free_id;
                self.next_free_id += 1;
                self.data.push(None);
                self.sparse_to_dense.push(Sparse { dense: 0, generation: 0 });
                i
            },
        };
        (sparse, self.dense_to_sparse.len() as u32)
    }

    /// Stores `element` and returns its handle.
    ///
    /// The element takes the slot that was vacated last, or a new slot if
    /// none is vacant, at the generation that slot is at. It comes last in
    /// iteration order. The handle returned was not live and not retired.
    pub fn insert(&mut self, element: T) -> (id: Id<T>)
        requires
            old(self).wf(),
            old(self).has_room(),
        ensures
            final(self).wf(),
            id == Id::<T>::spec_new(
                old(self).next_slot(),
                old(self).generation_of(old(self).next_slot()),
            ),
            !old(self)@.dom().contains(id),
            !old(self).retired(id),
            final(self)@ == old(self)@.insert(id, element),
            final(self).order() == old(self).order().push(id),
            final(self).vacant() == if old(self).vacant().len() > 0 {
                old(self).vacant().drop_last()
            } else {
                old(self).vacant()
            },
            final(self).slots() == if old(self).vacant().len() > 0 {
                old(self).slots()
            } else {
                old(self).slots() + 1
            },
            forall|slot: u32| final(self).generation_of(slot) == old(self).generation_of(slot),
            forall|other: Id<T>| old(self).retired(other) ==> final(self).retired(other),
    {
        let (sparse_index, dense_index) = self.allocate_free_indices();
        self.data[sparse_index as usize] = Some(element);
        let generation = self.sparse_to_dense[sparse_index as usize].put(dense_index);
        self.dense_to_sparse.push(Dense { sparse: sparse_index });
        let id = Id::new(sparse_index, generation);
        proof {
            assert(final(self).wf());
            assert(final(self)@ =~= old(self)@.insert(id, element));
            assert(final(self).order() =~= old(self).order().push(id));
        }
        id
    }

    /// Removes the element that `id` names and returns it; `None`, and no
    /// change, if `id` does not resolve.
    ///
    /// The last element in iteration order takes the place of the removed
    /// one. The handle is retired. Its slot moves on to the next generation
    /// and waits for reuse, unless generations have run out, in which case
    /// the slot is never used again.
    pub fn remove(&mut self, id: Id<T>) -> (element: Option<T>)
        requires
            old(self).wf(),
        ensures
            final(self).wf(),
            final(self).slots() == old(self).slots(),
            forall|other: Id<T>| old(self).retired(other) ==> final(self).retired(other),
            old(self)@.dom().contains(id) ==> {
                &&& element == Some(old(self)@[id])
                &&& final(self)@ == old(self)@.remove(id)
                &&& final(self).order() == swap_removed(old(self).order(), id)
                &&& final(self).retired(id)
                &&& final(self).vacant() == if id.generation() < u32::MAX {
                    old(self).vacant().push(id.index())
                } else {
                    old(self).vacant()
                }
                &&& forall|slot: u32|
                    final(self).generation_of(slot) == if slot == id.index() && id.generation()
                        < u32::MAX {
                        (id.generation() + 1) as u32
                    } else {
                        old(self).generation_of(slot)
                    }
            },
            !old(self)@.dom().contains(id) ==> {
                &&& element is None
                &&& final(self)@ == old(self)@
                &&& final(self).order() == old(self).order()
                &&& final(self).vacant() == old(self).vacant()
                &&& forall|slot: u32|
                    final(self).generation_of(slot) == old(self).generation_of(slot)
            },
    {
        let index = id.index as usize;
        if index >= self.sparse_to_dense.len() {
            return None;
        }
        let Sparse { dense, generation } = self.sparse_to_dense[index];
        if id.generation != generation || self.data[index].is_none() {
            return None;
        }
        let dense_index = dense as usize;
        proof {
            old(self).lemma_order_lists_live_ids();
            let order = old(self).order();
            assert(order[dense_index as int] == id);
            assert(order.index_of(id) == dense_index);
        }
        let element = self.data[index].take();
        if generation < u32::MAX {
            self.sparse_to_dense[index].next_generation();
            self.free_sparse_indices.push(id.index);
        }
        self.dense_to_sparse.swap_remove(dense_index);
        if dense_index < self.dense_to_sparse.len() {
            let moved = self.dense_to_sparse[dense_index].sparse as usize;
            self.sparse_to_dense[moved].dense = dense;
        }
        proof {
            assert(final(self).wf());
            assert(final(self)@ =~= old(self)@.remove(id));
            assert(final(self).order() =~= swap_removed(old(self).order(), id));
        }
        element
    }

    /// The element that `id` names, if it resolves.
    pub fn get(&self, id: Id<T>) -> (element: Option<&T>)
        requires
            self.wf(),
        ensures
            element == if self@.dom().contains(id) {
                Some(&self@[id])
            } else {
                None
            },
    {
        let index = id.index as usize;
        if index < self.sparse_to_dense.len() {
            if id.generation == self.sparse_to_dense[index].generation {
                return self.data[index].as_ref();
            }
        }
        None
    }

    /// The place that `id` has in iteration order, if it resolves.
    pub fn position_of(&self, id: Id<T>) -> (position: Option<usize>)
        requires
            self.wf(),
        ensures
            match position {
                Some(position) => {
                    &&& self@.dom().contains(id)
                    &&& position < self.order().len()
                    &&& self.order()[position as int] == id
                },
                None => !self@.dom().contains(id),
            },
    {
        let index = id.index as usize;
        if index < self.sparse_to_dense.len() {
            let Sparse { dense, generation } = self.sparse_to_dense[index];
            if id.generation == generation && self.data[index].is_some() {
                return Some(dense as usize);
            }
        }
        None
    }

    /// The element that `id` names, for writing, if it resolves.
    ///
    /// Whatever is written through the reference replaces the element under
    /// the same handle; nothing else changes.
    pub fn get_mut(&mut self, id: Id<T>) -> (element: Option<&mut T>)
        requires
            old(self).wf(),
        ensures
            final(self).wf(),
            final(self).order() == old(self).order(),
            final(self).slots() == old(self).slots(),
            final(self).vacant() == old(self).vacant(),
            forall|slot: u32| final(self).generation_of(slot) == old(self).generation_of(slot),
            forall|other: Id<T>| old(self).retired(other) <==> final(self).retired(other),
            match element {
                Some(r) => {
                    &&& old(self)@.dom().contains(id)
                    &&& *r == old(self)@[id]
                    &&& final(self)@ == old(self)@.insert(id, *final(r))
                },
                None => {
                    &&& !old(self)@.dom().contains(id)
                    &&& final(self)@ == old(self)@
                },
            },
    {
        let index = id.index as usize;
        if index < self.sparse_to_dense.len() {
            if id.generation == self.sparse_to_dense[index].generation {
                match &mut self.data[index] {
                    Some(r) => {
                        return Some(r);
                    },
                    None => {
                        return None;
                    },
                }
            }
        }
        None
    }

    /// The handle listed at position `dense` of the dense table.
    fn id_of_dense(&self, dense: usize) -> (id: Id<T>)
        requires
            self.wf(),
            dense < self.dense_to_sparse@.len(),
        ensures
            id == self.order()[dense as int],
            self@.dom().contains(id),
            id.index < self.data@.len(),
            self.data@[id.index as int] == Some(self@[id]),
    {
        let index = self.dense_to_sparse[dense].sparse;
        let generation = self.sparse_to_dense[index as usize].generation;
        Id::new(index, generation)
    }

    /// A cursor over the handles of the live elements.
    pub fn ids(&self) -> (ids: Ids<'_, T>)
        requires
            self.wf(),
        ensures
            ids.wf(),
            ids.remaining() == self.order(),
    {
        let ids = Ids { set: self, position: 0 };
        assert(ids.remaining() =~= self.order());
        ids
    }

    /// A cursor over the live elements, each with its handle.
    pub fn pairs(&self) -> (pairs: Pairs<'_, T>)
        requires
            self.wf(),
        ensures
            pairs.wf(),
            pairs.remaining() == self.pairs_in_order(),
    {
        let pairs = Pairs { set: self, ids: Ids { set: self, position: 0 } };
        assert(pairs.remaining() =~= self.pairs_in_order());
        pairs
    }

    /// A cursor over the live elements.
    pub fn iter(&self) -> (iter: Iter<'_, T>)
        requires
            self.wf(),
        ensures
            iter.wf(),
            iter.remaining() == self.elements_in_order(),
    {
        let iter = Iter { set: self, position: 0 };
        assert(iter.remaining() =~= self.elements_in_order());
        iter
    }
}

impl<T> Index<Id<T>> for SparseSet<T> {
    type Output = T;

    /// The element that `id` names; `id` must resolve.
    fn index(&self, id: Id<T>) -> (element: &T)
        ensures
            *element == self@[id],
    {
        self.data[id.index as usize].as_ref().unwrap()
    }
}

impl<T> vstd::std_specs::core::IndexSpecImpl<Id<T>> for SparseSet<T> {
    open spec fn index_req(&self, id: &Id<T>) -> bool {
        self.wf() && self@.dom().contains(*id)
    }
}

impl<T> Default for SparseSet<T> {
    fn default() -> (set: Self)
        ensures
            set.wf(),
            set@ == Map::<Id<T>, T>::empty(),
            set.order() == Seq::<Id<T>>::empty(),
            set.slots() == 0,
            set.vacant() == Seq::<u32>::empty(),
            forall|slot: u32| set.generation_of(slot) == 0,
    {
        Self::new()
    }
}

/// A cursor over the handles of a [`SparseSet`], in iteration order.
pub struct Ids<'a, T> {
    set: &'a SparseSet<T>,
    position: usize,
}

impl<'a, T> Ids<'a, T> {
    /// The representation invariant.
    pub closed spec fn wf(&self) -> bool {
        self.set.wf() && self.position <= self.set.dense_to_sparse@.len()
    }

    /// The handles still to come.
    pub closed spec fn remaining(&self) -> Seq<Id<T>> {
        self.set.order().skip(self.position as int)
    }

    /// The next handle, or `None` once all have been given.
    pub fn next(&mut self) -> (item: Option<Id<T>>)
        requires
            old(self).wf(),
        ensures
            final(self).wf(),
            old(self).remaining().len() == 0 ==> item is None && final(self).remaining()
                == old(self).remaining(),
            old(self).remaining().len() > 0 ==> item == Some(old(self).remaining().first())
                && final(self).remaining() == old(self).remaining().drop_first(),
    {
        if self.position < self.set.dense_to_sparse.len() {
            let id = self.set.id_of_dense(self.position);
            self.position += 1;
            assert(final(self).remaining() =~= old(self).remaining().drop_first());
            Some(id)
        } else {
            None
        }
    }
}

/// A cursor over the elements of a [`SparseSet`] with their handles, in
/// iteration order.
pub struct Pairs<'a, T> {
    set: &'a SparseSet<T>,
    ids: Ids<'a, T>,
}

impl<'a, T> Pairs<'a, T> {
    /// The representation invariant.
    pub closed spec fn wf(&self) -> bool {
        self.ids.wf() && self.ids.set == self.set
    }

    /// The pairs still to come.
    pub closed spec fn remaining(&self) -> Seq<(Id<T>, T)> {
        self.ids.remaining().map_values(|id: Id<T>| (id, self.set@[id]))
    }

    /// The next pair, or `None` once all have been given.
    pub fn next(&mut self) -> (item: Option<(Id<T>, &'a T)>)
        requires
            old(self).wf(),
        ensures
            final(self).wf(),
            old(self).remaining().len() == 0 ==> item is None && final(self).remaining()
                == old(self).remaining(),
            old(self).remaining().len() > 0 ==> {
                &&& item matches Some(pair)
                &&& (pair.0, *pair.1) == old(self).remaining().first()
                &&& final(self).remaining() == old(self).remaining().drop_first()
            },
    {
        if self.ids.position < self.set.dense_to_sparse.len() {
            let id = self.set.id_of_dense(self.ids.position);
            self.ids.position += 1;
            assert(final(self).remaining() =~= old(self).remaining().drop_first());
            match &self.set.data[id.index as usize] {
                Some(element) => Some((id, element)),
                None => None,
            }
        } else {
            None
        }
    }
}

/// A cursor over the elements of a [`SparseSet`], in iteration order.
pub struct Iter<'a, T> {
    set: &'a SparseSet<T>,
    position: usize,
}

impl<'a, T> Iter<'a, T> {
    /// The representation invariant.
    pub closed spec fn wf(&self) -> bool {
        self.set.wf() && self.position <= self.set.dense_to_sparse@.len()
    }

    /// The elements still to come.
    pub closed spec fn remaining(&self) -> Seq<T> {
        self.set.elements_in_order().skip(self.position as int)
    }

    /// The next element, or `None` once all have been given.
    pub fn next(&mut self) -> (item: Option<&'a T>)
        requires
            old(self).wf(),
        ensures
            final(self).wf(),
            old(self).remaining().len() == 0 ==> item is None && final(self).remaining()
                == old(self).remaining(),
            old(self).remaining().len() > 0 ==> {
                &&& item matches Some(element)
                &&& *element == old(self).remaining().first()
                &&& final(self).remaining() == old(self).remaining().drop_first()
            },
    {
        if self.position < self.set.dense_to_sparse.len() {
            let id = self.set.id_of_dense(self.position);
            self.position += 1;
            assert(final(self).remaining() =~= old(self).remaining().drop_first());
            self.set.data[id.index as usize].as_ref()
        } else {
            None
        }
    }
}

/// The hash set of the `im` crate. It is opaque here: [`held`] names what a
/// set of slot numbers holds, and the functions below say what the crate's
/// methods do to it.
#[verifier::external_type_specification]
#[verifier::external_body]
#[verifier::reject_recursive_types(A)]
#[verifier::reject_recursive_types(S)]
pub struct ExImHashSet<A, S>(im::HashSet<A, S>);

/// The slot numbers that a hash set holds.
pub uninterp spec fn held(set: im::HashSet<u32>) -> Set<u32>;

/// `im::HashSet::new`: a set that holds nothing.
#[verifier::external_body]
fn index_set_new() -> (set: im::HashSet<u32>)
    ensures
        held(set) == Set::<u32>::empty(),
{
    im::HashSet::new()
}

/// `im::HashSet::insert`: afterwards the set holds `index` besides what it
/// held before.
#[verifier::external_body]
fn index_set_insert(set: &mut im::HashSet<u32>, index: u32)
    ensures
        held(*final(set)) == held(*old(set)).insert(index),
{
    set.insert(index);
}

/// `im::HashSet::remove`: afterwards the set holds what it held before,
/// without `index`.
#[verifier::external_body]
fn index_set_remove(set: &mut im::HashSet<u32>, index: u32)
    ensures
        held(*final(set)) == held(*old(set)).remove(index),
{
    set.remove(&index);
}

/// `im::HashSet::into_iter`, collected: every slot number the set held, once
/// each, in the order in which the set hands them out, which is not known.
#[verifier::external_body]
fn index_set_into_vec(set: im::HashSet<u32>) -> (indices: Vec<u32>)
    ensures
        indices@.no_duplicates(),
        indices@.to_set() == held(set),
{
    set.into_iter().collect()
}

/// The error of [`DeserializationBuilder::insert_at_id`]: two elements came
/// with handles that name the same slot, whose number it holds.
#[derive(Debug, Clone, Copy, PartialEq, Eq, Structural)]
pub struct OverlappingId(pub u32);

/// The words in which an overlap at `slot` is reported.
pub open spec fn overlap_message(slot: u32) -> Seq<char> {
    "set contains elements with duplicate IDs ("@ + decimal(slot as nat) + ")"@
}

impl OverlappingId {
    /// The error in words, with the number of the slot.
    pub fn message(&self) -> (text: String)
        ensures
            text@ == overlap_message(self.0),
    {
        let mut text = String::from_str("set contains elements with duplicate IDs (");
        push_decimal(&mut text, self.0 as u64);
        text.append(")");
        text
    }
}

/// Rebuilds a [`SparseSet`] from elements that come with the handles they
/// had, in the order in which they are to be iterated.
///
/// Slots below the highest one named that no element claims are tracked in a
/// hash set while building and become the vacant slots of the finished set.
pub struct DeserializationBuilder<T> {
    set: SparseSet<T>,
    unused_sparse_indices: im::HashSet<u32>,
}

impl<T> DeserializationBuilder<T> {
    /// The representation invariant.
    pub closed spec fn wf(&self) -> bool {
        &&& self.set.wf()
        &&& self.set.free_sparse_indices@.len() == 0
        &&& held(self.unused_sparse_indices).finite()
        &&& self.set.dense_to_sparse@.len() + held(self.unused_sparse_indices).len()
            == self.set.data@.len()
        &&& forall|s: u32|
            held(self.unused_sparse_indices).contains(s) <==> s < self.set.data@.len()
                && self.set.data@[s as int] is None
        &&& forall|s: int|
            0 <= s < self.set.data@.len() && (#[trigger] self.set.data@[s]) is None
                ==> self.set.sparse_to_dense@[s].generation == 0
    }

    /// The elements placed so far, by handle.
    pub closed spec fn view(&self) -> Map<Id<T>, T> {
        self.set@
    }

    /// The handles placed so far, in the order in which they were placed.
    pub closed spec fn order(&self) -> Seq<Id<T>> {
        self.set.order()
    }

    /// The number of slots created so far: one more than the highest slot
    /// number placed, or zero.
    pub closed spec fn slots(&self) -> nat {
        self.set.slots()
    }

    /// The generation `slot` is at: that of the handle placed there, and zero
    /// for any other slot.
    pub closed spec fn generation_of(&self, slot: u32) -> u32 {
        self.set.generation_of(slot)
    }

    /// Whether an element has been placed in `slot`.
    pub open spec fn occupied(&self, slot: u32) -> bool {
        self@.dom().contains(Id::spec_new(slot, self.generation_of(slot)))
    }

    /// A slot holds at most the one element whose handle is at the slot's
    /// generation; every other slot is at generation zero.
    pub proof fn lemma_placed_ids_are_current(&self, id: Id<T>)
        requires
            self.wf(),
        ensures
            self@.dom().contains(id) ==> id.index() < self.slots() && id.generation()
                == self.generation_of(id.index()),
            !self.occupied(id.index()) ==> self.generation_of(id.index()) == 0,
    {
        if id.index < self.set.data@.len() {
            assert(self.set.data@[id.index as int] is None ==> self.set.sparse_to_dense@[id.index as int].generation
                == 0);
        }
    }

    /// A builder with nothing placed.
    pub fn new() -> (builder: Self)
        ensures
            builder.wf(),
            builder@ == Map::<Id<T>, T>::empty(),
            builder.order() == Seq::<Id<T>>::empty(),
            builder.slots() == 0,
            forall|slot: u32| builder.generation_of(slot) == 0,
    {
        Self { set: SparseSet::new(), unused_sparse_indices: index_set_new() }
    }

    /// Places `element` under the handle `id`, creating the slots up to the
    /// one it names as needed.
    ///
    /// Fails, and changes nothing, if an element has been placed in that slot
    /// already.
    pub fn insert_at_id(&mut self, id: Id<T>, element: T) -> (result: Result<(), OverlappingId>)
        requires
            old(self).wf(),
            id.index() < u32::MAX,
        ensures
            final(self).wf(),
            old(self).occupied(id.index()) ==> {
                &&& result == Err::<(), OverlappingId>(OverlappingId(id.index()))
                &&& final(self)@ == old(self)@
                &&& final(self).order() == old(self).order()
                &&& final(self).slots() == old(self).slots()
                &&& forall|slot: u32|
                    final(self).generation_of(slot) == old(self).generation_of(slot)
            },
            !old(self).occupied(id.index()) ==> {
                &&& result is Ok
                &&& final(self)@ == old(self)@.insert(id, element)
                &&& final(self).order() == old(self).order().push(id)
                &&& final(self).slots() == if id.index() < old(self).slots() {
                    old(self).slots()
                } else {
                    (id.index() + 1) as nat
                }
                &&& forall|slot: u32|
                    final(self).generation_of(slot) == if slot == id.index() {
                        id.generation()
                    } else {
                        old(self).generation_of(slot)
                    }
            },
    {
        let index = id.index as usize;
        if index < self.set.data.len() {
            if self.set.data[index].is_some() {
                return Err(OverlappingId(id.index));
            }
        }
        while self.set.data.len() <= index
            invariant
                self.wf(),
                index == id.index,
                index < u32::MAX,
                old(self).set.data@.len() <= self.set.data@.len(),
                self.set.data@.len() > index ==> self.set.data@[index as int] is None,
                self.set.data@.len() <= index + 1 || self.set.data@.len() == old(
                    self,
                ).set.data@.len(),
                self.set.dense_to_sparse@ == old(self).set.dense_to_sparse@,
                self.set.data@.subrange(0, old(self).set.data@.len() as int) == old(
                    self,
                ).set.data@,
                self.set.sparse_to_dense@.subrange(0, old(self).set.data@.len() as int) == old(
                    self,
                ).set.sparse_to_dense@,
                forall|s: int|
                    old(self).set.data@.len() <= s < self.set.data@.len()
                        ==> self.set.sparse_to_dense@[s].generation == 0,
            decreases index + 1 - self.set.data@.len(),
        {
            let new_sparse_index = self.set.data.len() as u32;
            index_set_insert(&mut self.unused_sparse_indices, new_sparse_index);
            self.set.data.push(None);
            self.set.sparse_to_dense.push(Sparse { dense: 0, generation: 0 });
            self.set.next_free_id += 1;
        }
        let ghost grown = *self;
        let dense = self.set.dense_to_sparse.len();
        self.set.data[index] = Some(element);
        self.set.sparse_to_dense[index] = Sparse { dense: dense as u32, generation: id.generation };
        self.set.dense_to_sparse.push(Dense { sparse: id.index });
        index_set_remove(&mut self.unused_sparse_indices, id.index);
        proof {
            let before = old(self).set;
            let kept = before.data@.len() as int;
            assert forall|s: int| 0 <= s < kept implies grown.set.data@[s] == before.data@[s]
                && grown.set.sparse_to_dense@[s] == before.sparse_to_dense@[s] by {
                assert(grown.set.data@.subrange(0, kept)[s] == grown.set.data@[s]);
                assert(grown.set.sparse_to_dense@.subrange(0, kept)[s]
                    == grown.set.sparse_to_dense@[s]);
            }
            assert(final(self).set.wf());
            assert(final(self).wf());
            assert(final(self)@ =~= old(self)@.insert(id, element));
            assert(final(self).order() =~= old(self).order().push(id));
        }
        Ok(())
    }

    /// The set that holds what was placed, under the handles given, in the
    /// order of placing. Its vacant slots are the slots that no element
    /// claimed, each once, in no particular order.
    pub fn finish(self) -> (set: SparseSet<T>)
        requires
            self.wf(),
        ensures
            set.wf(),
            set@ == self@,
            set.order() == self.order(),
            set.slots() == self.slots(),
            set.vacant().no_duplicates(),
            forall|slot: u32|
                set.vacant().contains(slot) <==> slot < self.slots() && !self.occupied(slot),
            forall|slot: u32| set.generation_of(slot) == self.generation_of(slot),
    {
        let mut set = self.set;
        let mut unused = index_set_into_vec(self.unused_sparse_indices);
        proof {
            unused@.unique_seq_to_set();
        }
        let ghost listed = unused@;
        set.free_sparse_indices.append(&mut unused);
        proof {
            assert(set.free_sparse_indices@ =~= listed);
            assert forall|k: int| 0 <= k < listed.len() implies held(
                self.unused_sparse_indices,
            ).contains(#[trigger] listed[k]) by {
                assert(listed.to_set().contains(listed[k]));
            }
            assert(set.wf());
            assert forall|slot: u32|
                set.vacant().contains(slot) <==> slot < self.slots() && !self.occupied(
                    slot,
                ) by {
                assert(listed.contains(slot) <==> listed.to_set().contains(slot));
            }
        }
        set
    }
}

/// The handles of `pairs`, in their order.
pub open spec fn handles_of<T>(pairs: Seq<(Id<T>, T)>) -> Seq<Id<T>> {
    pairs.map_values(|pair: (Id<T>, T)| pair.0)
}

/// The elements of `pairs` by their handles.
pub open spec fn elements_by_handle<T>(pairs: Seq<(Id<T>, T)>) -> Map<Id<T>, T>
    decreases pairs.len(),
{
    if pairs.len() == 0 {
        Map::empty()
    } else {
        elements_by_handle(pairs.drop_last()).insert(pairs.last().0, pairs.last().1)
    }
}

/// Whether no two of `pairs` name the same slot.
pub open spec fn distinct_slots<T>(pairs: Seq<(Id<T>, T)>) -> bool {
    forall|i: int, j: int|
        0 <= i < j < pairs.len() ==> pairs[i].0.index() != pairs[j].0.index()
}

/// Whether one of `pairs` names `slot`.
pub open spec fn names_slot<T>(pairs: Seq<(Id<T>, T)>, slot: u32) -> bool {
    exists|i: int| 0 <= i < pairs.len() && (#[trigger] pairs[i]).0.index() == slot
}

/// Whether the pair numbered `j` is the first to name a slot that a pair
/// before it names.
pub open spec fn is_first_overlap<T>(pairs: Seq<(Id<T>, T)>, j: int) -> bool {
    &&& 0 <= j < pairs.len()
    &&& names_slot(pairs.take(j), pairs[j].0.index())
    &&& distinct_slots(pairs.take(j))
}

/// The number of slots that `pairs` need: one more than the highest slot
/// number named, or zero.
pub open spec fn slots_needed<T>(pairs: Seq<(Id<T>, T)>) -> nat
    decreases pairs.len(),
{
    if pairs.len() == 0 {
        0
    } else {
        let before = slots_needed(pairs.drop_last());
        if pairs.last().0.index() < before {
            before
        } else {
            (pairs.last().0.index() + 1) as nat
        }
    }
}

/// The handles that `elements_by_handle` knows are those of the pairs, and
/// where the pairs name distinct slots each handle leads to its own element.
pub proof fn lemma_elements_by_handle<T>(pairs: Seq<(Id<T>, T)>)
    ensures
        forall|id: Id<T>|
            elements_by_handle(pairs).dom().contains(id) <==> handles_of(pairs).contains(id),
        distinct_slots(pairs) ==> forall|i: int|
            0 <= i < pairs.len() ==> elements_by_handle(pairs)[(#[trigger] pairs[i]).0]
                == pairs[i].1,
    decreases pairs.len(),
{
    if pairs.len() > 0 {
        let before = pairs.drop_last();
        lemma_elements_by_handle(before);
        assert forall|id: Id<T>|
            elements_by_handle(pairs).dom().contains(id) <==> handles_of(pairs).contains(
                id,
            ) by {
            if handles_of(pairs).contains(id) {
                let i = choose|i: int| 0 <= i < pairs.len() && handles_of(pairs)[i] == id;
                if i < before.len() {
                    assert(handles_of(before)[i] == id);
                }
            }
            if handles_of(before).contains(id) {
                let i = choose|i: int| 0 <= i < before.len() && handles_of(before)[i] == id;
                assert(handles_of(pairs)[i] == id);
            }
            assert(handles_of(pairs)[pairs.len() - 1] == pairs.last().0);
        }
        if distinct_slots(pairs) {
            assert forall|i: int| 0 <= i < pairs.len() implies elements_by_handle(pairs)[(
            #[trigger] pairs[i]).0] == pairs[i].1 by {
                if i < before.len() {
                    assert(before[i] == pairs[i]);
                    assert(pairs[i].0.index() != pairs[pairs.len() - 1].0.index());
                }
            }
        }
    }
}

impl<T> SparseSet<T> {
    /// The set that holds the elements of `pairs` under the handles they
    /// come with, iterated in their order.
    ///
    /// Fails if two pairs name the same slot, with the number of the slot
    /// that is first named a second time.
    pub fn from_pairs(pairs: Vec<(Id<T>, T)>) -> (result: Result<Self, OverlappingId>)
        requires
            forall|i: int| 0 <= i < pairs@.len() ==> (#[trigger] pairs@[i]).0.index() < u32::MAX,
        ensures
            match result {
                Ok(set) => {
                    &&& distinct_slots(pairs@)
                    &&& set.wf()
                    &&& set@ == elements_by_handle(pairs@)
                    &&& set.order() == handles_of(pairs@)
                    &&& set.slots() == slots_needed(pairs@)
                    &&& set.vacant().no_duplicates()
                    &&& forall|slot: u32|
                        set.vacant().contains(slot) <==> slot < set.slots() && !names_slot(
                            pairs@,
                            slot,
                        )
                    &&& forall|slot: u32|
                        set.vacant().contains(slot) ==> set.generation_of(slot) == 0
                },
                Err(overlap) => exists|j: int|
                    is_first_overlap(pairs@, j) && overlap == OverlappingId(
                        (#[trigger] pairs@[j]).0.index(),
                    ),
            },
    {
        let mut builder = DeserializationBuilder::new();
        for pair in it: pairs
            invariant
                it.seq() == pairs@,
                forall|i: int|
                    0 <= i < pairs@.len() ==> (#[trigger] pairs@[i]).0.index() < u32::MAX,
                builder.wf(),
                distinct_slots(pairs@.take(it.index() as int)),
                builder@ == elements_by_handle(pairs@.take(it.index() as int)),
                builder.order() == handles_of(pairs@.take(it.index() as int)),
                builder.slots() == slots_needed(pairs@.take(it.index() as int)),
                forall|slot: u32|
                    builder.occupied(slot) <==> names_slot(
                        pairs@.take(it.index() as int),
                        slot,
                    ),
        {
            let ghost placed = pairs@.take(it.index() as int);
            let ghost next = pairs@.take(it.index() + 1);
            proof {
                assert(pair == pairs@[it.index() as int]);
                assert(next.drop_last() =~= placed);
                assert(next.last() == pair);
            }
            match builder.insert_at_id(pair.0, pair.1) {
                Ok(()) => {
                    proof {
                        assert(handles_of(next) =~= handles_of(placed).push(pair.0));
                        assert forall|i: int, j: int| 0 <= i < j < next.len() implies next[i].0.index()
                            != next[j].0.index() by {
                            if j < placed.len() {
                                assert(placed[i].0.index() != placed[j].0.index());
                            } else {
                                assert(placed[i] == next[i]);
                            }
                        }
                        assert(builder@ == elements_by_handle(next));
                        lemma_elements_by_handle(next);
                        assert forall|slot: u32|
                            builder.occupied(slot) <==> names_slot(next, slot) by {
                            if names_slot(next, slot) {
                                let i = choose|i: int|
                                    0 <= i < next.len() && (#[trigger] next[i]).0.index() == slot;
                                assert(handles_of(next)[i] == next[i].0);
                                assert(handles_of(next).contains(next[i].0));
                                builder.lemma_placed_ids_are_current(next[i].0);
                            }
                            if builder.occupied(slot) {
                                let id = Id::<T>::spec_new(slot, builder.generation_of(slot));
                                assert(handles_of(next).contains(id));
                                let i = choose|i: int|
                                    0 <= i < next.len() && handles_of(next)[i] == id;
                                assert(next[i].0.index() == slot);
                            }
                        }
                    }
                },
                Err(overlap) => {
                    proof {
                        assert(is_first_overlap(pairs@, it.index() as int));
                    }
                    return Err(overlap);
                },
            }
        }
        proof {
            assert(pairs@.take(pairs@.len() as int) =~= pairs@);
        }
        let ghost done = builder;
        assert(forall|slot: u32| done.occupied(slot) <==> names_slot(pairs@, slot));
        let set = builder.finish();
        proof {
            assert forall|slot: u32|
                set.vacant().contains(slot) <==> slot < set.slots() && !names_slot(
                    pairs@,
                    slot,
                ) by {
                assert(done.occupied(slot) <==> names_slot(pairs@, slot));
            }
            assert forall|slot: u32| set.vacant().contains(slot) implies set.generation_of(slot)
                == 0 by {
                done.lemma_placed_ids_are_current(Id::spec_new(slot, 0));
            }
        }
        Ok(set)
    }

    /// What a set hands out as its pairs builds the same set again: the
    /// pairs name distinct slots, none of them the largest slot number, and
    /// hold the elements of the set under its handles in its order.
    pub proof fn lemma_pairs_rebuild_the_set(&self)
        requires
            self.wf(),
        ensures
            distinct_slots(self.pairs_in_order()),
            forall|i: int|
                0 <= i < self.pairs_in_order().len() ==> (#[trigger] self.pairs_in_order()[i]).0.index()
                    < u32::MAX,
            elements_by_handle(self.pairs_in_order()) == self@,
            handles_of(self.pairs_in_order()) == self.order(),
    {
        let pairs = self.pairs_in_order();
        let order = self.order();
        self.lemma_order_lists_live_ids();
        assert(handles_of(pairs) =~= order);
        assert forall|i: int| 0 <= i < pairs.len() implies self@.dom().contains(
            (#[trigger] pairs[i]).0,
        ) && pairs[i].0.index() < u32::MAX by {
            assert(order.contains(order[i]));
            self.lemma_live_ids_are_current(order[i]);
        }
        assert forall|i: int, j: int| 0 <= i < j < pairs.len() implies pairs[i].0.index()
            != pairs[j].0.index() by {
            self.lemma_live_ids_are_current(pairs[i].0);
            self.lemma_live_ids_are_current(pairs[j].0);
            assert(order[i] != order[j]);
        }
        lemma_elements_by_handle(pairs);
        assert(elements_by_handle(pairs) =~= self@) by {
            assert forall|id: Id<T>|
                elements_by_handle(pairs).dom().contains(id) <==> self@.dom().contains(id) by {
                assert(handles_of(pairs).contains(id) <==> order.contains(id));
            }
            assert forall|id: Id<T>| self@.dom().contains(id) implies elements_by_handle(pairs)[id]
                == self@[id] by {
                assert(order.contains(id));
                let i = choose|i: int| 0 <= i < order.len() && order[i] == id;
                assert(pairs[i].0 == id);
            }
        }
    }
}

} // verus!
