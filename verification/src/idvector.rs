//! A vector whose freed slots are recycled by index.

use vstd::prelude::*;

verus! {

/// A growable store addressed by stable indices; erased cells are kept
/// and handed out again by later pushes.
pub struct IdVector<T> {
    vector: Vec<T>,
    empty_cells: Vec<usize>,
}

impl<T> IdVector<T> {
    /// The stored cells.
    pub closed spec fn spec_cells(&self) -> Seq<T> {
        self.vector@
    }

    /// The indices currently marked free.
    pub closed spec fn spec_free(&self) -> Seq<usize> {
        self.empty_cells@
    }

    /// Free indices point into the store.
    pub open spec fn wf(&self) -> bool {
        forall|i: int|
            0 <= i < self.spec_free().len() ==> (#[trigger] self.spec_free()[i])
                < self.spec_cells().len()
    }

    pub fn new() -> (r: Self)
        ensures
            r.wf(),
            r.spec_cells().len() == 0,
            r.spec_free().len() == 0,
    {
        IdVector { vector: Vec::new(), empty_cells: Vec::new() }
    }

    /// Stores `value`, reusing the most recently erased slot when one
    /// exists, and returns the slot's index.
    pub fn push(&mut self, value: T) -> (id: usize)
        requires
            old(self).wf(),
        ensures
            final(self).wf(),
            id < final(self).spec_cells().len(),
            final(self).spec_cells()[id as int] == value,
            old(self).spec_free().len() > 0 ==> id == old(self).spec_free().last()
                && final(self).spec_cells() == old(self).spec_cells().update(id as int, value)
                && final(self).spec_free() == old(self).spec_free().drop_last(),
            old(self).spec_free().len() == 0 ==> id == old(self).spec_cells().len()
                && final(self).spec_cells() == old(self).spec_cells().push(value)
                && final(self).spec_free() == old(self).spec_free(),
    {
        let popped = self.empty_cells.pop();
        match popped {
            Some(pos) => {
                proof {
                    assert(pos == old(self).spec_free().last());
                    assert forall|i: int| 0 <= i < self.empty_cells@.len() implies (
                    #[trigger] self.empty_cells@[i]) < self.vector@.len() by {
                        assert(self.empty_cells@[i] == old(self).spec_free()[i]);
                    }
                }
                self.vector.set(pos, value);
                pos
            },
            None => {
                self.vector.push(value);
                proof {
                    assert forall|i: int| 0 <= i < self.empty_cells@.len() implies (
                    #[trigger] self.empty_cells@[i]) < self.vector@.len() by {
                        assert(self.empty_cells@[i] == old(self).spec_free()[i]);
                    }
                }
                self.vector.len() - 1
            },
        }
    }

    /// Marks a slot free for reuse. The value stays until overwritten.
    pub fn erase(&mut self, id: usize)
        requires
            old(self).wf(),
            id < old(self).spec_cells().len(),
        ensures
            final(self).wf(),
            final(self).spec_cells() == old(self).spec_cells(),
            final(self).spec_free() == old(self).spec_free().push(id),
    {
        self.empty_cells.push(id);
        proof {
            assert forall|i: int| 0 <= i < self.empty_cells@.len() implies (
            #[trigger] self.empty_cells@[i]) < self.vector@.len() by {
                if i < old(self).spec_free().len() {
                    assert(self.empty_cells@[i] == old(self).spec_free()[i]);
                } else {
                    assert(self.empty_cells@[i] == id);
                }
            }
        }
    }

    /// The value in the given slot.
    pub fn get(&self, id: usize) -> (r: &T)
        requires
            id < self.spec_cells().len(),
        ensures
            r == self.spec_cells()[id as int],
    {
        &self.vector[id]
    }
}

} // verus!
