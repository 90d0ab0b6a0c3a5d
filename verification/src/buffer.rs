//! Uninitialized-storage lifecycle: a buffer of slots that start `Empty`,
//! are each written exactly once, and are promoted to plain elements only
//! once every slot is `Filled`.

use vstd::prelude::*;

use rayon::iter::IndexedParallelIterator;
use rayon::iter::IntoParallelRefIterator;
use rayon::iter::IntoParallelRefMutIterator;
use rayon::iter::ParallelIterator;

verus! {

/// Transient storage for `n` slots of element type `T` while a fill is in
/// progress. Each slot is either `Empty` (holds no value of `T`; it must not
/// be read) or `Filled` (holds exactly one value of `T`). A buffer is created
/// with every slot `Empty` and may be promoted to a vector of plain elements
/// only once every slot is `Filled`.
pub struct UninitBuffer<T> {
    slots: Vec<Option<T>>,
}

impl<T> View for UninitBuffer<T> {
    type V = Seq<Option<T>>;

    closed spec fn view(&self) -> Seq<Option<T>> {
        self.slots@
    }
}

impl<T> UninitBuffer<T> {
    /// The slot at index `i` is `Filled`.
    pub open spec fn slot_filled(&self, i: int) -> bool {
        self@[i] is Some
    }

    /// Every slot is still `Empty`: no value has been written yet.
    pub open spec fn all_empty(&self) -> bool {
        forall|i: int| 0 <= i < self@.len() ==> self@[i] is None
    }

    /// Every slot is `Filled`: the buffer is ready for promotion.
    pub open spec fn all_filled(&self) -> bool {
        forall|i: int| 0 <= i < self@.len() ==> self.slot_filled(i)
    }

    /// Allocates storage for `n` slots, each in the `Empty` state. No value
    /// of `T` is constructed, so `T` needs no default or placeholder value.
    pub fn new(n: usize) -> (buf: Self)
        ensures
            buf@.len() == n,
            buf.all_empty(),
    {
        let mut slots: Vec<Option<T>> = Vec::new();
        while slots.len() < n
            invariant
                slots@.len() <= n,
                forall|i: int| 0 <= i < slots@.len() ==> slots@[i] is None,
            decreases n - slots@.len(),
        {
            slots.push(None);
        }
        UninitBuffer { slots }
    }
}

/// Transitions one slot from `Empty` to `Filled` with value `v`. The
/// precondition that the slot is still `Empty` is what makes every write
/// an exactly-once write.
pub fn slot_write<T>(slot: &mut Option<T>, v: T)
    requires
        *old(slot) is None,
    ensures
        *final(slot) == Some(v),
{
    *slot = Some(v);
}

impl<T: Copy + Send + Sync> UninitBuffer<T> {
    /// Fills the buffer from the source in parallel: slot `i` receives
    /// exactly one write of source element `i`, for every `i` below both
    /// lengths; slots past the source's length are never touched. The call
    /// returns only when every scheduled write has finished.
    ///
    /// Relies on rayon's `par_iter_mut`, `zip` and `for_each`: the zip pairs
    /// destination slot `i` with source element `i` and stops at the shorter
    /// side, the pairs are handed to workers in disjoint index ranges, and
    /// `for_each` runs the supplied operation once per pair and joins before
    /// returning.
    #[verifier::external_body]
    pub fn par_fill_from(&mut self, src: &Vec<T>)
        requires
            old(self).all_empty(),
        ensures
            final(self)@.len() == old(self)@.len(),
            forall|i: int|
                0 <= i < final(self)@.len() && i < src@.len()
                    ==> final(self)@[i] == Some(src@[i]),
            forall|i: int|
                src@.len() <= i < final(self)@.len() ==> final(self)@[i] is None,
    {
        self.slots
            .par_iter_mut()
            .zip(src.par_iter())
            .for_each(|(slot, item)| slot_write(slot, *item));
    }

    /// Reinterprets a fully `Filled` buffer as a vector of plain elements,
    /// slot `i` becoming element `i`. The precondition that every slot is
    /// `Filled` is what makes reading each slot safe.
    pub fn promote(self) -> (elems: Vec<T>)
        requires
            self.all_filled(),
        ensures
            elems@.len() == self@.len(),
            forall|i: int| 0 <= i < self@.len() ==> self@[i] == Some(#[trigger] elems@[i]),
    {
        let n = self.slots.len();
        let mut elems: Vec<T> = Vec::new();
        let mut j: usize = 0;
        while j < n
            invariant
                self.all_filled(),
                n == self@.len(),
                j <= n,
                elems@.len() == j,
                forall|i: int| 0 <= i < j ==> self@[i] == Some(#[trigger] elems@[i]),
            decreases n - j,
        {
            let slot = self.slots[j];
            proof {
                assert(self.slot_filled(j as int));
            }
            elems.push(slot.unwrap());
            j += 1;
        }
        elems
    }
}

} // verus!
