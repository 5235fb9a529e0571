use vstd::prelude::*;
use crate::shared_heap::{
    ControlBlock, SharedHeap, heap_wf, upgrade_succeeds, upgraded, weak_released, weak_retained,
};
use crate::shared_ptr::SharedPtr;

verus! {

/// A weak handle on a reference-counted native object: null, or one weak
/// reference to the control block at its index. It does not keep the referent
/// alive.
pub struct WeakPtr<T> {
    slot: Option<usize>,
    marker: std::marker::PhantomData<T>,
}

impl<T> View for WeakPtr<T> {
    type V = Option<usize>;

    closed spec fn view(&self) -> Option<usize> {
        self.slot
    }
}

impl<T> WeakPtr<T> {
    /// Whether the handle is usable against heap `h`: null, or holding a weak
    /// reference to an existing block.
    pub open spec fn live_in(&self, h: Seq<ControlBlock<T>>) -> bool {
        match self@ {
            None => true,
            Some(i) => i < h.len() && h[i as int].weak > 0,
        }
    }

    /// The null handle.
    pub fn null() -> (r: Self)
        ensures
            r@ is None,
    {
        WeakPtr { slot: None, marker: std::marker::PhantomData }
    }

    pub(crate) fn from_slot(slot: Option<usize>) -> (r: Self)
        ensures
            r@ == slot,
    {
        WeakPtr { slot, marker: std::marker::PhantomData }
    }

    pub fn is_null(&self) -> (r: bool)
        ensures
            r == (self@ is None),
    {
        self.slot.is_none()
    }

    /// A strong handle on the referent: null when this handle is null or the
    /// referent is already gone.
    pub fn upgrade(&self, heap: &mut SharedHeap<T>) -> (r: SharedPtr<T>)
        requires
            heap_wf(old(heap)@),
            self.live_in(old(heap)@),
            self@ is Some ==> old(heap)@[self@->0 as int].strong < usize::MAX,
        ensures
            self@ is None ==> r@ is None && final(heap)@ == old(heap)@,
            self@ is Some ==> r@ == (if upgrade_succeeds(old(heap)@, self@->0 as int) {
                self@
            } else {
                None
            }) && final(heap)@ == upgraded(old(heap)@, self@->0 as int),
            heap_wf(final(heap)@),
    {
        match self.slot {
            None => SharedPtr::null(),
            Some(i) => {
                if heap.try_retain(i) {
                    SharedPtr::from_slot(Some(i))
                } else {
                    SharedPtr::null()
                }
            },
        }
    }

    /// A new weak handle on the same control block.
    pub fn clone(&self, heap: &mut SharedHeap<T>) -> (r: Self)
        requires
            heap_wf(old(heap)@),
            self.live_in(old(heap)@),
            self@ is Some ==> old(heap)@[self@->0 as int].weak < usize::MAX,
        ensures
            r@ == self@,
            self@ is None ==> final(heap)@ == old(heap)@,
            self@ is Some ==> final(heap)@ == weak_retained(old(heap)@, self@->0 as int),
            heap_wf(final(heap)@),
    {
        match self.slot {
            None => {},
            Some(i) => heap.retain_weak(i),
        }
        WeakPtr { slot: self.slot, marker: std::marker::PhantomData }
    }

    /// Drops this handle's weak reference.
    pub fn delete(self, heap: &mut SharedHeap<T>)
        requires
            heap_wf(old(heap)@),
            self.live_in(old(heap)@),
        ensures
            self@ is None ==> final(heap)@ == old(heap)@,
            self@ is Some ==> final(heap)@ == weak_released(old(heap)@, self@->0 as int),
            heap_wf(final(heap)@),
    {
        match self.slot {
            None => {},
            Some(i) => heap.release_weak(i),
        }
    }
}

} // verus!
