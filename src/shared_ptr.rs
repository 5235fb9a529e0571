use vstd::prelude::*;
use vstd::string::{StringExecFns, to_string_from_display_ensures};
use crate::shared_heap::{
    ControlBlock, SharedHeap, heap_wf, released, retained, upgrade_succeeds, upgraded,
    weak_retained,
};
use crate::weak_ptr::WeakPtr;

verus! {

/// A strong handle on a reference-counted native object: null, or one strong
/// reference to the control block at its index.
pub struct SharedPtr<T> {
    slot: Option<usize>,
    marker: std::marker::PhantomData<T>,
}

impl<T> View for SharedPtr<T> {
    type V = Option<usize>;

    closed spec fn view(&self) -> Option<usize> {
        self.slot
    }
}

impl<T> SharedPtr<T> {
    /// Whether the handle is usable against heap `h`: null, or holding a strong
    /// reference to an existing block.
    pub open spec fn live_in(&self, h: Seq<ControlBlock<T>>) -> bool {
        match self@ {
            None => true,
            Some(i) => i < h.len() && h[i as int].strong > 0,
        }
    }

    /// The null handle.
    pub fn null() -> (r: Self)
        ensures
            r@ is None,
    {
        SharedPtr { slot: None, marker: std::marker::PhantomData }
    }

    /// Allocates `value` on `heap` and returns its first strong handle.
    pub fn new_in(heap: &mut SharedHeap<T>, value: T) -> (r: Self)
        requires
            heap_wf(old(heap)@),
        ensures
            r@ == Some(old(heap)@.len() as usize),
            final(heap)@ == old(heap)@.push(ControlBlock { value: Some(value), strong: 1, weak: 0 }),
            heap_wf(final(heap)@),
    {
        let i = heap.allocate(value);
        SharedPtr { slot: Some(i), marker: std::marker::PhantomData }
    }

    pub(crate) fn from_slot(slot: Option<usize>) -> (r: Self)
        ensures
            r@ == slot,
    {
        SharedPtr { slot, marker: std::marker::PhantomData }
    }

    pub fn is_null(&self) -> (r: bool)
        ensures
            r == (self@ is None),
    {
        self.slot.is_none()
    }

    /// The referent, or `None` for the null handle.
    pub fn as_ref<'a>(&self, heap: &'a SharedHeap<T>) -> (r: Option<&'a T>)
        requires
            heap_wf(heap@),
            self.live_in(heap@),
        ensures
            self@ is None ==> r is None,
            self@ is Some ==> r is Some && *r->0 == heap@[self@->0 as int].value->0,
    {
        match self.slot {
            None => None,
            Some(i) => Some(heap.get(i)),
        }
    }

    /// The referent; the handle must not be null.
    pub fn get<'a>(&self, heap: &'a SharedHeap<T>) -> (r: &'a T)
        requires
            heap_wf(heap@),
            self.live_in(heap@),
            self@ is Some,
        ensures
            *r == heap@[self@->0 as int].value->0,
    {
        heap.get(self.slot.unwrap())
    }

    /// The referent for writing, or `None` for the null handle. Every handle on
    /// the same block sees the change.
    pub fn as_mut<'a>(&self, heap: &'a mut SharedHeap<T>) -> (r: Option<&'a mut T>)
        requires
            heap_wf(old(heap)@),
            self.live_in(old(heap)@),
        ensures
            self@ is None ==> r is None && final(heap)@ == old(heap)@,
            self@ is Some ==> r is Some && *r->0 == old(heap)@[self@->0 as int].value->0
                && final(heap)@ == old(heap)@.update(
                self@->0 as int,
                ControlBlock {
                    value: Some(*final(r->0)),
                    strong: old(heap)@[self@->0 as int].strong,
                    weak: old(heap)@[self@->0 as int].weak,
                },
            ),
    {
        match self.slot {
            None => None,
            Some(i) => Some(heap.get_mut(i)),
        }
    }

    /// The referent for writing; the handle must not be null.
    pub fn pin_mut<'a>(&self, heap: &'a mut SharedHeap<T>) -> (r: &'a mut T)
        requires
            heap_wf(old(heap)@),
            self.live_in(old(heap)@),
            self@ is Some,
        ensures
            *r == old(heap)@[self@->0 as int].value->0,
            final(heap)@ == old(heap)@.update(
                self@->0 as int,
                ControlBlock {
                    value: Some(*final(r)),
                    strong: old(heap)@[self@->0 as int].strong,
                    weak: old(heap)@[self@->0 as int].weak,
                },
            ),
    {
        heap.get_mut(self.slot.unwrap())
    }

    /// A new strong handle on the same referent.
    pub fn clone(&self, heap: &mut SharedHeap<T>) -> (r: Self)
        requires
            heap_wf(old(heap)@),
            self.live_in(old(heap)@),
            self@ is Some ==> old(heap)@[self@->0 as int].strong < usize::MAX,
        ensures
            r@ == self@,
            self@ is None ==> final(heap)@ == old(heap)@,
            self@ is Some ==> final(heap)@ == retained(old(heap)@, self@->0 as int),
            heap_wf(final(heap)@),
    {
        match self.slot {
            None => {},
            Some(i) => heap.retain(i),
        }
        SharedPtr { slot: self.slot, marker: std::marker::PhantomData }
    }

    /// Drops this handle's strong reference.
    pub fn delete(self, heap: &mut SharedHeap<T>)
        requires
            heap_wf(old(heap)@),
            self.live_in(old(heap)@),
        ensures
            self@ is None ==> final(heap)@ == old(heap)@,
            self@ is Some ==> final(heap)@ == released(old(heap)@, self@->0 as int),
            heap_wf(final(heap)@),
    {
        match self.slot {
            None => {},
            Some(i) => heap.release(i),
        }
    }

    /// A weak handle on the same control block; the strong count is unchanged.
    pub fn downgrade(&self, heap: &mut SharedHeap<T>) -> (r: WeakPtr<T>)
        requires
            heap_wf(old(heap)@),
            self.live_in(old(heap)@),
            self@ is Some ==> old(heap)@[self@->0 as int].weak < usize::MAX,
        ensures
            r@ == self@,
            self@ is None ==> final(heap)@ == old(heap)@,
            self@ is Some ==> final(heap)@ == weak_retained(old(heap)@, self@->0 as int),
            heap_wf(final(heap)@),
    {
        match self.slot {
            None => {},
            Some(i) => heap.retain_weak(i),
        }
        WeakPtr::from_slot(self.slot)
    }
}

impl<T: std::fmt::Display> SharedPtr<T> {
    /// The referent as text, or `nullptr` for the null handle.
    pub fn to_string(&self, heap: &SharedHeap<T>) -> (r: String)
        requires
            heap_wf(heap@),
            self.live_in(heap@),
        ensures
            self@ is None ==> r@ == "nullptr"@,
            self@ is Some ==> to_string_from_display_ensures::<T>(
                &heap@[self@->0 as int].value->0,
                r,
            ),
    {
        match self.slot {
            Some(i) => heap.get(i).to_string(),
            None => String::from_str("nullptr"),
        }
    }
}

/// Dropping the original after cloning a live handle leaves the clone's referent
/// alive and unchanged.
pub proof fn law_clone_outlives_original<T>(h: Seq<ControlBlock<T>>, i: int)
    requires
        heap_wf(h),
        0 <= i < h.len(),
        h[i].strong > 0,
        h[i].strong < usize::MAX,
    ensures
        released(retained(h, i), i)[i].strong > 0,
        released(retained(h, i), i)[i].value == h[i].value,
        released(retained(h, i), i)[i].value is Some,
        heap_wf(released(retained(h, i), i)),
{
    let h1 = retained(h, i);
    assert(heap_wf(h1)) by {
        assert forall|k: int| 0 <= k < h1.len() implies crate::shared_heap::block_wf(
            #[trigger] h1[k],
        ) by {
            if k != i {
                assert(h1[k] == h[k]);
            }
        }
    }
    let h2 = released(h1, i);
    assert forall|k: int| 0 <= k < h2.len() implies crate::shared_heap::block_wf(
        #[trigger] h2[k],
    ) by {
        if k != i {
            assert(h2[k] == h[k]);
        }
    }
}

/// While the referent is alive an upgrade succeeds, and the weak handle made by
/// downgrading its result upgrades again.
pub proof fn law_upgrade_then_downgrade<T>(h: Seq<ControlBlock<T>>, i: int)
    requires
        heap_wf(h),
        0 <= i < h.len(),
        h[i].strong > 0,
        h[i].strong < usize::MAX,
        h[i].weak < usize::MAX,
    ensures
        upgrade_succeeds(h, i),
        upgrade_succeeds(weak_retained(upgraded(h, i), i), i),
{
}

/// Once the last strong handle is dropped, the referent is gone and an upgrade
/// yields the null handle.
pub proof fn law_upgrade_after_last_release<T>(h: Seq<ControlBlock<T>>, i: int)
    requires
        heap_wf(h),
        0 <= i < h.len(),
        h[i].strong == 1,
    ensures
        released(h, i)[i].value is None,
        !upgrade_succeeds(released(h, i), i),
        upgraded(released(h, i), i) == released(h, i),
{
}

} // verus!
