use vstd::prelude::*;

verus! {

/// The native control block of one reference-counted allocation: the referent
/// while any strong reference is left, and the strong and weak counts.
pub struct ControlBlock<T> {
    pub value: Option<T>,
    pub strong: usize,
    pub weak: usize,
}

/// A control block is consistent when its referent is alive exactly while a
/// strong reference is left.
pub open spec fn block_wf<T>(b: ControlBlock<T>) -> bool {
    b.value is Some <==> b.strong > 0
}

/// Every control block is consistent.
pub open spec fn heap_wf<T>(h: Seq<ControlBlock<T>>) -> bool {
    forall|i: int| 0 <= i < h.len() ==> block_wf(#[trigger] h[i])
}

/// One more strong reference to block `i`.
pub open spec fn retained<T>(h: Seq<ControlBlock<T>>, i: int) -> Seq<ControlBlock<T>> {
    h.update(i, ControlBlock { value: h[i].value, strong: (h[i].strong + 1) as usize, weak: h[i].weak })
}

/// One strong reference to block `i` less; the last one destroys the referent.
pub open spec fn released<T>(h: Seq<ControlBlock<T>>, i: int) -> Seq<ControlBlock<T>> {
    if h[i].strong == 1 {
        h.update(i, ControlBlock { value: None, strong: 0, weak: h[i].weak })
    } else {
        h.update(
            i,
            ControlBlock { value: h[i].value, strong: (h[i].strong - 1) as usize, weak: h[i].weak },
        )
    }
}

/// One more weak reference to block `i`.
pub open spec fn weak_retained<T>(h: Seq<ControlBlock<T>>, i: int) -> Seq<ControlBlock<T>> {
    h.update(i, ControlBlock { value: h[i].value, strong: h[i].strong, weak: (h[i].weak + 1) as usize })
}

/// One weak reference to block `i` less.
pub open spec fn weak_released<T>(h: Seq<ControlBlock<T>>, i: int) -> Seq<ControlBlock<T>> {
    h.update(i, ControlBlock { value: h[i].value, strong: h[i].strong, weak: (h[i].weak - 1) as usize })
}

/// Whether an upgrade of a weak reference to block `i` gets a strong one.
pub open spec fn upgrade_succeeds<T>(h: Seq<ControlBlock<T>>, i: int) -> bool {
    h[i].strong > 0
}

/// The heap after an upgrade attempt on block `i`.
pub open spec fn upgraded<T>(h: Seq<ControlBlock<T>>, i: int) -> Seq<ControlBlock<T>> {
    if upgrade_succeeds(h, i) {
        retained(h, i)
    } else {
        h
    }
}

/// The native side of the shared and weak kinds: every reference-counted
/// allocation, addressed by its index. Handles change counts only through it.
pub struct SharedHeap<T> {
    blocks: Vec<ControlBlock<T>>,
}

impl<T> View for SharedHeap<T> {
    type V = Seq<ControlBlock<T>>;

    closed spec fn view(&self) -> Seq<ControlBlock<T>> {
        self.blocks@
    }
}

impl<T> SharedHeap<T> {
    pub fn new() -> (r: Self)
        ensures
            r@ == Seq::<ControlBlock<T>>::empty(),
    {
        SharedHeap { blocks: Vec::new() }
    }

    /// Allocates `value` with one strong reference and returns its index.
    pub fn allocate(&mut self, value: T) -> (r: usize)
        requires
            heap_wf(old(self)@),
        ensures
            r == old(self)@.len(),
            final(self)@ == old(self)@.push(ControlBlock { value: Some(value), strong: 1, weak: 0 }),
            heap_wf(final(self)@),
    {
        let r = self.blocks.len();
        self.blocks.push(ControlBlock { value: Some(value), strong: 1, weak: 0 });
        proof {
            assert forall|k: int| 0 <= k < self@.len() implies block_wf(#[trigger] self@[k]) by {
                if k < r {
                    assert(self@[k] == old(self)@[k]);
                }
            }
        }
        r
    }

    /// The counts of block `i`.
    pub fn counts(&self, i: usize) -> (r: (usize, usize))
        requires
            i < self@.len(),
        ensures
            r == (self@[i as int].strong, self@[i as int].weak),
    {
        (self.blocks[i].strong, self.blocks[i].weak)
    }

    /// Adds a strong reference to block `i`.
    pub fn retain(&mut self, i: usize)
        requires
            heap_wf(old(self)@),
            i < old(self)@.len(),
            old(self)@[i as int].strong > 0,
            old(self)@[i as int].strong < usize::MAX,
        ensures
            final(self)@ == retained(old(self)@, i as int),
            heap_wf(final(self)@),
    {
        let b = &mut self.blocks[i];
        b.strong = b.strong + 1;
        proof {
            assert(self@ =~= retained(old(self)@, i as int));
        }
    }

    /// Drops a strong reference to block `i`, destroying the referent with the last.
    pub fn release(&mut self, i: usize)
        requires
            heap_wf(old(self)@),
            i < old(self)@.len(),
            old(self)@[i as int].strong > 0,
        ensures
            final(self)@ == released(old(self)@, i as int),
            heap_wf(final(self)@),
    {
        let b = &mut self.blocks[i];
        if b.strong == 1 {
            b.value = None;
        }
        b.strong = b.strong - 1;
        proof {
            assert(self@ =~= released(old(self)@, i as int));
        }
    }

    /// Adds a weak reference to block `i`.
    pub fn retain_weak(&mut self, i: usize)
        requires
            heap_wf(old(self)@),
            i < old(self)@.len(),
            old(self)@[i as int].weak < usize::MAX,
        ensures
            final(self)@ == weak_retained(old(self)@, i as int),
            heap_wf(final(self)@),
    {
        let b = &mut self.blocks[i];
        b.weak = b.weak + 1;
        proof {
            assert(self@ =~= weak_retained(old(self)@, i as int));
        }
    }

    /// Drops a weak reference to block `i`.
    pub fn release_weak(&mut self, i: usize)
        requires
            heap_wf(old(self)@),
            i < old(self)@.len(),
            old(self)@[i as int].weak > 0,
        ensures
            final(self)@ == weak_released(old(self)@, i as int),
            heap_wf(final(self)@),
    {
        let b = &mut self.blocks[i];
        b.weak = b.weak - 1;
        proof {
            assert(self@ =~= weak_released(old(self)@, i as int));
        }
    }

    /// Adds a strong reference to block `i` if its referent is still alive.
    pub fn try_retain(&mut self, i: usize) -> (r: bool)
        requires
            heap_wf(old(self)@),
            i < old(self)@.len(),
            old(self)@[i as int].strong < usize::MAX,
        ensures
            r == upgrade_succeeds(old(self)@, i as int),
            final(self)@ == upgraded(old(self)@, i as int),
            heap_wf(final(self)@),
    {
        if self.blocks[i].strong > 0 {
            self.retain(i);
            true
        } else {
            false
        }
    }

    /// The referent of block `i`, which must be alive.
    pub fn get(&self, i: usize) -> (r: &T)
        requires
            i < self@.len(),
            self@[i as int].value is Some,
        ensures
            *r == self@[i as int].value->0,
    {
        self.blocks[i].value.as_ref().unwrap()
    }

    /// The referent of block `i` for writing, which must be alive.
    pub fn get_mut(&mut self, i: usize) -> (r: &mut T)
        requires
            i < old(self)@.len(),
            old(self)@[i as int].value is Some,
        ensures
            *r == old(self)@[i as int].value->0,
            final(self)@ == old(self)@.update(
                i as int,
                ControlBlock {
                    value: Some(*final(r)),
                    strong: old(self)@[i as int].strong,
                    weak: old(self)@[i as int].weak,
                },
            ),
    {
        let b = &mut self.blocks[i];
        b.value.as_mut().unwrap()
    }
}

} // verus!
