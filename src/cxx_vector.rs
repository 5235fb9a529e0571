use vstd::prelude::*;

verus! {

/// The capability contract of a dynamic-array element type: the native array
/// that holds elements of this type, and the operations its binding provides.
/// A handle reaches the native array only through these.
pub trait VectorElement: Sized {
    /// The native array object.
    type Native;

    /// The elements held by a native array, in order.
    spec fn native_view(raw: &Self::Native) -> Seq<Self>;

    fn native_size(raw: &Self::Native) -> (r: usize)
        ensures
            r == Self::native_view(raw).len(),
    ;

    /// Element `pos`; the binding does not check the bound.
    fn native_get(raw: &Self::Native, pos: usize) -> (r: &Self)
        requires
            pos < Self::native_view(raw).len(),
        ensures
            *r == Self::native_view(raw)[pos as int],
    ;

    /// Element `pos`, for writing; the binding does not check the bound.
    fn native_get_mut(raw: &mut Self::Native, pos: usize) -> (r: &mut Self)
        requires
            pos < Self::native_view(old(raw)).len(),
        ensures
            *r == Self::native_view(old(raw))[pos as int],
            Self::native_view(final(raw)) == Self::native_view(old(raw)).update(
                pos as int,
                *final(r),
            ),
    ;

    /// Moves `value` to the end of the array.
    fn native_push_back(raw: &mut Self::Native, value: Self)
        ensures
            Self::native_view(final(raw)) == Self::native_view(old(raw)).push(value),
    ;

    /// Moves the last element out and shrinks the array by one.
    fn native_pop_back(raw: &mut Self::Native) -> (r: Self)
        requires
            Self::native_view(old(raw)).len() > 0,
        ensures
            r == Self::native_view(old(raw)).last(),
            Self::native_view(final(raw)) == Self::native_view(old(raw)).drop_last(),
    ;

    /// The elements as one contiguous slice.
    fn native_as_slice(raw: &Self::Native) -> (r: &[Self])
        ensures
            r@ == Self::native_view(raw),
    ;

    /// The elements as one contiguous slice, for writing.
    fn native_as_mut_slice(raw: &mut Self::Native) -> (r: &mut [Self])
        ensures
            r@ == Self::native_view(old(raw)),
            final(r)@ == Self::native_view(final(raw)),
    ;
}

/// The binding of 64-bit integers, whose native array is the standard vector.
impl VectorElement for i64 {
    type Native = Vec<i64>;

    open spec fn native_view(raw: &Vec<i64>) -> Seq<i64> {
        raw@
    }

    fn native_size(raw: &Vec<i64>) -> (r: usize) {
        raw.len()
    }

    fn native_get(raw: &Vec<i64>, pos: usize) -> (r: &i64) {
        &raw[pos]
    }

    fn native_get_mut(raw: &mut Vec<i64>, pos: usize) -> (r: &mut i64) {
        &mut raw[pos]
    }

    fn native_push_back(raw: &mut Vec<i64>, value: i64) {
        raw.push(value);
    }

    fn native_pop_back(raw: &mut Vec<i64>) -> (r: i64) {
        let r = raw.pop();
        r.unwrap()
    }

    fn native_as_slice(raw: &Vec<i64>) -> (r: &[i64]) {
        raw.as_slice()
    }

    fn native_as_mut_slice(raw: &mut Vec<i64>) -> (r: &mut [i64]) {
        raw.as_mut_slice()
    }
}

/// A handle on a native dynamic array of `T`. It is always populated, possibly
/// with no elements, and owns the native array it holds.
pub struct CxxVector<T: VectorElement> {
    raw: T::Native,
}

impl<T: VectorElement> View for CxxVector<T> {
    type V = Seq<T>;

    closed spec fn view(&self) -> Seq<T> {
        T::native_view(&self.raw)
    }
}

impl<T: VectorElement> CxxVector<T> {
    /// Takes ownership of a native array made elsewhere.
    pub fn from_native(raw: T::Native) -> (r: Self)
        ensures
            r@ == T::native_view(&raw),
    {
        CxxVector { raw }
    }

    /// The number of elements.
    pub fn vector_len(&self) -> (r: usize)
        ensures
            r == self@.len(),
    {
        T::native_size(&self.raw)
    }

    /// The number of elements.
    pub fn len(&self) -> (r: usize)
        ensures
            r == self@.len(),
    {
        self.vector_len()
    }

    pub fn is_empty(&self) -> (r: bool)
        ensures
            r == (self@.len() == 0),
    {
        self.vector_len() == 0
    }

    /// Element `pos`, which the caller has checked to be in bounds.
    pub fn get_unchecked(&self, pos: usize) -> (r: &T)
        requires
            pos < self@.len(),
        ensures
            *r == self@[pos as int],
    {
        T::native_get(&self.raw, pos)
    }

    /// Element `pos` for writing, which the caller has checked to be in bounds.
    pub fn get_unchecked_mut(&mut self, pos: usize) -> (r: &mut T)
        requires
            pos < old(self)@.len(),
        ensures
            *r == old(self)@[pos as int],
            final(self)@ == old(self)@.update(pos as int, *final(r)),
    {
        T::native_get_mut(&mut self.raw, pos)
    }

    /// Element `pos`, or `None` past the end.
    pub fn get(&self, pos: usize) -> (r: Option<&T>)
        ensures
            pos < self@.len() ==> r is Some && *r->0 == self@[pos as int],
            pos >= self@.len() ==> r is None,
    {
        if pos < self.vector_len() {
            Some(self.get_unchecked(pos))
        } else {
            None
        }
    }

    /// Element `pos` for writing, or `None` past the end.
    pub fn get_mut(&mut self, pos: usize) -> (r: Option<&mut T>)
        ensures
            pos < old(self)@.len() ==> r is Some && *r->0 == old(self)@[pos as int]
                && final(self)@ == old(self)@.update(pos as int, *final(r->0)),
            pos >= old(self)@.len() ==> r is None && final(self)@ == old(self)@,
    {
        if pos < self.vector_len() {
            Some(self.get_unchecked_mut(pos))
        } else {
            None
        }
    }

    /// All elements as one slice, valid until the next change to the array.
    pub fn as_slice(&self) -> (r: &[T])
        ensures
            r@ == self@,
    {
        T::native_as_slice(&self.raw)
    }

    /// All elements as one slice for writing.
    pub fn as_mut_slice(&mut self) -> (r: &mut [T])
        ensures
            r@ == old(self)@,
            final(r)@ == final(self)@,
    {
        T::native_as_mut_slice(&mut self.raw)
    }

    /// Moves `value` to the end.
    pub fn push(&mut self, value: T)
        ensures
            final(self)@ == old(self)@.push(value),
    {
        T::native_push_back(&mut self.raw, value)
    }

    /// Removes and returns the last element, or `None` when empty.
    pub fn pop(&mut self) -> (r: Option<T>)
        ensures
            old(self)@.len() == 0 ==> r is None && final(self)@ == old(self)@,
            old(self)@.len() > 0 ==> r == Some(old(self)@.last()) && final(self)@ == old(
                self,
            )@.drop_last(),
    {
        if self.is_empty() {
            None
        } else {
            Some(T::native_pop_back(&mut self.raw))
        }
    }
}

/// Appending `v` and then removing the last element gives back `v` and leaves
/// the array as it was; right after the append, the last position holds `v`.
pub proof fn law_push_then_pop<T>(before: Seq<T>, v: T)
    ensures
        before.push(v).len() == before.len() + 1,
        before.push(v)[before.push(v).len() - 1] == v,
        before.push(v).last() == v,
        before.push(v).drop_last() == before,
{
    assert(before.push(v).drop_last() =~= before);
}

} // verus!
