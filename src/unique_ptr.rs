use vstd::prelude::*;
use vstd::string::{StringExecFns, to_string_from_display_ensures};

verus! {

/// A uniquely owning handle on a native object: null, or the only owner of its
/// referent, which is destroyed with the handle unless escaped first.
pub struct UniquePtr<T> {
    ptr: Option<Box<T>>,
}

impl<T> View for UniquePtr<T> {
    type V = Option<T>;

    closed spec fn view(&self) -> Option<T> {
        match self.ptr {
            Some(b) => Some(*b),
            None => None,
        }
    }
}

impl<T> UniquePtr<T> {
    /// The null handle.
    pub fn null() -> (r: Self)
        ensures
            r@ is None,
    {
        UniquePtr { ptr: None }
    }

    /// The sole owner of a newly made `value`.
    pub fn new(value: T) -> (r: Self)
        ensures
            r@ == Some(value),
    {
        UniquePtr { ptr: Some(Box::new(value)) }
    }

    pub fn is_null(&self) -> (r: bool)
        ensures
            r == (self@ is None),
    {
        self.ptr.is_none()
    }

    /// The referent, or `None` for the null handle.
    pub fn as_ref(&self) -> (r: Option<&T>)
        ensures
            r is None <==> self@ is None,
            r is Some ==> *r->0 == self@->0,
    {
        match &self.ptr {
            Some(b) => Some(&**b),
            None => None,
        }
    }

    /// The referent; the handle must not be null.
    pub fn get(&self) -> (r: &T)
        requires
            self@ is Some,
        ensures
            *r == self@->0,
    {
        self.as_ref().unwrap()
    }

    /// The referent for writing, or `None` for the null handle.
    pub fn as_mut(&mut self) -> (r: Option<&mut T>)
        ensures
            r is None <==> old(self)@ is None,
            r is None ==> final(self)@ == old(self)@,
            r is Some ==> *r->0 == old(self)@->0 && final(self)@ == Some(*final(r->0)),
    {
        match &mut self.ptr {
            Some(b) => Some(&mut **b),
            None => None,
        }
    }

    /// The referent for writing; the handle must not be null.
    pub fn pin_mut(&mut self) -> (r: &mut T)
        requires
            old(self)@ is Some,
        ensures
            *r == old(self)@->0,
            final(self)@ == Some(*final(r)),
    {
        let b = self.ptr.as_mut().unwrap();
        &mut **b
    }

    /// Takes ownership of a referent held elsewhere, or of nothing.
    pub fn from_raw(raw: Option<Box<T>>) -> (r: Self)
        ensures
            r@ == match raw {
                Some(b) => Some(*b),
                None => None,
            },
    {
        UniquePtr { ptr: raw }
    }

    /// Gives up ownership: the referent, if any, is handed to the caller and
    /// not destroyed with the handle.
    pub fn into_raw(self) -> (r: Option<Box<T>>)
        ensures
            self@ == match r {
                Some(b) => Some(*b),
                None => None,
            },
    {
        self.ptr
    }
}

impl<T: std::fmt::Display> UniquePtr<T> {
    /// The referent as text, or `nullptr` for the null handle.
    pub fn to_string(&self) -> (r: String)
        ensures
            self@ is None ==> r@ == "nullptr"@,
            self@ is Some ==> to_string_from_display_ensures::<T>(&self@->0, r),
    {
        match &self.ptr {
            Some(b) => (**b).to_string(),
            None => String::from_str("nullptr"),
        }
    }
}

} // verus!
