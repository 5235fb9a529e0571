//! Bridges host code to native value types: a generator of native trampolines
//! from declared signatures and resource kinds, and handle types that reach the
//! native objects only through those operations.

pub mod codegen;
pub mod cxx_string;
pub mod cxx_vector;
pub mod resource;
pub mod shared_heap;
pub mod shared_ptr;
pub mod signature;
pub mod template;
pub mod unique_ptr;
pub mod weak_ptr;

pub use codegen::genc_fn;
pub use cxx_string::{CxxString, StackString};
pub use cxx_vector::{CxxVector, VectorElement};
pub use resource::{genc_shared_ptr, genc_unique_ptr, genc_vector, genc_weak_ptr};
pub use shared_heap::SharedHeap;
pub use shared_ptr::SharedPtr;
pub use signature::{FnSig, ReturnType};
pub use unique_ptr::UniquePtr;
pub use weak_ptr::WeakPtr;
