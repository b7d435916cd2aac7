//! Conversions into strided arrays.

use vstd::prelude::*;

verus! {

/// Convert a value into an array that owns its samples.
pub trait IntoNdarray: Sized {
    type Output;

    /// Whether the value has an array form.
    spec fn has_ndarray(&self) -> bool;

    fn into_ndarray(self) -> Self::Output
        requires
            self.has_ndarray(),
    ;
}

/// Borrow a value as a read-only array.
pub trait RefNdarray: Sized {
    type Output;

    /// Whether the value has an array form.
    spec fn has_ndarray(&self) -> bool;

    fn ref_ndarray(self) -> Self::Output
        requires
            self.has_ndarray(),
    ;
}

/// Borrow a value as an array to write through.
pub trait MutNdarray: Sized {
    type Output;

    /// Whether the value has an array form.
    spec fn has_ndarray(&self) -> bool;

    fn mut_ndarray(self) -> Self::Output
        requires
            self.has_ndarray(),
    ;
}

} // verus!
