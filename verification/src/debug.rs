//! A plain look at the numbers in an array, for a debugger or a log line.
//!
//! The numbers of the caller stand in the library as integers, so the arrays
//! that can be looked at here are arrays of `i32`.

use vstd::prelude::*;

verus! {

/// A one-dimensional array of the `ndarray` crate, `ndarray::Array1<T>`.
///
/// Verus does not look inside the array. What an array of `i32` holds is
/// given by [`array_elements`].
#[verifier::external_body]
#[verifier::reject_recursive_types(T)]
pub struct DebugArray<T> {
    /// The array itself.
    pub inner: ndarray::Array1<T>,
}

/// The elements of a one-dimensional array, from the first index to the
/// last, whatever the layout of the array in memory.
pub uninterp spec fn array_elements(array: DebugArray<i32>) -> Seq<i32>;

/// Gives the elements of an array as a vector.
pub trait NdDebug<T> {
    /// The elements, first to last.
    fn dbg_vec(&self) -> Vec<T>;
}

/// Calls `to_vec` of `ndarray` on the one-dimensional array, which copies the
/// elements into a new vector: a contiguous array as its slice, any other in
/// the order of its indices. The vector is claimed to hold the elements of
/// the array, first to last.
#[verifier::external_body]
fn array_to_vec(array: &DebugArray<i32>) -> (v: Vec<i32>)
    ensures
        v@ == array_elements(*array),
{
    array.inner.to_vec()
}

impl NdDebug<i32> for DebugArray<i32> {
    /// The elements of the array, first to last, in a vector of their own.
    fn dbg_vec(&self) -> (v: Vec<i32>)
        ensures
            v@ == array_elements(*self),
    {
        array_to_vec(self)
    }
}

} // verus!
