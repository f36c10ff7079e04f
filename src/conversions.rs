use vstd::prelude::*;

verus! {

/// Relies on std's `impl<T> From<T> for T`: the argument comes back
/// unchanged. Setters that take a value already of the parameter's type
/// convert through it.
pub assume_specification<U>[ core::convert::From::<U>::from ](t: U) -> (r: U)
    ensures
        r == t,
;

/// Relies on std's `impl From<u32> for i64`: a lossless widening.
pub assume_specification[ <i64 as core::convert::From<u32>>::from ](small: u32) -> (r: i64)
    ensures
        r == small as i64,
;

} // verus!
