use vstd::prelude::*;
use vstd::layout::{align_of, size_of};

verus! {

/// The address at which `value` lies, as `core::ptr::from_ref` gives it, read with the
/// pointer's `addr`. A reference is never null and is aligned for its type, as the language
/// documents; that is all this states. Which address it is depends on where the value was
/// placed in memory, and is not stated.
#[verifier::external_body]
pub(crate) fn address_of<T>(value: &T) -> (address: usize)
    ensures
        address != 0,
        address as nat % align_of::<T>() == 0,
{
    core::ptr::from_ref(value).addr()
}

/// The size of an array type, as `core::mem::size_of` gives it. The language reference
/// documents that an array `[T; N]` has a size of `N` times the size of `T`; that, and
/// that the result is the size of the array type, is what this states.
#[verifier::external_body]
pub(crate) fn array_size<T, const N: usize>() -> (size: usize)
    ensures
        size == size_of::<[T; N]>(),
        size == N * size_of::<T>(),
{
    core::mem::size_of::<[T; N]>()
}

} // verus!
