use vstd::prelude::*;
use vstd::layout::size_of;
use core::mem::ManuallyDrop;
use std::rc::Rc;
use std::sync::Arc;
use crate::traits::{GetLayout, GetLayoutType};

verus! {

/// `value` reports exactly one region, as large as the whole value: `size_of::<T>()`,
/// whatever parts `T` is made of.
pub open spec fn reports_own_region<T: GetLayout>(value: T) -> bool {
    &&& T::layout_is_specified()
    &&& value.region_sizes() == seq![size_of::<T>() as usize]
}

/// `pointer` reports exactly one region, as large as the value `U` it points to, whatever
/// the size of the pointer itself.
pub open spec fn reports_target<P: GetLayout, U>(pointer: P) -> bool {
    &&& P::layout_is_specified()
    &&& pointer.region_sizes() == seq![size_of::<U>() as usize]
}

/// The type `T` alone reports no region.
pub open spec fn reports_nothing_by_type<T: GetLayoutType>() -> bool {
    &&& T::type_layout_is_specified()
    &&& T::type_region_sizes() == Seq::<usize>::empty()
}

/// Every value of a plain type (integer, `bool`, `char`, `()`, tuple, `Option`, `Result`,
/// `Vec`, `String`) reports one region whose size is that of the whole value.
pub proof fn law_values_report_their_whole_size<A, B, C, D, T, E>()
    ensures
        forall|v: bool| #[trigger] reports_own_region(v),
        forall|v: char| #[trigger] reports_own_region(v),
        forall|v: u8| #[trigger] reports_own_region(v),
        forall|v: u16| #[trigger] reports_own_region(v),
        forall|v: u32| #[trigger] reports_own_region(v),
        forall|v: u64| #[trigger] reports_own_region(v),
        forall|v: u128| #[trigger] reports_own_region(v),
        forall|v: usize| #[trigger] reports_own_region(v),
        forall|v: i8| #[trigger] reports_own_region(v),
        forall|v: i16| #[trigger] reports_own_region(v),
        forall|v: i32| #[trigger] reports_own_region(v),
        forall|v: i64| #[trigger] reports_own_region(v),
        forall|v: i128| #[trigger] reports_own_region(v),
        forall|v: isize| #[trigger] reports_own_region(v),
        forall|v: ()| #[trigger] reports_own_region(v),
        forall|v: String| #[trigger] reports_own_region(v),
        forall|v: (A,)| #[trigger] reports_own_region(v),
        forall|v: (A, B)| #[trigger] reports_own_region(v),
        forall|v: (A, B, C)| #[trigger] reports_own_region(v),
        forall|v: (A, B, C, D)| #[trigger] reports_own_region(v),
        forall|v: Option<T>| #[trigger] reports_own_region(v),
        forall|v: Result<T, E>| #[trigger] reports_own_region(v),
        forall|v: Vec<T>| #[trigger] reports_own_region(v),
{
}

/// Every array reports one region of `N` times the size of its element type.
pub proof fn law_arrays_report_all_their_elements<T, const N: usize>()
    ensures
        forall|a: [T; N]|
            #![trigger a.region_sizes()]
            <[T; N]>::layout_is_specified() && a.region_sizes() == seq![(N * size_of::<T>()) as usize],
{
}

/// A reference, `Box`, `Rc`, `Arc` or `ManuallyDrop` reports the value it points to: one
/// region of the size of the target type, not of the pointer.
pub proof fn law_pointers_report_their_target<'a, U: 'a>()
    ensures
        forall|p: &'a U| #[trigger] reports_target::<&'a U, U>(p),
        forall|p: Box<U>| #[trigger] reports_target::<Box<U>, U>(p),
        forall|p: Rc<U>| #[trigger] reports_target::<Rc<U>, U>(p),
        forall|p: Arc<U>| #[trigger] reports_target::<Arc<U>, U>(p),
        forall|p: ManuallyDrop<U>| #[trigger] reports_target::<ManuallyDrop<U>, U>(p),
{
}

/// A mutable reference reports the value it points to, like a shared one.
pub proof fn law_mutable_reference_reports_its_target<'a, U>(pointer: &'a mut U)
    ensures
        reports_target::<&'a mut U, U>(pointer),
{
}

/// No plain type, nor any array type, reports a region from the type alone.
pub proof fn law_plain_types_report_nothing_by_type<A, B, C, D, T, E, const N: usize>()
    ensures
        reports_nothing_by_type::<bool>(),
        reports_nothing_by_type::<char>(),
        reports_nothing_by_type::<u8>(),
        reports_nothing_by_type::<u16>(),
        reports_nothing_by_type::<u32>(),
        reports_nothing_by_type::<u64>(),
        reports_nothing_by_type::<u128>(),
        reports_nothing_by_type::<usize>(),
        reports_nothing_by_type::<i8>(),
        reports_nothing_by_type::<i16>(),
        reports_nothing_by_type::<i32>(),
        reports_nothing_by_type::<i64>(),
        reports_nothing_by_type::<i128>(),
        reports_nothing_by_type::<isize>(),
        reports_nothing_by_type::<()>(),
        reports_nothing_by_type::<String>(),
        reports_nothing_by_type::<(A,)>(),
        reports_nothing_by_type::<(A, B)>(),
        reports_nothing_by_type::<(A, B, C)>(),
        reports_nothing_by_type::<(A, B, C, D)>(),
        reports_nothing_by_type::<Option<T>>(),
        reports_nothing_by_type::<Result<T, E>>(),
        reports_nothing_by_type::<Vec<T>>(),
        reports_nothing_by_type::<[T; N]>(),
{
}

} // verus!
