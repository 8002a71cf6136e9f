use vstd::prelude::*;
use vstd::layout::{size_of, align_of};
use core::mem::ManuallyDrop;
use std::rc::Rc;
use std::sync::Arc;
use crate::layout::{Layout, lemma_appends_one};
use crate::address::{address_of, array_size};
use crate::traits::{GetLayout, GetLayoutType, record_value, record_nothing, record_target};

verus! {

// A plain value reports the one region it lies in, and its type reports nothing alone.
// (`Vec` and `String` report their own handle: the buffer they own is not a `Sized` target.)

impl GetLayout for bool {
    open spec fn layout_is_specified() -> bool {
        true
    }

    open spec fn region_sizes(&self) -> Seq<usize> {
        seq![size_of::<bool>() as usize]
    }

    fn get_layout(&self, layout: &mut Vec<Layout>)
        ensures
            final(layout)@ == old(layout)@.push(final(layout)@.last()),
            final(layout)@.last().size == size_of::<bool>(),
            final(layout)@.last().address != 0,
            final(layout)@.last().address as nat % align_of::<bool>() == 0,
    {
        record_value(self, layout);
    }
}

impl GetLayoutType for bool {
    open spec fn type_layout_is_specified() -> bool {
        true
    }

    fn get_layout_type(layout: &mut Vec<Layout>)
        ensures
            final(layout)@ == old(layout)@,
    {
        record_nothing(layout);
    }
}

impl GetLayout for char {
    open spec fn layout_is_specified() -> bool {
        true
    }

    open spec fn region_sizes(&self) -> Seq<usize> {
        seq![size_of::<char>() as usize]
    }

    fn get_layout(&self, layout: &mut Vec<Layout>)
        ensures
            final(layout)@ == old(layout)@.push(final(layout)@.last()),
            final(layout)@.last().size == size_of::<char>(),
            final(layout)@.last().address != 0,
            final(layout)@.last().address as nat % align_of::<char>() == 0,
    {
        record_value(self, layout);
    }
}

impl GetLayoutType for char {
    open spec fn type_layout_is_specified() -> bool {
        true
    }

    fn get_layout_type(layout: &mut Vec<Layout>)
        ensures
            final(layout)@ == old(layout)@,
    {
        record_nothing(layout);
    }
}

impl GetLayout for u8 {
    open spec fn layout_is_specified() -> bool {
        true
    }

    open spec fn region_sizes(&self) -> Seq<usize> {
        seq![size_of::<u8>() as usize]
    }

    fn get_layout(&self, layout: &mut Vec<Layout>)
        ensures
            final(layout)@ == old(layout)@.push(final(layout)@.last()),
            final(layout)@.last().size == size_of::<u8>(),
            final(layout)@.last().address != 0,
            final(layout)@.last().address as nat % align_of::<u8>() == 0,
    {
        record_value(self, layout);
    }
}

impl GetLayoutType for u8 {
    open spec fn type_layout_is_specified() -> bool {
        true
    }

    fn get_layout_type(layout: &mut Vec<Layout>)
        ensures
            final(layout)@ == old(layout)@,
    {
        record_nothing(layout);
    }
}

impl GetLayout for u16 {
    open spec fn layout_is_specified() -> bool {
        true
    }

    open spec fn region_sizes(&self) -> Seq<usize> {
        seq![size_of::<u16>() as usize]
    }

    fn get_layout(&self, layout: &mut Vec<Layout>)
        ensures
            final(layout)@ == old(layout)@.push(final(layout)@.last()),
            final(layout)@.last().size == size_of::<u16>(),
            final(layout)@.last().address != 0,
            final(layout)@.last().address as nat % align_of::<u16>() == 0,
    {
        record_value(self, layout);
    }
}

impl GetLayoutType for u16 {
    open spec fn type_layout_is_specified() -> bool {
        true
    }

    fn get_layout_type(layout: &mut Vec<Layout>)
        ensures
            final(layout)@ == old(layout)@,
    {
        record_nothing(layout);
    }
}

impl GetLayout for u32 {
    open spec fn layout_is_specified() -> bool {
        true
    }

    open spec fn region_sizes(&self) -> Seq<usize> {
        seq![size_of::<u32>() as usize]
    }

    fn get_layout(&self, layout: &mut Vec<Layout>)
        ensures
            final(layout)@ == old(layout)@.push(final(layout)@.last()),
            final(layout)@.last().size == size_of::<u32>(),
            final(layout)@.last().address != 0,
            final(layout)@.last().address as nat % align_of::<u32>() == 0,
    {
        record_value(self, layout);
    }
}

impl GetLayoutType for u32 {
    open spec fn type_layout_is_specified() -> bool {
        true
    }

    fn get_layout_type(layout: &mut Vec<Layout>)
        ensures
            final(layout)@ == old(layout)@,
    {
        record_nothing(layout);
    }
}

impl GetLayout for u64 {
    open spec fn layout_is_specified() -> bool {
        true
    }

    open spec fn region_sizes(&self) -> Seq<usize> {
        seq![size_of::<u64>() as usize]
    }

    fn get_layout(&self, layout: &mut Vec<Layout>)
        ensures
            final(layout)@ == old(layout)@.push(final(layout)@.last()),
            final(layout)@.last().size == size_of::<u64>(),
            final(layout)@.last().address != 0,
            final(layout)@.last().address as nat % align_of::<u64>() == 0,
    {
        record_value(self, layout);
    }
}

impl GetLayoutType for u64 {
    open spec fn type_layout_is_specified() -> bool {
        true
    }

    fn get_layout_type(layout: &mut Vec<Layout>)
        ensures
            final(layout)@ == old(layout)@,
    {
        record_nothing(layout);
    }
}

impl GetLayout for u128 {
    open spec fn layout_is_specified() -> bool {
        true
    }

    open spec fn region_sizes(&self) -> Seq<usize> {
        seq![size_of::<u128>() as usize]
    }

    fn get_layout(&self, layout: &mut Vec<Layout>)
        ensures
            final(layout)@ == old(layout)@.push(final(layout)@.last()),
            final(layout)@.last().size == size_of::<u128>(),
            final(layout)@.last().address != 0,
            final(layout)@.last().address as nat % align_of::<u128>() == 0,
    {
        record_value(self, layout);
    }
}

impl GetLayoutType for u128 {
    open spec fn type_layout_is_specified() -> bool {
        true
    }

    fn get_layout_type(layout: &mut Vec<Layout>)
        ensures
            final(layout)@ == old(layout)@,
    {
        record_nothing(layout);
    }
}

impl GetLayout for usize {
    open spec fn layout_is_specified() -> bool {
        true
    }

    open spec fn region_sizes(&self) -> Seq<usize> {
        seq![size_of::<usize>() as usize]
    }

    fn get_layout(&self, layout: &mut Vec<Layout>)
        ensures
            final(layout)@ == old(layout)@.push(final(layout)@.last()),
            final(layout)@.last().size == size_of::<usize>(),
            final(layout)@.last().address != 0,
            final(layout)@.last().address as nat % align_of::<usize>() == 0,
    {
        record_value(self, layout);
    }
}

impl GetLayoutType for usize {
    open spec fn type_layout_is_specified() -> bool {
        true
    }

    fn get_layout_type(layout: &mut Vec<Layout>)
        ensures
            final(layout)@ == old(layout)@,
    {
        record_nothing(layout);
    }
}

impl GetLayout for i8 {
    open spec fn layout_is_specified() -> bool {
        true
    }

    open spec fn region_sizes(&self) -> Seq<usize> {
        seq![size_of::<i8>() as usize]
    }

    fn get_layout(&self, layout: &mut Vec<Layout>)
        ensures
            final(layout)@ == old(layout)@.push(final(layout)@.last()),
            final(layout)@.last().size == size_of::<i8>(),
            final(layout)@.last().address != 0,
            final(layout)@.last().address as nat % align_of::<i8>() == 0,
    {
        record_value(self, layout);
    }
}

impl GetLayoutType for i8 {
    open spec fn type_layout_is_specified() -> bool {
        true
    }

    fn get_layout_type(layout: &mut Vec<Layout>)
        ensures
            final(layout)@ == old(layout)@,
    {
        record_nothing(layout);
    }
}

impl GetLayout for i16 {
    open spec fn layout_is_specified() -> bool {
        true
    }

    open spec fn region_sizes(&self) -> Seq<usize> {
        seq![size_of::<i16>() as usize]
    }

    fn get_layout(&self, layout: &mut Vec<Layout>)
        ensures
            final(layout)@ == old(layout)@.push(final(layout)@.last()),
            final(layout)@.last().size == size_of::<i16>(),
            final(layout)@.last().address != 0,
            final(layout)@.last().address as nat % align_of::<i16>() == 0,
    {
        record_value(self, layout);
    }
}

impl GetLayoutType for i16 {
    open spec fn type_layout_is_specified() -> bool {
        true
    }

    fn get_layout_type(layout: &mut Vec<Layout>)
        ensures
            final(layout)@ == old(layout)@,
    {
        record_nothing(layout);
    }
}

impl GetLayout for i32 {
    open spec fn layout_is_specified() -> bool {
        true
    }

    open spec fn region_sizes(&self) -> Seq<usize> {
        seq![size_of::<i32>() as usize]
    }

    fn get_layout(&self, layout: &mut Vec<Layout>)
        ensures
            final(layout)@ == old(layout)@.push(final(layout)@.last()),
            final(layout)@.last().size == size_of::<i32>(),
            final(layout)@.last().address != 0,
            final(layout)@.last().address as nat % align_of::<i32>() == 0,
    {
        record_value(self, layout);
    }
}

impl GetLayoutType for i32 {
    open spec fn type_layout_is_specified() -> bool {
        true
    }

    fn get_layout_type(layout: &mut Vec<Layout>)
        ensures
            final(layout)@ == old(layout)@,
    {
        record_nothing(layout);
    }
}

impl GetLayout for i64 {
    open spec fn layout_is_specified() -> bool {
        true
    }

    open spec fn region_sizes(&self) -> Seq<usize> {
        seq![size_of::<i64>() as usize]
    }

    fn get_layout(&self, layout: &mut Vec<Layout>)
        ensures
            final(layout)@ == old(layout)@.push(final(layout)@.last()),
            final(layout)@.last().size == size_of::<i64>(),
            final(layout)@.last().address != 0,
            final(layout)@.last().address as nat % align_of::<i64>() == 0,
    {
        record_value(self, layout);
    }
}

impl GetLayoutType for i64 {
    open spec fn type_layout_is_specified() -> bool {
        true
    }

    fn get_layout_type(layout: &mut Vec<Layout>)
        ensures
            final(layout)@ == old(layout)@,
    {
        record_nothing(layout);
    }
}

impl GetLayout for i128 {
    open spec fn layout_is_specified() -> bool {
        true
    }

    open spec fn region_sizes(&self) -> Seq<usize> {
        seq![size_of::<i128>() as usize]
    }

    fn get_layout(&self, layout: &mut Vec<Layout>)
        ensures
            final(layout)@ == old(layout)@.push(final(layout)@.last()),
            final(layout)@.last().size == size_of::<i128>(),
            final(layout)@.last().address != 0,
            final(layout)@.last().address as nat % align_of::<i128>() == 0,
    {
        record_value(self, layout);
    }
}

impl GetLayoutType for i128 {
    open spec fn type_layout_is_specified() -> bool {
        true
    }

    fn get_layout_type(layout: &mut Vec<Layout>)
        ensures
            final(layout)@ == old(layout)@,
    {
        record_nothing(layout);
    }
}

impl GetLayout for isize {
    open spec fn layout_is_specified() -> bool {
        true
    }

    open spec fn region_sizes(&self) -> Seq<usize> {
        seq![size_of::<isize>() as usize]
    }

    fn get_layout(&self, layout: &mut Vec<Layout>)
        ensures
            final(layout)@ == old(layout)@.push(final(layout)@.last()),
            final(layout)@.last().size == size_of::<isize>(),
            final(layout)@.last().address != 0,
            final(layout)@.last().address as nat % align_of::<isize>() == 0,
    {
        record_value(self, layout);
    }
}

impl GetLayoutType for isize {
    open spec fn type_layout_is_specified() -> bool {
        true
    }

    fn get_layout_type(layout: &mut Vec<Layout>)
        ensures
            final(layout)@ == old(layout)@,
    {
        record_nothing(layout);
    }
}

impl GetLayout for () {
    open spec fn layout_is_specified() -> bool {
        true
    }

    open spec fn region_sizes(&self) -> Seq<usize> {
        seq![size_of::<()>() as usize]
    }

    fn get_layout(&self, layout: &mut Vec<Layout>)
        ensures
            final(layout)@ == old(layout)@.push(final(layout)@.last()),
            final(layout)@.last().size == size_of::<()>(),
            final(layout)@.last().address != 0,
            final(layout)@.last().address as nat % align_of::<()>() == 0,
    {
        record_value(self, layout);
    }
}

impl GetLayoutType for () {
    open spec fn type_layout_is_specified() -> bool {
        true
    }

    fn get_layout_type(layout: &mut Vec<Layout>)
        ensures
            final(layout)@ == old(layout)@,
    {
        record_nothing(layout);
    }
}

impl GetLayout for String {
    open spec fn layout_is_specified() -> bool {
        true
    }

    open spec fn region_sizes(&self) -> Seq<usize> {
        seq![size_of::<String>() as usize]
    }

    fn get_layout(&self, layout: &mut Vec<Layout>)
        ensures
            final(layout)@ == old(layout)@.push(final(layout)@.last()),
            final(layout)@.last().size == size_of::<String>(),
            final(layout)@.last().address != 0,
            final(layout)@.last().address as nat % align_of::<String>() == 0,
    {
        record_value(self, layout);
    }
}

impl GetLayoutType for String {
    open spec fn type_layout_is_specified() -> bool {
        true
    }

    fn get_layout_type(layout: &mut Vec<Layout>)
        ensures
            final(layout)@ == old(layout)@,
    {
        record_nothing(layout);
    }
}

impl<A> GetLayout for (A,) {
    open spec fn layout_is_specified() -> bool {
        true
    }

    open spec fn region_sizes(&self) -> Seq<usize> {
        seq![size_of::<(A,)>() as usize]
    }

    fn get_layout(&self, layout: &mut Vec<Layout>)
        ensures
            final(layout)@ == old(layout)@.push(final(layout)@.last()),
            final(layout)@.last().size == size_of::<(A,)>(),
            final(layout)@.last().address != 0,
            final(layout)@.last().address as nat % align_of::<(A,)>() == 0,
    {
        record_value(self, layout);
    }
}

impl<A> GetLayoutType for (A,) {
    open spec fn type_layout_is_specified() -> bool {
        true
    }

    fn get_layout_type(layout: &mut Vec<Layout>)
        ensures
            final(layout)@ == old(layout)@,
    {
        record_nothing(layout);
    }
}

impl<A, B> GetLayout for (A, B) {
    open spec fn layout_is_specified() -> bool {
        true
    }

    open spec fn region_sizes(&self) -> Seq<usize> {
        seq![size_of::<(A, B)>() as usize]
    }

    fn get_layout(&self, layout: &mut Vec<Layout>)
        ensures
            final(layout)@ == old(layout)@.push(final(layout)@.last()),
            final(layout)@.last().size == size_of::<(A, B)>(),
            final(layout)@.last().address != 0,
            final(layout)@.last().address as nat % align_of::<(A, B)>() == 0,
    {
        record_value(self, layout);
    }
}

impl<A, B> GetLayoutType for (A, B) {
    open spec fn type_layout_is_specified() -> bool {
        true
    }

    fn get_layout_type(layout: &mut Vec<Layout>)
        ensures
            final(layout)@ == old(layout)@,
    {
        record_nothing(layout);
    }
}

impl<A, B, C> GetLayout for (A, B, C) {
    open spec fn layout_is_specified() -> bool {
        true
    }

    open spec fn region_sizes(&self) -> Seq<usize> {
        seq![size_of::<(A, B, C)>() as usize]
    }

    fn get_layout(&self, layout: &mut Vec<Layout>)
        ensures
            final(layout)@ == old(layout)@.push(final(layout)@.last()),
            final(layout)@.last().size == size_of::<(A, B, C)>(),
            final(layout)@.last().address != 0,
            final(layout)@.last().address as nat % align_of::<(A, B, C)>() == 0,
    {
        record_value(self, layout);
    }
}

impl<A, B, C> GetLayoutType for (A, B, C) {
    open spec fn type_layout_is_specified() -> bool {
        true
    }

    fn get_layout_type(layout: &mut Vec<Layout>)
        ensures
            final(layout)@ == old(layout)@,
    {
        record_nothing(layout);
    }
}

impl<A, B, C, D> GetLayout for (A, B, C, D) {
    open spec fn layout_is_specified() -> bool {
        true
    }

    open spec fn region_sizes(&self) -> Seq<usize> {
        seq![size_of::<(A, B, C, D)>() as usize]
    }

    fn get_layout(&self, layout: &mut Vec<Layout>)
        ensures
            final(layout)@ == old(layout)@.push(final(layout)@.last()),
            final(layout)@.last().size == size_of::<(A, B, C, D)>(),
            final(layout)@.last().address != 0,
            final(layout)@.last().address as nat % align_of::<(A, B, C, D)>() == 0,
    {
        record_value(self, layout);
    }
}

impl<A, B, C, D> GetLayoutType for (A, B, C, D) {
    open spec fn type_layout_is_specified() -> bool {
        true
    }

    fn get_layout_type(layout: &mut Vec<Layout>)
        ensures
            final(layout)@ == old(layout)@,
    {
        record_nothing(layout);
    }
}

impl<T> GetLayout for Option<T> {
    open spec fn layout_is_specified() -> bool {
        true
    }

    open spec fn region_sizes(&self) -> Seq<usize> {
        seq![size_of::<Option<T>>() as usize]
    }

    fn get_layout(&self, layout: &mut Vec<Layout>)
        ensures
            final(layout)@ == old(layout)@.push(final(layout)@.last()),
            final(layout)@.last().size == size_of::<Option<T>>(),
            final(layout)@.last().address != 0,
            final(layout)@.last().address as nat % align_of::<Option<T>>() == 0,
    {
        record_value(self, layout);
    }
}

impl<T> GetLayoutType for Option<T> {
    open spec fn type_layout_is_specified() -> bool {
        true
    }

    fn get_layout_type(layout: &mut Vec<Layout>)
        ensures
            final(layout)@ == old(layout)@,
    {
        record_nothing(layout);
    }
}

impl<T, E> GetLayout for Result<T, E> {
    open spec fn layout_is_specified() -> bool {
        true
    }

    open spec fn region_sizes(&self) -> Seq<usize> {
        seq![size_of::<Result<T, E>>() as usize]
    }

    fn get_layout(&self, layout: &mut Vec<Layout>)
        ensures
            final(layout)@ == old(layout)@.push(final(layout)@.last()),
            final(layout)@.last().size == size_of::<Result<T, E>>(),
            final(layout)@.last().address != 0,
            final(layout)@.last().address as nat % align_of::<Result<T, E>>() == 0,
    {
        record_value(self, layout);
    }
}

impl<T, E> GetLayoutType for Result<T, E> {
    open spec fn type_layout_is_specified() -> bool {
        true
    }

    fn get_layout_type(layout: &mut Vec<Layout>)
        ensures
            final(layout)@ == old(layout)@,
    {
        record_nothing(layout);
    }
}

impl<T> GetLayout for Vec<T> {
    open spec fn layout_is_specified() -> bool {
        true
    }

    open spec fn region_sizes(&self) -> Seq<usize> {
        seq![size_of::<Vec<T>>() as usize]
    }

    fn get_layout(&self, layout: &mut Vec<Layout>)
        ensures
            final(layout)@ == old(layout)@.push(final(layout)@.last()),
            final(layout)@.last().size == size_of::<Vec<T>>(),
            final(layout)@.last().address != 0,
            final(layout)@.last().address as nat % align_of::<Vec<T>>() == 0,
    {
        record_value(self, layout);
    }
}

impl<T> GetLayoutType for Vec<T> {
    open spec fn type_layout_is_specified() -> bool {
        true
    }

    fn get_layout_type(layout: &mut Vec<Layout>)
        ensures
            final(layout)@ == old(layout)@,
    {
        record_nothing(layout);
    }
}

/// An array is one region: all of its elements, `N` times the size of one.
impl<T, const N: usize> GetLayout for [T; N] {
    open spec fn layout_is_specified() -> bool {
        true
    }

    open spec fn region_sizes(&self) -> Seq<usize> {
        seq![(N * size_of::<T>()) as usize]
    }

    fn get_layout(&self, layout: &mut Vec<Layout>)
        ensures
            final(layout)@ == old(layout)@.push(final(layout)@.last()),
            final(layout)@.last().size == (N * size_of::<T>()),
            final(layout)@.last().size == size_of::<[T; N]>(),
            final(layout)@.last().address != 0,
            final(layout)@.last().address as nat % align_of::<[T; N]>() == 0,
    {
        let region = Layout { address: address_of(self), size: array_size::<T, N>() };
        proof {
            lemma_appends_one(layout@, region);
        }
        layout.push(region);
    }
}

impl<T, const N: usize> GetLayoutType for [T; N] {
    open spec fn type_layout_is_specified() -> bool {
        true
    }

    fn get_layout_type(layout: &mut Vec<Layout>)
        ensures
            final(layout)@ == old(layout)@,
    {
        record_nothing(layout);
    }
}

/// A reference reports the region it refers to, not the reference itself.
impl<'a, U> GetLayout for &'a U {
    open spec fn layout_is_specified() -> bool {
        true
    }

    open spec fn region_sizes(&self) -> Seq<usize> {
        seq![size_of::<U>() as usize]
    }

    fn get_layout(&self, layout: &mut Vec<Layout>)
        ensures
            final(layout)@ == old(layout)@.push(final(layout)@.last()),
            final(layout)@.last().size == size_of::<U>(),
            final(layout)@.last().address != 0,
            final(layout)@.last().address as nat % align_of::<U>() == 0,
    {
        record_value(*self, layout);
    }
}

/// A mutable reference reports the region it refers to, not the reference itself.
impl<'a, U> GetLayout for &'a mut U {
    open spec fn layout_is_specified() -> bool {
        true
    }

    open spec fn region_sizes(&self) -> Seq<usize> {
        seq![size_of::<U>() as usize]
    }

    fn get_layout(&self, layout: &mut Vec<Layout>)
        ensures
            final(layout)@ == old(layout)@.push(final(layout)@.last()),
            final(layout)@.last().size == size_of::<U>(),
            final(layout)@.last().address != 0,
            final(layout)@.last().address as nat % align_of::<U>() == 0,
    {
        let target: &U = &**self;
        record_value(target, layout);
    }
}

/// A box reports the region it owns on the heap, not the box itself.
impl<U> GetLayout for Box<U> {
    open spec fn layout_is_specified() -> bool {
        true
    }

    open spec fn region_sizes(&self) -> Seq<usize> {
        seq![size_of::<U>() as usize]
    }

    fn get_layout(&self, layout: &mut Vec<Layout>)
        ensures
            final(layout)@ == old(layout)@.push(final(layout)@.last()),
            final(layout)@.last().size == size_of::<U>(),
            final(layout)@.last().address != 0,
            final(layout)@.last().address as nat % align_of::<U>() == 0,
    {
        let target: &U = &**self;
        record_value(target, layout);
    }
}

/// An `Rc` reports the shared value it points to, not the pointer itself.
impl<U> GetLayout for Rc<U> {
    open spec fn layout_is_specified() -> bool {
        true
    }

    open spec fn region_sizes(&self) -> Seq<usize> {
        seq![size_of::<U>() as usize]
    }

    fn get_layout(&self, layout: &mut Vec<Layout>)
        ensures
            final(layout)@ == old(layout)@.push(final(layout)@.last()),
            final(layout)@.last().size == size_of::<U>(),
            final(layout)@.last().address != 0,
            final(layout)@.last().address as nat % align_of::<U>() == 0,
    {
        let target: &U = &**self;
        record_value(target, layout);
    }
}

/// An `Arc` reports the shared value it points to, not the pointer itself.
impl<U> GetLayout for Arc<U> {
    open spec fn layout_is_specified() -> bool {
        true
    }

    open spec fn region_sizes(&self) -> Seq<usize> {
        seq![size_of::<U>() as usize]
    }

    fn get_layout(&self, layout: &mut Vec<Layout>)
        ensures
            final(layout)@ == old(layout)@.push(final(layout)@.last()),
            final(layout)@.last().size == size_of::<U>(),
            final(layout)@.last().address != 0,
            final(layout)@.last().address as nat % align_of::<U>() == 0,
    {
        let target: &U = &**self;
        record_value(target, layout);
    }
}

/// A `ManuallyDrop` reports the value it dereferences to.
impl<U> GetLayout for ManuallyDrop<U> {
    open spec fn layout_is_specified() -> bool {
        true
    }

    open spec fn region_sizes(&self) -> Seq<usize> {
        seq![size_of::<U>() as usize]
    }

    fn get_layout(&self, layout: &mut Vec<Layout>)
        ensures
            final(layout)@ == old(layout)@.push(final(layout)@.last()),
            final(layout)@.last().size == size_of::<U>(),
            final(layout)@.last().address != 0,
            final(layout)@.last().address as nat % align_of::<U>() == 0,
    {
        record_target(self, layout);
    }
}

} // verus!
