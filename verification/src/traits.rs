use vstd::prelude::*;
use vstd::layout::{size_of, align_of};
use core::ops::Deref;
use crate::layout::{Layout, appends_regions, lemma_appends_one, lemma_appends_nothing};
use crate::address::address_of;

verus! {

/// A value that can report the memory regions it occupies.
///
/// A type whose `get_layout` is verified against `region_sizes` says so with
/// `layout_is_specified`; the contract of `get_layout` claims nothing for a type that
/// does not, such as one implemented outside verified code.
pub trait GetLayout {
    /// Whether this type's `get_layout` reports exactly `region_sizes`; by default not.
    open spec fn layout_is_specified() -> bool {
        false
    }

    /// The sizes of the regions that `get_layout` reports for this value, in the order
    /// in which it reports them, where `layout_is_specified` holds.
    open spec fn region_sizes(&self) -> Seq<usize> {
        Seq::empty()
    }

    /// Appends to `layout` one entry per memory region of this value, in order, none of
    /// them at address 0, and leaves the entries already there as they were.
    fn get_layout(&self, layout: &mut Vec<Layout>)
        ensures
            Self::layout_is_specified() ==> appends_regions(
                old(layout)@,
                final(layout)@,
                self.region_sizes(),
            ),
    ;
}

/// A type that can report memory regions known from the type alone (such as the fixed
/// block behind a zero-sized peripheral proxy), without a value of it.
///
/// As for `GetLayout`, the contract of `get_layout_type` claims nothing for a type whose
/// `type_layout_is_specified` does not hold.
pub trait GetLayoutType {
    /// Whether this type's `get_layout_type` reports exactly `type_region_sizes`; by
    /// default not.
    open spec fn type_layout_is_specified() -> bool {
        false
    }

    /// The sizes of the regions that `get_layout_type` reports, in order, where
    /// `type_layout_is_specified` holds.
    open spec fn type_region_sizes() -> Seq<usize> {
        Seq::empty()
    }

    /// Appends to `layout` one entry per region of the type, in order, none of them at
    /// address 0, and leaves the entries already there as they were.
    fn get_layout_type(layout: &mut Vec<Layout>)
        ensures
            Self::type_layout_is_specified() ==> appends_regions(
                old(layout)@,
                final(layout)@,
                Self::type_region_sizes(),
            ),
    ;
}

/// The region that `value` itself occupies: where it lies and `size_of::<T>()` bytes.
pub fn value_layout<T>(value: &T) -> (region: Layout)
    ensures
        region.size == size_of::<T>(),
        region.address != 0,
        region.address as nat % align_of::<T>() == 0,
{
    let address = address_of(value);
    let size = core::mem::size_of::<T>();
    Layout { address, size }
}

/// The region that `proxy` dereferences to, not the region of the proxy itself: where
/// the target lies and the size of the target type.
pub fn target_layout<T: Deref<Target = U>, U>(proxy: &T) -> (region: Layout)
    ensures
        region.size == size_of::<U>(),
        region.address != 0,
        region.address as nat % align_of::<U>() == 0,
{
    let target: &U = proxy.deref();
    value_layout(target)
}

/// Appends the region that `proxy` dereferences to: what a proxy's `get_layout` and,
/// with a proxy made for the purpose, its `get_layout_type` report.
pub fn record_target<T: Deref<Target = U>, U>(proxy: &T, layout: &mut Vec<Layout>)
    ensures
        appends_regions(old(layout)@, final(layout)@, seq![size_of::<U>() as usize]),
        final(layout)@ == old(layout)@.push(final(layout)@.last()),
        final(layout)@.last().size == size_of::<U>(),
        final(layout)@.last().address != 0,
        final(layout)@.last().address as nat % align_of::<U>() == 0,
{
    let region = target_layout(proxy);
    proof {
        lemma_appends_one(layout@, region);
    }
    layout.push(region);
}

/// Appends nothing.
pub(crate) fn record_nothing(layout: &mut Vec<Layout>)
    ensures
        appends_regions(old(layout)@, final(layout)@, Seq::empty()),
        final(layout)@ == old(layout)@,
{
    proof {
        lemma_appends_nothing(layout@);
    }
}

/// Appends the region that `value` itself occupies.
pub(crate) fn record_value<T>(value: &T, layout: &mut Vec<Layout>)
    ensures
        appends_regions(old(layout)@, final(layout)@, seq![size_of::<T>() as usize]),
        final(layout)@ == old(layout)@.push(final(layout)@.last()),
        final(layout)@.last().size == size_of::<T>(),
        final(layout)@.last().address != 0,
        final(layout)@.last().address as nat % align_of::<T>() == 0,
{
    let region = value_layout(value);
    proof {
        lemma_appends_one(layout@, region);
    }
    layout.push(region);
}

} // verus!
