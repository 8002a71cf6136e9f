use vstd::prelude::*;

verus! {

/// A contiguous region of memory: the address of its first byte and its length in bytes.
#[derive(Debug, Clone, Copy, PartialEq, Eq, Structural)]
pub struct Layout {
    pub address: usize,
    pub size: usize,
}

/// The sizes of the regions listed in `regions`, in the same order.
pub open spec fn sizes_of(regions: Seq<Layout>) -> Seq<usize> {
    regions.map_values(|region: Layout| region.size)
}

/// `after` is `before`, untouched, followed by one new region for each entry of `sizes`,
/// whose sizes are those of `sizes` in that order, and none of which starts at address 0.
pub open spec fn appends_regions(before: Seq<Layout>, after: Seq<Layout>, sizes: Seq<usize>) -> bool {
    &&& after.len() == before.len() + sizes.len()
    &&& after.take(before.len() as int) == before
    &&& sizes_of(after.skip(before.len() as int)) == sizes
    &&& forall|i: int| before.len() <= i < after.len() ==> #[trigger] after[i].address != 0
}

/// Reporting no region leaves a list as it was.
pub proof fn lemma_appends_nothing(regions: Seq<Layout>)
    ensures
        appends_regions(regions, regions, Seq::empty()),
{
    assert(regions.take(regions.len() as int) =~= regions);
    assert(sizes_of(regions.skip(regions.len() as int)) =~= Seq::<usize>::empty());
}

/// Pushing one region that does not start at address 0 onto a list reports exactly
/// that region.
pub proof fn lemma_appends_one(regions: Seq<Layout>, region: Layout)
    requires
        region.address != 0,
    ensures
        appends_regions(regions, regions.push(region), seq![region.size]),
{
    assert(regions.push(region).take(regions.len() as int) =~= regions);
    assert(sizes_of(regions.push(region).skip(regions.len() as int)) =~= seq![region.size]);
}

/// Reporting the regions of one part and then those of the next reports the regions of
/// both, in that order: the layout of a value made of parts is the concatenation of the
/// layouts of its parts.
pub proof fn lemma_appends_regions_concat(
    first: Seq<Layout>,
    middle: Seq<Layout>,
    last: Seq<Layout>,
    sizes1: Seq<usize>,
    sizes2: Seq<usize>,
)
    requires
        appends_regions(first, middle, sizes1),
        appends_regions(middle, last, sizes2),
    ensures
        appends_regions(first, last, sizes1 + sizes2),
{
    let n = first.len() as int;
    let m = middle.len() as int;
    assert(last.take(n) =~= first) by {
        assert forall|i: int| 0 <= i < n implies last.take(n)[i] == first[i] by {
            assert(last.take(m)[i] == middle[i]);
            assert(middle.take(n)[i] == first[i]);
        }
    }
    let added = last.skip(n);
    let sizes = sizes1 + sizes2;
    assert(sizes_of(added) =~= sizes) by {
        assert forall|i: int| 0 <= i < added.len() implies sizes_of(added)[i] == sizes[i] by {
            if i < m - n {
                assert(last.take(m)[n + i] == middle[n + i]);
                assert(sizes_of(middle.skip(n))[i] == sizes1[i]);
            } else {
                assert(sizes_of(last.skip(m))[i - (m - n)] == sizes2[i - (m - n)]);
            }
        }
    }
    assert forall|i: int| n <= i < last.len() implies #[trigger] last[i].address != 0 by {
        if i < m {
            assert(last.take(m)[i] == middle[i]);
        }
    }
}

} // verus!
