//! Reports where a value lies in memory: each memory region it occupies, as a start
//! address and a size in bytes, appended in order to a list of [`Layout`] entries.

mod address;
mod layout;
mod traits;
mod primitives;
mod laws;

pub use layout::{Layout, appends_regions, sizes_of, lemma_appends_one, lemma_appends_nothing, lemma_appends_regions_concat};
pub use traits::{GetLayout, GetLayoutType, value_layout, target_layout, record_target};
pub use laws::{
    reports_own_region, reports_target, reports_nothing_by_type, law_values_report_their_whole_size,
    law_arrays_report_all_their_elements, law_pointers_report_their_target,
    law_mutable_reference_reports_its_target, law_plain_types_report_nothing_by_type,
};
