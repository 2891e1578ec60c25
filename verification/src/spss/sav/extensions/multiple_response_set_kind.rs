//! The kind of multiple response set (category vs dichotomy).
use vstd::prelude::*;

use crate::spss::sav::extensions::category_label_source::CategoryLabelSource;

verus! {

/// The kind of multiple response set, and its kind-specific data:
/// wire type `C` (multiple category), or `D` / `E` (multiple dichotomy,
/// told apart by their [`CategoryLabelSource`]).
#[derive(Debug, Clone, PartialEq, Eq)]
pub enum MultipleResponseSetKind {
    /// A multiple-category set (wire type `C`).
    MultipleCategory,
    /// A multiple-dichotomy set (wire type `D` or `E`).
    MultipleDichotomy {
        /// The value that counts as "selected", decoded through the
        /// file's active encoding.
        counted_value: String,
        /// Where the per-category labels come from.
        category_labels: CategoryLabelSource,
    },
}

} // verus!
