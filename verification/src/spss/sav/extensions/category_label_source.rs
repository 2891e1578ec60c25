//! Where a multiple-dichotomy set's category labels come from.
use vstd::prelude::*;

verus! {

/// The source of category labels for a multiple-dichotomy response set
/// (extension subtypes 7 and 19), SPSS's `CATEGORYLABELS` keyword.
#[derive(Debug, Clone, PartialEq, Eq)]
pub enum CategoryLabelSource {
    /// `CATEGORYLABELS=VARLABELS` (wire type `D`): each category is
    /// labeled by its member variable's variable label.
    VariableLabels,
    /// `CATEGORYLABELS=COUNTEDVALUES` (wire type `E`): categories are
    /// labeled from the counted value's value labels.
    CountedValues {
        /// The raw label-source indicator (`1` or `11`), kept verbatim.
        label_source: u32,
    },
}

} // verus!
