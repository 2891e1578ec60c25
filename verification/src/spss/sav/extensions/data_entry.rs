//! Subtype 15 — SPSS Data Entry product information.
use vstd::prelude::*;

verus! {

/// SPSS Data Entry product metadata from extension record subtype 15.
/// Product-specific and rarely seen; it carries no parsed fields.
#[derive(Debug, Clone)]
pub struct DataEntry {}

} // verus!
