//! Display alignment of a SAV variable.
use vstd::prelude::*;

verus! {

/// Display alignment of a SAV variable's values.
#[derive(Debug, Clone, Copy, PartialEq, Eq, Hash, Structural)]
#[non_exhaustive]
pub enum Alignment {
    /// Aligned to the left edge.
    Left,
    /// Aligned to the right edge.
    Right,
    /// Centered.
    Center,
}

} // verus!
