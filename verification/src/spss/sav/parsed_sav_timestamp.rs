//! Successfully parsed SAV creation timestamp.
use vstd::prelude::*;

verus! {

/// The components of a successfully parsed SAV creation timestamp.
///
/// Carries no fields yet: the parsed components are held by
/// [`SavTimestamp`](crate::spss::sav::sav_timestamp::SavTimestamp).
#[derive(Debug, Clone, Copy, PartialEq, Eq, Hash)]
pub struct ParsedSavTimestamp {}

} // verus!
