//! Measurement level of a SAV variable.
use vstd::prelude::*;

verus! {

/// Measurement level of a SAV variable, as the display-parameters
/// record (extension subtype 11) codes it.
#[derive(Debug, Clone, Copy, PartialEq, Eq, Hash, Structural)]
#[non_exhaustive]
pub enum MeasurementLevel {
    /// Code `0`: no level recorded.
    Unspecified,
    /// Code `1`: categories without order.
    Nominal,
    /// Code `2`: ordered categories.
    Ordinal,
    /// Code `3`: continuous values.
    Scale,
    /// Any other code, kept as written.
    Unknown(u8),
}

impl MeasurementLevel {
    /// The on-disk code of this level.
    pub open spec fn spec_to_byte(self) -> u8 {
        match self {
            MeasurementLevel::Unspecified => 0,
            MeasurementLevel::Nominal => 1,
            MeasurementLevel::Ordinal => 2,
            MeasurementLevel::Scale => 3,
            MeasurementLevel::Unknown(byte) => byte,
        }
    }

    /// The on-disk code of this level: `0` to `3` for the named levels,
    /// the kept byte for [`Unknown`](Self::Unknown).
    pub fn to_byte(self) -> (res: u8)
        ensures
            res == self.spec_to_byte(),
    {
        match self {
            MeasurementLevel::Unspecified => 0,
            MeasurementLevel::Nominal => 1,
            MeasurementLevel::Ordinal => 2,
            MeasurementLevel::Scale => 3,
            MeasurementLevel::Unknown(byte) => byte,
        }
    }
}

} // verus!
