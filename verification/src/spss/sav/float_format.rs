//! On-disk floating-point representation of `f64` values.
use vstd::prelude::*;

verus! {

/// On-disk floating-point representation declared by a SAV file.
///
/// Most SAV files use IEEE 754. IBM HFP and VAX formats appear in
/// legacy files written on those platforms. VAX supplies two distinct
/// 64-bit encodings, `D_float` and `G_float`; the same eight bytes
/// decode to different numbers under each, so both are variants here.
#[derive(Debug, Clone, Copy, PartialEq, Eq, Hash, Structural)]
#[non_exhaustive]
pub enum FloatFormat {
    /// IEEE 754 binary64.
    Ieee754,
    /// IBM hexadecimal floating-point.
    IbmHfp,
    /// VAX `D_float`: 8-bit exponent, 55-bit mantissa.
    VaxDFloat,
    /// VAX `G_float`: 11-bit exponent, 52-bit mantissa.
    VaxGFloat,
}

impl FloatFormat {
    /// The format's display name.
    pub open spec fn text(self) -> Seq<char> {
        match self {
            FloatFormat::Ieee754 => "IEEE 754"@,
            FloatFormat::IbmHfp => "IBM HFP"@,
            FloatFormat::VaxDFloat => "VAX D_float"@,
            FloatFormat::VaxGFloat => "VAX G_float"@,
        }
    }

    /// Renders the format's display name.
    pub fn to_string(&self) -> (res: String)
        ensures
            res@ == self.text(),
    {
        match self {
            FloatFormat::Ieee754 => String::from_str("IEEE 754"),
            FloatFormat::IbmHfp => String::from_str("IBM HFP"),
            FloatFormat::VaxDFloat => String::from_str("VAX D_float"),
            FloatFormat::VaxGFloat => String::from_str("VAX G_float"),
        }
    }
}

} // verus!
