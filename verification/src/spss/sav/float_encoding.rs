//! How a SAV file encodes a double on disk: the pair of float format
//! and byte order that a bit pattern only means something relative to.
use vstd::prelude::*;

use crate::spss::sav::byte_order::ByteOrder;
use crate::spss::sav::float_format::FloatFormat;

verus! {

/// How a SAV file encodes a double on disk — the file's declared
/// [`FloatFormat`] paired with its [`ByteOrder`]. The byte order governs
/// the layout of IEEE 754 only: IBM HFP is always big-endian and both
/// VAX encodings always use VAX word order.
#[derive(Debug, Clone, Copy, PartialEq, Eq, Hash, Structural)]
pub struct FloatEncoding {
    format: FloatFormat,
    byte_order: ByteOrder,
}

impl FloatEncoding {
    /// The float format.
    pub closed spec fn spec_format(self) -> FloatFormat {
        self.format
    }

    /// The byte order.
    pub closed spec fn spec_byte_order(self) -> ByteOrder {
        self.byte_order
    }

    /// Pairs a float format with a byte order.
    pub fn new(format: FloatFormat, byte_order: ByteOrder) -> (res: Self)
        ensures
            res.spec_format() == format,
            res.spec_byte_order() == byte_order,
    {
        FloatEncoding { format, byte_order }
    }

    /// On-disk floating-point representation.
    pub fn format(self) -> (res: FloatFormat)
        ensures
            res == self.spec_format(),
    {
        self.format
    }

    /// Byte order of multibyte values; governs IEEE 754 only.
    pub fn byte_order(self) -> (res: ByteOrder)
        ensures
            res == self.spec_byte_order(),
    {
        self.byte_order
    }
}

} // verus!
