//! Recoverable issues raised during SAV reading.
use vstd::prelude::*;

verus! {

/// A recoverable issue the reader noticed and worked around.
#[derive(Debug, Clone, Copy, PartialEq, Eq)]
#[non_exhaustive]
pub enum SavWarning {
    /// The header's compression code disagrees with its magic bytes;
    /// the code wins.
    CompressionMismatch {
        /// The magic bytes the file starts with.
        rec_type: [u8; 4],
        /// The compression code in the header.
        code: i32,
    },
    /// The header's compression code is none of `0`, `1`, `2`; the
    /// data is read as uncompressed.
    UnknownCompressionCode {
        /// The compression code in the header.
        code: i32,
    },
    /// The compression bias is no format's encoding of `100.0`, so IEEE
    /// 754 in the header's byte order was assumed.
    FloatFormatAssumed {
        /// The bias field as written; under the assumed format it reads
        /// as an IEEE 754 double in the header's byte order.
        bias: [u8; 8],
    },
    /// The machine integer info record declares a byte order other than
    /// the header's.
    HeaderByteOrderMismatch {
        /// The record's `endianness` field.
        record_value: i32,
    },
    /// The machine integer info record declares a float format other
    /// than the one the header's bias identified.
    HeaderFloatFormatMismatch {
        /// The record's `floating_point_representation` field.
        record_value: i32,
    },
    /// An extension record of a recognized subtype whose element size or
    /// count was not that subtype's; the record was skipped. Only the
    /// records the rest of the file can do without (float sentinels,
    /// extended case count, character encoding) are skipped this way.
    MalformedExtension {
        /// The record's subtype code.
        subtype: i32,
    },
    /// An extension record of a subtype this library does not parse was
    /// kept verbatim.
    UnknownExtensionSubtype {
        /// The record's subtype code.
        subtype: i32,
    },
}

} // verus!
