//! SAV file header.
use vstd::prelude::*;

use crate::spss::sav::byte_order::ByteOrder;
use crate::spss::sav::compression::Compression;
use crate::spss::sav::float_encoding::FloatEncoding;
use crate::spss::sav::float_format::FloatFormat;
use crate::spss::sav::sav_creation_timestamp::SavCreationTimestamp;

verus! {

/// The fields of a SAV file's 176-byte header, decoded.
#[derive(Debug, Clone, PartialEq, Eq)]
pub struct SavHeader {
    product_name: String,
    file_label: String,
    creation_timestamp: SavCreationTimestamp,
    compression: Compression,
    byte_order: ByteOrder,
    float_format: FloatFormat,
    bias: [u8; 8],
    case_count: Option<u32>,
    nominal_case_size: Option<u32>,
}

impl SavHeader {
    /// The product name, as a specification value.
    pub closed spec fn spec_product_name(self) -> Seq<char> {
        self.product_name@
    }

    /// The file label, as a specification value.
    pub closed spec fn spec_file_label(self) -> Seq<char> {
        self.file_label@
    }

    /// The creation timestamp, as a specification value.
    pub closed spec fn spec_creation_timestamp(self) -> SavCreationTimestamp {
        self.creation_timestamp
    }

    /// The compression, as a specification value.
    pub closed spec fn spec_compression(self) -> Compression {
        self.compression
    }

    /// The byte order, as a specification value.
    pub closed spec fn spec_byte_order(self) -> ByteOrder {
        self.byte_order
    }

    /// The float format, as a specification value.
    pub closed spec fn spec_float_format(self) -> FloatFormat {
        self.float_format
    }

    /// The bias bytes, as a specification value.
    pub closed spec fn spec_bias(self) -> Seq<u8> {
        self.bias@
    }

    /// The case count, as a specification value.
    pub closed spec fn spec_case_count(self) -> Option<u32> {
        self.case_count
    }

    /// The nominal case size, as a specification value.
    pub closed spec fn spec_nominal_case_size(self) -> Option<u32> {
        self.nominal_case_size
    }

    /// Assembles a header from its decoded fields.
    pub(crate) fn new(
        product_name: String,
        file_label: String,
        creation_timestamp: SavCreationTimestamp,
        compression: Compression,
        byte_order: ByteOrder,
        float_format: FloatFormat,
        bias: [u8; 8],
        case_count: Option<u32>,
        nominal_case_size: Option<u32>,
    ) -> (res: Self)
        ensures
            res.spec_product_name() == product_name@,
            res.spec_file_label() == file_label@,
            res.spec_creation_timestamp() == creation_timestamp,
            res.spec_compression() == compression,
            res.spec_byte_order() == byte_order,
            res.spec_float_format() == float_format,
            res.spec_bias() == bias@,
            res.spec_case_count() == case_count,
            res.spec_nominal_case_size() == nominal_case_size,
    {
        SavHeader {
            product_name,
            file_label,
            creation_timestamp,
            compression,
            byte_order,
            float_format,
            bias,
            case_count,
            nominal_case_size,
        }
    }

    /// The product that wrote the file, padding trimmed.
    pub fn product_name(&self) -> (res: &str)
        ensures
            res@ == self.spec_product_name(),
    {
        self.product_name.as_str()
    }

    /// The file label, padding trimmed.
    pub fn file_label(&self) -> (res: &str)
        ensures
            res@ == self.spec_file_label(),
    {
        self.file_label.as_str()
    }

    /// When the file was written, as recorded in the header.
    pub fn creation_timestamp(&self) -> (res: &SavCreationTimestamp)
        ensures
            *res == self.spec_creation_timestamp(),
    {
        &self.creation_timestamp
    }

    /// How the data records are compressed.
    pub fn compression(&self) -> (res: Compression)
        ensures
            res == self.spec_compression(),
    {
        self.compression
    }

    /// The byte order of multibyte values.
    pub fn byte_order(&self) -> (res: ByteOrder)
        ensures
            res == self.spec_byte_order(),
    {
        self.byte_order
    }

    /// The float format the compression bias identified.
    pub fn float_format(&self) -> (res: FloatFormat)
        ensures
            res == self.spec_float_format(),
    {
        self.float_format
    }

    /// The compression-bias field, verbatim: the canonical bias `100.0`
    /// in the file's float format.
    pub fn bias_bytes(&self) -> (res: [u8; 8])
        ensures
            res@ == self.spec_bias(),
    {
        self.bias
    }

    /// The number of cases, or `None` when the header does not say
    /// (the field is negative).
    pub fn case_count(&self) -> (res: Option<u32>)
        ensures
            res == self.spec_case_count(),
    {
        self.case_count
    }

    /// The number of 8-byte data units per case, or `None` when the
    /// field is negative.
    pub fn nominal_case_size(&self) -> (res: Option<u32>)
        ensures
            res == self.spec_nominal_case_size(),
    {
        self.nominal_case_size
    }

    /// How the file encodes a double: its float format with its byte
    /// order.
    pub fn float_encoding(&self) -> (res: FloatEncoding)
        ensures
            res.spec_format() == self.spec_float_format(),
            res.spec_byte_order() == self.spec_byte_order(),
    {
        FloatEncoding::new(self.float_format, self.byte_order)
    }
}

} // verus!
