//! On-disk byte layout of the 176-byte SAV file header.
use vstd::prelude::*;

verus! {

/// Total length of the file header in bytes.
pub const HEADER_LEN: usize = 176;
/// Offset of the record-type (magic) field.
pub const RECORD_TYPE_OFFSET: usize = 0;
/// Length of the record-type (magic) field.
pub const RECORD_TYPE_LEN: usize = 4;
/// Offset of the product-name field.
pub const PRODUCT_NAME_OFFSET: usize = 4;
/// Length of the product-name field.
pub const PRODUCT_NAME_LEN: usize = 60;
/// Offset of the layout-code field.
pub const LAYOUT_CODE_OFFSET: usize = 64;
/// The layout code that SPSS writes.
pub const LAYOUT_CODE_PRIMARY: i32 = 2;
/// The other layout code that readers accept.
pub const LAYOUT_CODE_ALTERNATE: i32 = 3;
/// Offset of the nominal-case-size field.
pub const NOMINAL_CASE_SIZE_OFFSET: usize = 68;
/// Offset of the compression-code field.
pub const COMPRESSION_OFFSET: usize = 72;
/// Offset of the weight-index field.
pub const WEIGHT_INDEX_OFFSET: usize = 76;
/// Offset of the case-count field.
pub const NCASES_OFFSET: usize = 80;
/// Offset of the compression-bias field.
pub const BIAS_OFFSET: usize = 84;
/// Length of the compression-bias field.
pub const BIAS_LEN: usize = 8;
/// Offset of the creation-date field.
pub const CREATION_DATE_OFFSET: usize = 92;
/// Length of the creation-date field.
pub const CREATION_DATE_LEN: usize = 9;
/// Offset of the creation-time field.
pub const CREATION_TIME_OFFSET: usize = 101;
/// Length of the creation-time field.
pub const CREATION_TIME_LEN: usize = 8;
/// Offset of the file-label field.
pub const FILE_LABEL_OFFSET: usize = 109;
/// Length of the file-label field.
pub const FILE_LABEL_LEN: usize = 64;
/// Offset of the trailing padding.
pub const TRAILING_PADDING_OFFSET: usize = 173;
/// Length of the trailing padding.
pub const TRAILING_PADDING_LEN: usize = 3;

/// The magic bytes `$FL2` of an uncompressed or bytecode-compressed file.
pub open spec fn magic_fl2() -> Seq<u8> {
    seq![36u8, 70u8, 76u8, 50u8]
}

/// The magic bytes `$FL3` of a zlib-compressed file.
pub open spec fn magic_fl3() -> Seq<u8> {
    seq![36u8, 70u8, 76u8, 51u8]
}

/// The header's fields follow one another without gap or overlap and
/// fill its length exactly.
pub proof fn lemma_header_fields_tile()
    ensures
        RECORD_TYPE_OFFSET == 0,
        RECORD_TYPE_OFFSET + RECORD_TYPE_LEN == PRODUCT_NAME_OFFSET,
        PRODUCT_NAME_OFFSET + PRODUCT_NAME_LEN == LAYOUT_CODE_OFFSET,
        LAYOUT_CODE_OFFSET + 4 == NOMINAL_CASE_SIZE_OFFSET,
        NOMINAL_CASE_SIZE_OFFSET + 4 == COMPRESSION_OFFSET,
        COMPRESSION_OFFSET + 4 == WEIGHT_INDEX_OFFSET,
        WEIGHT_INDEX_OFFSET + 4 == NCASES_OFFSET,
        NCASES_OFFSET + 4 == BIAS_OFFSET,
        BIAS_OFFSET + BIAS_LEN == CREATION_DATE_OFFSET,
        CREATION_DATE_OFFSET + CREATION_DATE_LEN == CREATION_TIME_OFFSET,
        CREATION_TIME_OFFSET + CREATION_TIME_LEN == FILE_LABEL_OFFSET,
        FILE_LABEL_OFFSET + FILE_LABEL_LEN == TRAILING_PADDING_OFFSET,
        TRAILING_PADDING_OFFSET + TRAILING_PADDING_LEN == HEADER_LEN,
{
}

} // verus!
