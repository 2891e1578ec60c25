//! On-disk byte layout of the SAV dictionary section's extension
//! records: subtype codes, element shapes, separators and sentinel
//! bit patterns.
use vstd::prelude::*;

verus! {

/// Subtype code of the machine integer info record.
pub const EXTENSION_SUBTYPE_MACHINE_INTEGER_INFO: i32 = 3;
/// Subtype code of the float sentinels record.
pub const EXTENSION_SUBTYPE_FLOAT_INFO: i32 = 4;
/// Subtype code of the variable sets record.
pub const EXTENSION_SUBTYPE_VARIABLE_SETS: i32 = 5;
/// Subtype code of the pre-v14 multiple response sets record.
pub const EXTENSION_SUBTYPE_MULTIPLE_RESPONSE_SETS: i32 = 7;
/// Subtype code of the extra product info record.
pub const EXTENSION_SUBTYPE_EXTRA_PRODUCT_INFO: i32 = 10;
/// Subtype code of the display parameters record.
pub const EXTENSION_SUBTYPE_DISPLAY_PARAMETERS: i32 = 11;
/// Subtype code of the file UUID record.
pub const EXTENSION_SUBTYPE_UUID: i32 = 12;
/// Subtype code of the long variable names record.
pub const EXTENSION_SUBTYPE_LONG_VARIABLE_NAMES: i32 = 13;
/// Subtype code of the very long strings record.
pub const EXTENSION_SUBTYPE_VERY_LONG_STRINGS: i32 = 14;
/// Subtype code of the extended number of cases record.
pub const EXTENSION_SUBTYPE_EXTENDED_NUMBER_OF_CASES: i32 = 16;
/// Subtype code of the data file attributes record.
pub const EXTENSION_SUBTYPE_DATA_FILE_ATTRIBUTES: i32 = 17;
/// Subtype code of the variable attributes record.
pub const EXTENSION_SUBTYPE_VARIABLE_ATTRIBUTES: i32 = 18;
/// Subtype code of the post-v14 multiple response sets record.
pub const EXTENSION_SUBTYPE_MULTIPLE_RESPONSE_SETS_EXTENDED: i32 = 19;
/// Subtype code of the character encoding record.
pub const EXTENSION_SUBTYPE_CHARACTER_ENCODING: i32 = 20;
/// Subtype code of the long string value labels record.
pub const EXTENSION_SUBTYPE_LONG_STRING_VALUE_LABELS: i32 = 21;
/// Subtype code of the long string missing values record.
pub const EXTENSION_SUBTYPE_LONG_STRING_MISSING_VALUES: i32 = 22;

/// Element size of a subtype-3 record.
pub const MACHINE_INTEGER_INFO_ELEMENT_SIZE: u32 = 4;
/// Element count of a subtype-3 record.
pub const MACHINE_INTEGER_INFO_ELEMENT_COUNT: u32 = 8;
/// `floating_point_representation` code for IEEE 754.
pub const FLOATING_POINT_REPRESENTATION_IEEE: i32 = 1;
/// `floating_point_representation` code for IBM HFP.
pub const FLOATING_POINT_REPRESENTATION_IBM_HFP: i32 = 2;
/// `floating_point_representation` code for VAX.
pub const FLOATING_POINT_REPRESENTATION_VAX: i32 = 3;
/// `endianness` code for big-endian.
pub const ENDIANNESS_BIG_ENDIAN: i32 = 1;
/// `endianness` code for little-endian.
pub const ENDIANNESS_LITTLE_ENDIAN: i32 = 2;

/// Element size of a subtype-4 record.
pub const FLOAT_SENTINELS_ELEMENT_SIZE: u32 = 8;
/// Element count of a subtype-4 record.
pub const FLOAT_SENTINELS_ELEMENT_COUNT: u32 = 3;
/// Offset of the system-missing slab in a subtype-4 payload.
pub const FLOAT_SENTINELS_SYSTEM_MISSING_OFFSET: usize = 0;
/// Offset of the `HIGHEST` slab in a subtype-4 payload.
pub const FLOAT_SENTINELS_HIGHEST_OFFSET: usize = 8;
/// Offset of the `LOWEST` slab in a subtype-4 payload.
pub const FLOAT_SENTINELS_LOWEST_OFFSET: usize = 16;
/// IEEE 754 bits of SPSS's system-missing value, `-f64::MAX`.
pub const FLOAT_SENTINELS_IEEE_SYSTEM_MISSING_BITS: u64 = 0xFFEF_FFFF_FFFF_FFFF;
/// IEEE 754 bits of SPSS's `HIGHEST`, `f64::MAX`.
pub const FLOAT_SENTINELS_IEEE_HIGHEST_BITS: u64 = 0x7FEF_FFFF_FFFF_FFFF;
/// IEEE 754 bits of SPSS's `LOWEST`, one step above system-missing.
pub const FLOAT_SENTINELS_IEEE_LOWEST_BITS: u64 = 0xFFEF_FFFF_FFFF_FFFE;

/// Element size of the one-byte text subtypes.
pub const TEXT_ELEMENT_SIZE: u32 = 1;
/// Element size of a subtype-16 record.
pub const EXTENDED_NUMBER_OF_CASES_ELEMENT_SIZE: u32 = 8;
/// Element count of a subtype-16 record.
pub const EXTENDED_NUMBER_OF_CASES_ELEMENT_COUNT: u32 = 2;
/// Element size of a subtype-11 record.
pub const DISPLAY_PARAMETERS_ELEMENT_SIZE: u32 = 4;

/// Pair separator of subtypes 13 and 14 (a tab).
pub const PAIR_SEPARATOR: u8 = 9;
/// Key/value separator of subtypes 13 and 14 (`=`).
pub const KEY_VALUE_SEPARATOR: u8 = 61;
/// Padding that ends a subtype-14 pair (NUL).
pub const VERY_LONG_STRINGS_PAIR_PADDING: u8 = 0;
/// Line separator of subtypes 5, 7 and 19 (a line feed).
pub const LINE_SEPARATOR: u8 = 10;
/// Carriage return that may precede a subtype-5 line feed.
pub const CARRIAGE_RETURN: u8 = 13;
/// Field separator of subtypes 5, 7 and 19 (a space).
pub const FIELD_SEPARATOR: u8 = 32;
/// Name terminator of subtypes 5, 7 and 19 (`=`).
pub const NAME_TERMINATOR: u8 = 61;
/// Wire type of a multiple-category set.
pub const MULTIPLE_RESPONSE_SET_TYPE_CATEGORY: u8 = 67;
/// Wire type of a dichotomy set labeled by variable labels.
pub const MULTIPLE_RESPONSE_SET_TYPE_DICHOTOMY_VARIABLE_LABELS: u8 = 68;
/// Wire type of a dichotomy set labeled by counted values.
pub const MULTIPLE_RESPONSE_SET_TYPE_DICHOTOMY_COUNTED_VALUES: u8 = 69;
/// Most values one subtype-22 variable may carry.
pub const LONG_STRING_MISSING_VALUE_MAX_COUNT: u8 = 3;
/// Separator between variable groups of subtype 18 (`/`).
pub const ATTRIBUTE_SET_SEPARATOR: u8 = 47;
/// Terminator of a subtype-18 variable name (`:`).
pub const VARIABLE_ATTRIBUTES_NAME_TERMINATOR: u8 = 58;
/// Opens an attribute's value list (`(`).
pub const ATTRIBUTE_VALUES_OPEN: u8 = 40;
/// Closes an attribute's value list (`)`).
pub const ATTRIBUTE_VALUES_CLOSE: u8 = 41;
/// Ends each attribute value (a line feed).
pub const ATTRIBUTE_VALUE_TERMINATOR: u8 = 10;
/// Quote around each attribute value (`'`).
pub const ATTRIBUTE_VALUE_QUOTE: u8 = 39;

} // verus!
