//! Wire-level discriminant of a type-7 extension record.
use vstd::prelude::*;
use crate::spss::sav::dictionary_format::{
    EXTENSION_SUBTYPE_CHARACTER_ENCODING, EXTENSION_SUBTYPE_DATA_FILE_ATTRIBUTES,
    EXTENSION_SUBTYPE_DISPLAY_PARAMETERS, EXTENSION_SUBTYPE_EXTENDED_NUMBER_OF_CASES,
    EXTENSION_SUBTYPE_EXTRA_PRODUCT_INFO, EXTENSION_SUBTYPE_FLOAT_INFO,
    EXTENSION_SUBTYPE_LONG_STRING_MISSING_VALUES, EXTENSION_SUBTYPE_LONG_STRING_VALUE_LABELS,
    EXTENSION_SUBTYPE_LONG_VARIABLE_NAMES, EXTENSION_SUBTYPE_MACHINE_INTEGER_INFO,
    EXTENSION_SUBTYPE_MULTIPLE_RESPONSE_SETS, EXTENSION_SUBTYPE_MULTIPLE_RESPONSE_SETS_EXTENDED,
    EXTENSION_SUBTYPE_UUID, EXTENSION_SUBTYPE_VARIABLE_ATTRIBUTES, EXTENSION_SUBTYPE_VARIABLE_SETS,
    EXTENSION_SUBTYPE_VERY_LONG_STRINGS,
};

verus! {

/// Which kind of type-7 extension record a subtype code names.
///
/// The `subtype` field of a type-7 record is an `i32` on disk.
/// `ExtensionSubtype` is the typed form of that field, and names
/// exactly the subtypes this library parses — one variant per
/// [`ExtensionRecord`](crate::spss::sav::extensions::extension_record::ExtensionRecord)
/// variant, except that subtypes 7 and 19 are separate here (they
/// share a single record variant) and every code outside the set
/// collapses to [`Unrecognized`](Self::Unrecognized).
///
/// A record whose subtype is `Unrecognized` always decodes to
/// [`ExtensionRecord::Unknown`](crate::spss::sav::extensions::extension_record::ExtensionRecord::Unknown),
/// whose own subtype field keeps the code.
///
/// Subtypes observed in the wild but not parsed — 6 (date info) and 24
/// (XML display info) — read as `Unrecognized` like any other
/// unhandled code.
#[derive(Debug, Clone, Copy, PartialEq, Eq, Hash, Structural)]
#[non_exhaustive]
pub enum ExtensionSubtype {
    /// Subtype 3 — integer-typed environment metadata.
    MachineIntegerInfo,
    /// Subtype 4 — float sentinel values.
    FloatInfo,
    /// Subtype 5 — named variable groupings.
    VariableSets,
    /// Subtype 7 — multiple response sets, pre-v14 format.
    MultipleResponseSets,
    /// Subtype 10 — extra product information.
    ExtraProductInfo,
    /// Subtype 11 — per-variable display parameters.
    DisplayParameters,
    /// Subtype 12 — file UUID.
    Uuid,
    /// Subtype 13 — long-variable-name mappings.
    LongVariableNames,
    /// Subtype 14 — very-long-string widths.
    VeryLongStrings,
    /// Subtype 16 — extended number of cases.
    ExtendedNumberOfCases,
    /// Subtype 17 — file-level custom attributes.
    FileAttributes,
    /// Subtype 18 — per-variable custom attributes.
    VariableAttributes,
    /// Subtype 19 — multiple response sets, post-v14 format.
    MultipleResponseSetsExtended,
    /// Subtype 20 — declared character encoding label.
    CharacterEncoding,
    /// Subtype 21 — long value labels.
    LongValueLabels,
    /// Subtype 22 — long missing values.
    LongMissingValues,
    /// Any subtype code this library does not parse.
    Unrecognized,
}

impl ExtensionSubtype {
    /// The on-disk code of a named subtype; `None` for `Unrecognized`.
    pub open spec fn spec_code(self) -> Option<i32> {
        match self {
            ExtensionSubtype::MachineIntegerInfo => Some(EXTENSION_SUBTYPE_MACHINE_INTEGER_INFO),
            ExtensionSubtype::FloatInfo => Some(EXTENSION_SUBTYPE_FLOAT_INFO),
            ExtensionSubtype::VariableSets => Some(EXTENSION_SUBTYPE_VARIABLE_SETS),
            ExtensionSubtype::MultipleResponseSets => Some(EXTENSION_SUBTYPE_MULTIPLE_RESPONSE_SETS),
            ExtensionSubtype::ExtraProductInfo => Some(EXTENSION_SUBTYPE_EXTRA_PRODUCT_INFO),
            ExtensionSubtype::DisplayParameters => Some(EXTENSION_SUBTYPE_DISPLAY_PARAMETERS),
            ExtensionSubtype::Uuid => Some(EXTENSION_SUBTYPE_UUID),
            ExtensionSubtype::LongVariableNames => Some(EXTENSION_SUBTYPE_LONG_VARIABLE_NAMES),
            ExtensionSubtype::VeryLongStrings => Some(EXTENSION_SUBTYPE_VERY_LONG_STRINGS),
            ExtensionSubtype::ExtendedNumberOfCases => Some(
                EXTENSION_SUBTYPE_EXTENDED_NUMBER_OF_CASES,
            ),
            ExtensionSubtype::FileAttributes => Some(EXTENSION_SUBTYPE_DATA_FILE_ATTRIBUTES),
            ExtensionSubtype::VariableAttributes => Some(EXTENSION_SUBTYPE_VARIABLE_ATTRIBUTES),
            ExtensionSubtype::MultipleResponseSetsExtended => Some(
                EXTENSION_SUBTYPE_MULTIPLE_RESPONSE_SETS_EXTENDED,
            ),
            ExtensionSubtype::CharacterEncoding => Some(EXTENSION_SUBTYPE_CHARACTER_ENCODING),
            ExtensionSubtype::LongValueLabels => Some(EXTENSION_SUBTYPE_LONG_STRING_VALUE_LABELS),
            ExtensionSubtype::LongMissingValues => Some(
                EXTENSION_SUBTYPE_LONG_STRING_MISSING_VALUES,
            ),
            ExtensionSubtype::Unrecognized => None,
        }
    }

    /// The subtype an on-disk code names.
    pub open spec fn spec_from_code(code: i32) -> ExtensionSubtype {
        if code == EXTENSION_SUBTYPE_MACHINE_INTEGER_INFO {
            ExtensionSubtype::MachineIntegerInfo
        } else if code == EXTENSION_SUBTYPE_FLOAT_INFO {
            ExtensionSubtype::FloatInfo
        } else if code == EXTENSION_SUBTYPE_VARIABLE_SETS {
            ExtensionSubtype::VariableSets
        } else if code == EXTENSION_SUBTYPE_MULTIPLE_RESPONSE_SETS {
            ExtensionSubtype::MultipleResponseSets
        } else if code == EXTENSION_SUBTYPE_EXTRA_PRODUCT_INFO {
            ExtensionSubtype::ExtraProductInfo
        } else if code == EXTENSION_SUBTYPE_DISPLAY_PARAMETERS {
            ExtensionSubtype::DisplayParameters
        } else if code == EXTENSION_SUBTYPE_UUID {
            ExtensionSubtype::Uuid
        } else if code == EXTENSION_SUBTYPE_LONG_VARIABLE_NAMES {
            ExtensionSubtype::LongVariableNames
        } else if code == EXTENSION_SUBTYPE_VERY_LONG_STRINGS {
            ExtensionSubtype::VeryLongStrings
        } else if code == EXTENSION_SUBTYPE_EXTENDED_NUMBER_OF_CASES {
            ExtensionSubtype::ExtendedNumberOfCases
        } else if code == EXTENSION_SUBTYPE_DATA_FILE_ATTRIBUTES {
            ExtensionSubtype::FileAttributes
        } else if code == EXTENSION_SUBTYPE_VARIABLE_ATTRIBUTES {
            ExtensionSubtype::VariableAttributes
        } else if code == EXTENSION_SUBTYPE_MULTIPLE_RESPONSE_SETS_EXTENDED {
            ExtensionSubtype::MultipleResponseSetsExtended
        } else if code == EXTENSION_SUBTYPE_CHARACTER_ENCODING {
            ExtensionSubtype::CharacterEncoding
        } else if code == EXTENSION_SUBTYPE_LONG_STRING_VALUE_LABELS {
            ExtensionSubtype::LongValueLabels
        } else if code == EXTENSION_SUBTYPE_LONG_STRING_MISSING_VALUES {
            ExtensionSubtype::LongMissingValues
        } else {
            ExtensionSubtype::Unrecognized
        }
    }

    /// The on-disk subtype code, or `None` for
    /// [`Unrecognized`](Self::Unrecognized), which stands for every
    /// code at once rather than any single one.
    pub fn code(self) -> (res: Option<i32>)
        ensures
            res == self.spec_code(),
    {
        let code = match self {
            ExtensionSubtype::MachineIntegerInfo => EXTENSION_SUBTYPE_MACHINE_INTEGER_INFO,
            ExtensionSubtype::FloatInfo => EXTENSION_SUBTYPE_FLOAT_INFO,
            ExtensionSubtype::VariableSets => EXTENSION_SUBTYPE_VARIABLE_SETS,
            ExtensionSubtype::MultipleResponseSets => EXTENSION_SUBTYPE_MULTIPLE_RESPONSE_SETS,
            ExtensionSubtype::ExtraProductInfo => EXTENSION_SUBTYPE_EXTRA_PRODUCT_INFO,
            ExtensionSubtype::DisplayParameters => EXTENSION_SUBTYPE_DISPLAY_PARAMETERS,
            ExtensionSubtype::Uuid => EXTENSION_SUBTYPE_UUID,
            ExtensionSubtype::LongVariableNames => EXTENSION_SUBTYPE_LONG_VARIABLE_NAMES,
            ExtensionSubtype::VeryLongStrings => EXTENSION_SUBTYPE_VERY_LONG_STRINGS,
            ExtensionSubtype::ExtendedNumberOfCases => EXTENSION_SUBTYPE_EXTENDED_NUMBER_OF_CASES,
            ExtensionSubtype::FileAttributes => EXTENSION_SUBTYPE_DATA_FILE_ATTRIBUTES,
            ExtensionSubtype::VariableAttributes => EXTENSION_SUBTYPE_VARIABLE_ATTRIBUTES,
            ExtensionSubtype::MultipleResponseSetsExtended =>
                EXTENSION_SUBTYPE_MULTIPLE_RESPONSE_SETS_EXTENDED,
            ExtensionSubtype::CharacterEncoding => EXTENSION_SUBTYPE_CHARACTER_ENCODING,
            ExtensionSubtype::LongValueLabels => EXTENSION_SUBTYPE_LONG_STRING_VALUE_LABELS,
            ExtensionSubtype::LongMissingValues => EXTENSION_SUBTYPE_LONG_STRING_MISSING_VALUES,
            ExtensionSubtype::Unrecognized => {
                return None;
            },
        };
        Some(code)
    }

    /// Classifies an on-disk subtype code. Any code the reader has no
    /// parser for yields [`Unrecognized`](Self::Unrecognized).
    pub fn from_code(code: i32) -> (res: Self)
        ensures
            res == Self::spec_from_code(code),
    {
        if code == EXTENSION_SUBTYPE_MACHINE_INTEGER_INFO {
            ExtensionSubtype::MachineIntegerInfo
        } else if code == EXTENSION_SUBTYPE_FLOAT_INFO {
            ExtensionSubtype::FloatInfo
        } else if code == EXTENSION_SUBTYPE_VARIABLE_SETS {
            ExtensionSubtype::VariableSets
        } else if code == EXTENSION_SUBTYPE_MULTIPLE_RESPONSE_SETS {
            ExtensionSubtype::MultipleResponseSets
        } else if code == EXTENSION_SUBTYPE_EXTRA_PRODUCT_INFO {
            ExtensionSubtype::ExtraProductInfo
        } else if code == EXTENSION_SUBTYPE_DISPLAY_PARAMETERS {
            ExtensionSubtype::DisplayParameters
        } else if code == EXTENSION_SUBTYPE_UUID {
            ExtensionSubtype::Uuid
        } else if code == EXTENSION_SUBTYPE_LONG_VARIABLE_NAMES {
            ExtensionSubtype::LongVariableNames
        } else if code == EXTENSION_SUBTYPE_VERY_LONG_STRINGS {
            ExtensionSubtype::VeryLongStrings
        } else if code == EXTENSION_SUBTYPE_EXTENDED_NUMBER_OF_CASES {
            ExtensionSubtype::ExtendedNumberOfCases
        } else if code == EXTENSION_SUBTYPE_DATA_FILE_ATTRIBUTES {
            ExtensionSubtype::FileAttributes
        } else if code == EXTENSION_SUBTYPE_VARIABLE_ATTRIBUTES {
            ExtensionSubtype::VariableAttributes
        } else if code == EXTENSION_SUBTYPE_MULTIPLE_RESPONSE_SETS_EXTENDED {
            ExtensionSubtype::MultipleResponseSetsExtended
        } else if code == EXTENSION_SUBTYPE_CHARACTER_ENCODING {
            ExtensionSubtype::CharacterEncoding
        } else if code == EXTENSION_SUBTYPE_LONG_STRING_VALUE_LABELS {
            ExtensionSubtype::LongValueLabels
        } else if code == EXTENSION_SUBTYPE_LONG_STRING_MISSING_VALUES {
            ExtensionSubtype::LongMissingValues
        } else {
            ExtensionSubtype::Unrecognized
        }
    }
}

/// Every named subtype reads back as itself through its code, and only
/// `Unrecognized` lacks a code.
pub proof fn lemma_code_round_trip(subtype: ExtensionSubtype)
    ensures
        subtype.spec_code() is None <==> subtype == ExtensionSubtype::Unrecognized,
        subtype.spec_code() matches Some(code) ==> ExtensionSubtype::spec_from_code(code)
            == subtype,
{
}

/// No two subtypes share an on-disk code.
pub proof fn lemma_codes_distinct(a: ExtensionSubtype, b: ExtensionSubtype)
    ensures
        a.spec_code() is Some && a.spec_code() == b.spec_code() ==> a == b,
{
}

/// A code that classifies as a named subtype is that subtype's code;
/// every other code classifies as `Unrecognized`.
pub proof fn lemma_from_code_inverts(code: i32)
    ensures
        ExtensionSubtype::spec_from_code(code) == ExtensionSubtype::Unrecognized
            || ExtensionSubtype::spec_from_code(code).spec_code() == Some(code),
{
}

/// Each named subtype carries the number the SAV format documents for it
/// (3 machine integer info, 4 float sentinels, 5 variable sets, 7 and 19
/// the pre- and post-v14 multiple response sets, 10 extra product info,
/// 11 display parameters, 12 UUID, 13 long variable names, 14 very long
/// strings, 16 extended case count, 17 file attributes, 18 variable
/// attributes, 20 character encoding, 21 long value labels, 22 long
/// missing values); a code classifies as the subtype documented for it,
/// and every undocumented code as `Unrecognized`.
pub proof fn lemma_codes_are_the_documented_numbers(code: i32)
    ensures
        ExtensionSubtype::MachineIntegerInfo.spec_code() == Some(3i32),
        ExtensionSubtype::FloatInfo.spec_code() == Some(4i32),
        ExtensionSubtype::VariableSets.spec_code() == Some(5i32),
        ExtensionSubtype::MultipleResponseSets.spec_code() == Some(7i32),
        ExtensionSubtype::ExtraProductInfo.spec_code() == Some(10i32),
        ExtensionSubtype::DisplayParameters.spec_code() == Some(11i32),
        ExtensionSubtype::Uuid.spec_code() == Some(12i32),
        ExtensionSubtype::LongVariableNames.spec_code() == Some(13i32),
        ExtensionSubtype::VeryLongStrings.spec_code() == Some(14i32),
        ExtensionSubtype::ExtendedNumberOfCases.spec_code() == Some(16i32),
        ExtensionSubtype::FileAttributes.spec_code() == Some(17i32),
        ExtensionSubtype::VariableAttributes.spec_code() == Some(18i32),
        ExtensionSubtype::MultipleResponseSetsExtended.spec_code() == Some(19i32),
        ExtensionSubtype::CharacterEncoding.spec_code() == Some(20i32),
        ExtensionSubtype::LongValueLabels.spec_code() == Some(21i32),
        ExtensionSubtype::LongMissingValues.spec_code() == Some(22i32),
        ExtensionSubtype::spec_from_code(code) == ExtensionSubtype::Unrecognized <==> !(
            code == 3 || code == 4 || code == 5 || code == 7 || code == 10 || code == 11 ||
                code == 12 || code == 13 || code == 14 || code == 16 || code == 17 ||
                code == 18 || code == 19 || code == 20 || code == 21 || code == 22
        ),
        ExtensionSubtype::spec_from_code(code) != ExtensionSubtype::Unrecognized
            ==> ExtensionSubtype::spec_from_code(code).spec_code() == Some(code),
{
}

} // verus!
