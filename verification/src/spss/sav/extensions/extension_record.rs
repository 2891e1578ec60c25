//! Top-level extension record enum.
use vstd::prelude::*;

use crate::spss::sav::extensions::character_encoding::CharacterEncoding;
use crate::spss::sav::extensions::extended_number_of_cases::ExtendedNumberOfCases;
use crate::spss::sav::extensions::extension_subtype::ExtensionSubtype;
use crate::spss::sav::extensions::extra_product_info::ExtraProductInfo;
use crate::spss::sav::extensions::file_attributes::FileAttributes;
use crate::spss::sav::extensions::float_sentinels::FloatSentinels;
use crate::spss::sav::extensions::long_missing_values::LongMissingValues;
use crate::spss::sav::extensions::long_value_labels::LongValueLabels;
use crate::spss::sav::extensions::long_variable_names::LongVariableNames;
use crate::spss::sav::extensions::machine_integer_info::MachineIntegerInfo;
use crate::spss::sav::extensions::multiple_response_sets::MultipleResponseSets;
use crate::spss::sav::extensions::raw_display_parameters::RawDisplayParameters;
use crate::spss::sav::extensions::unknown_extension::UnknownExtension;
use crate::spss::sav::extensions::uuid::Uuid;
use crate::spss::sav::extensions::variable_attributes::VariableAttributes;
use crate::spss::sav::extensions::variable_sets::VariableSets;
use crate::spss::sav::extensions::very_long_strings::VeryLongStrings;

verus! {

/// One extension record read from a SAV file.
///
/// Subtype-to-variant assignments follow PSPP's documented system file
/// format and `ReadStat`'s implementation. Subtypes this enum does not
/// carry (e.g. XML display info, 24) come through as
/// [`Unknown`](Self::Unknown), kept verbatim, and the reader raises a
/// [`SavWarning::UnknownExtensionSubtype`](crate::spss::sav::sav_warning::SavWarning::UnknownExtensionSubtype)
/// for each.
#[derive(Debug, Clone)]
#[non_exhaustive]
pub enum ExtensionRecord {
    /// Subtype 3 — integer-typed environment metadata.
    MachineIntegerInfo(MachineIntegerInfo),
    /// Subtype 4 — float sentinel values (system missing, highest,
    /// lowest).
    FloatInfo(FloatSentinels),
    /// Subtype 5 — named variable groupings.
    VariableSets(VariableSets),
    /// Subtypes 7 and 19 — multiple response sets.
    MultipleResponseSets(MultipleResponseSets),
    /// Subtype 10 — extra product information.
    ExtraProductInfo(ExtraProductInfo),
    /// Subtype 12 — a file UUID in text form.
    Uuid(Uuid),
    /// Subtype 11 — per-variable display parameters, verbatim.
    DisplayParameters(RawDisplayParameters),
    /// Subtype 13 — long-variable-name mappings.
    LongVariableNames(LongVariableNames),
    /// Subtype 14 — very-long-string widths.
    VeryLongStrings(VeryLongStrings),
    /// Subtype 16 — extended number of cases.
    ExtendedNumberOfCases(ExtendedNumberOfCases),
    /// Subtype 17 — file-level custom attributes.
    FileAttributes(FileAttributes),
    /// Subtype 18 — per-variable custom attributes.
    VariableAttributes(VariableAttributes),
    /// Subtype 20 — declared character encoding label.
    CharacterEncoding(CharacterEncoding),
    /// Subtype 21 — long value labels.
    LongValueLabels(LongValueLabels),
    /// Subtype 22 — long missing values.
    LongMissingValues(LongMissingValues),
    /// An extension subtype this library does not recognize, kept
    /// verbatim.
    Unknown(UnknownExtension),
}

impl ExtensionRecord {
    /// Which subtype this record carries.
    pub open spec fn spec_subtype(self) -> ExtensionSubtype {
        match self {
            ExtensionRecord::MachineIntegerInfo(_) => ExtensionSubtype::MachineIntegerInfo,
            ExtensionRecord::FloatInfo(_) => ExtensionSubtype::FloatInfo,
            ExtensionRecord::VariableSets(_) => ExtensionSubtype::VariableSets,
            ExtensionRecord::MultipleResponseSets(_) => ExtensionSubtype::MultipleResponseSets,
            ExtensionRecord::ExtraProductInfo(_) => ExtensionSubtype::ExtraProductInfo,
            ExtensionRecord::Uuid(_) => ExtensionSubtype::Uuid,
            ExtensionRecord::DisplayParameters(_) => ExtensionSubtype::DisplayParameters,
            ExtensionRecord::LongVariableNames(_) => ExtensionSubtype::LongVariableNames,
            ExtensionRecord::VeryLongStrings(_) => ExtensionSubtype::VeryLongStrings,
            ExtensionRecord::ExtendedNumberOfCases(_) => ExtensionSubtype::ExtendedNumberOfCases,
            ExtensionRecord::FileAttributes(_) => ExtensionSubtype::FileAttributes,
            ExtensionRecord::VariableAttributes(_) => ExtensionSubtype::VariableAttributes,
            ExtensionRecord::CharacterEncoding(_) => ExtensionSubtype::CharacterEncoding,
            ExtensionRecord::LongValueLabels(_) => ExtensionSubtype::LongValueLabels,
            ExtensionRecord::LongMissingValues(_) => ExtensionSubtype::LongMissingValues,
            ExtensionRecord::Unknown(_) => ExtensionSubtype::Unrecognized,
        }
    }

    /// Which subtype this record carries.
    ///
    /// [`Unknown`](Self::Unknown) maps to
    /// [`ExtensionSubtype::Unrecognized`]; the record's on-disk code stays
    /// available on
    /// [`UnknownExtension::subtype`](crate::spss::sav::extensions::unknown_extension::UnknownExtension::subtype).
    /// Subtypes 7 and 19 share the
    /// [`MultipleResponseSets`](Self::MultipleResponseSets) variant, so
    /// this reports 7 for both.
    pub fn subtype(&self) -> (res: ExtensionSubtype)
        ensures
            res == self.spec_subtype(),
    {
        match self {
            ExtensionRecord::MachineIntegerInfo(_) => ExtensionSubtype::MachineIntegerInfo,
            ExtensionRecord::FloatInfo(_) => ExtensionSubtype::FloatInfo,
            ExtensionRecord::VariableSets(_) => ExtensionSubtype::VariableSets,
            ExtensionRecord::MultipleResponseSets(_) => ExtensionSubtype::MultipleResponseSets,
            ExtensionRecord::ExtraProductInfo(_) => ExtensionSubtype::ExtraProductInfo,
            ExtensionRecord::Uuid(_) => ExtensionSubtype::Uuid,
            ExtensionRecord::DisplayParameters(_) => ExtensionSubtype::DisplayParameters,
            ExtensionRecord::LongVariableNames(_) => ExtensionSubtype::LongVariableNames,
            ExtensionRecord::VeryLongStrings(_) => ExtensionSubtype::VeryLongStrings,
            ExtensionRecord::ExtendedNumberOfCases(_) => ExtensionSubtype::ExtendedNumberOfCases,
            ExtensionRecord::FileAttributes(_) => ExtensionSubtype::FileAttributes,
            ExtensionRecord::VariableAttributes(_) => ExtensionSubtype::VariableAttributes,
            ExtensionRecord::CharacterEncoding(_) => ExtensionSubtype::CharacterEncoding,
            ExtensionRecord::LongValueLabels(_) => ExtensionSubtype::LongValueLabels,
            ExtensionRecord::LongMissingValues(_) => ExtensionSubtype::LongMissingValues,
            ExtensionRecord::Unknown(_) => ExtensionSubtype::Unrecognized,
        }
    }
}

} // verus!
