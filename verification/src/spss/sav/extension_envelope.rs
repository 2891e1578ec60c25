//! The decoded header of a type-7 extension record, and the dispatch
//! of its payload to the parser of its subtype.
use vstd::prelude::*;

use crate::spss::sav::byte_order::ByteOrder;
use crate::spss::sav::dictionary_format::{
    DISPLAY_PARAMETERS_ELEMENT_SIZE,
    EXTENDED_NUMBER_OF_CASES_ELEMENT_COUNT, EXTENDED_NUMBER_OF_CASES_ELEMENT_SIZE,
    FLOAT_SENTINELS_ELEMENT_COUNT, FLOAT_SENTINELS_ELEMENT_SIZE, MACHINE_INTEGER_INFO_ELEMENT_COUNT,
    MACHINE_INTEGER_INFO_ELEMENT_SIZE, PAIR_SEPARATOR, TEXT_ELEMENT_SIZE,
};
use crate::spss::sav::extensions::character_encoding::{self, CharacterEncoding};
use crate::spss::sav::extensions::extended_number_of_cases;
use crate::spss::sav::extensions::extension_parse::split_on;
use crate::spss::sav::extensions::extension_record::ExtensionRecord;
use crate::spss::sav::extensions::extension_subtype::ExtensionSubtype;
use crate::spss::sav::extensions::extra_product_info;
use crate::spss::sav::extensions::file_attributes::{
    self, decodes_file_attribute, file_attribute_list, FileAttributes,
};
use crate::spss::sav::extensions::float_sentinels;
use crate::spss::sav::extensions::long_missing_values::{
    self, decodes_missing_record, missing_records, LongMissingValues,
};
use crate::spss::sav::extensions::long_value_labels::{
    self, decodes_label_record, label_records, LongValueLabels,
};
use crate::spss::sav::extensions::long_variable_names::{
    self, decodes_pair, name_pairs, LongVariableNames,
};
use crate::spss::sav::extensions::machine_integer_info::{
    self, cross_check, cross_check_warnings, field_at,
};
use crate::spss::sav::extensions::multiple_response_sets::{self, set_records, MultipleResponseSets};
use crate::spss::sav::extensions::raw_display_parameters;
use crate::spss::sav::extensions::unknown_extension::UnknownExtension;
use crate::spss::sav::extensions::uuid;
use crate::spss::sav::extensions::variable_attributes::{
    self, decodes_variable_attributes, variable_attribute_list, VariableAttributes,
};
use crate::spss::sav::extensions::variable_sets::{self, set_lines};
use crate::spss::sav::extensions::very_long_strings::{
    self, decodes_width_pair, width_pairs, VeryLongStrings,
};
use crate::spss::sav::float_format::FloatFormat;
use crate::spss::sav::sav_error::{is_unexpected_value, Field, Result, SavError};
use crate::spss::sav::sav_warning::SavWarning;
use crate::spss::sav::text_encoding::{utf8_lossy, TextEncoding};
use crate::spss::sav::text_field::trim_padding;

verus! {

/// The header fields and payload of one type-7 extension record.
#[derive(Debug)]
pub struct ExtensionEnvelope {
    /// The record's subtype code.
    pub subtype: i32,
    /// Declared size of one element, in bytes.
    pub element_size: u32,
    /// Declared number of elements.
    pub element_count: u32,
    /// The payload: `element_size * element_count` bytes.
    pub payload: Vec<u8>,
    /// The file's byte order.
    pub byte_order: ByteOrder,
    /// File offset of the element-size field, where shape errors are
    /// reported.
    pub element_size_position: u64,
}

/// An [`ExtensionEnvelope`] as a specification value.
pub struct EnvelopeView {
    /// The record's subtype code.
    pub subtype: i32,
    /// Declared size of one element, in bytes.
    pub element_size: u32,
    /// Declared number of elements.
    pub element_count: u32,
    /// The payload bytes.
    pub payload: Seq<u8>,
    /// The file's byte order.
    pub byte_order: ByteOrder,
    /// File offset of the element-size field.
    pub element_size_position: u64,
}

impl View for ExtensionEnvelope {
    type V = EnvelopeView;

    open spec fn view(&self) -> EnvelopeView {
        EnvelopeView {
            subtype: self.subtype,
            element_size: self.element_size,
            element_count: self.element_count,
            payload: self.payload@,
            byte_order: self.byte_order,
            element_size_position: self.element_size_position,
        }
    }
}

impl ExtensionEnvelope {
    /// The payload holds exactly the declared number of bytes.
    pub open spec fn well_formed(self) -> bool {
        self.payload@.len() == self.element_size * self.element_count
    }
}

/// The subtypes whose record is skipped, with a warning, rather than
/// failing the read when its shape is wrong: the file can be read
/// without them.
pub open spec fn skippable(kind: ExtensionSubtype) -> bool {
    kind == ExtensionSubtype::FloatInfo || kind == ExtensionSubtype::ExtendedNumberOfCases
        || kind == ExtensionSubtype::CharacterEncoding
}

/// Whether a record of a skippable subtype has that subtype's shape.
pub open spec fn has_shape(kind: ExtensionSubtype, size: u32, count: u32) -> bool {
    if kind == ExtensionSubtype::FloatInfo {
        size == FLOAT_SENTINELS_ELEMENT_SIZE && count == FLOAT_SENTINELS_ELEMENT_COUNT
    } else if kind == ExtensionSubtype::ExtendedNumberOfCases {
        size == EXTENDED_NUMBER_OF_CASES_ELEMENT_SIZE && count
            == EXTENDED_NUMBER_OF_CASES_ELEMENT_COUNT
    } else {
        size == TEXT_ELEMENT_SIZE
    }
}

/// Whether `error` reports a text record whose element size is not 1.
pub open spec fn text_size_error(env: EnvelopeView, error: SavError) -> bool {
    is_unexpected_value(error, env.element_size_position, Field::ExtensionElementSize)
}

/// What a record of a recognized, well-shaped (or not skippable)
/// subtype reads as: `outcome` is the record of that subtype that its
/// parser describes, or the error it describes.
pub open spec fn reads_recognized(
    env: EnvelopeView,
    encoding: TextEncoding,
    header_byte_order: ByteOrder,
    header_float_format: FloatFormat,
    outcome: Result<Option<ExtensionRecord>>,
    added: Seq<SavWarning>,
) -> bool {
    let p = env.payload;
    let size = env.element_size;
    let count = env.element_count;
    let bo = env.byte_order;
    let pos = env.element_size_position;
    let text = size == TEXT_ELEMENT_SIZE;
    match ExtensionSubtype::spec_from_code(env.subtype) {
        ExtensionSubtype::MachineIntegerInfo => match outcome {
            Ok(Some(ExtensionRecord::MachineIntegerInfo(info))) => {
                &&& size == MACHINE_INTEGER_INFO_ELEMENT_SIZE
                &&& count == MACHINE_INTEGER_INFO_ELEMENT_COUNT
                &&& info.spec_version_major() == field_at(p, bo, 0)
                &&& info.spec_version_minor() == field_at(p, bo, 4)
                &&& info.spec_version_revision() == field_at(p, bo, 8)
                &&& info.spec_machine_code() == field_at(p, bo, 12)
                &&& info.spec_floating_point_representation() == field_at(p, bo, 16)
                &&& info.spec_compression_code() == field_at(p, bo, 20)
                &&& info.spec_endianness() == field_at(p, bo, 24)
                &&& info.spec_character_code() == field_at(p, bo, 28)
                &&& added == cross_check_warnings(info, header_byte_order, header_float_format)
            },
            Err(e) => added.len() == 0 && if size != MACHINE_INTEGER_INFO_ELEMENT_SIZE {
                is_unexpected_value(e, pos, Field::ExtensionElementSize)
            } else {
                count != MACHINE_INTEGER_INFO_ELEMENT_COUNT && is_unexpected_value(
                    e,
                    pos,
                    Field::ExtensionElementCount,
                )
            },
            _ => false,
        },
        ExtensionSubtype::FloatInfo => added.len() == 0 && match outcome {
            Ok(Some(ExtensionRecord::FloatInfo(s))) => s.spec_system_missing() == p.subrange(0, 8)
                && s.spec_highest() == p.subrange(8, 16) && s.spec_lowest() == p.subrange(16, 24),
            _ => false,
        },
        ExtensionSubtype::ExtendedNumberOfCases => added.len() == 0 && match outcome {
            Ok(Some(ExtensionRecord::ExtendedNumberOfCases(n))) => n.spec_version() == (bo.unsigned(
                p.subrange(0, 8),
            ) as u64) as i64 && n.spec_count() == (bo.unsigned(p.subrange(8, 16)) as u64) as i64,
            _ => false,
        },
        ExtensionSubtype::CharacterEncoding => added.len() == 0 && match outcome {
            Ok(Some(ExtensionRecord::CharacterEncoding(c))) => c.spec_name() == utf8_lossy(
                trim_padding(p),
            ),
            _ => false,
        },
        ExtensionSubtype::ExtraProductInfo => added.len() == 0 && match outcome {
            Ok(Some(ExtensionRecord::ExtraProductInfo(info))) => text && info.spec_text()
                == encoding.decoded(p),
            Err(e) => !text && text_size_error(env, e),
            _ => false,
        },
        ExtensionSubtype::Uuid => added.len() == 0 && match outcome {
            Ok(Some(ExtensionRecord::Uuid(u))) => text && u.spec_text() == encoding.decoded(p),
            Err(e) => !text && text_size_error(env, e),
            _ => false,
        },
        ExtensionSubtype::DisplayParameters => added.len() == 0 && match outcome {
            Ok(Some(ExtensionRecord::DisplayParameters(d))) => size
                == DISPLAY_PARAMETERS_ELEMENT_SIZE && d.spec_values().len() == p.len() / 4
                && forall|k: int|
                0 <= k < p.len() / 4 ==> #[trigger] d.spec_values()[k] == bo.unsigned(
                    p.subrange(4 * k, 4 * k + 4),
                ),
            Err(e) => size != DISPLAY_PARAMETERS_ELEMENT_SIZE && text_size_error(env, e),
            _ => false,
        },
        ExtensionSubtype::VariableSets => added.len() == 0 && match outcome {
            Ok(Some(ExtensionRecord::VariableSets(v))) => text && match set_lines(p) {
                Some(raws) => v.spec_sets().len() == raws.len() && forall|k: int|
                    0 <= k < raws.len() ==> variable_sets::decodes_set(
                        #[trigger] v.spec_sets()[k],
                        raws[k],
                        encoding,
                    ),
                None => false,
            },
            Err(e) => if !text {
                text_size_error(env, e)
            } else {
                set_lines(p) is None && is_unexpected_value(e, pos, Field::VariableSet)
            },
            _ => false,
        },
        ExtensionSubtype::MultipleResponseSets | ExtensionSubtype::MultipleResponseSetsExtended =>
            added.len() == 0 && match outcome {
            Ok(Some(ExtensionRecord::MultipleResponseSets(m))) => text && match set_records(p) {
                Some(raws) => m.spec_sets().len() == raws.len() && forall|k: int|
                    0 <= k < raws.len() ==> multiple_response_sets::decodes_set(
                        #[trigger] m.spec_sets()[k],
                        raws[k],
                        encoding,
                    ),
                None => false,
            },
            Err(e) => if !text {
                text_size_error(env, e)
            } else {
                set_records(p) is None && is_unexpected_value(e, pos, Field::MultipleResponseSet)
            },
            _ => false,
        },
        ExtensionSubtype::LongVariableNames => added.len() == 0 && match outcome {
            Ok(Some(ExtensionRecord::LongVariableNames(n))) => text && match name_pairs(
                split_on(p, PAIR_SEPARATOR),
            ) {
                Some(pairs) => n.spec_mappings().len() == pairs.len() && forall|k: int|
                    0 <= k < pairs.len() ==> decodes_pair(
                        #[trigger] n.spec_mappings()[k],
                        pairs[k],
                        encoding,
                    ),
                None => false,
            },
            Err(e) => if !text {
                text_size_error(env, e)
            } else {
                name_pairs(split_on(p, PAIR_SEPARATOR)) is None && is_unexpected_value(
                    e,
                    pos,
                    Field::LongVariableNamePair,
                )
            },
            _ => false,
        },
        ExtensionSubtype::VeryLongStrings => added.len() == 0 && match outcome {
            Ok(Some(ExtensionRecord::VeryLongStrings(v))) => text && match width_pairs(p) {
                Some(pairs) => v.spec_strings().len() == pairs.len() && forall|k: int|
                    0 <= k < pairs.len() ==> decodes_width_pair(
                        #[trigger] v.spec_strings()[k],
                        pairs[k],
                        encoding,
                    ),
                None => false,
            },
            Err(e) => if !text {
                text_size_error(env, e)
            } else {
                width_pairs(p) is None && is_unexpected_value(e, pos, Field::VeryLongStringPair)
            },
            _ => false,
        },
        ExtensionSubtype::FileAttributes => added.len() == 0 && match outcome {
            Ok(Some(ExtensionRecord::FileAttributes(f))) => text && match file_attribute_list(p) {
                Some(raws) => f.spec_attributes().len() == raws.len() && forall|k: int|
                    0 <= k < raws.len() ==> decodes_file_attribute(
                        #[trigger] f.spec_attributes()[k],
                        raws[k],
                        encoding,
                    ),
                None => false,
            },
            Err(e) => if !text {
                text_size_error(env, e)
            } else {
                file_attribute_list(p) is None && is_unexpected_value(e, pos, Field::FileAttribute)
            },
            _ => false,
        },
        ExtensionSubtype::VariableAttributes => added.len() == 0 && match outcome {
            Ok(Some(ExtensionRecord::VariableAttributes(v))) => text && match variable_attribute_list(
                p,
            ) {
                Some(raws) => v.spec_records().len() == raws.len() && forall|k: int|
                    0 <= k < raws.len() ==> decodes_variable_attributes(
                        #[trigger] v.spec_records()[k],
                        raws[k],
                        encoding,
                    ),
                None => false,
            },
            Err(e) => if !text {
                text_size_error(env, e)
            } else {
                variable_attribute_list(p) is None && is_unexpected_value(
                    e,
                    pos,
                    Field::VariableAttribute,
                )
            },
            _ => false,
        },
        ExtensionSubtype::LongValueLabels => added.len() == 0 && match outcome {
            Ok(Some(ExtensionRecord::LongValueLabels(l))) => text && match label_records(p, bo) {
                Some(raws) => l.spec_records().len() == raws.len() && forall|k: int|
                    0 <= k < raws.len() ==> decodes_label_record(
                        #[trigger] l.spec_records()[k],
                        raws[k],
                        encoding,
                    ),
                None => false,
            },
            Err(e) => if !text {
                text_size_error(env, e)
            } else {
                label_records(p, bo) is None && is_unexpected_value(e, pos, Field::LongValueLabel)
            },
            _ => false,
        },
        ExtensionSubtype::LongMissingValues => added.len() == 0 && match outcome {
            Ok(Some(ExtensionRecord::LongMissingValues(l))) => text && match missing_records(p, bo) {
                Ok(raws) => l.spec_records().len() == raws.len() && forall|k: int|
                    0 <= k < raws.len() ==> decodes_missing_record(
                        #[trigger] l.spec_records()[k],
                        raws[k],
                        encoding,
                    ),
                Err(_) => false,
            },
            Err(e) => if !text {
                text_size_error(env, e)
            } else {
                missing_records(p, bo) matches Err(field) && is_unexpected_value(e, pos, field)
            },
            _ => false,
        },
        ExtensionSubtype::Unrecognized => false,
    }
}

/// What one extension record reads as, and the warnings reading it
/// adds: an unrecognized subtype is kept verbatim with a warning; a
/// skippable subtype of the wrong shape is skipped with a warning;
/// every other record reads as its parser describes.
pub open spec fn reads_extension(
    env: EnvelopeView,
    encoding: TextEncoding,
    header_byte_order: ByteOrder,
    header_float_format: FloatFormat,
    outcome: Result<Option<ExtensionRecord>>,
    added: Seq<SavWarning>,
) -> bool {
    let kind = ExtensionSubtype::spec_from_code(env.subtype);
    if kind == ExtensionSubtype::Unrecognized {
        &&& added == seq![SavWarning::UnknownExtensionSubtype { subtype: env.subtype }]
        &&& outcome matches Ok(Some(ExtensionRecord::Unknown(u)))
        &&& u.spec_subtype() == env.subtype as u32
        &&& u.spec_element_size() == env.element_size as usize
        &&& u.spec_element_count() == env.element_count as usize
        &&& u.spec_payload() == env.payload
    } else if skippable(kind) && !has_shape(kind, env.element_size, env.element_count) {
        &&& added == seq![SavWarning::MalformedExtension { subtype: env.subtype }]
        &&& outcome matches Ok(None)
    } else {
        reads_recognized(env, encoding, header_byte_order, header_float_format, outcome, added)
    }
}

/// The subtype of the record a code reads into: the code's own
/// subtype, except that subtype 19 shares the record variant of 7.
pub open spec fn record_subtype_for_code(code: i32) -> ExtensionSubtype {
    let kind = ExtensionSubtype::spec_from_code(code);
    if kind == ExtensionSubtype::MultipleResponseSetsExtended {
        ExtensionSubtype::MultipleResponseSets
    } else {
        kind
    }
}

/// A record read from an envelope carries the subtype its code names:
/// it is [`ExtensionRecord::Unknown`] exactly when the code is
/// unrecognized, and then keeps the code.
pub proof fn lemma_record_carries_its_subtype(
    env: EnvelopeView,
    encoding: TextEncoding,
    header_byte_order: ByteOrder,
    header_float_format: FloatFormat,
    record: ExtensionRecord,
    added: Seq<SavWarning>,
)
    requires
        reads_extension(
            env,
            encoding,
            header_byte_order,
            header_float_format,
            Ok(Some(record)),
            added,
        ),
    ensures
        record.spec_subtype() == record_subtype_for_code(env.subtype),
        (record is Unknown) <==> ExtensionSubtype::spec_from_code(env.subtype)
            == ExtensionSubtype::Unrecognized,
        record matches ExtensionRecord::Unknown(u) ==> u.spec_subtype() == env.subtype as u32,
{
}

/// Reads one extension record from its envelope: dispatches the payload
/// to the parser of its subtype, keeps an unrecognized subtype verbatim,
/// and skips a float-sentinel, extended-case-count or
/// character-encoding record of the wrong shape. Warnings are appended
/// to `warnings`. `Ok(None)` means the record was skipped.
pub fn read_extension(
    env: ExtensionEnvelope,
    encoding: &TextEncoding,
    header_byte_order: ByteOrder,
    header_float_format: FloatFormat,
    warnings: &mut Vec<SavWarning>,
) -> (res: Result<Option<ExtensionRecord>>)
    requires
        env.well_formed(),
    ensures
        final(warnings)@.len() >= old(warnings)@.len(),
        final(warnings)@.take(old(warnings)@.len() as int) == old(warnings)@,
        reads_extension(
            env@,
            *encoding,
            header_byte_order,
            header_float_format,
            res,
            final(warnings)@.skip(old(warnings)@.len() as int),
        ),
{
    let ghost start = warnings@;
    let kind = ExtensionSubtype::from_code(env.subtype);
    let size = env.element_size;
    let count = env.element_count;
    let pos = env.element_size_position;
    let bo = env.byte_order;
    let payload = env.payload.as_slice();
    proof {
        assert(warnings@.skip(start.len() as int) =~= Seq::<SavWarning>::empty());
        assert(warnings@.take(start.len() as int) =~= start);
    }
    match kind {
        ExtensionSubtype::Unrecognized => {
            warnings.push(SavWarning::UnknownExtensionSubtype { subtype: env.subtype });
            assert(warnings@.skip(start.len() as int) =~= seq![
                SavWarning::UnknownExtensionSubtype { subtype: env.subtype },
            ]);
            assert(warnings@.take(start.len() as int) =~= start);
            let unknown = UnknownExtension::builder().subtype(env.subtype as u32).element_size(
                size as usize,
            ).element_count(count as usize).payload(env.payload).build();
            Ok(Some(ExtensionRecord::Unknown(unknown)))
        },
        ExtensionSubtype::FloatInfo | ExtensionSubtype::ExtendedNumberOfCases
        | ExtensionSubtype::CharacterEncoding => {
            let shaped = match kind {
                ExtensionSubtype::FloatInfo => size == FLOAT_SENTINELS_ELEMENT_SIZE && count
                    == FLOAT_SENTINELS_ELEMENT_COUNT,
                ExtensionSubtype::ExtendedNumberOfCases => size
                    == EXTENDED_NUMBER_OF_CASES_ELEMENT_SIZE && count
                    == EXTENDED_NUMBER_OF_CASES_ELEMENT_COUNT,
                _ => size == TEXT_ELEMENT_SIZE,
            };
            if !shaped {
                warnings.push(SavWarning::MalformedExtension { subtype: env.subtype });
                assert(warnings@.skip(start.len() as int) =~= seq![
                    SavWarning::MalformedExtension { subtype: env.subtype },
                ]);
                assert(warnings@.take(start.len() as int) =~= start);
                return Ok(None);
            }
            proof {
                if size == FLOAT_SENTINELS_ELEMENT_SIZE && count == FLOAT_SENTINELS_ELEMENT_COUNT {
                    assert(payload@.len() == 24) by (nonlinear_arith)
                        requires
                            payload@.len() == size * count,
                            size == 8,
                            count == 3,
                    ;
                }
            }
            match kind {
                ExtensionSubtype::FloatInfo => match float_sentinels::parse(
                    size,
                    count,
                    payload,
                    pos,
                ) {
                    Ok(s) => Ok(Some(ExtensionRecord::FloatInfo(s))),
                    Err(e) => Err(e),
                },
                ExtensionSubtype::ExtendedNumberOfCases => match extended_number_of_cases::parse(
                    size,
                    count,
                    payload,
                    bo,
                    pos,
                ) {
                    Ok(n) => Ok(Some(ExtensionRecord::ExtendedNumberOfCases(n))),
                    Err(e) => Err(e),
                },
                _ => match character_encoding::read(size, payload, pos) {
                    Ok(c) => Ok(Some(ExtensionRecord::CharacterEncoding(c))),
                    Err(e) => Err(e),
                },
            }
        },
        ExtensionSubtype::MachineIntegerInfo => {
            proof {
                if size == MACHINE_INTEGER_INFO_ELEMENT_SIZE && count
                    == MACHINE_INTEGER_INFO_ELEMENT_COUNT {
                    assert(payload@.len() == 32) by (nonlinear_arith)
                        requires
                            payload@.len() == size * count,
                            size == 4,
                            count == 8,
                    ;
                }
            }
            match machine_integer_info::parse(size, count, payload, bo, pos) {
                Ok(info) => {
                    cross_check(&info, header_byte_order, header_float_format, warnings);
                    assert(warnings@.skip(start.len() as int) =~= cross_check_warnings(
                        info,
                        header_byte_order,
                        header_float_format,
                    ));
                    assert(warnings@.take(start.len() as int) =~= start);
                    Ok(Some(ExtensionRecord::MachineIntegerInfo(info)))
                },
                Err(e) => Err(e),
            }
        },
        ExtensionSubtype::ExtraProductInfo => match extra_product_info::parse(
            size,
            payload,
            encoding,
            pos,
        ) {
            Ok(info) => Ok(Some(ExtensionRecord::ExtraProductInfo(info))),
            Err(e) => Err(e),
        },
        ExtensionSubtype::Uuid => match uuid::parse(size, payload, encoding, pos) {
            Ok(u) => Ok(Some(ExtensionRecord::Uuid(u))),
            Err(e) => Err(e),
        },
        ExtensionSubtype::DisplayParameters => match raw_display_parameters::parse(
            size,
            payload,
            bo,
            pos,
        ) {
            Ok(d) => Ok(Some(ExtensionRecord::DisplayParameters(d))),
            Err(e) => Err(e),
        },
        ExtensionSubtype::VariableSets => match variable_sets::parse(size, payload, encoding, pos) {
            Ok(v) => Ok(Some(ExtensionRecord::VariableSets(v))),
            Err(e) => Err(e),
        },
        ExtensionSubtype::MultipleResponseSets | ExtensionSubtype::MultipleResponseSetsExtended => {
            match multiple_response_sets::parse(size, payload, encoding, pos) {
                Ok(sets) => {
                    let ghost v = sets@;
                    let m = MultipleResponseSets::builder().sets(sets).build();
                    Ok(Some(ExtensionRecord::MultipleResponseSets(m)))
                },
                Err(e) => Err(e),
            }
        },
        ExtensionSubtype::LongVariableNames => match long_variable_names::parse(
            size,
            payload,
            encoding,
            pos,
        ) {
            Ok(mappings) => {
                let n = LongVariableNames::builder().mappings(mappings).build();
                Ok(Some(ExtensionRecord::LongVariableNames(n)))
            },
            Err(e) => Err(e),
        },
        ExtensionSubtype::VeryLongStrings => match very_long_strings::parse(
            size,
            payload,
            encoding,
            pos,
        ) {
            Ok(strings) => {
                let v = VeryLongStrings::builder().strings(strings).build();
                Ok(Some(ExtensionRecord::VeryLongStrings(v)))
            },
            Err(e) => Err(e),
        },
        ExtensionSubtype::FileAttributes => match file_attributes::parse(
            size,
            payload,
            encoding,
            pos,
        ) {
            Ok(attributes) => {
                let ghost v = attributes@;
                let f = FileAttributes::builder().add_attributes(attributes).build();
                assert(f.spec_attributes() =~= v);
                Ok(Some(ExtensionRecord::FileAttributes(f)))
            },
            Err(e) => Err(e),
        },
        ExtensionSubtype::VariableAttributes => match variable_attributes::parse(
            size,
            payload,
            encoding,
            pos,
        ) {
            Ok(records) => {
                let v = VariableAttributes::builder().records(records).build();
                Ok(Some(ExtensionRecord::VariableAttributes(v)))
            },
            Err(e) => Err(e),
        },
        ExtensionSubtype::LongValueLabels => match long_value_labels::parse(
            size,
            payload,
            bo,
            encoding,
            pos,
        ) {
            Ok(records) => {
                let ghost v = records@;
                let l = LongValueLabels::builder().add_records(records).build();
                assert(l.spec_records() =~= v);
                Ok(Some(ExtensionRecord::LongValueLabels(l)))
            },
            Err(e) => Err(e),
        },
        ExtensionSubtype::LongMissingValues => match long_missing_values::parse(
            size,
            payload,
            bo,
            encoding,
            pos,
        ) {
            Ok(records) => {
                let l = LongMissingValues::builder().records(records).build();
                Ok(Some(ExtensionRecord::LongMissingValues(l)))
            },
            Err(e) => Err(e),
        },
    }
}

} // verus!
