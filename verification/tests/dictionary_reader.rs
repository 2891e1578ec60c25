//! Tests of the dictionary reader's handling of record streams.

use spss_sav::spss::sav::byte_order::ByteOrder;
use spss_sav::spss::sav::dictionary_reader::DictionaryReader;
use spss_sav::spss::sav::dictionary_record::DictionaryRecord;
use spss_sav::spss::sav::encoding_strategy::EncodingStrategy;
use spss_sav::spss::sav::extensions::extension_record::ExtensionRecord;
use spss_sav::spss::sav::extensions::extension_subtype::ExtensionSubtype;
use spss_sav::spss::sav::header_reader::HeaderReader;
use spss_sav::spss::sav::sav_error::{Field, FormatErrorKind, SavError};
use spss_sav::spss::sav::sav_warning::SavWarning;
use spss_sav::spss::sav::text_encoding::TextEncoding;
use spss_sav::spss::sav::extensions::multiple_response_set_kind::MultipleResponseSetKind;

/// A valid little- or big-endian file header: `$FL2`, bytecode
/// compression, IEEE 754 bias, no weight, no cases.
fn build_header(byte_order: ByteOrder) -> Vec<u8> {
    let i32_bytes = |v: i32| match byte_order {
        ByteOrder::LittleEndian => v.to_le_bytes(),
        ByteOrder::BigEndian => v.to_be_bytes(),
    };
    let mut buf = Vec::with_capacity(176);
    buf.extend_from_slice(b"$FL2");
    let mut product = [b' '; 60];
    let name = b"@(#) SPSS DATA FILE spss_sav";
    product[..name.len()].copy_from_slice(name);
    buf.extend_from_slice(&product);
    buf.extend_from_slice(&i32_bytes(2));
    buf.extend_from_slice(&i32_bytes(0));
    buf.extend_from_slice(&i32_bytes(1));
    buf.extend_from_slice(&i32_bytes(0));
    buf.extend_from_slice(&i32_bytes(0));
    let bias = match byte_order {
        ByteOrder::LittleEndian => 100.0_f64.to_le_bytes(),
        ByteOrder::BigEndian => 100.0_f64.to_be_bytes(),
    };
    buf.extend_from_slice(&bias);
    buf.extend_from_slice(b"01 Jan 24");
    buf.extend_from_slice(b"00:00:00");
    buf.extend_from_slice(&[b' '; 64]);
    buf.extend_from_slice(&[0_u8; 3]);
    assert_eq!(buf.len(), 176);
    buf
}

/// Appends a type-7 record with the given envelope and payload.
fn write_extension_record(
    bytes: &mut Vec<u8>,
    byte_order: ByteOrder,
    subtype: i32,
    element_size: u32,
    element_count: u32,
    payload: &[u8],
) {
    let (rec_type, subtype, size, count) = match byte_order {
        ByteOrder::LittleEndian => (
            7_i32.to_le_bytes(),
            subtype.to_le_bytes(),
            element_size.to_le_bytes(),
            element_count.to_le_bytes(),
        ),
        ByteOrder::BigEndian => (
            7_i32.to_be_bytes(),
            subtype.to_be_bytes(),
            element_size.to_be_bytes(),
            element_count.to_be_bytes(),
        ),
    };
    bytes.extend_from_slice(&rec_type);
    bytes.extend_from_slice(&subtype);
    bytes.extend_from_slice(&size);
    bytes.extend_from_slice(&count);
    bytes.extend_from_slice(payload);
}

/// Appends the type-999 record that ends the dictionary.
fn write_terminator(bytes: &mut Vec<u8>, byte_order: ByteOrder) {
    let (rec_type, filler) = match byte_order {
        ByteOrder::LittleEndian => (999_i32.to_le_bytes(), 0_i32.to_le_bytes()),
        ByteOrder::BigEndian => (999_i32.to_be_bytes(), 0_i32.to_be_bytes()),
    };
    bytes.extend_from_slice(&rec_type);
    bytes.extend_from_slice(&filler);
}

/// Reads the header of `bytes` and returns the dictionary phase.
fn open(bytes: Vec<u8>) -> DictionaryReader {
    HeaderReader::new(bytes, EncodingStrategy::default())
        .read_header()
        .expect("valid header")
}

/// Asserts that `err` is an unexpected-value format error on `field`.
fn assert_unexpected_value_error(err: &SavError, field: Field) {
    match err {
        SavError::Format(e) => assert_eq!(e.kind(), FormatErrorKind::UnexpectedValue { field }),
        other => panic!("expected a format error, got {other:?}"),
    }
}

/// Asserts that the next record was skipped as malformed: reading goes
/// on to the terminator, with one warning naming `subtype`.
fn assert_degraded_extension(dict: &mut DictionaryReader, subtype: ExtensionSubtype) {
    let code = subtype.code().expect("named subtype");
    let record = dict.read_record().expect("skipped, not failed");
    assert!(record.is_none(), "expected the record to be skipped, got {record:?}");
    assert_eq!(dict.warnings(), &[SavWarning::MalformedExtension { subtype: code }]);
}

#[test]
fn unrecognized_subtype_is_kept_verbatim_with_a_warning() {
    let byte_order = ByteOrder::LittleEndian;
    let mut bytes = build_header(byte_order);
    write_extension_record(&mut bytes, byte_order, 24, 1, 3, b"<x>");
    write_terminator(&mut bytes, byte_order);

    let mut dict = open(bytes);
    let record = dict.read_record().unwrap().unwrap();
    let DictionaryRecord::Extension(ExtensionRecord::Unknown(unknown)) = record else {
        panic!("expected Unknown, got {record:?}");
    };
    assert_eq!(unknown.subtype(), 24);
    assert_eq!(unknown.element_size(), 1);
    assert_eq!(unknown.element_count(), 3);
    assert_eq!(unknown.payload(), b"<x>");
    assert_eq!(dict.warnings(), &[SavWarning::UnknownExtensionSubtype { subtype: 24 }]);
}

#[test]
fn unknown_record_carries_the_unrecognized_subtype() {
    let byte_order = ByteOrder::BigEndian;
    let mut bytes = build_header(byte_order);
    write_extension_record(&mut bytes, byte_order, 6, 4, 1, &[0, 0, 0, 1]);
    write_terminator(&mut bytes, byte_order);

    let mut dict = open(bytes);
    let Some(DictionaryRecord::Extension(record)) = dict.read_record().unwrap() else {
        panic!("expected an extension record");
    };
    assert_eq!(record.subtype(), ExtensionSubtype::Unrecognized);
}

#[test]
fn post_v14_multiple_response_sets_share_the_record_variant() {
    let byte_order = ByteOrder::LittleEndian;
    let mut bytes = build_header(byte_order);
    let payload = b"$a=C 3 abc v1 v2\n";
    write_extension_record(
        &mut bytes,
        byte_order,
        19,
        1,
        u32::try_from(payload.len()).unwrap(),
        payload,
    );
    write_terminator(&mut bytes, byte_order);

    let mut dict = open(bytes);
    let Some(DictionaryRecord::Extension(record)) = dict.read_record().unwrap() else {
        panic!("expected an extension record");
    };
    assert_eq!(record.subtype(), ExtensionSubtype::MultipleResponseSets);
    let ExtensionRecord::MultipleResponseSets(sets) = record else {
        panic!("expected MultipleResponseSets");
    };
    assert_eq!(sets.sets().len(), 1);
    assert_eq!(sets.sets()[0].name(), "$a");
    assert_eq!(*sets.sets()[0].kind(), MultipleResponseSetKind::MultipleCategory);
    assert_eq!(sets.sets()[0].label(), "abc");
}

#[test]
fn terminator_ends_the_dictionary_for_good() {
    let byte_order = ByteOrder::LittleEndian;
    let mut bytes = build_header(byte_order);
    write_terminator(&mut bytes, byte_order);

    let mut dict = open(bytes);
    assert!(dict.read_record().unwrap().is_none());
    assert!(dict.read_record().unwrap().is_none());
    assert!(dict.warnings().is_empty());
}

#[test]
fn records_are_read_in_order() {
    let byte_order = ByteOrder::LittleEndian;
    let mut bytes = build_header(byte_order);
    write_extension_record(&mut bytes, byte_order, 12, 1, 4, b"uuid");
    write_extension_record(&mut bytes, byte_order, 20, 1, 5, b"UTF-8");
    write_terminator(&mut bytes, byte_order);

    let mut dict = open(bytes);
    let Some(DictionaryRecord::Extension(first)) = dict.read_record().unwrap() else {
        panic!("expected an extension record");
    };
    assert_eq!(first.subtype(), ExtensionSubtype::Uuid);
    let Some(DictionaryRecord::Extension(second)) = dict.read_record().unwrap() else {
        panic!("expected an extension record");
    };
    assert_eq!(second.subtype(), ExtensionSubtype::CharacterEncoding);
    assert!(dict.read_record().unwrap().is_none());
}

#[test]
fn a_skipped_record_gives_way_to_the_next() {
    let byte_order = ByteOrder::LittleEndian;
    let mut bytes = build_header(byte_order);
    write_extension_record(&mut bytes, byte_order, 4, 8, 2, &[0; 16]);
    write_extension_record(&mut bytes, byte_order, 12, 1, 4, b"uuid");
    write_terminator(&mut bytes, byte_order);

    let mut dict = open(bytes);
    let DictionaryRecord::Extension(ExtensionRecord::Uuid(uuid)) =
        dict.read_record().unwrap().unwrap()
    else {
        panic!("expected the record after the skipped one");
    };
    assert_eq!(uuid.text(), "uuid");
    assert_eq!(dict.warnings(), &[SavWarning::MalformedExtension { subtype: 4 }]);
}

#[test]
fn other_record_types_are_rejected_at_their_offset() {
    let byte_order = ByteOrder::LittleEndian;
    let mut bytes = build_header(byte_order);
    bytes.extend_from_slice(&2_i32.to_le_bytes());
    bytes.extend_from_slice(&[0; 28]);

    let mut dict = open(bytes);
    match dict.read_record().unwrap_err() {
        SavError::Format(e) => {
            assert_eq!(e.kind(), FormatErrorKind::UnknownRecordType { value: 2 });
            assert_eq!(e.position(), 176);
        }
        other => panic!("expected a format error, got {other:?}"),
    }
}

#[test]
fn a_truncated_payload_is_an_io_error() {
    let byte_order = ByteOrder::LittleEndian;
    let mut bytes = build_header(byte_order);
    write_extension_record(&mut bytes, byte_order, 10, 1, 10, b"short");

    let mut dict = open(bytes);
    let err = dict.read_record().unwrap_err();
    assert!(matches!(err, SavError::Io { .. }), "got {err:?}");
}

#[test]
fn an_input_ending_after_the_header_is_an_io_error() {
    let mut dict = open(build_header(ByteOrder::BigEndian));
    let err = dict.read_record().unwrap_err();
    assert!(matches!(err, SavError::Io { .. }), "got {err:?}");
}

#[test]
fn shape_errors_report_the_element_size_offset() {
    let byte_order = ByteOrder::LittleEndian;
    let mut bytes = build_header(byte_order);
    write_extension_record(&mut bytes, byte_order, 13, 2, 2, &[0; 4]);

    let mut dict = open(bytes);
    match dict.read_record().unwrap_err() {
        SavError::Format(e) => {
            assert_eq!(
                e.kind(),
                FormatErrorKind::UnexpectedValue {
                    field: Field::ExtensionElementSize
                }
            );
            assert_eq!(e.position(), 176 + 8);
        }
        other => panic!("expected a format error, got {other:?}"),
    }
}

#[test]
fn the_header_encoding_decodes_extension_text() {
    let byte_order = ByteOrder::LittleEndian;
    let mut bytes = build_header(byte_order);
    write_extension_record(&mut bytes, byte_order, 10, 1, 4, b"caf\xE9");
    write_terminator(&mut bytes, byte_order);

    let mut dict = open(bytes);
    let DictionaryRecord::Extension(ExtensionRecord::ExtraProductInfo(info)) =
        dict.read_record().unwrap().unwrap()
    else {
        panic!("expected ExtraProductInfo");
    };
    assert_eq!(info.text(), "caf\u{e9}");
}

#[test]
fn an_override_decodes_extension_text() {
    let byte_order = ByteOrder::LittleEndian;
    let mut bytes = build_header(byte_order);
    write_extension_record(&mut bytes, byte_order, 10, 1, 5, "caf\u{e9}".as_bytes());
    write_terminator(&mut bytes, byte_order);

    let mut dict = HeaderReader::new(bytes, EncodingStrategy::Override(TextEncoding::utf_8()))
        .read_header()
        .unwrap();
    let DictionaryRecord::Extension(ExtensionRecord::ExtraProductInfo(info)) =
        dict.read_record().unwrap().unwrap()
    else {
        panic!("expected ExtraProductInfo");
    };
    assert_eq!(info.text(), "caf\u{e9}");
}
