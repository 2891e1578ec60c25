//! Tests of long value labels.

use spss_sav::spss::sav::byte_order::ByteOrder;
use spss_sav::spss::sav::dictionary_reader::DictionaryReader;
use spss_sav::spss::sav::dictionary_record::DictionaryRecord;
use spss_sav::spss::sav::encoding_strategy::EncodingStrategy;
use spss_sav::spss::sav::extensions::extension_record::ExtensionRecord;
use spss_sav::spss::sav::extensions::extension_subtype::ExtensionSubtype;
use spss_sav::spss::sav::header_reader::HeaderReader;
use spss_sav::spss::sav::sav_error::{Field, FormatErrorKind, SavError};
use spss_sav::spss::sav::sav_warning::SavWarning;
use spss_sav::spss::sav::text_encoding::TextEncoding;

use spss_sav::spss::sav::extensions::long_value_labels::{parse};


/// A valid little- or big-endian file header: `$FL2`, bytecode
/// compression, IEEE 754 bias, no weight, no cases.
fn build_header(byte_order: ByteOrder) -> Vec<u8> {
    let i32_bytes = |v: i32| match byte_order {
        ByteOrder::LittleEndian => v.to_le_bytes(),
        ByteOrder::BigEndian => v.to_be_bytes(),
    };
    let mut buf = Vec::with_capacity(176);
    buf.extend_from_slice(b"$FL2");
    let mut product = [b' '; 60];
    let name = b"@(#) SPSS DATA FILE spss_sav";
    product[..name.len()].copy_from_slice(name);
    buf.extend_from_slice(&product);
    buf.extend_from_slice(&i32_bytes(2));
    buf.extend_from_slice(&i32_bytes(0));
    buf.extend_from_slice(&i32_bytes(1));
    buf.extend_from_slice(&i32_bytes(0));
    buf.extend_from_slice(&i32_bytes(0));
    let bias = match byte_order {
        ByteOrder::LittleEndian => 100.0_f64.to_le_bytes(),
        ByteOrder::BigEndian => 100.0_f64.to_be_bytes(),
    };
    buf.extend_from_slice(&bias);
    buf.extend_from_slice(b"01 Jan 24");
    buf.extend_from_slice(b"00:00:00");
    buf.extend_from_slice(&[b' '; 64]);
    buf.extend_from_slice(&[0_u8; 3]);
    assert_eq!(buf.len(), 176);
    buf
}

/// Appends a type-7 record with the given envelope and payload.
fn write_extension_record(
    bytes: &mut Vec<u8>,
    byte_order: ByteOrder,
    subtype: i32,
    element_size: u32,
    element_count: u32,
    payload: &[u8],
) {
    let (rec_type, subtype, size, count) = match byte_order {
        ByteOrder::LittleEndian => (
            7_i32.to_le_bytes(),
            subtype.to_le_bytes(),
            element_size.to_le_bytes(),
            element_count.to_le_bytes(),
        ),
        ByteOrder::BigEndian => (
            7_i32.to_be_bytes(),
            subtype.to_be_bytes(),
            element_size.to_be_bytes(),
            element_count.to_be_bytes(),
        ),
    };
    bytes.extend_from_slice(&rec_type);
    bytes.extend_from_slice(&subtype);
    bytes.extend_from_slice(&size);
    bytes.extend_from_slice(&count);
    bytes.extend_from_slice(payload);
}

/// Appends the type-999 record that ends the dictionary.
fn write_terminator(bytes: &mut Vec<u8>, byte_order: ByteOrder) {
    let (rec_type, filler) = match byte_order {
        ByteOrder::LittleEndian => (999_i32.to_le_bytes(), 0_i32.to_le_bytes()),
        ByteOrder::BigEndian => (999_i32.to_be_bytes(), 0_i32.to_be_bytes()),
    };
    bytes.extend_from_slice(&rec_type);
    bytes.extend_from_slice(&filler);
}

/// Reads the header of `bytes` and returns the dictionary phase.
fn open(bytes: Vec<u8>) -> DictionaryReader {
    HeaderReader::new(bytes, EncodingStrategy::default())
        .read_header()
        .expect("valid header")
}

/// Asserts that `err` is an unexpected-value format error on `field`.
fn assert_unexpected_value_error(err: &SavError, field: Field) {
    match err {
        SavError::Format(e) => assert_eq!(e.kind(), FormatErrorKind::UnexpectedValue { field }),
        other => panic!("expected a format error, got {other:?}"),
    }
}

/// Asserts that the next record was skipped as malformed: reading goes
/// on to the terminator, with one warning naming `subtype`.
fn assert_degraded_extension(dict: &mut DictionaryReader, subtype: ExtensionSubtype) {
    let code = subtype.code().expect("named subtype");
    let record = dict.read_record().expect("skipped, not failed");
    assert!(record.is_none(), "expected the record to be skipped, got {record:?}");
    assert_eq!(dict.warnings(), &[SavWarning::MalformedExtension { subtype: code }]);
}

/// Appends `value` as four bytes in `byte_order`.
fn push_u32(payload: &mut Vec<u8>, value: u32, byte_order: ByteOrder) {
    let bytes = match byte_order {
        ByteOrder::LittleEndian => value.to_le_bytes(),
        ByteOrder::BigEndian => value.to_be_bytes(),
    };
    payload.extend_from_slice(&bytes);
}

/// Appends `bytes` preceded by their length as a `u32` in `byte_order`.
fn push_prefixed(payload: &mut Vec<u8>, bytes: &[u8], byte_order: ByteOrder) {
    push_u32(payload, u32::try_from(bytes.len()).unwrap(), byte_order);
    payload.extend_from_slice(bytes);
}

#[test]
fn parse_single_variable_single_label() {
    let byte_order = ByteOrder::LittleEndian;
    let mut payload = Vec::new();
    push_prefixed(&mut payload, b"longvar", byte_order);
    push_u32(&mut payload, 20, byte_order); // width
    push_u32(&mut payload, 1, byte_order); // label count
    push_prefixed(&mut payload, b"code01", byte_order); // value
    push_prefixed(&mut payload, b"First", byte_order); // label

    let result = parse(1, &payload, byte_order, &TextEncoding::windows_1252(), 0).unwrap();
    assert_eq!(result.len(), 1);
    assert_eq!(result[0].variable_name(), "longvar");
    assert_eq!(result[0].width(), 20);
    assert_eq!(result[0].labels().len(), 1);
    assert_eq!(result[0].labels()[0].value(), b"code01");
    assert_eq!(result[0].labels()[0].label(), "First");
}

#[test]
fn parse_multiple_labels_and_variables() {
    let byte_order = ByteOrder::LittleEndian;
    let mut payload = Vec::new();
    push_prefixed(&mut payload, b"v1", byte_order);
    push_u32(&mut payload, 10, byte_order);
    push_u32(&mut payload, 2, byte_order);
    push_prefixed(&mut payload, b"a", byte_order);
    push_prefixed(&mut payload, b"Apple", byte_order);
    push_prefixed(&mut payload, b"b", byte_order);
    push_prefixed(&mut payload, b"Banana", byte_order);
    push_prefixed(&mut payload, b"v2", byte_order);
    push_u32(&mut payload, 12, byte_order);
    push_u32(&mut payload, 1, byte_order);
    push_prefixed(&mut payload, b"z", byte_order);
    push_prefixed(&mut payload, b"Zed", byte_order);

    let result = parse(1, &payload, byte_order, &TextEncoding::windows_1252(), 0).unwrap();
    assert_eq!(result.len(), 2);
    assert_eq!(result[0].labels().len(), 2);
    assert_eq!(result[0].labels()[1].label(), "Banana");
    assert_eq!(result[1].variable_name(), "v2");
    assert_eq!(result[1].labels()[0].value(), b"z");
}

#[test]
fn long_value_labels_parse_big_endian() {
    let byte_order = ByteOrder::BigEndian;
    let mut payload = Vec::new();
    push_prefixed(&mut payload, b"v", byte_order);
    push_u32(&mut payload, 9, byte_order);
    push_u32(&mut payload, 1, byte_order);
    push_prefixed(&mut payload, b"x", byte_order);
    push_prefixed(&mut payload, b"Label", byte_order);

    let result = parse(1, &payload, byte_order, &TextEncoding::windows_1252(), 0).unwrap();
    assert_eq!(result[0].width(), 9);
    assert_eq!(result[0].labels()[0].label(), "Label");
}

#[test]
fn parse_keeps_value_bytes_verbatim() {
    let byte_order = ByteOrder::LittleEndian;
    let mut payload = Vec::new();
    push_prefixed(&mut payload, b"v", byte_order);
    push_u32(&mut payload, 8, byte_order);
    push_u32(&mut payload, 1, byte_order);
    push_prefixed(&mut payload, b"ab   ", byte_order); // trailing spaces preserved
    push_prefixed(&mut payload, b"L", byte_order);

    let result = parse(1, &payload, byte_order, &TextEncoding::windows_1252(), 0).unwrap();
    assert_eq!(result[0].labels()[0].value(), b"ab   ");
}

#[test]
fn long_value_labels_parse_empty_payload_yields_empty_vec() {
    let result = parse(
        1,
        &[],
        ByteOrder::LittleEndian,
        &TextEncoding::windows_1252(),
        0,
    )
    .unwrap();
    assert!(result.is_empty());
}

#[test]
fn long_value_labels_parse_rejects_wrong_element_size() {
    let err = parse(
        4,
        &[0; 4],
        ByteOrder::LittleEndian,
        &TextEncoding::windows_1252(),
        0,
    )
    .unwrap_err();
    assert_unexpected_value_error(&err, Field::ExtensionElementSize);
}

#[test]
fn parse_rejects_truncated_payload() {
    let byte_order = ByteOrder::LittleEndian;
    let mut payload = Vec::new();
    push_prefixed(&mut payload, b"v", byte_order);
    push_u32(&mut payload, 8, byte_order);
    push_u32(&mut payload, 1, byte_order);
    push_u32(&mut payload, 5, byte_order); // value length 5, but no bytes follow
    let err = parse(1, &payload, byte_order, &TextEncoding::windows_1252(), 0).unwrap_err();
    assert_unexpected_value_error(&err, Field::LongValueLabel);
}

#[test]
fn reader_long_string_value_labels() {
    let byte_order = ByteOrder::LittleEndian;
    let mut payload = Vec::new();
    payload.extend_from_slice(&3u32.to_le_bytes()); // var name length
    payload.extend_from_slice(b"abc");
    payload.extend_from_slice(&20u32.to_le_bytes()); // width
    payload.extend_from_slice(&1u32.to_le_bytes()); // label count
    payload.extend_from_slice(&2u32.to_le_bytes()); // value length
    payload.extend_from_slice(b"hi");
    payload.extend_from_slice(&5u32.to_le_bytes()); // label length
    payload.extend_from_slice(b"Hello");

    let mut bytes = build_header(byte_order);
    write_extension_record(
        &mut bytes,
        byte_order,
        21,
        1,
        u32::try_from(payload.len()).unwrap(),
        &payload,
    );
    write_terminator(&mut bytes, byte_order);

    let mut dict = open(bytes);
    let record = dict.read_record().unwrap().unwrap();
    let DictionaryRecord::Extension(ExtensionRecord::LongValueLabels(records)) = record else {
        panic!("expected LongValueLabels, got {record:?}");
    };
    let records = records.records();
    assert_eq!(records.len(), 1);
    assert_eq!(records[0].variable_name(), "abc");
    assert_eq!(records[0].width(), 20);
    assert_eq!(records[0].labels()[0].value(), b"hi");
    assert_eq!(records[0].labels()[0].label(), "Hello");
    assert!(dict.warnings().is_empty());
}

#[test]
fn long_value_labels_reader_wrong_element_size_errors() {
    let byte_order = ByteOrder::LittleEndian;
    let mut bytes = build_header(byte_order);
    write_extension_record(&mut bytes, byte_order, 21, 4, 2, &[0; 8]);
    write_terminator(&mut bytes, byte_order);

    let mut dict = open(bytes);
    let err = dict.read_record().unwrap_err();
    match err {
        SavError::Format(e) => assert_eq!(
            e.kind(),
            FormatErrorKind::UnexpectedValue {
                field: Field::ExtensionElementSize,
            }
        ),
        _ => panic!("expected Format error, got {err:?}"),
    }
}
