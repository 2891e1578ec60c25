//! Tests of long missing values.

use spss_sav::spss::sav::byte_order::ByteOrder;
use spss_sav::spss::sav::dictionary_reader::DictionaryReader;
use spss_sav::spss::sav::dictionary_record::DictionaryRecord;
use spss_sav::spss::sav::encoding_strategy::EncodingStrategy;
use spss_sav::spss::sav::extensions::extension_record::ExtensionRecord;
use spss_sav::spss::sav::extensions::extension_subtype::ExtensionSubtype;
use spss_sav::spss::sav::header_reader::HeaderReader;
use spss_sav::spss::sav::sav_error::{Field, FormatErrorKind, SavError};
use spss_sav::spss::sav::sav_warning::SavWarning;
use spss_sav::spss::sav::text_encoding::TextEncoding;

use spss_sav::spss::sav::extensions::long_missing_values::{parse};


/// A valid little- or big-endian file header: `$FL2`, bytecode
/// compression, IEEE 754 bias, no weight, no cases.
fn build_header(byte_order: ByteOrder) -> Vec<u8> {
    let i32_bytes = |v: i32| match byte_order {
        ByteOrder::LittleEndian => v.to_le_bytes(),
        ByteOrder::BigEndian => v.to_be_bytes(),
    };
    let mut buf = Vec::with_capacity(176);
    buf.extend_from_slice(b"$FL2");
    let mut product = [b' '; 60];
    let name = b"@(#) SPSS DATA FILE spss_sav";
    product[..name.len()].copy_from_slice(name);
    buf.extend_from_slice(&product);
    buf.extend_from_slice(&i32_bytes(2));
    buf.extend_from_slice(&i32_bytes(0));
    buf.extend_from_slice(&i32_bytes(1));
    buf.extend_from_slice(&i32_bytes(0));
    buf.extend_from_slice(&i32_bytes(0));
    let bias = match byte_order {
        ByteOrder::LittleEndian => 100.0_f64.to_le_bytes(),
        ByteOrder::BigEndian => 100.0_f64.to_be_bytes(),
    };
    buf.extend_from_slice(&bias);
    buf.extend_from_slice(b"01 Jan 24");
    buf.extend_from_slice(b"00:00:00");
    buf.extend_from_slice(&[b' '; 64]);
    buf.extend_from_slice(&[0_u8; 3]);
    assert_eq!(buf.len(), 176);
    buf
}

/// Appends a type-7 record with the given envelope and payload.
fn write_extension_record(
    bytes: &mut Vec<u8>,
    byte_order: ByteOrder,
    subtype: i32,
    element_size: u32,
    element_count: u32,
    payload: &[u8],
) {
    let (rec_type, subtype, size, count) = match byte_order {
        ByteOrder::LittleEndian => (
            7_i32.to_le_bytes(),
            subtype.to_le_bytes(),
            element_size.to_le_bytes(),
            element_count.to_le_bytes(),
        ),
        ByteOrder::BigEndian => (
            7_i32.to_be_bytes(),
            subtype.to_be_bytes(),
            element_size.to_be_bytes(),
            element_count.to_be_bytes(),
        ),
    };
    bytes.extend_from_slice(&rec_type);
    bytes.extend_from_slice(&subtype);
    bytes.extend_from_slice(&size);
    bytes.extend_from_slice(&count);
    bytes.extend_from_slice(payload);
}

/// Appends the type-999 record that ends the dictionary.
fn write_terminator(bytes: &mut Vec<u8>, byte_order: ByteOrder) {
    let (rec_type, filler) = match byte_order {
        ByteOrder::LittleEndian => (999_i32.to_le_bytes(), 0_i32.to_le_bytes()),
        ByteOrder::BigEndian => (999_i32.to_be_bytes(), 0_i32.to_be_bytes()),
    };
    bytes.extend_from_slice(&rec_type);
    bytes.extend_from_slice(&filler);
}

/// Reads the header of `bytes` and returns the dictionary phase.
fn open(bytes: Vec<u8>) -> DictionaryReader {
    HeaderReader::new(bytes, EncodingStrategy::default())
        .read_header()
        .expect("valid header")
}

/// Asserts that `err` is an unexpected-value format error on `field`.
fn assert_unexpected_value_error(err: &SavError, field: Field) {
    match err {
        SavError::Format(e) => assert_eq!(e.kind(), FormatErrorKind::UnexpectedValue { field }),
        other => panic!("expected a format error, got {other:?}"),
    }
}

/// Asserts that the next record was skipped as malformed: reading goes
/// on to the terminator, with one warning naming `subtype`.
fn assert_degraded_extension(dict: &mut DictionaryReader, subtype: ExtensionSubtype) {
    let code = subtype.code().expect("named subtype");
    let record = dict.read_record().expect("skipped, not failed");
    assert!(record.is_none(), "expected the record to be skipped, got {record:?}");
    assert_eq!(dict.warnings(), &[SavWarning::MalformedExtension { subtype: code }]);
}

/// Appends `value` as four bytes in `byte_order`.
fn push_u32(payload: &mut Vec<u8>, value: u32, byte_order: ByteOrder) {
    let bytes = match byte_order {
        ByteOrder::LittleEndian => value.to_le_bytes(),
        ByteOrder::BigEndian => value.to_be_bytes(),
    };
    payload.extend_from_slice(&bytes);
}

/// Appends `bytes` preceded by their length as a `u32` in `byte_order`.
fn push_prefixed(payload: &mut Vec<u8>, bytes: &[u8], byte_order: ByteOrder) {
    push_u32(payload, u32::try_from(bytes.len()).unwrap(), byte_order);
    payload.extend_from_slice(bytes);
}

#[test]
fn parse_single_variable() {
    let byte_order = ByteOrder::LittleEndian;
    let mut payload = Vec::new();
    push_prefixed(&mut payload, b"longvar", byte_order);
    payload.push(2); // n_missing
    push_u32(&mut payload, 3, byte_order); // width
    payload.extend_from_slice(b"XXX");
    payload.extend_from_slice(b"YYY");

    let result = parse(1, &payload, byte_order, &TextEncoding::windows_1252(), 0).unwrap();
    assert_eq!(result.len(), 1);
    assert_eq!(result[0].variable_name(), "longvar");
    assert_eq!(result[0].values(), &[b"XXX".to_vec(), b"YYY".to_vec()]);
}

#[test]
fn parse_big_endian_multiple_variables() {
    let byte_order = ByteOrder::BigEndian;
    let mut payload = Vec::new();
    push_prefixed(&mut payload, b"v1", byte_order);
    payload.push(1);
    push_u32(&mut payload, 2, byte_order);
    payload.extend_from_slice(b"ab");
    push_prefixed(&mut payload, b"v2", byte_order);
    payload.push(3);
    push_u32(&mut payload, 1, byte_order);
    payload.extend_from_slice(b"xyz");

    let result = parse(1, &payload, byte_order, &TextEncoding::windows_1252(), 0).unwrap();
    assert_eq!(result.len(), 2);
    assert_eq!(result[0].values(), &[b"ab".to_vec()]);
    assert_eq!(
        result[1].values(),
        &[b"x".to_vec(), b"y".to_vec(), b"z".to_vec()]
    );
}

#[test]
fn parse_rejects_zero_count() {
    let byte_order = ByteOrder::LittleEndian;
    let mut payload = Vec::new();
    push_prefixed(&mut payload, b"v", byte_order);
    payload.push(0);
    push_u32(&mut payload, 1, byte_order);
    let err = parse(1, &payload, byte_order, &TextEncoding::windows_1252(), 0).unwrap_err();
    assert_unexpected_value_error(&err, Field::LongMissingValueCount);
}

#[test]
fn parse_rejects_count_above_three() {
    let byte_order = ByteOrder::LittleEndian;
    let mut payload = Vec::new();
    push_prefixed(&mut payload, b"v", byte_order);
    payload.push(4);
    push_u32(&mut payload, 1, byte_order);
    payload.extend_from_slice(b"abcd");
    let err = parse(1, &payload, byte_order, &TextEncoding::windows_1252(), 0).unwrap_err();
    assert_unexpected_value_error(&err, Field::LongMissingValueCount);
}

#[test]
fn long_missing_values_parse_rejects_wrong_element_size() {
    let err = parse(
        4,
        &[0; 4],
        ByteOrder::LittleEndian,
        &TextEncoding::windows_1252(),
        0,
    )
    .unwrap_err();
    assert_unexpected_value_error(&err, Field::ExtensionElementSize);
}

#[test]
fn parse_rejects_truncated_values() {
    let byte_order = ByteOrder::LittleEndian;
    let mut payload = Vec::new();
    push_prefixed(&mut payload, b"v", byte_order);
    payload.push(2);
    push_u32(&mut payload, 3, byte_order); // width 3, but only 3 bytes for one value
    payload.extend_from_slice(b"XXX");
    let err = parse(1, &payload, byte_order, &TextEncoding::windows_1252(), 0).unwrap_err();
    assert_unexpected_value_error(&err, Field::LongMissingValue);
}

#[test]
fn long_missing_values_parse_empty_payload_yields_empty_vec() {
    let result = parse(
        1,
        &[],
        ByteOrder::LittleEndian,
        &TextEncoding::windows_1252(),
        0,
    )
    .unwrap();
    assert!(result.is_empty());
}

#[test]
fn reader_long_string_missing_values() {
    let byte_order = ByteOrder::LittleEndian;
    let mut payload = Vec::new();
    payload.extend_from_slice(&3u32.to_le_bytes()); // var name length
    payload.extend_from_slice(b"abc");
    payload.push(2); // n_missing
    payload.extend_from_slice(&4u32.to_le_bytes()); // value width
    payload.extend_from_slice(b"MISS");
    payload.extend_from_slice(b"GONE");

    let mut bytes = build_header(byte_order);
    write_extension_record(
        &mut bytes,
        byte_order,
        22,
        1,
        u32::try_from(payload.len()).unwrap(),
        &payload,
    );
    write_terminator(&mut bytes, byte_order);

    let mut dict = open(bytes);
    let record = dict.read_record().unwrap().unwrap();
    let DictionaryRecord::Extension(ExtensionRecord::LongMissingValues(records)) = record
    else {
        panic!("expected LongMissingValues, got {record:?}");
    };
    let records = records.records();
    assert_eq!(records.len(), 1);
    assert_eq!(records[0].variable_name(), "abc");
    assert_eq!(records[0].values(), &[b"MISS".to_vec(), b"GONE".to_vec()]);
    assert!(dict.warnings().is_empty());
}

#[test]
fn long_missing_values_reader_wrong_element_size_errors() {
    let byte_order = ByteOrder::LittleEndian;
    let mut bytes = build_header(byte_order);
    write_extension_record(&mut bytes, byte_order, 22, 4, 2, &[0; 8]);
    write_terminator(&mut bytes, byte_order);

    let mut dict = open(bytes);
    let err = dict.read_record().unwrap_err();
    match err {
        SavError::Format(e) => assert_eq!(
            e.kind(),
            FormatErrorKind::UnexpectedValue {
                field: Field::ExtensionElementSize,
            }
        ),
        _ => panic!("expected Format error, got {err:?}"),
    }
}
