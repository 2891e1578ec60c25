//! Tests of raw display parameters.

use spss_sav::spss::sav::byte_order::ByteOrder;
use spss_sav::spss::sav::dictionary_reader::DictionaryReader;
use spss_sav::spss::sav::dictionary_record::DictionaryRecord;
use spss_sav::spss::sav::encoding_strategy::EncodingStrategy;
use spss_sav::spss::sav::extensions::extension_record::ExtensionRecord;
use spss_sav::spss::sav::extensions::extension_subtype::ExtensionSubtype;
use spss_sav::spss::sav::header_reader::HeaderReader;
use spss_sav::spss::sav::sav_error::{Field, FormatErrorKind, SavError};
use spss_sav::spss::sav::sav_warning::SavWarning;
use spss_sav::spss::sav::text_encoding::TextEncoding;

use spss_sav::spss::sav::extensions::raw_display_parameters::{parse};


/// A valid little- or big-endian file header: `$FL2`, bytecode
/// compression, IEEE 754 bias, no weight, no cases.
fn build_header(byte_order: ByteOrder) -> Vec<u8> {
    let i32_bytes = |v: i32| match byte_order {
        ByteOrder::LittleEndian => v.to_le_bytes(),
        ByteOrder::BigEndian => v.to_be_bytes(),
    };
    let mut buf = Vec::with_capacity(176);
    buf.extend_from_slice(b"$FL2");
    let mut product = [b' '; 60];
    let name = b"@(#) SPSS DATA FILE spss_sav";
    product[..name.len()].copy_from_slice(name);
    buf.extend_from_slice(&product);
    buf.extend_from_slice(&i32_bytes(2));
    buf.extend_from_slice(&i32_bytes(0));
    buf.extend_from_slice(&i32_bytes(1));
    buf.extend_from_slice(&i32_bytes(0));
    buf.extend_from_slice(&i32_bytes(0));
    let bias = match byte_order {
        ByteOrder::LittleEndian => 100.0_f64.to_le_bytes(),
        ByteOrder::BigEndian => 100.0_f64.to_be_bytes(),
    };
    buf.extend_from_slice(&bias);
    buf.extend_from_slice(b"01 Jan 24");
    buf.extend_from_slice(b"00:00:00");
    buf.extend_from_slice(&[b' '; 64]);
    buf.extend_from_slice(&[0_u8; 3]);
    assert_eq!(buf.len(), 176);
    buf
}

/// Appends a type-7 record with the given envelope and payload.
fn write_extension_record(
    bytes: &mut Vec<u8>,
    byte_order: ByteOrder,
    subtype: i32,
    element_size: u32,
    element_count: u32,
    payload: &[u8],
) {
    let (rec_type, subtype, size, count) = match byte_order {
        ByteOrder::LittleEndian => (
            7_i32.to_le_bytes(),
            subtype.to_le_bytes(),
            element_size.to_le_bytes(),
            element_count.to_le_bytes(),
        ),
        ByteOrder::BigEndian => (
            7_i32.to_be_bytes(),
            subtype.to_be_bytes(),
            element_size.to_be_bytes(),
            element_count.to_be_bytes(),
        ),
    };
    bytes.extend_from_slice(&rec_type);
    bytes.extend_from_slice(&subtype);
    bytes.extend_from_slice(&size);
    bytes.extend_from_slice(&count);
    bytes.extend_from_slice(payload);
}

/// Appends the type-999 record that ends the dictionary.
fn write_terminator(bytes: &mut Vec<u8>, byte_order: ByteOrder) {
    let (rec_type, filler) = match byte_order {
        ByteOrder::LittleEndian => (999_i32.to_le_bytes(), 0_i32.to_le_bytes()),
        ByteOrder::BigEndian => (999_i32.to_be_bytes(), 0_i32.to_be_bytes()),
    };
    bytes.extend_from_slice(&rec_type);
    bytes.extend_from_slice(&filler);
}

/// Reads the header of `bytes` and returns the dictionary phase.
fn open(bytes: Vec<u8>) -> DictionaryReader {
    HeaderReader::new(bytes, EncodingStrategy::default())
        .read_header()
        .expect("valid header")
}

/// Asserts that `err` is an unexpected-value format error on `field`.
fn assert_unexpected_value_error(err: &SavError, field: Field) {
    match err {
        SavError::Format(e) => assert_eq!(e.kind(), FormatErrorKind::UnexpectedValue { field }),
        other => panic!("expected a format error, got {other:?}"),
    }
}

/// Asserts that the next record was skipped as malformed: reading goes
/// on to the terminator, with one warning naming `subtype`.
fn assert_degraded_extension(dict: &mut DictionaryReader, subtype: ExtensionSubtype) {
    let code = subtype.code().expect("named subtype");
    let record = dict.read_record().expect("skipped, not failed");
    assert!(record.is_none(), "expected the record to be skipped, got {record:?}");
    assert_eq!(dict.warnings(), &[SavWarning::MalformedExtension { subtype: code }]);
}

fn build_payload(byte_order: ByteOrder, values: &[u32]) -> Vec<u8> {
    let mut buf = Vec::with_capacity(values.len() * 4);
    for &v in values {
        match byte_order {
            ByteOrder::LittleEndian => buf.extend_from_slice(&v.to_le_bytes()),
            ByteOrder::BigEndian => buf.extend_from_slice(&v.to_be_bytes()),
        }
    }
    buf
}

#[test]
fn parse_collects_two_tuple_form_little_endian() {
    // Two variables in 2-tuple form: (measure, alignment) pairs.
    let mut payload = Vec::new();
    payload.extend_from_slice(&1u32.to_le_bytes()); // measure
    payload.extend_from_slice(&0u32.to_le_bytes()); // alignment
    payload.extend_from_slice(&3u32.to_le_bytes()); // measure
    payload.extend_from_slice(&1u32.to_le_bytes()); // alignment
    let raw = parse(4, &payload, ByteOrder::LittleEndian, 0).unwrap();
    assert_eq!(raw.values(), &[1, 0, 3, 1]);
}

#[test]
fn parse_collects_three_tuple_form_little_endian() {
    // One variable in 3-tuple form: measure, width, alignment.
    let mut payload = Vec::new();
    payload.extend_from_slice(&2u32.to_le_bytes()); // measure
    payload.extend_from_slice(&12u32.to_le_bytes()); // width
    payload.extend_from_slice(&1u32.to_le_bytes()); // alignment
    let raw = parse(4, &payload, ByteOrder::LittleEndian, 0).unwrap();
    assert_eq!(raw.values(), &[2, 12, 1]);
}

#[test]
fn raw_display_parameters_parse_big_endian() {
    let mut payload = Vec::new();
    payload.extend_from_slice(&100u32.to_be_bytes());
    payload.extend_from_slice(&200u32.to_be_bytes());
    let raw = parse(4, &payload, ByteOrder::BigEndian, 0).unwrap();
    assert_eq!(raw.values(), &[100, 200]);
}

#[test]
fn parse_empty_payload_yields_empty_record() {
    let raw = parse(4, &[], ByteOrder::LittleEndian, 0).unwrap();
    assert!(raw.values().is_empty());
}

#[test]
fn parse_preserves_unrecognized_codes() {
    // Codes 99 / 7 don't match any MeasurementLevel or Alignment
    // variant; the streaming layer carries them verbatim.
    let mut payload = Vec::new();
    payload.extend_from_slice(&99u32.to_le_bytes());
    payload.extend_from_slice(&7u32.to_le_bytes());
    let raw = parse(4, &payload, ByteOrder::LittleEndian, 0).unwrap();
    assert_eq!(raw.values(), &[99, 7]);
}

#[test]
fn raw_display_parameters_parse_rejects_wrong_element_size() {
    let err = parse(8, &[0; 16], ByteOrder::LittleEndian, 0).unwrap_err();
    match err {
        SavError::Format(e) => assert_eq!(
            e.kind(),
            FormatErrorKind::UnexpectedValue {
                field: Field::ExtensionElementSize
            }
        ),
        _ => panic!("expected Format error"),
    }
}

#[test]
fn reader_two_tuple_form() {
    let byte_order = ByteOrder::LittleEndian;
    let mut bytes = build_header(byte_order);
    let values = [1u32, 0, 3, 1];
    let payload = build_payload(byte_order, &values);
    write_extension_record(
        &mut bytes,
        byte_order,
        11,
        4,
        u32::try_from(values.len()).unwrap(),
        &payload,
    );
    write_terminator(&mut bytes, byte_order);

    let mut dict = open(bytes);
    let record = dict.read_record().unwrap().unwrap();
    let DictionaryRecord::Extension(ExtensionRecord::DisplayParameters(raw)) = record else {
        panic!("expected DisplayParameters, got {record:?}");
    };
    assert_eq!(raw.values(), &values);
    assert!(dict.warnings().is_empty());
}

#[test]
fn reader_three_tuple_form() {
    let byte_order = ByteOrder::LittleEndian;
    let mut bytes = build_header(byte_order);
    let values = [2u32, 12, 1];
    let payload = build_payload(byte_order, &values);
    write_extension_record(
        &mut bytes,
        byte_order,
        11,
        4,
        u32::try_from(values.len()).unwrap(),
        &payload,
    );
    write_terminator(&mut bytes, byte_order);

    let mut dict = open(bytes);
    let DictionaryRecord::Extension(ExtensionRecord::DisplayParameters(raw)) =
        dict.read_record().unwrap().unwrap()
    else {
        panic!("expected DisplayParameters");
    };
    assert_eq!(raw.values(), &values);
}

#[test]
fn raw_display_parameters_reader_big_endian() {
    let byte_order = ByteOrder::BigEndian;
    let mut bytes = build_header(byte_order);
    let values = [1u32, 0, 3, 8, 1];
    let payload = build_payload(byte_order, &values);
    write_extension_record(
        &mut bytes,
        byte_order,
        11,
        4,
        u32::try_from(values.len()).unwrap(),
        &payload,
    );
    write_terminator(&mut bytes, byte_order);

    let mut dict = open(bytes);
    let DictionaryRecord::Extension(ExtensionRecord::DisplayParameters(raw)) =
        dict.read_record().unwrap().unwrap()
    else {
        panic!("expected DisplayParameters");
    };
    assert_eq!(raw.values(), &values);
}

#[test]
fn reader_empty_payload_yields_empty_values() {
    let byte_order = ByteOrder::LittleEndian;
    let mut bytes = build_header(byte_order);
    write_extension_record(&mut bytes, byte_order, 11, 4, 0, &[]);
    write_terminator(&mut bytes, byte_order);

    let mut dict = open(bytes);
    let DictionaryRecord::Extension(ExtensionRecord::DisplayParameters(raw)) =
        dict.read_record().unwrap().unwrap()
    else {
        panic!("expected DisplayParameters");
    };
    assert!(raw.values().is_empty());
    assert!(dict.warnings().is_empty());
}

#[test]
fn reader_preserves_unrecognized_codes() {
    let byte_order = ByteOrder::LittleEndian;
    let mut bytes = build_header(byte_order);
    let values = [99u32, 7];
    let payload = build_payload(byte_order, &values);
    write_extension_record(
        &mut bytes,
        byte_order,
        11,
        4,
        u32::try_from(values.len()).unwrap(),
        &payload,
    );
    write_terminator(&mut bytes, byte_order);

    let mut dict = open(bytes);
    let DictionaryRecord::Extension(ExtensionRecord::DisplayParameters(raw)) =
        dict.read_record().unwrap().unwrap()
    else {
        panic!("expected DisplayParameters");
    };
    assert_eq!(raw.values(), &values);
}

#[test]
fn raw_display_parameters_reader_wrong_element_size_errors() {
    let byte_order = ByteOrder::LittleEndian;
    let mut bytes = build_header(byte_order);
    write_extension_record(&mut bytes, byte_order, 11, 8, 2, &[0; 16]);
    write_terminator(&mut bytes, byte_order);

    let mut dict = open(bytes);
    let err = dict.read_record().unwrap_err();
    match err {
        SavError::Format(e) => assert_eq!(
            e.kind(),
            FormatErrorKind::UnexpectedValue {
                field: Field::ExtensionElementSize,
            }
        ),
        _ => panic!("expected Format error, got {err:?}"),
    }
}
