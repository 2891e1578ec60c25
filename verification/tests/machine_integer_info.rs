//! Tests of machine integer info.

use spss_sav::spss::sav::byte_order::ByteOrder;
use spss_sav::spss::sav::dictionary_reader::DictionaryReader;
use spss_sav::spss::sav::dictionary_record::DictionaryRecord;
use spss_sav::spss::sav::encoding_strategy::EncodingStrategy;
use spss_sav::spss::sav::extensions::extension_record::ExtensionRecord;
use spss_sav::spss::sav::extensions::extension_subtype::ExtensionSubtype;
use spss_sav::spss::sav::header_reader::HeaderReader;
use spss_sav::spss::sav::sav_error::{Field, FormatErrorKind, SavError};
use spss_sav::spss::sav::sav_warning::SavWarning;
use spss_sav::spss::sav::text_encoding::TextEncoding;

use spss_sav::spss::sav::extensions::machine_integer_info::{parse, MachineIntegerInfo};
use spss_sav::spss::sav::float_format::FloatFormat;


/// A valid little- or big-endian file header: `$FL2`, bytecode
/// compression, IEEE 754 bias, no weight, no cases.
fn build_header(byte_order: ByteOrder) -> Vec<u8> {
    let i32_bytes = |v: i32| match byte_order {
        ByteOrder::LittleEndian => v.to_le_bytes(),
        ByteOrder::BigEndian => v.to_be_bytes(),
    };
    let mut buf = Vec::with_capacity(176);
    buf.extend_from_slice(b"$FL2");
    let mut product = [b' '; 60];
    let name = b"@(#) SPSS DATA FILE spss_sav";
    product[..name.len()].copy_from_slice(name);
    buf.extend_from_slice(&product);
    buf.extend_from_slice(&i32_bytes(2));
    buf.extend_from_slice(&i32_bytes(0));
    buf.extend_from_slice(&i32_bytes(1));
    buf.extend_from_slice(&i32_bytes(0));
    buf.extend_from_slice(&i32_bytes(0));
    let bias = match byte_order {
        ByteOrder::LittleEndian => 100.0_f64.to_le_bytes(),
        ByteOrder::BigEndian => 100.0_f64.to_be_bytes(),
    };
    buf.extend_from_slice(&bias);
    buf.extend_from_slice(b"01 Jan 24");
    buf.extend_from_slice(b"00:00:00");
    buf.extend_from_slice(&[b' '; 64]);
    buf.extend_from_slice(&[0_u8; 3]);
    assert_eq!(buf.len(), 176);
    buf
}

/// Appends a type-7 record with the given envelope and payload.
fn write_extension_record(
    bytes: &mut Vec<u8>,
    byte_order: ByteOrder,
    subtype: i32,
    element_size: u32,
    element_count: u32,
    payload: &[u8],
) {
    let (rec_type, subtype, size, count) = match byte_order {
        ByteOrder::LittleEndian => (
            7_i32.to_le_bytes(),
            subtype.to_le_bytes(),
            element_size.to_le_bytes(),
            element_count.to_le_bytes(),
        ),
        ByteOrder::BigEndian => (
            7_i32.to_be_bytes(),
            subtype.to_be_bytes(),
            element_size.to_be_bytes(),
            element_count.to_be_bytes(),
        ),
    };
    bytes.extend_from_slice(&rec_type);
    bytes.extend_from_slice(&subtype);
    bytes.extend_from_slice(&size);
    bytes.extend_from_slice(&count);
    bytes.extend_from_slice(payload);
}

/// Appends the type-999 record that ends the dictionary.
fn write_terminator(bytes: &mut Vec<u8>, byte_order: ByteOrder) {
    let (rec_type, filler) = match byte_order {
        ByteOrder::LittleEndian => (999_i32.to_le_bytes(), 0_i32.to_le_bytes()),
        ByteOrder::BigEndian => (999_i32.to_be_bytes(), 0_i32.to_be_bytes()),
    };
    bytes.extend_from_slice(&rec_type);
    bytes.extend_from_slice(&filler);
}

/// Reads the header of `bytes` and returns the dictionary phase.
fn open(bytes: Vec<u8>) -> DictionaryReader {
    HeaderReader::new(bytes, EncodingStrategy::default())
        .read_header()
        .expect("valid header")
}

/// Asserts that `err` is an unexpected-value format error on `field`.
fn assert_unexpected_value_error(err: &SavError, field: Field) {
    match err {
        SavError::Format(e) => assert_eq!(e.kind(), FormatErrorKind::UnexpectedValue { field }),
        other => panic!("expected a format error, got {other:?}"),
    }
}

/// Asserts that the next record was skipped as malformed: reading goes
/// on to the terminator, with one warning naming `subtype`.
fn assert_degraded_extension(dict: &mut DictionaryReader, subtype: ExtensionSubtype) {
    let code = subtype.code().expect("named subtype");
    let record = dict.read_record().expect("skipped, not failed");
    assert!(record.is_none(), "expected the record to be skipped, got {record:?}");
    assert_eq!(dict.warnings(), &[SavWarning::MalformedExtension { subtype: code }]);
}

/// Builds a 32-byte subtype-3 payload from 8 i32 fields in the
/// given byte order.
fn build_payload(byte_order: ByteOrder, fields: [i32; 8]) -> Vec<u8> {
    let to_bytes = |v: i32| match byte_order {
        ByteOrder::LittleEndian => v.to_le_bytes(),
        ByteOrder::BigEndian => v.to_be_bytes(),
    };
    let mut buf = Vec::with_capacity(32);
    for value in fields {
        buf.extend_from_slice(&to_bytes(value));
    }
    buf
}

#[test]
fn reader_machine_integer_info() {
    let byte_order = ByteOrder::LittleEndian;
    let mut bytes = build_header(byte_order);
    // version 25.0.0, machine code 720, IEEE/standard compression,
    // little-endian, character code 1252 (Windows-1252).
    let fields = [25, 0, 0, 720, 1, 1, 2, 1252];
    let payload = build_payload(byte_order, fields);
    write_extension_record(&mut bytes, byte_order, 3, 4, 8, &payload);
    write_terminator(&mut bytes, byte_order);

    let mut dict = open(bytes);
    let DictionaryRecord::Extension(ExtensionRecord::MachineIntegerInfo(info)) =
        dict.read_record().unwrap().unwrap()
    else {
        panic!("expected MachineIntegerInfo");
    };
    assert_eq!(info.version_major(), 25);
    assert_eq!(info.version_minor(), 0);
    assert_eq!(info.version_revision(), 0);
    assert_eq!(info.machine_code(), 720);
    assert_eq!(info.floating_point_representation(), 1);
    assert_eq!(info.compression_code(), 1);
    assert_eq!(info.endianness(), 2);
    assert_eq!(info.character_code(), 1252);
    assert_eq!(
        info.floating_point_representation_kind(),
        Some(FloatFormat::Ieee754),
    );
    assert_eq!(info.endianness_kind(), Some(ByteOrder::LittleEndian));
    // Header byte order (LE) matches record (2 → LE), float format
    // matches (IEEE), so no cross-check warnings.
    assert!(dict.warnings().is_empty());
}

#[test]
fn reader_big_endian_payload() {
    let byte_order = ByteOrder::BigEndian;
    let mut bytes = build_header(byte_order);
    let fields = [25, 0, 0, 720, 1, 1, 1, 1252];
    let payload = build_payload(byte_order, fields);
    write_extension_record(&mut bytes, byte_order, 3, 4, 8, &payload);
    write_terminator(&mut bytes, byte_order);

    let mut dict = open(bytes);
    let DictionaryRecord::Extension(ExtensionRecord::MachineIntegerInfo(info)) =
        dict.read_record().unwrap().unwrap()
    else {
        panic!("expected MachineIntegerInfo");
    };
    assert_eq!(info.machine_code(), 720);
    assert_eq!(info.endianness_kind(), Some(ByteOrder::BigEndian));
}

#[test]
fn reader_unknown_codes_return_none_from_typed_accessors() {
    let byte_order = ByteOrder::LittleEndian;
    let mut bytes = build_header(byte_order);
    // 99 for both floating-point representation and endianness —
    // neither maps onto a recognized enum variant.
    let fields = [25, 0, 0, 720, 99, 1, 99, 1252];
    let payload = build_payload(byte_order, fields);
    write_extension_record(&mut bytes, byte_order, 3, 4, 8, &payload);
    write_terminator(&mut bytes, byte_order);

    let mut dict = open(bytes);
    let DictionaryRecord::Extension(ExtensionRecord::MachineIntegerInfo(info)) =
        dict.read_record().unwrap().unwrap()
    else {
        panic!("expected MachineIntegerInfo");
    };
    assert_eq!(info.floating_point_representation(), 99);
    assert_eq!(info.endianness(), 99);
    assert!(info.floating_point_representation_kind().is_none());
    assert!(info.endianness_kind().is_none());
    // Unknown codes don't trigger the cross-check warnings — there's
    // nothing to compare against.
    assert!(dict.warnings().is_empty());
}

#[test]
fn reader_byte_order_mismatch_warns() {
    // Header is little-endian, but the record claims big-endian
    // (code 1).
    let byte_order = ByteOrder::LittleEndian;
    let mut bytes = build_header(byte_order);
    let fields = [25, 0, 0, 720, 1, 1, 1, 1252];
    let payload = build_payload(byte_order, fields);
    write_extension_record(&mut bytes, byte_order, 3, 4, 8, &payload);
    write_terminator(&mut bytes, byte_order);

    let mut dict = open(bytes);
    dict.read_record().unwrap().unwrap();
    assert!(matches!(
        dict.warnings(),
        &[SavWarning::HeaderByteOrderMismatch { record_value: 1 }]
    ));
}

#[test]
fn reader_float_format_mismatch_warns() {
    // Header is IEEE 754 (the default test fixture uses IEEE bias
    // 100.0); the record claims IBM HFP (code 2).
    let byte_order = ByteOrder::LittleEndian;
    let mut bytes = build_header(byte_order);
    let fields = [25, 0, 0, 720, 2, 1, 2, 1252];
    let payload = build_payload(byte_order, fields);
    write_extension_record(&mut bytes, byte_order, 3, 4, 8, &payload);
    write_terminator(&mut bytes, byte_order);

    let mut dict = open(bytes);
    dict.read_record().unwrap().unwrap();
    assert!(matches!(
        dict.warnings(),
        &[SavWarning::HeaderFloatFormatMismatch { record_value: 2 }]
    ));
}

#[test]
fn machine_integer_info_reader_wrong_element_size_errors() {
    let byte_order = ByteOrder::LittleEndian;
    let mut bytes = build_header(byte_order);
    write_extension_record(&mut bytes, byte_order, 3, 8, 8, &[0; 64]);

    let mut dict = open(bytes);
    let err = dict.read_record().unwrap_err();
    match err {
        SavError::Format(e) => assert_eq!(
            e.kind(),
            FormatErrorKind::UnexpectedValue {
                field: Field::ExtensionElementSize,
            }
        ),
        _ => panic!("expected Format error, got {err:?}"),
    }
}

#[test]
fn reader_wrong_element_count_errors() {
    let byte_order = ByteOrder::LittleEndian;
    let mut bytes = build_header(byte_order);
    write_extension_record(&mut bytes, byte_order, 3, 4, 4, &[0; 16]);

    let mut dict = open(bytes);
    let err = dict.read_record().unwrap_err();
    match err {
        SavError::Format(e) => assert_eq!(
            e.kind(),
            FormatErrorKind::UnexpectedValue {
                field: Field::ExtensionElementCount,
            }
        ),
        _ => panic!("expected Format error, got {err:?}"),
    }
}

#[test]
fn machine_integer_info_parse_rejects_a_wrong_shape_whatever_the_length() {
    let err = parse(8, 8, &[0u8; 64], ByteOrder::LittleEndian, 40).unwrap_err();
    assert_unexpected_value_error(&err, Field::ExtensionElementSize);
    let err = parse(4, 4, &[0u8; 16], ByteOrder::LittleEndian, 40).unwrap_err();
    assert_unexpected_value_error(&err, Field::ExtensionElementCount);
}
