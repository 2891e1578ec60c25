//! Tests of character encoding.

use spss_sav::spss::sav::byte_order::ByteOrder;
use spss_sav::spss::sav::dictionary_reader::DictionaryReader;
use spss_sav::spss::sav::dictionary_record::DictionaryRecord;
use spss_sav::spss::sav::encoding_strategy::EncodingStrategy;
use spss_sav::spss::sav::extensions::extension_record::ExtensionRecord;
use spss_sav::spss::sav::extensions::extension_subtype::ExtensionSubtype;
use spss_sav::spss::sav::header_reader::HeaderReader;
use spss_sav::spss::sav::sav_error::{Field, FormatErrorKind, SavError};
use spss_sav::spss::sav::sav_warning::SavWarning;
use spss_sav::spss::sav::text_encoding::TextEncoding;

use spss_sav::spss::sav::extension_envelope::ExtensionEnvelope;
use spss_sav::spss::sav::extensions::character_encoding::{declared_label, parse};


/// A valid little- or big-endian file header: `$FL2`, bytecode
/// compression, IEEE 754 bias, no weight, no cases.
fn build_header(byte_order: ByteOrder) -> Vec<u8> {
    let i32_bytes = |v: i32| match byte_order {
        ByteOrder::LittleEndian => v.to_le_bytes(),
        ByteOrder::BigEndian => v.to_be_bytes(),
    };
    let mut buf = Vec::with_capacity(176);
    buf.extend_from_slice(b"$FL2");
    let mut product = [b' '; 60];
    let name = b"@(#) SPSS DATA FILE spss_sav";
    product[..name.len()].copy_from_slice(name);
    buf.extend_from_slice(&product);
    buf.extend_from_slice(&i32_bytes(2));
    buf.extend_from_slice(&i32_bytes(0));
    buf.extend_from_slice(&i32_bytes(1));
    buf.extend_from_slice(&i32_bytes(0));
    buf.extend_from_slice(&i32_bytes(0));
    let bias = match byte_order {
        ByteOrder::LittleEndian => 100.0_f64.to_le_bytes(),
        ByteOrder::BigEndian => 100.0_f64.to_be_bytes(),
    };
    buf.extend_from_slice(&bias);
    buf.extend_from_slice(b"01 Jan 24");
    buf.extend_from_slice(b"00:00:00");
    buf.extend_from_slice(&[b' '; 64]);
    buf.extend_from_slice(&[0_u8; 3]);
    assert_eq!(buf.len(), 176);
    buf
}

/// Appends a type-7 record with the given envelope and payload.
fn write_extension_record(
    bytes: &mut Vec<u8>,
    byte_order: ByteOrder,
    subtype: i32,
    element_size: u32,
    element_count: u32,
    payload: &[u8],
) {
    let (rec_type, subtype, size, count) = match byte_order {
        ByteOrder::LittleEndian => (
            7_i32.to_le_bytes(),
            subtype.to_le_bytes(),
            element_size.to_le_bytes(),
            element_count.to_le_bytes(),
        ),
        ByteOrder::BigEndian => (
            7_i32.to_be_bytes(),
            subtype.to_be_bytes(),
            element_size.to_be_bytes(),
            element_count.to_be_bytes(),
        ),
    };
    bytes.extend_from_slice(&rec_type);
    bytes.extend_from_slice(&subtype);
    bytes.extend_from_slice(&size);
    bytes.extend_from_slice(&count);
    bytes.extend_from_slice(payload);
}

/// Appends the type-999 record that ends the dictionary.
fn write_terminator(bytes: &mut Vec<u8>, byte_order: ByteOrder) {
    let (rec_type, filler) = match byte_order {
        ByteOrder::LittleEndian => (999_i32.to_le_bytes(), 0_i32.to_le_bytes()),
        ByteOrder::BigEndian => (999_i32.to_be_bytes(), 0_i32.to_be_bytes()),
    };
    bytes.extend_from_slice(&rec_type);
    bytes.extend_from_slice(&filler);
}

/// Reads the header of `bytes` and returns the dictionary phase.
fn open(bytes: Vec<u8>) -> DictionaryReader {
    HeaderReader::new(bytes, EncodingStrategy::default())
        .read_header()
        .expect("valid header")
}

/// Asserts that `err` is an unexpected-value format error on `field`.
fn assert_unexpected_value_error(err: &SavError, field: Field) {
    match err {
        SavError::Format(e) => assert_eq!(e.kind(), FormatErrorKind::UnexpectedValue { field }),
        other => panic!("expected a format error, got {other:?}"),
    }
}

/// Asserts that the next record was skipped as malformed: reading goes
/// on to the terminator, with one warning naming `subtype`.
fn assert_degraded_extension(dict: &mut DictionaryReader, subtype: ExtensionSubtype) {
    let code = subtype.code().expect("named subtype");
    let record = dict.read_record().expect("skipped, not failed");
    assert!(record.is_none(), "expected the record to be skipped, got {record:?}");
    assert_eq!(dict.warnings(), &[SavWarning::MalformedExtension { subtype: code }]);
}

#[test]
fn parse_decodes_ascii_name() {
    let name = parse(1, b"UTF-8", 0).unwrap();
    assert_eq!(name, "UTF-8");
}

#[test]
fn parse_trims_trailing_spaces_and_nuls() {
    let name = parse(1, b"UTF-8 \0  ", 0).unwrap();
    assert_eq!(name, "UTF-8");
}

#[test]
fn parse_accepts_empty_payload() {
    let name = parse(1, &[], 0).unwrap();
    assert!(name.is_empty());
}

#[test]
fn parse_lossy_on_non_ascii_bytes() {
    // 0xFF is invalid UTF-8 and not a sensible encoding-name byte;
    // the parser should emit U+FFFD rather than failing the read.
    let name = parse(1, b"A\xFFB", 0).unwrap();
    assert_eq!(name, "A\u{FFFD}B");
}

#[test]
fn character_encoding_parse_rejects_wrong_element_size() {
    let err = parse(4, b"UTF-", 0).unwrap_err();
    match err {
        SavError::Format(e) => assert_eq!(
            e.kind(),
            FormatErrorKind::UnexpectedValue {
                field: Field::ExtensionElementSize
            }
        ),
        _ => panic!("expected Format error"),
    }
}

#[test]
fn reader_utf8() {
    let byte_order = ByteOrder::LittleEndian;
    let mut bytes = build_header(byte_order);
    write_extension_record(&mut bytes, byte_order, 20, 1, 5, b"UTF-8");
    write_terminator(&mut bytes, byte_order);

    let mut dict = open(bytes);
    let record = dict.read_record().unwrap().unwrap();
    let DictionaryRecord::Extension(ExtensionRecord::CharacterEncoding(name)) = record else {
        panic!("expected CharacterEncoding, got {record:?}");
    };
    assert_eq!(name.name(), "UTF-8");
    assert!(dict.warnings().is_empty());
}

#[test]
fn reader_windows_1252() {
    let byte_order = ByteOrder::LittleEndian;
    let mut bytes = build_header(byte_order);
    write_extension_record(&mut bytes, byte_order, 20, 1, 12, b"windows-1252");
    write_terminator(&mut bytes, byte_order);

    let mut dict = open(bytes);
    let DictionaryRecord::Extension(ExtensionRecord::CharacterEncoding(name)) =
        dict.read_record().unwrap().unwrap()
    else {
        panic!("expected CharacterEncoding");
    };
    assert_eq!(name.name(), "windows-1252");
}

#[test]
fn reader_trims_trailing_padding() {
    let byte_order = ByteOrder::LittleEndian;
    let mut bytes = build_header(byte_order);
    write_extension_record(&mut bytes, byte_order, 20, 1, 8, b"UTF-8\0  ");
    write_terminator(&mut bytes, byte_order);

    let mut dict = open(bytes);
    let DictionaryRecord::Extension(ExtensionRecord::CharacterEncoding(name)) =
        dict.read_record().unwrap().unwrap()
    else {
        panic!("expected CharacterEncoding");
    };
    assert_eq!(name.name(), "UTF-8");
}

#[test]
fn character_encoding_reader_big_endian() {
    let byte_order = ByteOrder::BigEndian;
    let mut bytes = build_header(byte_order);
    write_extension_record(&mut bytes, byte_order, 20, 1, 5, b"UTF-8");
    write_terminator(&mut bytes, byte_order);

    let mut dict = open(bytes);
    let DictionaryRecord::Extension(ExtensionRecord::CharacterEncoding(name)) =
        dict.read_record().unwrap().unwrap()
    else {
        panic!("expected CharacterEncoding");
    };
    assert_eq!(name.name(), "UTF-8");
}

#[test]
fn reader_empty_payload_yields_empty_string() {
    let byte_order = ByteOrder::LittleEndian;
    let mut bytes = build_header(byte_order);
    write_extension_record(&mut bytes, byte_order, 20, 1, 0, &[]);
    write_terminator(&mut bytes, byte_order);

    let mut dict = open(bytes);
    let DictionaryRecord::Extension(ExtensionRecord::CharacterEncoding(name)) =
        dict.read_record().unwrap().unwrap()
    else {
        panic!("expected CharacterEncoding");
    };
    assert!(name.name().is_empty());
    assert!(dict.warnings().is_empty());
}

#[test]
fn character_encoding_reader_wrong_element_size_degrades() {
    let byte_order = ByteOrder::LittleEndian;
    let mut bytes = build_header(byte_order);
    write_extension_record(&mut bytes, byte_order, 20, 4, 2, &[0; 8]);
    write_terminator(&mut bytes, byte_order);

    let mut dict = open(bytes);
    assert_degraded_extension(&mut dict, ExtensionSubtype::CharacterEncoding);
}

fn envelope(element_size: u32, payload: &[u8]) -> ExtensionEnvelope {
    ExtensionEnvelope {
        subtype: 20,
        element_size,
        element_count: payload.len() as u32,
        payload: payload.to_vec(),
        byte_order: ByteOrder::LittleEndian,
        element_size_position: 188,
    }
}

#[test]
fn declared_label_reads_the_padded_label() {
    let label = declared_label(&envelope(1, b"windows-1252  \0")).unwrap();
    assert_eq!(label, "windows-1252");
}

#[test]
fn declared_label_rejects_wrong_element_size() {
    let err = declared_label(&envelope(2, b"UTF-8\0")).unwrap_err();
    assert_unexpected_value_error(&err, Field::ExtensionElementSize);
    match err {
        SavError::Format(e) => assert_eq!(e.position(), 188),
        other => panic!("expected a format error, got {other:?}"),
    }
}
