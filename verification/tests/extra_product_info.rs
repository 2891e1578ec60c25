//! Tests of extra product info.

use spss_sav::spss::sav::byte_order::ByteOrder;
use spss_sav::spss::sav::dictionary_reader::DictionaryReader;
use spss_sav::spss::sav::dictionary_record::DictionaryRecord;
use spss_sav::spss::sav::encoding_strategy::EncodingStrategy;
use spss_sav::spss::sav::extensions::extension_record::ExtensionRecord;
use spss_sav::spss::sav::extensions::extension_subtype::ExtensionSubtype;
use spss_sav::spss::sav::header_reader::HeaderReader;
use spss_sav::spss::sav::sav_error::{Field, FormatErrorKind, SavError};
use spss_sav::spss::sav::sav_warning::SavWarning;
use spss_sav::spss::sav::text_encoding::TextEncoding;

use spss_sav::spss::sav::extensions::extra_product_info::{parse};


/// A valid little- or big-endian file header: `$FL2`, bytecode
/// compression, IEEE 754 bias, no weight, no cases.
fn build_header(byte_order: ByteOrder) -> Vec<u8> {
    let i32_bytes = |v: i32| match byte_order {
        ByteOrder::LittleEndian => v.to_le_bytes(),
        ByteOrder::BigEndian => v.to_be_bytes(),
    };
    let mut buf = Vec::with_capacity(176);
    buf.extend_from_slice(b"$FL2");
    let mut product = [b' '; 60];
    let name = b"@(#) SPSS DATA FILE spss_sav";
    product[..name.len()].copy_from_slice(name);
    buf.extend_from_slice(&product);
    buf.extend_from_slice(&i32_bytes(2));
    buf.extend_from_slice(&i32_bytes(0));
    buf.extend_from_slice(&i32_bytes(1));
    buf.extend_from_slice(&i32_bytes(0));
    buf.extend_from_slice(&i32_bytes(0));
    let bias = match byte_order {
        ByteOrder::LittleEndian => 100.0_f64.to_le_bytes(),
        ByteOrder::BigEndian => 100.0_f64.to_be_bytes(),
    };
    buf.extend_from_slice(&bias);
    buf.extend_from_slice(b"01 Jan 24");
    buf.extend_from_slice(b"00:00:00");
    buf.extend_from_slice(&[b' '; 64]);
    buf.extend_from_slice(&[0_u8; 3]);
    assert_eq!(buf.len(), 176);
    buf
}

/// Appends a type-7 record with the given envelope and payload.
fn write_extension_record(
    bytes: &mut Vec<u8>,
    byte_order: ByteOrder,
    subtype: i32,
    element_size: u32,
    element_count: u32,
    payload: &[u8],
) {
    let (rec_type, subtype, size, count) = match byte_order {
        ByteOrder::LittleEndian => (
            7_i32.to_le_bytes(),
            subtype.to_le_bytes(),
            element_size.to_le_bytes(),
            element_count.to_le_bytes(),
        ),
        ByteOrder::BigEndian => (
            7_i32.to_be_bytes(),
            subtype.to_be_bytes(),
            element_size.to_be_bytes(),
            element_count.to_be_bytes(),
        ),
    };
    bytes.extend_from_slice(&rec_type);
    bytes.extend_from_slice(&subtype);
    bytes.extend_from_slice(&size);
    bytes.extend_from_slice(&count);
    bytes.extend_from_slice(payload);
}

/// Appends the type-999 record that ends the dictionary.
fn write_terminator(bytes: &mut Vec<u8>, byte_order: ByteOrder) {
    let (rec_type, filler) = match byte_order {
        ByteOrder::LittleEndian => (999_i32.to_le_bytes(), 0_i32.to_le_bytes()),
        ByteOrder::BigEndian => (999_i32.to_be_bytes(), 0_i32.to_be_bytes()),
    };
    bytes.extend_from_slice(&rec_type);
    bytes.extend_from_slice(&filler);
}

/// Reads the header of `bytes` and returns the dictionary phase.
fn open(bytes: Vec<u8>) -> DictionaryReader {
    HeaderReader::new(bytes, EncodingStrategy::default())
        .read_header()
        .expect("valid header")
}

/// Asserts that `err` is an unexpected-value format error on `field`.
fn assert_unexpected_value_error(err: &SavError, field: Field) {
    match err {
        SavError::Format(e) => assert_eq!(e.kind(), FormatErrorKind::UnexpectedValue { field }),
        other => panic!("expected a format error, got {other:?}"),
    }
}

/// Asserts that the next record was skipped as malformed: reading goes
/// on to the terminator, with one warning naming `subtype`.
fn assert_degraded_extension(dict: &mut DictionaryReader, subtype: ExtensionSubtype) {
    let code = subtype.code().expect("named subtype");
    let record = dict.read_record().expect("skipped, not failed");
    assert!(record.is_none(), "expected the record to be skipped, got {record:?}");
    assert_eq!(dict.warnings(), &[SavWarning::MalformedExtension { subtype: code }]);
}

#[test]
fn parse_keeps_text_verbatim() {
    // Trailing spaces must be preserved (the length is exact).
    let payload = b"Acme Stats 4.3  ";
    let result = parse(1, payload, &TextEncoding::windows_1252(), 0).unwrap();
    assert_eq!(result.text(), "Acme Stats 4.3  ");
}

#[test]
fn extra_product_info_parse_decodes_through_supplied_encoding() {
    // 0xE9 = é in Windows-1252, invalid in standalone UTF-8.
    let payload = b"Caf\xE9 Analytics";
    let result = parse(1, payload, &TextEncoding::windows_1252(), 0).unwrap();
    assert_eq!(result.text(), "Café Analytics");
}

#[test]
fn extra_product_info_parse_empty_payload_yields_empty_text() {
    let result = parse(1, &[], &TextEncoding::windows_1252(), 0).unwrap();
    assert_eq!(result.text(), "");
}

#[test]
fn extra_product_info_parse_rejects_wrong_element_size() {
    let err = parse(4, b"prod", &TextEncoding::windows_1252(), 0).unwrap_err();
    assert_unexpected_value_error(&err, Field::ExtensionElementSize);
}

#[test]
fn reader_extra_product_info() {
    let byte_order = ByteOrder::LittleEndian;
    let mut bytes = build_header(byte_order);
    let payload = b"Acme Stats 4.3";
    write_extension_record(
        &mut bytes,
        byte_order,
        10,
        1,
        u32::try_from(payload.len()).unwrap(),
        payload,
    );
    write_terminator(&mut bytes, byte_order);

    let mut dict = open(bytes);
    let record = dict.read_record().unwrap().unwrap();
    let DictionaryRecord::Extension(ExtensionRecord::ExtraProductInfo(info)) = record else {
        panic!("expected ExtraProductInfo, got {record:?}");
    };
    assert_eq!(info.text(), "Acme Stats 4.3");
    assert!(dict.warnings().is_empty());
}

#[test]
fn extra_product_info_reader_wrong_element_size_errors() {
    let byte_order = ByteOrder::LittleEndian;
    let mut bytes = build_header(byte_order);
    write_extension_record(&mut bytes, byte_order, 10, 4, 2, &[0; 8]);

    let mut dict = open(bytes);
    let err = dict.read_record().unwrap_err();
    match err {
        SavError::Format(e) => assert_eq!(
            e.kind(),
            FormatErrorKind::UnexpectedValue {
                field: Field::ExtensionElementSize,
            }
        ),
        _ => panic!("expected Format error, got {err:?}"),
    }
}
