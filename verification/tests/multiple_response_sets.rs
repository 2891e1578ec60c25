//! Tests of multiple response sets.

use spss_sav::spss::sav::byte_order::ByteOrder;
use spss_sav::spss::sav::dictionary_reader::DictionaryReader;
use spss_sav::spss::sav::dictionary_record::DictionaryRecord;
use spss_sav::spss::sav::encoding_strategy::EncodingStrategy;
use spss_sav::spss::sav::extensions::extension_record::ExtensionRecord;
use spss_sav::spss::sav::extensions::extension_subtype::ExtensionSubtype;
use spss_sav::spss::sav::header_reader::HeaderReader;
use spss_sav::spss::sav::sav_error::{Field, FormatErrorKind, SavError};
use spss_sav::spss::sav::sav_warning::SavWarning;
use spss_sav::spss::sav::text_encoding::TextEncoding;

use spss_sav::spss::sav::extensions::multiple_response_sets::{parse};
use spss_sav::spss::sav::extensions::multiple_response_set_kind::{MultipleResponseSetKind};
use spss_sav::spss::sav::extensions::category_label_source::{CategoryLabelSource};


/// A valid little- or big-endian file header: `$FL2`, bytecode
/// compression, IEEE 754 bias, no weight, no cases.
fn build_header(byte_order: ByteOrder) -> Vec<u8> {
    let i32_bytes = |v: i32| match byte_order {
        ByteOrder::LittleEndian => v.to_le_bytes(),
        ByteOrder::BigEndian => v.to_be_bytes(),
    };
    let mut buf = Vec::with_capacity(176);
    buf.extend_from_slice(b"$FL2");
    let mut product = [b' '; 60];
    let name = b"@(#) SPSS DATA FILE spss_sav";
    product[..name.len()].copy_from_slice(name);
    buf.extend_from_slice(&product);
    buf.extend_from_slice(&i32_bytes(2));
    buf.extend_from_slice(&i32_bytes(0));
    buf.extend_from_slice(&i32_bytes(1));
    buf.extend_from_slice(&i32_bytes(0));
    buf.extend_from_slice(&i32_bytes(0));
    let bias = match byte_order {
        ByteOrder::LittleEndian => 100.0_f64.to_le_bytes(),
        ByteOrder::BigEndian => 100.0_f64.to_be_bytes(),
    };
    buf.extend_from_slice(&bias);
    buf.extend_from_slice(b"01 Jan 24");
    buf.extend_from_slice(b"00:00:00");
    buf.extend_from_slice(&[b' '; 64]);
    buf.extend_from_slice(&[0_u8; 3]);
    assert_eq!(buf.len(), 176);
    buf
}

/// Appends a type-7 record with the given envelope and payload.
fn write_extension_record(
    bytes: &mut Vec<u8>,
    byte_order: ByteOrder,
    subtype: i32,
    element_size: u32,
    element_count: u32,
    payload: &[u8],
) {
    let (rec_type, subtype, size, count) = match byte_order {
        ByteOrder::LittleEndian => (
            7_i32.to_le_bytes(),
            subtype.to_le_bytes(),
            element_size.to_le_bytes(),
            element_count.to_le_bytes(),
        ),
        ByteOrder::BigEndian => (
            7_i32.to_be_bytes(),
            subtype.to_be_bytes(),
            element_size.to_be_bytes(),
            element_count.to_be_bytes(),
        ),
    };
    bytes.extend_from_slice(&rec_type);
    bytes.extend_from_slice(&subtype);
    bytes.extend_from_slice(&size);
    bytes.extend_from_slice(&count);
    bytes.extend_from_slice(payload);
}

/// Appends the type-999 record that ends the dictionary.
fn write_terminator(bytes: &mut Vec<u8>, byte_order: ByteOrder) {
    let (rec_type, filler) = match byte_order {
        ByteOrder::LittleEndian => (999_i32.to_le_bytes(), 0_i32.to_le_bytes()),
        ByteOrder::BigEndian => (999_i32.to_be_bytes(), 0_i32.to_be_bytes()),
    };
    bytes.extend_from_slice(&rec_type);
    bytes.extend_from_slice(&filler);
}

/// Reads the header of `bytes` and returns the dictionary phase.
fn open(bytes: Vec<u8>) -> DictionaryReader {
    HeaderReader::new(bytes, EncodingStrategy::default())
        .read_header()
        .expect("valid header")
}

/// Asserts that `err` is an unexpected-value format error on `field`.
fn assert_unexpected_value_error(err: &SavError, field: Field) {
    match err {
        SavError::Format(e) => assert_eq!(e.kind(), FormatErrorKind::UnexpectedValue { field }),
        other => panic!("expected a format error, got {other:?}"),
    }
}

/// Asserts that the next record was skipped as malformed: reading goes
/// on to the terminator, with one warning naming `subtype`.
fn assert_degraded_extension(dict: &mut DictionaryReader, subtype: ExtensionSubtype) {
    let code = subtype.code().expect("named subtype");
    let record = dict.read_record().expect("skipped, not failed");
    assert!(record.is_none(), "expected the record to be skipped, got {record:?}");
    assert_eq!(dict.warnings(), &[SavWarning::MalformedExtension { subtype: code }]);
}

#[test]
fn parse_dichotomy_variable_labels() {
    let payload = b"$dich=D1 1 13 Dichotomy set q1 q2 q3\n";
    let result = parse(1, payload, &TextEncoding::windows_1252(), 0).unwrap();
    assert_eq!(result.len(), 1);
    let set = &result[0];
    assert_eq!(set.name(), "$dich"); // leading '$' preserved
    assert_eq!(set.label(), "Dichotomy set");
    assert_eq!(
        set.variables(),
        ["q1".to_string(), "q2".to_string(), "q3".to_string()]
    );
    let MultipleResponseSetKind::MultipleDichotomy {
        counted_value,
        category_labels,
    } = set.kind()
    else {
        panic!("expected dichotomy, got {:?}", set.kind());
    };
    assert_eq!(counted_value.as_str(), "1");
    assert_eq!(*category_labels, CategoryLabelSource::VariableLabels);
}

#[test]
fn parse_category() {
    let payload = b"$cat=C 12 Category set q1 q2\n";
    let result = parse(1, payload, &TextEncoding::windows_1252(), 0).unwrap();
    let set = &result[0];
    assert_eq!(set.name(), "$cat");
    assert_eq!(set.label(), "Category set");
    assert_eq!(set.variables(), ["q1".to_string(), "q2".to_string()]);
    assert_eq!(*set.kind(), MultipleResponseSetKind::MultipleCategory);
}

#[test]
fn parse_dichotomy_counted_values() {
    let payload = b"$counted=E 1 1 1 0  q2 q3\n";
    let result = parse(1, payload, &TextEncoding::windows_1252(), 0).unwrap();
    let set = &result[0];
    assert_eq!(set.name(), "$counted");
    assert_eq!(set.label(), ""); // empty label (counted string length 0)
    assert_eq!(set.variables(), ["q2".to_string(), "q3".to_string()]);
    let MultipleResponseSetKind::MultipleDichotomy {
        counted_value,
        category_labels,
    } = set.kind()
    else {
        panic!("expected dichotomy, got {:?}", set.kind());
    };
    assert_eq!(counted_value.as_str(), "1");
    assert_eq!(
        *category_labels,
        CategoryLabelSource::CountedValues { label_source: 1 }
    );
}

#[test]
fn parse_label_source_eleven() {
    // LABELSOURCE=VARLABEL is encoded as 11.
    let payload = b"$e=E 11 1 1 3 lbl a b\n";
    let result = parse(1, payload, &TextEncoding::windows_1252(), 0).unwrap();
    let MultipleResponseSetKind::MultipleDichotomy {
        category_labels: CategoryLabelSource::CountedValues { label_source },
        ..
    } = result[0].kind()
    else {
        panic!(
            "expected counted-values dichotomy, got {:?}",
            result[0].kind()
        );
    };
    assert_eq!(*label_source, 11);
    assert_eq!(result[0].label(), "lbl");
    assert_eq!(result[0].variables(), ["a".to_string(), "b".to_string()]);
}

#[test]
fn parse_multiple_sets_and_string_counted_value() {
    // Two sets on two lines; the first has a multi-byte string
    // counted value ("yes", length 3) whose internal space-free
    // bytes are read by length.
    let payload = b"$a=D3 yes 5 Label q1\n$b=C 3 Two q2 q3\n";
    let result = parse(1, payload, &TextEncoding::windows_1252(), 0).unwrap();
    assert_eq!(result.len(), 2);
    let MultipleResponseSetKind::MultipleDichotomy { counted_value, .. } = result[0].kind()
    else {
        panic!("expected dichotomy, got {:?}", result[0].kind());
    };
    assert_eq!(counted_value.as_str(), "yes");
    assert_eq!(result[0].variables(), ["q1".to_string()]);
    assert_eq!(*result[1].kind(), MultipleResponseSetKind::MultipleCategory);
    assert_eq!(result[1].label(), "Two");
}

#[test]
fn multiple_response_sets_parse_decodes_through_supplied_encoding() {
    // 0xE9 = é in Windows-1252; the label byte length counts bytes.
    let payload = b"$s=C 5 caf\xE9x q1\n";
    let result = parse(1, payload, &TextEncoding::windows_1252(), 0).unwrap();
    assert_eq!(result[0].label(), "caféx");
}

#[test]
fn multiple_response_sets_parse_empty_payload_yields_no_sets() {
    let result = parse(1, &[], &TextEncoding::windows_1252(), 0).unwrap();
    assert!(result.is_empty());
}

#[test]
fn multiple_response_sets_parse_rejects_wrong_element_size() {
    let err = parse(4, b"$a=C 1 x q1\n", &TextEncoding::windows_1252(), 0).unwrap_err();
    assert_unexpected_value_error(&err, Field::ExtensionElementSize);
}

#[test]
fn multiple_response_sets_parse_rejects_missing_equals() {
    let err = parse(1, b"$noeq\n", &TextEncoding::windows_1252(), 0).unwrap_err();
    assert_unexpected_value_error(&err, Field::MultipleResponseSet);
}

#[test]
fn parse_rejects_unknown_type_letter() {
    let err = parse(1, b"$a=X 1 x q1\n", &TextEncoding::windows_1252(), 0).unwrap_err();
    assert_unexpected_value_error(&err, Field::MultipleResponseSet);
}

#[test]
fn parse_rejects_counted_string_running_past_end() {
    // Label length 9 but only "Label" (5 bytes) remain.
    let err = parse(1, b"$a=C 9 Label\n", &TextEncoding::windows_1252(), 0).unwrap_err();
    assert_unexpected_value_error(&err, Field::MultipleResponseSet);
}
