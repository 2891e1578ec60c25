//! Tests of float sentinels.

use spss_sav::spss::sav::byte_order::ByteOrder;
use spss_sav::spss::sav::dictionary_reader::DictionaryReader;
use spss_sav::spss::sav::dictionary_record::DictionaryRecord;
use spss_sav::spss::sav::encoding_strategy::EncodingStrategy;
use spss_sav::spss::sav::extensions::extension_record::ExtensionRecord;
use spss_sav::spss::sav::extensions::extension_subtype::ExtensionSubtype;
use spss_sav::spss::sav::header_reader::HeaderReader;
use spss_sav::spss::sav::sav_error::{Field, FormatErrorKind, SavError};
use spss_sav::spss::sav::sav_warning::SavWarning;
use spss_sav::spss::sav::text_encoding::TextEncoding;

use spss_sav::spss::sav::extensions::float_sentinels::{parse, FloatSentinels};
use spss_sav::spss::sav::float_encoding::FloatEncoding;
use spss_sav::spss::sav::float_format::FloatFormat;


/// A valid little- or big-endian file header: `$FL2`, bytecode
/// compression, IEEE 754 bias, no weight, no cases.
fn build_header(byte_order: ByteOrder) -> Vec<u8> {
    let i32_bytes = |v: i32| match byte_order {
        ByteOrder::LittleEndian => v.to_le_bytes(),
        ByteOrder::BigEndian => v.to_be_bytes(),
    };
    let mut buf = Vec::with_capacity(176);
    buf.extend_from_slice(b"$FL2");
    let mut product = [b' '; 60];
    let name = b"@(#) SPSS DATA FILE spss_sav";
    product[..name.len()].copy_from_slice(name);
    buf.extend_from_slice(&product);
    buf.extend_from_slice(&i32_bytes(2));
    buf.extend_from_slice(&i32_bytes(0));
    buf.extend_from_slice(&i32_bytes(1));
    buf.extend_from_slice(&i32_bytes(0));
    buf.extend_from_slice(&i32_bytes(0));
    let bias = match byte_order {
        ByteOrder::LittleEndian => 100.0_f64.to_le_bytes(),
        ByteOrder::BigEndian => 100.0_f64.to_be_bytes(),
    };
    buf.extend_from_slice(&bias);
    buf.extend_from_slice(b"01 Jan 24");
    buf.extend_from_slice(b"00:00:00");
    buf.extend_from_slice(&[b' '; 64]);
    buf.extend_from_slice(&[0_u8; 3]);
    assert_eq!(buf.len(), 176);
    buf
}

/// Appends a type-7 record with the given envelope and payload.
fn write_extension_record(
    bytes: &mut Vec<u8>,
    byte_order: ByteOrder,
    subtype: i32,
    element_size: u32,
    element_count: u32,
    payload: &[u8],
) {
    let (rec_type, subtype, size, count) = match byte_order {
        ByteOrder::LittleEndian => (
            7_i32.to_le_bytes(),
            subtype.to_le_bytes(),
            element_size.to_le_bytes(),
            element_count.to_le_bytes(),
        ),
        ByteOrder::BigEndian => (
            7_i32.to_be_bytes(),
            subtype.to_be_bytes(),
            element_size.to_be_bytes(),
            element_count.to_be_bytes(),
        ),
    };
    bytes.extend_from_slice(&rec_type);
    bytes.extend_from_slice(&subtype);
    bytes.extend_from_slice(&size);
    bytes.extend_from_slice(&count);
    bytes.extend_from_slice(payload);
}

/// Appends the type-999 record that ends the dictionary.
fn write_terminator(bytes: &mut Vec<u8>, byte_order: ByteOrder) {
    let (rec_type, filler) = match byte_order {
        ByteOrder::LittleEndian => (999_i32.to_le_bytes(), 0_i32.to_le_bytes()),
        ByteOrder::BigEndian => (999_i32.to_be_bytes(), 0_i32.to_be_bytes()),
    };
    bytes.extend_from_slice(&rec_type);
    bytes.extend_from_slice(&filler);
}

/// Reads the header of `bytes` and returns the dictionary phase.
fn open(bytes: Vec<u8>) -> DictionaryReader {
    HeaderReader::new(bytes, EncodingStrategy::default())
        .read_header()
        .expect("valid header")
}

/// Asserts that `err` is an unexpected-value format error on `field`.
fn assert_unexpected_value_error(err: &SavError, field: Field) {
    match err {
        SavError::Format(e) => assert_eq!(e.kind(), FormatErrorKind::UnexpectedValue { field }),
        other => panic!("expected a format error, got {other:?}"),
    }
}

/// Asserts that the next record was skipped as malformed: reading goes
/// on to the terminator, with one warning naming `subtype`.
fn assert_degraded_extension(dict: &mut DictionaryReader, subtype: ExtensionSubtype) {
    let code = subtype.code().expect("named subtype");
    let record = dict.read_record().expect("skipped, not failed");
    assert!(record.is_none(), "expected the record to be skipped, got {record:?}");
    assert_eq!(dict.warnings(), &[SavWarning::MalformedExtension { subtype: code }]);
}

/// The encoding a header with these two fields would describe.
fn encoding_of(format: FloatFormat, byte_order: ByteOrder) -> FloatEncoding {
    FloatEncoding::new(format, byte_order)
}

fn ieee(byte_order: ByteOrder) -> FloatEncoding {
    encoding_of(FloatFormat::Ieee754, byte_order)
}

/// Decodes eight on-disk bytes in `encoding` through the conversion
/// crates.
fn decode(encoding: FloatEncoding, bytes: [u8; 8]) -> f64 {
    match encoding.format() {
        FloatFormat::Ieee754 => match encoding.byte_order() {
            ByteOrder::LittleEndian => f64::from_le_bytes(bytes),
            ByteOrder::BigEndian => f64::from_be_bytes(bytes),
        },
        FloatFormat::IbmHfp => f64::from(ibm_hfp::IbmFloat64::from_be_bytes(bytes)),
        FloatFormat::VaxDFloat => vax_floating::DFloating::from_le_bytes(bytes).to_f64(),
        FloatFormat::VaxGFloat => vax_floating::GFloating::from_le_bytes(bytes).to_f64(),
        _ => f64::NAN,
    }
}

#[test]
fn spss_defaults_match_the_canonical_little_endian_triple() {
    // Byte-for-byte the values PSPP wrote into
    // `tests/fixtures/comprehensive.sav`.
    let sentinels = FloatSentinels::spss_defaults(ieee(ByteOrder::LittleEndian));
    assert_eq!(
        sentinels.system_missing(),
        [0xFF, 0xFF, 0xFF, 0xFF, 0xFF, 0xFF, 0xEF, 0xFF],
    );
    assert_eq!(
        sentinels.highest(),
        [0xFF, 0xFF, 0xFF, 0xFF, 0xFF, 0xFF, 0xEF, 0x7F],
    );
    assert_eq!(
        sentinels.lowest(),
        [0xFE, 0xFF, 0xFF, 0xFF, 0xFF, 0xFF, 0xEF, 0xFF],
    );
}

#[test]
fn spss_defaults_honor_the_byte_order() {
    let little = FloatSentinels::spss_defaults(ieee(ByteOrder::LittleEndian));
    let big = FloatSentinels::spss_defaults(ieee(ByteOrder::BigEndian));
    assert_ne!(little, big);

    let mut reversed = little.system_missing();
    reversed.reverse();
    assert_eq!(big.system_missing(), reversed);
}

#[test]
fn spss_defaults_keep_lowest_distinct_in_every_format() {
    // LOWEST is system-missing with the fraction decremented, so
    // the patterns must differ in every format — even where the
    // two collapse to the same f64 (IBM HFP and VAX D_float carry
    // more mantissa bits than a double).
    for format in [
        FloatFormat::Ieee754,
        FloatFormat::IbmHfp,
        FloatFormat::VaxDFloat,
        FloatFormat::VaxGFloat,
    ] {
        let sentinels =
            FloatSentinels::spss_defaults(encoding_of(format, ByteOrder::LittleEndian));
        assert_ne!(
            sentinels.lowest(),
            sentinels.system_missing(),
            "{format:?} LOWEST collides with system missing",
        );
    }
}

#[test]
fn spss_defaults_ignore_byte_order_for_the_legacy_formats() {
    for format in [
        FloatFormat::IbmHfp,
        FloatFormat::VaxDFloat,
        FloatFormat::VaxGFloat,
    ] {
        assert_eq!(
            FloatSentinels::spss_defaults(encoding_of(format, ByteOrder::LittleEndian)),
            FloatSentinels::spss_defaults(encoding_of(format, ByteOrder::BigEndian)),
            "{format:?}",
        );
    }
}

#[test]
fn reader_float_sentinels() {
    let byte_order = ByteOrder::LittleEndian;
    let mut bytes = build_header(byte_order);
    // Three known IEEE 754 bit patterns: a NaN (system missing in
    // IEEE files), -Inf (LOWEST), +Inf (HIGHEST).
    let sys = f64::from_bits(0xFFF8_0000_0000_0000);
    let high = f64::INFINITY;
    let low = f64::NEG_INFINITY;
    let mut payload = Vec::with_capacity(24);
    payload.extend_from_slice(&sys.to_le_bytes());
    payload.extend_from_slice(&high.to_le_bytes());
    payload.extend_from_slice(&low.to_le_bytes());
    write_extension_record(&mut bytes, byte_order, 4, 8, 3, &payload);
    write_terminator(&mut bytes, byte_order);

    let mut dict = open(bytes);
    let record = dict.read_record().unwrap().unwrap();
    let DictionaryRecord::Extension(ExtensionRecord::FloatInfo(sentinels)) = record else {
        panic!("expected FloatInfo, got {record:?}");
    };
    assert_eq!(sentinels.system_missing(), sys.to_le_bytes());
    assert_eq!(sentinels.highest(), high.to_le_bytes());
    assert_eq!(sentinels.lowest(), low.to_le_bytes());
    assert!(dict.warnings().is_empty());
}

#[test]
fn reader_preserves_arbitrary_bit_patterns() {
    // Use a non-canonical NaN to confirm the bytes are not
    // normalized through any IEEE decode path.
    let byte_order = ByteOrder::LittleEndian;
    let mut bytes = build_header(byte_order);
    let sys = [0x11, 0x22, 0x33, 0x44, 0x55, 0x66, 0x77, 0x7F];
    let high = [0xDE, 0xAD, 0xBE, 0xEF, 0xDE, 0xAD, 0xBE, 0xEF];
    let low = [0xFE, 0xED, 0xFA, 0xCE, 0xFE, 0xED, 0xFA, 0xCE];
    let mut payload = Vec::with_capacity(24);
    payload.extend_from_slice(&sys);
    payload.extend_from_slice(&high);
    payload.extend_from_slice(&low);
    write_extension_record(&mut bytes, byte_order, 4, 8, 3, &payload);
    write_terminator(&mut bytes, byte_order);

    let mut dict = open(bytes);
    let DictionaryRecord::Extension(ExtensionRecord::FloatInfo(sentinels)) =
        dict.read_record().unwrap().unwrap()
    else {
        panic!("expected FloatInfo");
    };
    assert_eq!(sentinels.system_missing(), sys);
    assert_eq!(sentinels.highest(), high);
    assert_eq!(sentinels.lowest(), low);
}

#[test]
fn reader_carries_bytes_verbatim_regardless_of_byte_order() {
    // Even with big-endian header byte order, the sentinel bytes
    // are stored verbatim — no byte-swapping is applied here
    // because the float-format decode is the consumer's concern.
    let byte_order = ByteOrder::BigEndian;
    let mut bytes = build_header(byte_order);
    let payload: [u8; 24] = std::array::from_fn(|i| u8::try_from(i).unwrap());
    write_extension_record(&mut bytes, byte_order, 4, 8, 3, &payload);
    write_terminator(&mut bytes, byte_order);

    let mut dict = open(bytes);
    let DictionaryRecord::Extension(ExtensionRecord::FloatInfo(sentinels)) =
        dict.read_record().unwrap().unwrap()
    else {
        panic!("expected FloatInfo");
    };
    assert_eq!(sentinels.system_missing(), [0, 1, 2, 3, 4, 5, 6, 7]);
    assert_eq!(sentinels.highest(), [8, 9, 10, 11, 12, 13, 14, 15]);
    assert_eq!(sentinels.lowest(), [16, 17, 18, 19, 20, 21, 22, 23]);
}

#[test]
fn float_sentinels_reader_wrong_element_size_degrades() {
    let byte_order = ByteOrder::LittleEndian;
    let mut bytes = build_header(byte_order);
    write_extension_record(&mut bytes, byte_order, 4, 4, 3, &[0; 12]);
    write_terminator(&mut bytes, byte_order);

    let mut dict = open(bytes);
    assert_degraded_extension(&mut dict, ExtensionSubtype::FloatInfo);
}

#[test]
fn float_sentinels_reader_wrong_element_count_degrades() {
    let byte_order = ByteOrder::LittleEndian;
    let mut bytes = build_header(byte_order);
    write_extension_record(&mut bytes, byte_order, 4, 8, 2, &[0; 16]);
    write_terminator(&mut bytes, byte_order);

    let mut dict = open(bytes);
    assert_degraded_extension(&mut dict, ExtensionSubtype::FloatInfo);
}

#[test]
fn spss_defaults_keep_lowest_distinct_from_system_missing() {
    // The one-ULP gap is load-bearing: an open lower bound must
    // never collide with a system-missing cell.
    let encoding = ieee(ByteOrder::LittleEndian);
    let sentinels = FloatSentinels::spss_defaults(encoding);
    assert_ne!(sentinels.lowest(), sentinels.system_missing());

    let system_missing = decode(encoding, sentinels.system_missing());
    let lowest = decode(encoding, sentinels.lowest());
    let highest = decode(encoding, sentinels.highest());
    assert_eq!(system_missing.to_bits(), (-f64::MAX).to_bits());
    assert_eq!(lowest.to_bits(), (-f64::MAX).next_up().to_bits());
    assert_eq!(highest.to_bits(), f64::MAX.to_bits());
}

#[test]
fn spss_defaults_round_trip_through_both_byte_orders() {
    for byte_order in [ByteOrder::LittleEndian, ByteOrder::BigEndian] {
        let encoding = ieee(byte_order);
        let sentinels = FloatSentinels::spss_defaults(encoding);
        assert_eq!(
            decode(encoding, sentinels.system_missing()).to_bits(),
            (-f64::MAX).to_bits(),
            "{byte_order:?}",
        );
    }
}

#[test]
fn spss_defaults_are_each_format_extremes() {
    // System-missing is the format's most-negative finite value,
    // HIGHEST its most-positive, checked against the conversion crates'
    // own extremes.
    let cases: [(FloatFormat, f64, f64); 3] = [
        (
            FloatFormat::IbmHfp,
            f64::from(ibm_hfp::IbmFloat64::MIN_VALUE),
            f64::from(ibm_hfp::IbmFloat64::MAX_VALUE),
        ),
        (
            FloatFormat::VaxDFloat,
            vax_floating::DFloating::MIN.to_f64(),
            vax_floating::DFloating::MAX.to_f64(),
        ),
        (
            FloatFormat::VaxGFloat,
            vax_floating::GFloating::MIN.to_f64(),
            vax_floating::GFloating::MAX.to_f64(),
        ),
    ];
    for (format, minimum, maximum) in cases {
        let encoding = encoding_of(format, ByteOrder::LittleEndian);
        let sentinels = FloatSentinels::spss_defaults(encoding);
        assert_eq!(
            decode(encoding, sentinels.system_missing()).to_bits(),
            minimum.to_bits(),
            "{} system missing",
            format.to_string(),
        );
        assert_eq!(
            decode(encoding, sentinels.highest()).to_bits(),
            maximum.to_bits(),
            "{} highest",
            format.to_string(),
        );
    }
}

#[test]
fn spss_defaults_never_produce_a_vax_reserved_operand() {
    // The VAX reserved operand is sign-set with a zero exponent; the
    // sentinels use the maximum exponent, so they must decode to real
    // numbers rather than NaN.
    for format in [FloatFormat::VaxDFloat, FloatFormat::VaxGFloat] {
        let encoding = encoding_of(format, ByteOrder::LittleEndian);
        let sentinels = FloatSentinels::spss_defaults(encoding);
        assert!(
            decode(encoding, sentinels.system_missing()) < 0.0,
            "{} system missing decoded to NaN or a positive",
            format.to_string(),
        );
        assert!(decode(encoding, sentinels.highest()) > 0.0, "{} highest", format.to_string());
    }
}

#[test]
fn as_f64_decodes_a_record_read_from_disk() {
    let byte_order = ByteOrder::LittleEndian;
    let mut bytes = build_header(byte_order);
    let mut payload = Vec::with_capacity(24);
    payload.extend_from_slice(&(-f64::MAX).to_le_bytes());
    payload.extend_from_slice(&f64::MAX.to_le_bytes());
    payload.extend_from_slice(&(-f64::MAX).next_up().to_le_bytes());
    write_extension_record(&mut bytes, byte_order, 4, 8, 3, &payload);
    write_terminator(&mut bytes, byte_order);

    let mut dict = open(bytes);
    let record = dict.read_record().unwrap().unwrap();
    let DictionaryRecord::Extension(ExtensionRecord::FloatInfo(sentinels)) = record else {
        panic!("expected FloatInfo, got {record:?}");
    };
    let encoding = dict.header().float_encoding();
    assert_eq!(
        decode(encoding, sentinels.system_missing()).to_bits(),
        (-f64::MAX).to_bits(),
    );
    assert_eq!(decode(encoding, sentinels.highest()).to_bits(), f64::MAX.to_bits());
    assert_eq!(
        decode(encoding, sentinels.lowest()).to_bits(),
        (-f64::MAX).next_up().to_bits(),
    );
}

#[test]
fn float_sentinels_parse_rejects_a_wrong_shape_whatever_the_length() {
    let payload: Vec<u8> = (0..24).collect();
    let err = parse(4, 3, &payload, 0).unwrap_err();
    assert_unexpected_value_error(&err, Field::ExtensionElementSize);
    let err = parse(8, 2, &payload, 0).unwrap_err();
    assert_unexpected_value_error(&err, Field::ExtensionElementCount);
    let sentinels = parse(8, 3, &payload, 0).unwrap();
    assert_eq!(sentinels.system_missing(), [0, 1, 2, 3, 4, 5, 6, 7]);
    assert_eq!(sentinels.lowest(), [16, 17, 18, 19, 20, 21, 22, 23]);
}

#[test]
fn sentinel_tests_compare_exact_bytes() {
    let sentinels = FloatSentinels::spss_defaults(ieee(ByteOrder::LittleEndian));
    assert!(sentinels.is_lowest(sentinels.lowest()));
    assert!(!sentinels.is_lowest(sentinels.system_missing()));
    assert!(sentinels.is_highest(sentinels.highest()));
    assert!(!sentinels.is_highest(sentinels.lowest()));
}
