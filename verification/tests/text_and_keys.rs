//! Tests of text encodings, string missing-value keys and header
//! details.

use spss_sav::spss::sav::byte_order::ByteOrder;
use spss_sav::spss::sav::encoding_strategy::EncodingStrategy;
use spss_sav::spss::sav::extensions::float_sentinels::FloatSentinels;
use spss_sav::spss::sav::float_encoding::FloatEncoding;
use spss_sav::spss::sav::float_format::FloatFormat;
use spss_sav::spss::sav::header_parse::{
    parse_case_count, parse_layout_code, parse_magic, parse_weight_index, resolve_compression,
    MagicKind,
};
use spss_sav::spss::sav::compression::Compression;
use spss_sav::spss::sav::header_reader::HeaderReader;
use spss_sav::spss::sav::missing_value_keys::{comparison_key, key_matches};
use spss_sav::spss::sav::raw_missing_values::RawMissingValues;
use spss_sav::spss::sav::sav_error::{FormatErrorKind, SavError, Section};
use spss_sav::spss::sav::sav_warning::SavWarning;
use spss_sav::spss::sav::text_encoding::TextEncoding;

#[test]
fn labels_resolve_case_insensitively() {
    let latin = TextEncoding::for_label(b"LATIN1").expect("a known label");
    assert_eq!(latin.name(), "windows-1252");
    assert!(TextEncoding::for_label(b"no-such-encoding").is_none());
}

#[test]
fn decoding_depends_on_the_encoding() {
    let bytes = [b'c', b'a', b'f', 0xC3, 0xA9];
    assert_eq!(TextEncoding::utf_8().decode(&bytes), "caf\u{e9}");
    assert_eq!(TextEncoding::windows_1252().decode(&bytes), "caf\u{c3}\u{a9}");
}

#[test]
fn the_fixed_encodings_have_their_canonical_names() {
    assert_eq!(TextEncoding::windows_1252().name(), "windows-1252");
    assert_eq!(TextEncoding::utf_8().name(), "UTF-8");
}

#[test]
fn comparison_keys_drop_padding_and_excess() {
    assert_eq!(comparison_key(b"ab  \0"), b"ab");
    assert_eq!(comparison_key(b"abcdefghij"), b"abcdefgh");
    assert_eq!(comparison_key(b""), b"");
}

#[test]
fn string_keys_match_regardless_of_padding() {
    assert!(key_matches(b"yes     ", b"yes"));
    assert!(key_matches(b"abcdefgh", b"abcdefghXYZ"));
    assert!(!key_matches(b"yes", b"yes!"));
    assert!(!key_matches(b"ye", b"yes"));
}

#[test]
fn magic_bytes_are_recognized() {
    assert_eq!(parse_magic(*b"$FL2", 0).unwrap(), MagicKind::Fl2);
    assert_eq!(parse_magic(*b"$FL3", 0).unwrap(), MagicKind::Fl3);
    let err = parse_magic(*b"$FL4", 0).unwrap_err();
    assert!(matches!(err, SavError::Format(ref e) if e.kind() == FormatErrorKind::InvalidMagic));
}

#[test]
fn layout_codes_pick_the_byte_order() {
    assert_eq!(parse_layout_code([2, 0, 0, 0], 64).unwrap(), ByteOrder::LittleEndian);
    assert_eq!(parse_layout_code([0, 0, 0, 3], 64).unwrap(), ByteOrder::BigEndian);
    let err = parse_layout_code([0, 0, 0, 4], 64).unwrap_err();
    match err {
        SavError::Format(e) => {
            assert_eq!(e.kind(), FormatErrorKind::UnreadableLayoutCode);
            assert_eq!(e.section(), Section::Header);
            assert_eq!(e.position(), 64);
        }
        other => panic!("expected a format error, got {other:?}"),
    }
}

#[test]
fn compression_follows_the_code_and_warns_on_the_magic() {
    assert_eq!(resolve_compression(1, MagicKind::Fl2, *b"$FL2"), (Compression::Bytecode, None));
    assert_eq!(resolve_compression(2, MagicKind::Fl3, *b"$FL3"), (Compression::Zlib, None));
    assert_eq!(
        resolve_compression(1, MagicKind::Fl3, *b"$FL3"),
        (
            Compression::Bytecode,
            Some(SavWarning::CompressionMismatch { rec_type: *b"$FL3", code: 1 })
        )
    );
    assert_eq!(
        resolve_compression(-1, MagicKind::Fl2, *b"$FL2"),
        (
            Compression::Uncompressed,
            Some(SavWarning::UnknownCompressionCode { code: -1 })
        )
    );
}

#[test]
fn header_counts_read_negative_as_absent() {
    assert_eq!(parse_weight_index(0), None);
    assert_eq!(parse_weight_index(7), Some(7));
    assert_eq!(parse_case_count(-1), None);
    assert_eq!(parse_case_count(0), Some(0));
}

#[test]
fn a_header_cut_short_is_an_io_error() {
    let mut bytes = b"$FL2".to_vec();
    bytes.extend_from_slice(&[b' '; 60]);
    bytes.extend_from_slice(&2_i32.to_le_bytes());
    bytes.extend_from_slice(&[0; 10]);
    let err = HeaderReader::new(bytes, EncodingStrategy::default())
        .read_header()
        .unwrap_err();
    assert!(matches!(err, SavError::Io { section: Section::Header, .. }), "got {err:?}");
}

#[test]
fn a_fresh_header_reader_has_no_warnings() {
    let reader = HeaderReader::new(Vec::new(), EncodingStrategy::default());
    assert!(reader.warnings().is_empty());
    assert_eq!(reader.encoding_strategy(), EncodingStrategy::default());
}

#[test]
fn big_endian_ieee_sentinels_are_the_little_endian_ones_reversed() {
    for (little, big) in [
        (
            FloatSentinels::spss_defaults(FloatEncoding::new(FloatFormat::Ieee754, ByteOrder::LittleEndian)),
            FloatSentinels::spss_defaults(FloatEncoding::new(FloatFormat::Ieee754, ByteOrder::BigEndian)),
        ),
    ] {
        let mut reversed = little.highest();
        reversed.reverse();
        assert_eq!(big.highest(), reversed);
        let mut reversed = little.lowest();
        reversed.reverse();
        assert_eq!(big.lowest(), reversed);
    }
}

#[test]
fn missing_value_slots_come_in_disk_order() {
    assert_eq!(RawMissingValues::Nothing.slots(), None);
    let a = *b"a       ";
    let b = *b"b       ";
    let c = *b"c       ";
    assert_eq!(RawMissingValues::Discrete(vec![a, b]).slots(), Some(vec![a, b]));
    assert_eq!(RawMissingValues::Range { low: a, high: b }.slots(), Some(vec![a, b]));
    assert_eq!(
        RawMissingValues::RangeWithDiscrete { low: a, high: b, discrete: c }.slots(),
        Some(vec![a, b, c]),
    );
}

#[test]
fn encodings_compare_by_identity_not_by_label() {
    let latin = TextEncoding::for_label(b"latin1").expect("a known label");
    assert_eq!(latin, TextEncoding::windows_1252());
    assert_eq!(TextEncoding::for_label(b" UTF8 ").unwrap(), TextEncoding::utf_8());
    assert_ne!(latin, TextEncoding::utf_8());
    assert_eq!(latin.decode(&[0x80]), "\u{20ac}");
}
