//! Tests of record format.


use spss_sav::spss::sav::record_format::{
    COMMAND_ALL_SPACES, COMMAND_END_OF_DATA, COMMAND_INLINE_MAX, COMMAND_INLINE_MIN,
    COMMAND_PADDING, COMMAND_SYSTEM_MISSING, COMMAND_VERBATIM, ZHEADER_LEN, ZHEADER_SELF_OFFSET,
    ZHEADER_TRAILER_LEN_OFFSET, ZHEADER_TRAILER_POSITION_OFFSET, ZTRAILER_BIAS_OFFSET,
    ZTRAILER_BLOCK_COUNT_OFFSET, ZTRAILER_BLOCK_SIZE_OFFSET, ZTRAILER_ENTRY_COMPRESSED_LEN_OFFSET,
    ZTRAILER_ENTRY_COMPRESSED_POSITION_OFFSET, ZTRAILER_ENTRY_LEN,
    ZTRAILER_ENTRY_UNCOMPRESSED_LEN_OFFSET, ZTRAILER_ENTRY_UNCOMPRESSED_POSITION_OFFSET,
    ZTRAILER_HEADER_LEN, ZTRAILER_ZERO_OFFSET,
};

/// Every command code is distinct and the inline range does not
/// collide with any of the four special codes.
#[test]
fn command_codes_do_not_overlap() {
    let special = [
        COMMAND_PADDING,
        COMMAND_END_OF_DATA,
        COMMAND_VERBATIM,
        COMMAND_ALL_SPACES,
        COMMAND_SYSTEM_MISSING,
    ];
    for (index, code) in special.iter().enumerate() {
        assert!(
            !special[..index].contains(code),
            "duplicate special code {code}",
        );
        assert!(
            !(COMMAND_INLINE_MIN..=COMMAND_INLINE_MAX).contains(code),
            "special code {code} falls in the inline range",
        );
    }
}

/// The inline range plus the special codes tile the whole byte
/// range, so no command byte is unaccounted for.
#[test]
fn command_codes_tile_the_byte_range() {
    let mut covered = [false; 256];
    for code in [
        COMMAND_PADDING,
        COMMAND_END_OF_DATA,
        COMMAND_VERBATIM,
        COMMAND_ALL_SPACES,
        COMMAND_SYSTEM_MISSING,
    ] {
        covered[usize::from(code)] = true;
    }
    for code in COMMAND_INLINE_MIN..=COMMAND_INLINE_MAX {
        covered[usize::from(code)] = true;
    }
    assert!(
        covered.iter().all(|seen| *seen),
        "a command code is unhandled"
    );
}

/// With the canonical bias the inline codes cover exactly the range
/// the compressor emits them for. Stated in integers: the
/// endpoints are whole numbers, and the decoder's `f64` arithmetic
/// represents them exactly.
#[test]
fn inline_codes_cover_the_canonical_range() {
    let bias = 100_i32;
    assert_eq!(i32::from(COMMAND_INLINE_MIN) - bias, -99);
    assert_eq!(i32::from(COMMAND_INLINE_MAX) - bias, 151);
}

/// The ZSAV field offsets tile their records with no gap or
/// overlap.
#[test]
fn zsav_field_offsets_tile_their_records() {
    let zheader = [
        (ZHEADER_SELF_OFFSET, 8),
        (ZHEADER_TRAILER_POSITION_OFFSET, 8),
        (ZHEADER_TRAILER_LEN_OFFSET, 8),
    ];
    assert_tiles(&zheader, ZHEADER_LEN);

    let ztrailer = [
        (ZTRAILER_BIAS_OFFSET, 8),
        (ZTRAILER_ZERO_OFFSET, 8),
        (ZTRAILER_BLOCK_SIZE_OFFSET, 4),
        (ZTRAILER_BLOCK_COUNT_OFFSET, 4),
    ];
    assert_tiles(&ztrailer, ZTRAILER_HEADER_LEN);

    let entry = [
        (ZTRAILER_ENTRY_UNCOMPRESSED_POSITION_OFFSET, 8),
        (ZTRAILER_ENTRY_COMPRESSED_POSITION_OFFSET, 8),
        (ZTRAILER_ENTRY_UNCOMPRESSED_LEN_OFFSET, 4),
        (ZTRAILER_ENTRY_COMPRESSED_LEN_OFFSET, 4),
    ];
    assert_tiles(&entry, ZTRAILER_ENTRY_LEN);
}

/// Asserts `fields` covers `0..total` exactly once.
fn assert_tiles(fields: &[(usize, usize)], total: usize) {
    let mut covered = vec![false; total];
    for &(offset, len) in fields {
        for byte in &mut covered[offset..offset + len] {
            assert!(!*byte, "overlapping field at offset {offset}");
            *byte = true;
        }
    }
    assert!(covered.iter().all(|seen| *seen), "a field is uncovered");
}
