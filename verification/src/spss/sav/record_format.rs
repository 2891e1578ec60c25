//! On-disk byte layout of the SAV data-record section: the bytecode
//! command codes and the ZSAV header and trailer fields.
use vstd::prelude::*;

verus! {

/// Number of command bytes in one bytecode command group.
pub const COMMAND_GROUP_LEN: usize = 8;
/// Command: padding, no data unit.
pub const COMMAND_PADDING: u8 = 0;
/// Smallest inline-integer command (the value is `code - bias`).
pub const COMMAND_INLINE_MIN: u8 = 1;
/// Largest inline-integer command.
pub const COMMAND_INLINE_MAX: u8 = 251;
/// Command: end of data.
pub const COMMAND_END_OF_DATA: u8 = 252;
/// Command: the next eight bytes follow verbatim.
pub const COMMAND_VERBATIM: u8 = 253;
/// Command: eight spaces.
pub const COMMAND_ALL_SPACES: u8 = 254;
/// Command: the system-missing value.
pub const COMMAND_SYSTEM_MISSING: u8 = 255;

/// Length of the ZSAV header record.
pub const ZHEADER_LEN: usize = 24;
/// Offset of the ZSAV header's own position.
pub const ZHEADER_SELF_OFFSET: usize = 0;
/// Offset of the trailer's position in the ZSAV header.
pub const ZHEADER_TRAILER_POSITION_OFFSET: usize = 8;
/// Offset of the trailer's length in the ZSAV header.
pub const ZHEADER_TRAILER_LEN_OFFSET: usize = 16;
/// Length of the fixed part of the ZSAV trailer.
pub const ZTRAILER_HEADER_LEN: usize = 24;
/// Offset of the bias in the ZSAV trailer.
pub const ZTRAILER_BIAS_OFFSET: usize = 0;
/// Offset of the zero field in the ZSAV trailer.
pub const ZTRAILER_ZERO_OFFSET: usize = 8;
/// Offset of the block size in the ZSAV trailer.
pub const ZTRAILER_BLOCK_SIZE_OFFSET: usize = 16;
/// Offset of the block count in the ZSAV trailer.
pub const ZTRAILER_BLOCK_COUNT_OFFSET: usize = 20;
/// Length of one ZSAV trailer block entry.
pub const ZTRAILER_ENTRY_LEN: usize = 24;
/// Offset of a block's uncompressed position in its entry.
pub const ZTRAILER_ENTRY_UNCOMPRESSED_POSITION_OFFSET: usize = 0;
/// Offset of a block's compressed position in its entry.
pub const ZTRAILER_ENTRY_COMPRESSED_POSITION_OFFSET: usize = 8;
/// Offset of a block's uncompressed length in its entry.
pub const ZTRAILER_ENTRY_UNCOMPRESSED_LEN_OFFSET: usize = 16;
/// Offset of a block's compressed length in its entry.
pub const ZTRAILER_ENTRY_COMPRESSED_LEN_OFFSET: usize = 20;
/// The block size SPSS writes in the ZSAV trailer.
pub const ZTRAILER_BLOCK_SIZE_DEFAULT: i32 = 4190208;

/// How a bytecode command byte is handled.
pub open spec fn command_class(code: u8) -> int {
    if code == COMMAND_PADDING {
        0
    } else if COMMAND_INLINE_MIN <= code <= COMMAND_INLINE_MAX {
        1
    } else if code == COMMAND_END_OF_DATA {
        2
    } else if code == COMMAND_VERBATIM {
        3
    } else if code == COMMAND_ALL_SPACES {
        4
    } else if code == COMMAND_SYSTEM_MISSING {
        5
    } else {
        6
    }
}

/// Every byte is exactly one command: padding, an inline integer, or
/// one of the four special commands; the special codes are distinct and
/// lie outside the inline range.
pub proof fn lemma_command_codes_partition(code: u8)
    ensures
        command_class(code) < 6,
        COMMAND_INLINE_MIN <= code <= COMMAND_INLINE_MAX <==> command_class(code) == 1,
{
}

/// Each fixed ZSAV record is tiled by its fields without gap or
/// overlap.
pub proof fn lemma_zsav_fields_tile()
    ensures
        ZHEADER_SELF_OFFSET == 0,
        ZHEADER_SELF_OFFSET + 8 == ZHEADER_TRAILER_POSITION_OFFSET,
        ZHEADER_TRAILER_POSITION_OFFSET + 8 == ZHEADER_TRAILER_LEN_OFFSET,
        ZHEADER_TRAILER_LEN_OFFSET + 8 == ZHEADER_LEN,
        ZTRAILER_BIAS_OFFSET == 0,
        ZTRAILER_BIAS_OFFSET + 8 == ZTRAILER_ZERO_OFFSET,
        ZTRAILER_ZERO_OFFSET + 8 == ZTRAILER_BLOCK_SIZE_OFFSET,
        ZTRAILER_BLOCK_SIZE_OFFSET + 4 == ZTRAILER_BLOCK_COUNT_OFFSET,
        ZTRAILER_BLOCK_COUNT_OFFSET + 4 == ZTRAILER_HEADER_LEN,
        ZTRAILER_ENTRY_UNCOMPRESSED_POSITION_OFFSET == 0,
        ZTRAILER_ENTRY_UNCOMPRESSED_POSITION_OFFSET + 8 == ZTRAILER_ENTRY_COMPRESSED_POSITION_OFFSET,
        ZTRAILER_ENTRY_COMPRESSED_POSITION_OFFSET + 8 == ZTRAILER_ENTRY_UNCOMPRESSED_LEN_OFFSET,
        ZTRAILER_ENTRY_UNCOMPRESSED_LEN_OFFSET + 4 == ZTRAILER_ENTRY_COMPRESSED_LEN_OFFSET,
        ZTRAILER_ENTRY_COMPRESSED_LEN_OFFSET + 4 == ZTRAILER_ENTRY_LEN,
{
}

} // verus!
