//! Parse helpers for the SAV file header.
//!
//! Each function takes already-read bytes (plus the byte offset at
//! which they were read, for error reporting) and returns the parsed
//! value or a [`SavError`]. The reading itself stays in the caller.
use vstd::prelude::*;

use crate::spss::sav::byte_order::ByteOrder;
use crate::spss::sav::compression::Compression;
use crate::spss::sav::float_format::FloatFormat;
use crate::spss::sav::header_format::{
    magic_fl2, magic_fl3, LAYOUT_CODE_ALTERNATE, LAYOUT_CODE_PRIMARY,
};
use crate::spss::sav::sav_error::{FormatErrorKind, Result, SavError, Section};
use crate::spss::sav::sav_warning::SavWarning;
use crate::spss::sav::text_encoding::TextEncoding;
use crate::spss::sav::text_field::{decode_trimmed, trim_padding};

verus! {

/// Which of the two magic strings a file starts with.
#[derive(Debug, Clone, Copy, PartialEq, Eq, Structural)]
pub enum MagicKind {
    /// `$FL2`: uncompressed or bytecode-compressed.
    Fl2,
    /// `$FL3`: zlib-compressed (ZSAV).
    Fl3,
}

/// The magic kind `bytes` spell, if any.
pub open spec fn magic_kind(bytes: Seq<u8>) -> Option<MagicKind> {
    if bytes == magic_fl2() {
        Some(MagicKind::Fl2)
    } else if bytes == magic_fl3() {
        Some(MagicKind::Fl3)
    } else {
        None
    }
}

/// Whether `error` is the header-section format error `kind` at
/// `position`.
pub open spec fn is_header_error(error: SavError, position: u64, kind: FormatErrorKind) -> bool {
    error.is_format(Section::Header, position, kind)
}

/// Recognizes the four magic bytes at the start of the header.
pub fn parse_magic(bytes: [u8; 4], position: u64) -> (res: Result<MagicKind>)
    ensures
        match magic_kind(bytes@) {
            Some(kind) => res == Ok::<MagicKind, SavError>(kind),
            None => res is Err && is_header_error(
                res->Err_0,
                position,
                FormatErrorKind::InvalidMagic,
            ),
        },
{
    let head = bytes[0] == 36 && bytes[1] == 70 && bytes[2] == 76;
    assert(bytes@ == magic_fl2() <==> head && bytes@[3] == 50) by {
        if head && bytes@[3] == 50 {
            assert(bytes@ =~= magic_fl2());
        }
    }
    assert(bytes@ == magic_fl3() <==> head && bytes@[3] == 51) by {
        if head && bytes@[3] == 51 {
            assert(bytes@ =~= magic_fl3());
        }
    }
    if head && bytes[3] == 50 {
        Ok(MagicKind::Fl2)
    } else if head && bytes[3] == 51 {
        Ok(MagicKind::Fl3)
    } else {
        Err(SavError::format(Section::Header, position, FormatErrorKind::InvalidMagic))
    }
}

/// Decodes the product-name field, trimming its padding.
pub fn parse_product_name(bytes: &[u8], encoding: &TextEncoding) -> (res: String)
    ensures
        res@ == encoding.decoded(trim_padding(bytes@)),
{
    decode_trimmed(bytes, encoding)
}

/// Whether `value` is one of the layout codes a reader accepts.
pub open spec fn is_layout_code(value: nat) -> bool {
    value == LAYOUT_CODE_PRIMARY || value == LAYOUT_CODE_ALTERNATE
}

/// The byte order under which the layout-code field reads as `2` or
/// `3`, trying little-endian first.
pub open spec fn layout_byte_order(bytes: Seq<u8>) -> Option<ByteOrder> {
    if is_layout_code(ByteOrder::LittleEndian.unsigned(bytes)) {
        Some(ByteOrder::LittleEndian)
    } else if is_layout_code(ByteOrder::BigEndian.unsigned(bytes)) {
        Some(ByteOrder::BigEndian)
    } else {
        None
    }
}

/// Determines the file's byte order from the layout-code field.
pub fn parse_layout_code(bytes: [u8; 4], position: u64) -> (res: Result<ByteOrder>)
    ensures
        match layout_byte_order(bytes@) {
            Some(byte_order) => res == Ok::<ByteOrder, SavError>(byte_order),
            None => res is Err && is_header_error(
                res->Err_0,
                position,
                FormatErrorKind::UnreadableLayoutCode,
            ),
        },
{
    let little = ByteOrder::LittleEndian.read_u32(bytes);
    if little == 2 || little == 3 {
        return Ok(ByteOrder::LittleEndian);
    }
    let big = ByteOrder::BigEndian.read_u32(bytes);
    if big == 2 || big == 3 {
        return Ok(ByteOrder::BigEndian);
    }
    Err(SavError::format(Section::Header, position, FormatErrorKind::UnreadableLayoutCode))
}

/// The compression a header code selects; unknown codes read as
/// uncompressed.
pub open spec fn compression_for_code(code: i32) -> Compression {
    if code == 1 {
        Compression::Bytecode
    } else if code == 2 {
        Compression::Zlib
    } else {
        Compression::Uncompressed
    }
}

/// The warning a compression code raises against the file's magic: an
/// unknown code always warns; a known code warns when the magic is not
/// the one it belongs with (`$FL3` for zlib, `$FL2` otherwise).
pub open spec fn compression_warning(code: i32, magic: MagicKind, rec_type: [u8; 4]) -> Option<
    SavWarning,
> {
    if !(0 <= code <= 2) {
        Some(SavWarning::UnknownCompressionCode { code })
    } else if (code == 2) != (magic == MagicKind::Fl3) {
        Some(SavWarning::CompressionMismatch { rec_type, code })
    } else {
        None
    }
}

/// Reconciles the header's compression code with its magic bytes. The
/// code decides the compression; a disagreement with the magic, or an
/// unknown code, is reported as a warning.
pub fn resolve_compression(code: i32, magic: MagicKind, rec_type: [u8; 4]) -> (res: (
    Compression,
    Option<SavWarning>,
))
    ensures
        res.0 == compression_for_code(code),
        res.1 == compression_warning(code, magic, rec_type),
{
    if code == 0 {
        match magic {
            MagicKind::Fl2 => (Compression::Uncompressed, None),
            MagicKind::Fl3 => (
                Compression::Uncompressed,
                Some(SavWarning::CompressionMismatch { rec_type, code }),
            ),
        }
    } else if code == 1 {
        match magic {
            MagicKind::Fl2 => (Compression::Bytecode, None),
            MagicKind::Fl3 => (
                Compression::Bytecode,
                Some(SavWarning::CompressionMismatch { rec_type, code }),
            ),
        }
    } else if code == 2 {
        match magic {
            MagicKind::Fl3 => (Compression::Zlib, None),
            MagicKind::Fl2 => (
                Compression::Zlib,
                Some(SavWarning::CompressionMismatch { rec_type, code }),
            ),
        }
    } else {
        (Compression::Uncompressed, Some(SavWarning::UnknownCompressionCode { code }))
    }
}

/// The one-based weight-variable index; `None` (no weight) unless
/// positive.
pub fn parse_weight_index(value: i32) -> (res: Option<usize>)
    ensures
        res == (if value > 0 {
            Some(value as usize)
        } else {
            None
        }),
{
    if value > 0 {
        Some(value as usize)
    } else {
        None
    }
}

/// The case count; a negative value (`-1`: unknown) gives `None`.
pub fn parse_case_count(value: i32) -> (res: Option<u32>)
    ensures
        res == (if value >= 0 {
            Some(value as u32)
        } else {
            None
        }),
{
    if value >= 0 {
        Some(value as u32)
    } else {
        None
    }
}

/// The nominal case size; a negative value gives `None`.
pub fn parse_nominal_case_size(value: i32) -> (res: Option<u32>)
    ensures
        res == (if value >= 0 {
            Some(value as u32)
        } else {
            None
        }),
{
    if value >= 0 {
        Some(value as u32)
    } else {
        None
    }
}

/// The IEEE 754 little-endian bytes of the canonical bias `100.0`.
pub open spec fn ieee_bias_le() -> Seq<u8> {
    seq![0u8, 0u8, 0u8, 0u8, 0u8, 0u8, 89u8, 64u8]
}

/// How `format` writes the canonical compression bias `100.0` in a file
/// of byte order `byte_order`. Only IEEE 754 follows the byte order; the
/// IBM and VAX layouts are fixed by their format.
pub open spec fn canonical_bias(format: FloatFormat, byte_order: ByteOrder) -> Seq<u8> {
    match format {
        FloatFormat::Ieee754 => match byte_order {
            ByteOrder::LittleEndian => ieee_bias_le(),
            ByteOrder::BigEndian => ieee_bias_le().reverse(),
        },
        FloatFormat::IbmHfp => seq![66u8, 100u8, 0u8, 0u8, 0u8, 0u8, 0u8, 0u8],
        FloatFormat::VaxDFloat => seq![200u8, 67u8, 0u8, 0u8, 0u8, 0u8, 0u8, 0u8],
        FloatFormat::VaxGFloat => seq![121u8, 64u8, 0u8, 0u8, 0u8, 0u8, 0u8, 0u8],
    }
}

/// The float format whose encoding of the canonical bias `bytes` is.
pub open spec fn identify_float_format(bytes: Seq<u8>, byte_order: ByteOrder) -> Option<FloatFormat> {
    if bytes == canonical_bias(FloatFormat::Ieee754, byte_order) {
        Some(FloatFormat::Ieee754)
    } else if bytes == canonical_bias(FloatFormat::IbmHfp, byte_order) {
        Some(FloatFormat::IbmHfp)
    } else if bytes == canonical_bias(FloatFormat::VaxDFloat, byte_order) {
        Some(FloatFormat::VaxDFloat)
    } else if bytes == canonical_bias(FloatFormat::VaxGFloat, byte_order) {
        Some(FloatFormat::VaxGFloat)
    } else {
        None
    }
}

/// The four formats write the canonical bias differently, so each
/// encoding identifies exactly its own format, whatever the byte order.
pub proof fn lemma_canonical_bias_identifies(format: FloatFormat, byte_order: ByteOrder)
    ensures
        identify_float_format(canonical_bias(format, byte_order), byte_order) == Some(format),
{
    let ieee = canonical_bias(FloatFormat::Ieee754, byte_order);
    let ibm = canonical_bias(FloatFormat::IbmHfp, byte_order);
    let vax_d = canonical_bias(FloatFormat::VaxDFloat, byte_order);
    let vax_g = canonical_bias(FloatFormat::VaxGFloat, byte_order);
    assert(ieee[0] == 0 || ieee[0] == 64) by {
        if byte_order == ByteOrder::BigEndian {
            assert(ieee[0] == ieee_bias_le()[7]);
        }
    }
    assert(ibm[0] == 66 && vax_d[0] == 200 && vax_g[0] == 121);
    if ieee == ibm || ieee == vax_d || ieee == vax_g {
        assert(ieee[0] == ibm[0] || ieee[0] == vax_d[0] || ieee[0] == vax_g[0]);
    }
    if ibm == vax_d || ibm == vax_g || vax_d == vax_g {
        assert(ibm[0] == vax_d[0] || ibm[0] == vax_g[0] || vax_d[0] == vax_g[0]);
    }
}

/// The IBM and VAX encodings of the canonical bias are fixed by their
/// format: a file of either byte order identifies them alike.
pub proof fn lemma_legacy_bias_ignores_byte_order(format: FloatFormat)
    requires
        format != FloatFormat::Ieee754,
    ensures
        canonical_bias(format, ByteOrder::LittleEndian) == canonical_bias(
            format,
            ByteOrder::BigEndian,
        ),
        identify_float_format(canonical_bias(format, ByteOrder::LittleEndian), ByteOrder::BigEndian)
            == Some(format),
{
    lemma_canonical_bias_identifies(format, ByteOrder::BigEndian);
}

/// Whether two 8-byte fields hold the same bytes.
fn same_bytes(a: [u8; 8], b: [u8; 8]) -> (res: bool)
    ensures
        res == (a@ == b@),
{
    let mut i: usize = 0;
    while i < 8
        invariant
            i <= 8,
            forall|j: int| 0 <= j < i ==> a@[j] == b@[j],
        decreases 8 - i,
    {
        if a[i] != b[i] {
            return false;
        }
        i = i + 1;
    }
    assert(a@ =~= b@);
    true
}

/// The format whose encoding of the canonical bias `100.0` the
/// compression-bias field `bytes` is, if any.
fn probe_bias(bytes: [u8; 8], byte_order: ByteOrder) -> (res: Option<FloatFormat>)
    ensures
        res == identify_float_format(bytes@, byte_order),
{
    let ieee = match byte_order {
        ByteOrder::LittleEndian => [0u8, 0u8, 0u8, 0u8, 0u8, 0u8, 89u8, 64u8],
        ByteOrder::BigEndian => [64u8, 89u8, 0u8, 0u8, 0u8, 0u8, 0u8, 0u8],
    };
    assert(ieee@ =~= canonical_bias(FloatFormat::Ieee754, byte_order));
    let ibm = [66u8, 100u8, 0u8, 0u8, 0u8, 0u8, 0u8, 0u8];
    assert(ibm@ =~= canonical_bias(FloatFormat::IbmHfp, byte_order));
    let vax_d = [200u8, 67u8, 0u8, 0u8, 0u8, 0u8, 0u8, 0u8];
    assert(vax_d@ =~= canonical_bias(FloatFormat::VaxDFloat, byte_order));
    let vax_g = [121u8, 64u8, 0u8, 0u8, 0u8, 0u8, 0u8, 0u8];
    assert(vax_g@ =~= canonical_bias(FloatFormat::VaxGFloat, byte_order));
    if same_bytes(bytes, ieee) {
        Some(FloatFormat::Ieee754)
    } else if same_bytes(bytes, ibm) {
        Some(FloatFormat::IbmHfp)
    } else if same_bytes(bytes, vax_d) {
        Some(FloatFormat::VaxDFloat)
    } else if same_bytes(bytes, vax_g) {
        Some(FloatFormat::VaxGFloat)
    } else {
        None
    }
}

/// Identifies the file's float format from its 8-byte compression-bias
/// field, returning the format alongside the bias bytes.
///
/// The probe asks which format encodes the canonical bias `100.0` as
/// `bytes`; that is the only thing that tells VAX `D_float` from
/// `G_float`. A bias that is no format's `100.0` is not a corrupt file
/// (the bias is only "ordinarily" 100): the format falls back to IEEE
/// 754 in the byte order the integers established, the bias is what
/// the bytes read as there, and the assumption is reported as
/// [`SavWarning::FloatFormatAssumed`].
pub fn parse_bias(bytes: [u8; 8], byte_order: ByteOrder, warnings: &mut Vec<SavWarning>) -> (res: (
    FloatFormat,
    [u8; 8],
))
    ensures
        res.1 == bytes,
        match identify_float_format(bytes@, byte_order) {
            Some(format) => res.0 == format && final(warnings)@ == old(warnings)@,
            None => res.0 == FloatFormat::Ieee754 && final(warnings)@ == old(warnings)@.push(
                SavWarning::FloatFormatAssumed { bias: bytes },
            ),
        },
{
    match probe_bias(bytes, byte_order) {
        Some(format) => (format, bytes),
        None => {
            warnings.push(SavWarning::FloatFormatAssumed { bias: bytes });
            (FloatFormat::Ieee754, bytes)
        },
    }
}

/// The float format the compression-bias field identifies, for a reader
/// that accepts only a file whose bias is some format's encoding of the
/// canonical `100.0`.
///
/// # Errors
///
/// [`FormatErrorKind::UnknownFloatFormat`], at `position`, when no
/// format's encoding of the canonical bias matches.
pub fn check_float_format(bytes: [u8; 8], byte_order: ByteOrder, position: u64) -> (res: Result<
    FloatFormat,
>)
    ensures
        match identify_float_format(bytes@, byte_order) {
            Some(format) => res == Ok::<FloatFormat, SavError>(format),
            None => res is Err && is_header_error(
                res->Err_0,
                position,
                FormatErrorKind::UnknownFloatFormat,
            ),
        },
{
    match probe_bias(bytes, byte_order) {
        Some(format) => Ok(format),
        None => Err(SavError::format(Section::Header, position, FormatErrorKind::UnknownFloatFormat)),
    }
}

/// Decodes the file-label field, trimming its padding.
pub fn parse_file_label(bytes: &[u8], encoding: &TextEncoding) -> (res: String)
    ensures
        res@ == encoding.decoded(trim_padding(bytes@)),
{
    decode_trimmed(bytes, encoding)
}

} // verus!
