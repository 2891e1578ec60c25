//! Subtype 3 — integer-typed environment metadata.
use vstd::prelude::*;
use crate::spss::sav::byte_order::ByteOrder;
use crate::spss::sav::dictionary_format::{
    ENDIANNESS_BIG_ENDIAN, ENDIANNESS_LITTLE_ENDIAN, FLOATING_POINT_REPRESENTATION_IBM_HFP,
    FLOATING_POINT_REPRESENTATION_IEEE, FLOATING_POINT_REPRESENTATION_VAX,
    MACHINE_INTEGER_INFO_ELEMENT_COUNT, MACHINE_INTEGER_INFO_ELEMENT_SIZE,
};
use crate::spss::sav::extensions::extension_parse::validate_extension_shape;
use crate::spss::sav::float_format::FloatFormat;
use crate::spss::sav::sav_error::{is_unexpected_value, Field, Result};
use crate::spss::sav::sav_warning::SavWarning;

verus! {

/// Integer-typed environment metadata from extension record subtype
/// 3: version numbers, machine code, float representation, compression,
/// endianness and character code, each kept as its raw `i32`.
#[derive(Debug, Clone, Copy, PartialEq, Eq)]
pub struct MachineIntegerInfo {
    version_major: i32,
    version_minor: i32,
    version_revision: i32,
    machine_code: i32,
    floating_point_representation: i32,
    compression_code: i32,
    endianness: i32,
    character_code: i32,
}

impl MachineIntegerInfo {
    /// The `version_major` field, as a specification value.
    pub closed spec fn spec_version_major(self) -> i32 {
        self.version_major
    }

    /// The `version_minor` field, as a specification value.
    pub closed spec fn spec_version_minor(self) -> i32 {
        self.version_minor
    }

    /// The `version_revision` field, as a specification value.
    pub closed spec fn spec_version_revision(self) -> i32 {
        self.version_revision
    }

    /// The `machine_code` field, as a specification value.
    pub closed spec fn spec_machine_code(self) -> i32 {
        self.machine_code
    }

    /// The `floating_point_representation` field, as a specification value.
    pub closed spec fn spec_floating_point_representation(self) -> i32 {
        self.floating_point_representation
    }

    /// The `compression_code` field, as a specification value.
    pub closed spec fn spec_compression_code(self) -> i32 {
        self.compression_code
    }

    /// The `endianness` field, as a specification value.
    pub closed spec fn spec_endianness(self) -> i32 {
        self.endianness
    }

    /// The `character_code` field, as a specification value.
    pub closed spec fn spec_character_code(self) -> i32 {
        self.character_code
    }

    /// Returns a fresh [`MachineIntegerInfoBuilder`].
    pub fn builder() -> (res: MachineIntegerInfoBuilder)
        ensures
            res.spec_version_major() is None,
            res.spec_version_minor() is None,
            res.spec_version_revision() is None,
            res.spec_machine_code() is None,
            res.spec_floating_point_representation() is None,
            res.spec_compression_code() is None,
            res.spec_endianness() is None,
            res.spec_character_code() is None,
    {
        MachineIntegerInfoBuilder { version_major: None, version_minor: None, version_revision: None, machine_code: None, floating_point_representation: None, compression_code: None, endianness: None, character_code: None }
    }

    /// Major version of the writing product.
    pub fn version_major(&self) -> (res: i32)
        ensures
            res == self.spec_version_major(),
    {
        self.version_major
    }

    /// Minor version of the writing product.
    pub fn version_minor(&self) -> (res: i32)
        ensures
            res == self.spec_version_minor(),
    {
        self.version_minor
    }

    /// Revision of the writing product.
    pub fn version_revision(&self) -> (res: i32)
        ensures
            res == self.spec_version_revision(),
    {
        self.version_revision
    }

    /// Machine code of the writing platform.
    pub fn machine_code(&self) -> (res: i32)
        ensures
            res == self.spec_machine_code(),
    {
        self.machine_code
    }

    /// Raw floating-point representation code (`1` IEEE 754, `2` IBM HFP, `3` VAX).
    pub fn floating_point_representation(&self) -> (res: i32)
        ensures
            res == self.spec_floating_point_representation(),
    {
        self.floating_point_representation
    }

    /// Raw compression code.
    pub fn compression_code(&self) -> (res: i32)
        ensures
            res == self.spec_compression_code(),
    {
        self.compression_code
    }

    /// Raw endianness code (`1` big-endian, `2` little-endian).
    pub fn endianness(&self) -> (res: i32)
        ensures
            res == self.spec_endianness(),
    {
        self.endianness
    }

    /// Raw character code (a Windows codepage number).
    pub fn character_code(&self) -> (res: i32)
        ensures
            res == self.spec_character_code(),
    {
        self.character_code
    }

    /// The float format the raw representation code names, if any. VAX
    /// (code `3`) reports [`FloatFormat::VaxDFloat`]: the record does not
    /// tell `D_float` from `G_float`.
    pub fn floating_point_representation_kind(&self) -> (res: Option<FloatFormat>)
        ensures
            res == float_format_of_code(self.spec_floating_point_representation()),
    {
        if self.floating_point_representation == FLOATING_POINT_REPRESENTATION_IEEE {
            Some(FloatFormat::Ieee754)
        } else if self.floating_point_representation == FLOATING_POINT_REPRESENTATION_IBM_HFP {
            Some(FloatFormat::IbmHfp)
        } else if self.floating_point_representation == FLOATING_POINT_REPRESENTATION_VAX {
            Some(FloatFormat::VaxDFloat)
        } else {
            None
        }
    }

    /// The byte order the raw endianness code names, if any.
    pub fn endianness_kind(&self) -> (res: Option<ByteOrder>)
        ensures
            res == byte_order_of_code(self.spec_endianness()),
    {
        if self.endianness == ENDIANNESS_BIG_ENDIAN {
            Some(ByteOrder::BigEndian)
        } else if self.endianness == ENDIANNESS_LITTLE_ENDIAN {
            Some(ByteOrder::LittleEndian)
        } else {
            None
        }
    }
}

/// Builder for [`MachineIntegerInfo`].
#[derive(Debug, Clone, Copy)]
pub struct MachineIntegerInfoBuilder {
    version_major: Option<i32>,
    version_minor: Option<i32>,
    version_revision: Option<i32>,
    machine_code: Option<i32>,
    floating_point_representation: Option<i32>,
    compression_code: Option<i32>,
    endianness: Option<i32>,
    character_code: Option<i32>,
}

impl MachineIntegerInfoBuilder {
    /// The `version_major` set so far, as a specification value.
    pub closed spec fn spec_version_major(self) -> Option<i32> {
        match self.version_major {
            Some(v) => Some(v),
            None => None,
        }
    }

    /// The `version_minor` set so far, as a specification value.
    pub closed spec fn spec_version_minor(self) -> Option<i32> {
        match self.version_minor {
            Some(v) => Some(v),
            None => None,
        }
    }

    /// The `version_revision` set so far, as a specification value.
    pub closed spec fn spec_version_revision(self) -> Option<i32> {
        match self.version_revision {
            Some(v) => Some(v),
            None => None,
        }
    }

    /// The `machine_code` set so far, as a specification value.
    pub closed spec fn spec_machine_code(self) -> Option<i32> {
        match self.machine_code {
            Some(v) => Some(v),
            None => None,
        }
    }

    /// The `floating_point_representation` set so far, as a specification value.
    pub closed spec fn spec_floating_point_representation(self) -> Option<i32> {
        match self.floating_point_representation {
            Some(v) => Some(v),
            None => None,
        }
    }

    /// The `compression_code` set so far, as a specification value.
    pub closed spec fn spec_compression_code(self) -> Option<i32> {
        match self.compression_code {
            Some(v) => Some(v),
            None => None,
        }
    }

    /// The `endianness` set so far, as a specification value.
    pub closed spec fn spec_endianness(self) -> Option<i32> {
        match self.endianness {
            Some(v) => Some(v),
            None => None,
        }
    }

    /// The `character_code` set so far, as a specification value.
    pub closed spec fn spec_character_code(self) -> Option<i32> {
        match self.character_code {
            Some(v) => Some(v),
            None => None,
        }
    }

    /// Sets the `version_major` field.
    pub fn version_major(self, value: i32) -> (res: Self)
        ensures
            res.spec_version_major() == Some(value),
            res.spec_version_minor() == self.spec_version_minor(),
            res.spec_version_revision() == self.spec_version_revision(),
            res.spec_machine_code() == self.spec_machine_code(),
            res.spec_floating_point_representation() == self.spec_floating_point_representation(),
            res.spec_compression_code() == self.spec_compression_code(),
            res.spec_endianness() == self.spec_endianness(),
            res.spec_character_code() == self.spec_character_code(),
    {
        let mut b = self;
        b.version_major = Some(value);
        b
    }

    /// Sets the `version_minor` field.
    pub fn version_minor(self, value: i32) -> (res: Self)
        ensures
            res.spec_version_minor() == Some(value),
            res.spec_version_major() == self.spec_version_major(),
            res.spec_version_revision() == self.spec_version_revision(),
            res.spec_machine_code() == self.spec_machine_code(),
            res.spec_floating_point_representation() == self.spec_floating_point_representation(),
            res.spec_compression_code() == self.spec_compression_code(),
            res.spec_endianness() == self.spec_endianness(),
            res.spec_character_code() == self.spec_character_code(),
    {
        let mut b = self;
        b.version_minor = Some(value);
        b
    }

    /// Sets the `version_revision` field.
    pub fn version_revision(self, value: i32) -> (res: Self)
        ensures
            res.spec_version_revision() == Some(value),
            res.spec_version_major() == self.spec_version_major(),
            res.spec_version_minor() == self.spec_version_minor(),
            res.spec_machine_code() == self.spec_machine_code(),
            res.spec_floating_point_representation() == self.spec_floating_point_representation(),
            res.spec_compression_code() == self.spec_compression_code(),
            res.spec_endianness() == self.spec_endianness(),
            res.spec_character_code() == self.spec_character_code(),
    {
        let mut b = self;
        b.version_revision = Some(value);
        b
    }

    /// Sets the `machine_code` field.
    pub fn machine_code(self, value: i32) -> (res: Self)
        ensures
            res.spec_machine_code() == Some(value),
            res.spec_version_major() == self.spec_version_major(),
            res.spec_version_minor() == self.spec_version_minor(),
            res.spec_version_revision() == self.spec_version_revision(),
            res.spec_floating_point_representation() == self.spec_floating_point_representation(),
            res.spec_compression_code() == self.spec_compression_code(),
            res.spec_endianness() == self.spec_endianness(),
            res.spec_character_code() == self.spec_character_code(),
    {
        let mut b = self;
        b.machine_code = Some(value);
        b
    }

    /// Sets the `floating_point_representation` field.
    pub fn floating_point_representation(self, value: i32) -> (res: Self)
        ensures
            res.spec_floating_point_representation() == Some(value),
            res.spec_version_major() == self.spec_version_major(),
            res.spec_version_minor() == self.spec_version_minor(),
            res.spec_version_revision() == self.spec_version_revision(),
            res.spec_machine_code() == self.spec_machine_code(),
            res.spec_compression_code() == self.spec_compression_code(),
            res.spec_endianness() == self.spec_endianness(),
            res.spec_character_code() == self.spec_character_code(),
    {
        let mut b = self;
        b.floating_point_representation = Some(value);
        b
    }

    /// Sets the `compression_code` field.
    pub fn compression_code(self, value: i32) -> (res: Self)
        ensures
            res.spec_compression_code() == Some(value),
            res.spec_version_major() == self.spec_version_major(),
            res.spec_version_minor() == self.spec_version_minor(),
            res.spec_version_revision() == self.spec_version_revision(),
            res.spec_machine_code() == self.spec_machine_code(),
            res.spec_floating_point_representation() == self.spec_floating_point_representation(),
            res.spec_endianness() == self.spec_endianness(),
            res.spec_character_code() == self.spec_character_code(),
    {
        let mut b = self;
        b.compression_code = Some(value);
        b
    }

    /// Sets the `endianness` field.
    pub fn endianness(self, value: i32) -> (res: Self)
        ensures
            res.spec_endianness() == Some(value),
            res.spec_version_major() == self.spec_version_major(),
            res.spec_version_minor() == self.spec_version_minor(),
            res.spec_version_revision() == self.spec_version_revision(),
            res.spec_machine_code() == self.spec_machine_code(),
            res.spec_floating_point_representation() == self.spec_floating_point_representation(),
            res.spec_compression_code() == self.spec_compression_code(),
            res.spec_character_code() == self.spec_character_code(),
    {
        let mut b = self;
        b.endianness = Some(value);
        b
    }

    /// Sets the `character_code` field.
    pub fn character_code(self, value: i32) -> (res: Self)
        ensures
            res.spec_character_code() == Some(value),
            res.spec_version_major() == self.spec_version_major(),
            res.spec_version_minor() == self.spec_version_minor(),
            res.spec_version_revision() == self.spec_version_revision(),
            res.spec_machine_code() == self.spec_machine_code(),
            res.spec_floating_point_representation() == self.spec_floating_point_representation(),
            res.spec_compression_code() == self.spec_compression_code(),
            res.spec_endianness() == self.spec_endianness(),
    {
        let mut b = self;
        b.character_code = Some(value);
        b
    }

    /// Finalizes this builder into a [`MachineIntegerInfo`]; unset fields take their defaults.
    pub fn build(self) -> (res: MachineIntegerInfo)
        ensures
            res.spec_version_major() == (match self.spec_version_major() {
                Some(v) => v,
                None => 0i32,
            }),
            res.spec_version_minor() == (match self.spec_version_minor() {
                Some(v) => v,
                None => 0i32,
            }),
            res.spec_version_revision() == (match self.spec_version_revision() {
                Some(v) => v,
                None => 0i32,
            }),
            res.spec_machine_code() == (match self.spec_machine_code() {
                Some(v) => v,
                None => 0i32,
            }),
            res.spec_floating_point_representation() == (match self.spec_floating_point_representation() {
                Some(v) => v,
                None => 0i32,
            }),
            res.spec_compression_code() == (match self.spec_compression_code() {
                Some(v) => v,
                None => 0i32,
            }),
            res.spec_endianness() == (match self.spec_endianness() {
                Some(v) => v,
                None => 0i32,
            }),
            res.spec_character_code() == (match self.spec_character_code() {
                Some(v) => v,
                None => 0i32,
            }),
    {
        let version_major = match self.version_major {
            Some(v) => v,
            None => 0i32,
        };
        let version_minor = match self.version_minor {
            Some(v) => v,
            None => 0i32,
        };
        let version_revision = match self.version_revision {
            Some(v) => v,
            None => 0i32,
        };
        let machine_code = match self.machine_code {
            Some(v) => v,
            None => 0i32,
        };
        let floating_point_representation = match self.floating_point_representation {
            Some(v) => v,
            None => 0i32,
        };
        let compression_code = match self.compression_code {
            Some(v) => v,
            None => 0i32,
        };
        let endianness = match self.endianness {
            Some(v) => v,
            None => 0i32,
        };
        let character_code = match self.character_code {
            Some(v) => v,
            None => 0i32,
        };
        MachineIntegerInfo { version_major, version_minor, version_revision, machine_code, floating_point_representation, compression_code, endianness, character_code }
    }
}

/// The float format a subtype-3 representation code names.
pub open spec fn float_format_of_code(code: i32) -> Option<FloatFormat> {
    if code == FLOATING_POINT_REPRESENTATION_IEEE {
        Some(FloatFormat::Ieee754)
    } else if code == FLOATING_POINT_REPRESENTATION_IBM_HFP {
        Some(FloatFormat::IbmHfp)
    } else if code == FLOATING_POINT_REPRESENTATION_VAX {
        Some(FloatFormat::VaxDFloat)
    } else {
        None
    }
}

/// The byte order a subtype-3 endianness code names.
pub open spec fn byte_order_of_code(code: i32) -> Option<ByteOrder> {
    if code == ENDIANNESS_BIG_ENDIAN {
        Some(ByteOrder::BigEndian)
    } else if code == ENDIANNESS_LITTLE_ENDIAN {
        Some(ByteOrder::LittleEndian)
    } else {
        None
    }
}

/// The `i32` at `offset` of a subtype-3 payload.
pub open spec fn field_at(payload: Seq<u8>, byte_order: ByteOrder, offset: int) -> i32 {
    (byte_order.unsigned(payload.subrange(offset, offset + 4)) as u32) as i32
}

/// The `i32` at `offset` of `payload`, in `byte_order`.
fn i32_at(payload: &[u8], byte_order: ByteOrder, offset: usize) -> (res: i32)
    requires
        offset + 4 <= payload@.len(),
    ensures
        res == field_at(payload@, byte_order, offset as int),
{
    let bytes = [payload[offset], payload[offset + 1], payload[offset + 2], payload[offset + 3]];
    assert(bytes@ =~= payload@.subrange(offset as int, offset + 4));
    byte_order.read_i32(bytes)
}

/// Parses a subtype-3 payload: eight `i32`s in `byte_order`, in the
/// order version major, minor, revision, machine code, float
/// representation, compression code, endianness, character code.
///
/// # Errors
///
/// [`Field::ExtensionElementSize`] when `actual_size != 4`, else
/// [`Field::ExtensionElementCount`] when `actual_count != 8`.
pub fn parse(
    actual_size: u32,
    actual_count: u32,
    payload: &[u8],
    byte_order: ByteOrder,
    position: u64,
) -> (res: Result<MachineIntegerInfo>)
    requires
        actual_size == MACHINE_INTEGER_INFO_ELEMENT_SIZE && actual_count == MACHINE_INTEGER_INFO_ELEMENT_COUNT ==> payload@.len() == 32,
    ensures
        actual_size != MACHINE_INTEGER_INFO_ELEMENT_SIZE ==> res is Err && is_unexpected_value(
            res->Err_0,
            position,
            Field::ExtensionElementSize,
        ),
        actual_size == MACHINE_INTEGER_INFO_ELEMENT_SIZE && actual_count
            != MACHINE_INTEGER_INFO_ELEMENT_COUNT ==> res is Err && is_unexpected_value(
            res->Err_0,
            position,
            Field::ExtensionElementCount,
        ),
        actual_size == MACHINE_INTEGER_INFO_ELEMENT_SIZE && actual_count
            == MACHINE_INTEGER_INFO_ELEMENT_COUNT ==> res is Ok && {
            let info = res->Ok_0;
            &&& info.spec_version_major() == field_at(payload@, byte_order, 0)
            &&& info.spec_version_minor() == field_at(payload@, byte_order, 4)
            &&& info.spec_version_revision() == field_at(payload@, byte_order, 8)
            &&& info.spec_machine_code() == field_at(payload@, byte_order, 12)
            &&& info.spec_floating_point_representation() == field_at(payload@, byte_order, 16)
            &&& info.spec_compression_code() == field_at(payload@, byte_order, 20)
            &&& info.spec_endianness() == field_at(payload@, byte_order, 24)
            &&& info.spec_character_code() == field_at(payload@, byte_order, 28)
        },
{
    let shape = validate_extension_shape(
        actual_size,
        actual_count,
        MACHINE_INTEGER_INFO_ELEMENT_SIZE,
        MACHINE_INTEGER_INFO_ELEMENT_COUNT,
        position,
    );
    if let Err(error) = shape {
        return Err(error);
    }
    let info = MachineIntegerInfo::builder().version_major(i32_at(payload, byte_order, 0))
        .version_minor(i32_at(payload, byte_order, 4))
        .version_revision(i32_at(payload, byte_order, 8))
        .machine_code(i32_at(payload, byte_order, 12))
        .floating_point_representation(i32_at(payload, byte_order, 16))
        .compression_code(i32_at(payload, byte_order, 20))
        .endianness(i32_at(payload, byte_order, 24))
        .character_code(i32_at(payload, byte_order, 28))
        .build();
    Ok(info)
}

/// Whether two float formats belong to the same family, VAX `D_float`
/// and `G_float` counting as one (subtype 3 names only "VAX").
pub open spec fn same_float_family(a: FloatFormat, b: FloatFormat) -> bool {
    a == b || ((a == FloatFormat::VaxDFloat || a == FloatFormat::VaxGFloat) && (b
        == FloatFormat::VaxDFloat || b == FloatFormat::VaxGFloat))
}

/// The warnings that cross-checking `info` against the header raises:
/// a byte-order mismatch, then a float-format mismatch, each only when
/// the record's code is recognized.
pub open spec fn cross_check_warnings(
    info: MachineIntegerInfo,
    header_byte_order: ByteOrder,
    header_float_format: FloatFormat,
) -> Seq<SavWarning> {
    let order = match byte_order_of_code(info.spec_endianness()) {
        Some(order) => if order != header_byte_order {
            seq![SavWarning::HeaderByteOrderMismatch { record_value: info.spec_endianness() }]
        } else {
            Seq::empty()
        },
        None => Seq::empty(),
    };
    let format = match float_format_of_code(info.spec_floating_point_representation()) {
        Some(format) => if !same_float_family(format, header_float_format) {
            seq![
                SavWarning::HeaderFloatFormatMismatch {
                    record_value: info.spec_floating_point_representation(),
                },
            ]
        } else {
            Seq::empty()
        },
        None => Seq::empty(),
    };
    order + format
}

/// Compares the record's declared byte order and float format with the
/// header's, pushing a warning for each recognized disagreement.
pub fn cross_check(
    info: &MachineIntegerInfo,
    header_byte_order: ByteOrder,
    header_float_format: FloatFormat,
    warnings: &mut Vec<SavWarning>,
)
    ensures
        final(warnings)@ == old(warnings)@ + cross_check_warnings(
            *info,
            header_byte_order,
            header_float_format,
        ),
{
    let ghost start = warnings@;
    if let Some(record_byte_order) = info.endianness_kind() {
        if record_byte_order != header_byte_order {
            warnings.push(SavWarning::HeaderByteOrderMismatch { record_value: info.endianness() });
        }
    }
    let ghost middle = warnings@;
    if let Some(record_format) = info.floating_point_representation_kind() {
        let vax_record = record_format == FloatFormat::VaxDFloat || record_format
            == FloatFormat::VaxGFloat;
        let vax_header = header_float_format == FloatFormat::VaxDFloat || header_float_format
            == FloatFormat::VaxGFloat;
        if !(record_format == header_float_format || (vax_record && vax_header)) {
            warnings.push(
                SavWarning::HeaderFloatFormatMismatch {
                    record_value: info.floating_point_representation(),
                },
            );
        }
    }
    assert(warnings@ =~= start + cross_check_warnings(
        *info,
        header_byte_order,
        header_float_format,
    ));
}

/// Whether the subtype-3 representation code `code` declares `format`,
/// as the format documents the codes: 1 is IEEE 754, 2 is IBM System/370
/// (hexadecimal floating point), 3 is DEC VAX, which covers both of its
/// 64-bit layouts.
pub open spec fn code_declares(code: i32, format: FloatFormat) -> bool {
    ||| code == 1 && format == FloatFormat::Ieee754
    ||| code == 2 && format == FloatFormat::IbmHfp
    ||| code == 3 && (format == FloatFormat::VaxDFloat || format == FloatFormat::VaxGFloat)
}

/// The representation codes name the documented formats: a code is
/// recognized exactly when it is 1, 2 or 3, and the format it is read as
/// is the one the code declares.
pub proof fn lemma_float_codes_follow_the_format(code: i32)
    ensures
        float_format_of_code(code) is Some <==> 1 <= code <= 3,
        float_format_of_code(code) matches Some(format) ==> code_declares(code, format),
{
}

/// The endianness codes name the documented byte orders: 1 is
/// big-endian, 2 is little-endian, and no other code is recognized.
pub proof fn lemma_endianness_codes_follow_the_format(code: i32)
    ensures
        byte_order_of_code(code) == Some(ByteOrder::BigEndian) <==> code == 1,
        byte_order_of_code(code) == Some(ByteOrder::LittleEndian) <==> code == 2,
        byte_order_of_code(code) is None <==> code != 1 && code != 2,
{
}

/// Cross-checking warns of a float-format mismatch exactly when the
/// record's code is a documented one that does not declare the header's
/// format, and of a byte-order mismatch exactly when its endianness code
/// is a documented one naming the other byte order.
pub proof fn lemma_cross_check_warns_exactly_on_disagreement(
    info: MachineIntegerInfo,
    header_byte_order: ByteOrder,
    header_float_format: FloatFormat,
)
    ensures
        ({
            let code = info.spec_floating_point_representation();
            cross_check_warnings(info, header_byte_order, header_float_format).contains(
                SavWarning::HeaderFloatFormatMismatch { record_value: code },
            ) <==> 1 <= code <= 3 && !code_declares(code, header_float_format)
        }),
        ({
            let code = info.spec_endianness();
            cross_check_warnings(info, header_byte_order, header_float_format).contains(
                SavWarning::HeaderByteOrderMismatch { record_value: code },
            ) <==> (code == 1 && header_byte_order != ByteOrder::BigEndian) || (code == 2
                && header_byte_order != ByteOrder::LittleEndian)
        }),
{
    let ws = cross_check_warnings(info, header_byte_order, header_float_format);
    let fcode = info.spec_floating_point_representation();
    let bcode = info.spec_endianness();
    let fw = SavWarning::HeaderFloatFormatMismatch { record_value: fcode };
    let bw = SavWarning::HeaderByteOrderMismatch { record_value: bcode };
    let order = match byte_order_of_code(bcode) {
        Some(o) => if o != header_byte_order {
            seq![bw]
        } else {
            Seq::empty()
        },
        None => Seq::empty(),
    };
    let format = match float_format_of_code(fcode) {
        Some(f) => if !same_float_family(f, header_float_format) {
            seq![fw]
        } else {
            Seq::empty()
        },
        None => Seq::empty(),
    };
    assert(ws == order + format);
    let float_warned = 1 <= fcode <= 3 && !code_declares(fcode, header_float_format);
    let order_warned = (bcode == 1 && header_byte_order != ByteOrder::BigEndian) || (bcode == 2
        && header_byte_order != ByteOrder::LittleEndian);
    assert(format.len() == 1 <==> float_warned);
    assert(order.len() == 1 <==> order_warned);
    assert(format.len() <= 1 && order.len() <= 1);
    assert(format.len() == 1 ==> format[0] == fw);
    assert(order.len() == 1 ==> order[0] == bw);
    if float_warned {
        assert(ws[order.len() as int] == fw);
    }
    if order_warned {
        assert(ws[0] == bw);
    }
    if ws.contains(fw) {
        let i = choose|i: int| 0 <= i < ws.len() && ws[i] == fw;
        if i < order.len() {
            assert(ws[i] == order[i]);
        } else {
            assert(ws[i] == format[i - order.len()]);
        }
    }
    if ws.contains(bw) {
        let i = choose|i: int| 0 <= i < ws.len() && ws[i] == bw;
        if i < order.len() {
            assert(ws[i] == order[i]);
        } else {
            assert(ws[i] == format[i - order.len()]);
        }
    }
}

} // verus!
