//! Subtype 4 — float sentinel values.
use vstd::prelude::*;
use crate::spss::sav::byte_order::{le_bytes, ByteOrder};
use crate::spss::sav::dictionary_format::{
    FLOAT_SENTINELS_ELEMENT_COUNT, FLOAT_SENTINELS_ELEMENT_SIZE, FLOAT_SENTINELS_HIGHEST_OFFSET,
    FLOAT_SENTINELS_IEEE_HIGHEST_BITS, FLOAT_SENTINELS_IEEE_LOWEST_BITS,
    FLOAT_SENTINELS_IEEE_SYSTEM_MISSING_BITS, FLOAT_SENTINELS_LOWEST_OFFSET,
    FLOAT_SENTINELS_SYSTEM_MISSING_OFFSET,
};
use crate::spss::sav::extensions::extension_parse::validate_extension_shape;
use crate::spss::sav::float_encoding::FloatEncoding;
use crate::spss::sav::float_format::FloatFormat;
use crate::spss::sav::sav_error::{is_unexpected_value, Field, Result};

verus! {

/// The three float sentinel values from extension record subtype 4,
/// as raw on-disk bytes: system-missing, `HIGHEST` and `LOWEST`.
#[derive(Debug, Clone, Copy, PartialEq, Eq)]
pub struct FloatSentinels {
    system_missing: [u8; 8],
    highest: [u8; 8],
    lowest: [u8; 8],
}

impl FloatSentinels {
    /// The `system_missing` field, as a specification value.
    pub closed spec fn spec_system_missing(self) -> Seq<u8> {
        self.system_missing@
    }

    /// The `highest` field, as a specification value.
    pub closed spec fn spec_highest(self) -> Seq<u8> {
        self.highest@
    }

    /// The `lowest` field, as a specification value.
    pub closed spec fn spec_lowest(self) -> Seq<u8> {
        self.lowest@
    }

    /// Returns a fresh [`RawFloatSentinelsBuilder`].
    pub fn raw_builder() -> (res: RawFloatSentinelsBuilder)
        ensures
            res.spec_system_missing() is None,
            res.spec_highest() is None,
            res.spec_lowest() is None,
    {
        RawFloatSentinelsBuilder { system_missing: None, highest: None, lowest: None }
    }

    /// The raw on-disk bytes of the system-missing sentinel.
    pub fn system_missing(&self) -> (res: [u8; 8])
        ensures
            res@ == self.spec_system_missing(),
    {
        self.system_missing
    }

    /// The raw on-disk bytes of the `HIGHEST` sentinel.
    pub fn highest(&self) -> (res: [u8; 8])
        ensures
            res@ == self.spec_highest(),
    {
        self.highest
    }

    /// The raw on-disk bytes of the `LOWEST` sentinel.
    pub fn lowest(&self) -> (res: [u8; 8])
        ensures
            res@ == self.spec_lowest(),
    {
        self.lowest
    }

    /// Whether `bytes` are the `LOWEST` sentinel: a range's low end that
    /// stands for "unbounded below".
    pub fn is_lowest(&self, bytes: [u8; 8]) -> (res: bool)
        ensures
            res == (bytes@ == self.spec_lowest()),
    {
        same_slot(bytes, self.lowest)
    }

    /// Whether `bytes` are the `HIGHEST` sentinel: a range's high end
    /// that stands for "unbounded above".
    pub fn is_highest(&self, bytes: [u8; 8]) -> (res: bool)
        ensures
            res == (bytes@ == self.spec_highest()),
    {
        same_slot(bytes, self.highest)
    }

    /// The sentinels SPSS writes by default for `encoding`: the
    /// format's most negative finite value as system-missing, its most
    /// positive as `HIGHEST`, and system-missing with the fraction
    /// decremented as `LOWEST`.
    pub fn spss_defaults(encoding: FloatEncoding) -> (res: Self)
        ensures
            (res.spec_system_missing(), res.spec_highest(), res.spec_lowest()) == default_sentinels(
                encoding.spec_format(),
                encoding.spec_byte_order(),
            ),
    {
        let (system_missing, highest, lowest) = match encoding.format() {
            FloatFormat::Ieee754 => {
                let order = encoding.byte_order();
                (
                    order.write_u64(FLOAT_SENTINELS_IEEE_SYSTEM_MISSING_BITS),
                    order.write_u64(FLOAT_SENTINELS_IEEE_HIGHEST_BITS),
                    order.write_u64(FLOAT_SENTINELS_IEEE_LOWEST_BITS),
                )
            },
            FloatFormat::IbmHfp => (
                [0xFFu8, 0xFF, 0xFF, 0xFF, 0xFF, 0xFF, 0xFF, 0xFF],
                [0x7Fu8, 0xFF, 0xFF, 0xFF, 0xFF, 0xFF, 0xFF, 0xFF],
                [0xFFu8, 0xFF, 0xFF, 0xFF, 0xFF, 0xFF, 0xFF, 0xFE],
            ),
            FloatFormat::VaxDFloat | FloatFormat::VaxGFloat => (
                [0xFFu8, 0xFF, 0xFF, 0xFF, 0xFF, 0xFF, 0xFF, 0xFF],
                [0xFFu8, 0x7F, 0xFF, 0xFF, 0xFF, 0xFF, 0xFF, 0xFF],
                [0xFFu8, 0xFF, 0xFF, 0xFF, 0xFF, 0xFF, 0xFE, 0xFF],
            ),
        };
        let res = FloatSentinels { system_missing, highest, lowest };
        proof {
            if encoding.spec_format() == FloatFormat::Ieee754 {
                if encoding.spec_byte_order() == ByteOrder::BigEndian {
                    lemma_reverse_twice(system_missing@);
                    lemma_reverse_twice(highest@);
                    lemma_reverse_twice(lowest@);
                }
            } else {
                assert(system_missing@ =~= default_sentinels(
                    encoding.spec_format(),
                    encoding.spec_byte_order(),
                ).0);
                assert(highest@ =~= default_sentinels(
                    encoding.spec_format(),
                    encoding.spec_byte_order(),
                ).1);
                assert(lowest@ =~= default_sentinels(
                    encoding.spec_format(),
                    encoding.spec_byte_order(),
                ).2);
            }
        }
        res
    }
}

/// The eight bytes of `bits` in `byte_order`.
pub open spec fn u64_bytes(bits: u64, byte_order: ByteOrder) -> Seq<u8> {
    match byte_order {
        ByteOrder::LittleEndian => le_bytes(bits as nat, 8),
        ByteOrder::BigEndian => le_bytes(bits as nat, 8).reverse(),
    }
}

/// The system-missing, `HIGHEST` and `LOWEST` bytes SPSS writes by
/// default in `format`, in a file of byte order `byte_order`. Only IEEE
/// 754 follows the byte order; the IBM and VAX layouts are fixed.
pub open spec fn default_sentinels(format: FloatFormat, byte_order: ByteOrder) -> (
    Seq<u8>,
    Seq<u8>,
    Seq<u8>,
) {
    match format {
        FloatFormat::Ieee754 => (
            u64_bytes(FLOAT_SENTINELS_IEEE_SYSTEM_MISSING_BITS, byte_order),
            u64_bytes(FLOAT_SENTINELS_IEEE_HIGHEST_BITS, byte_order),
            u64_bytes(FLOAT_SENTINELS_IEEE_LOWEST_BITS, byte_order),
        ),
        FloatFormat::IbmHfp => (
            seq![0xFFu8, 0xFF, 0xFF, 0xFF, 0xFF, 0xFF, 0xFF, 0xFF],
            seq![0x7Fu8, 0xFF, 0xFF, 0xFF, 0xFF, 0xFF, 0xFF, 0xFF],
            seq![0xFFu8, 0xFF, 0xFF, 0xFF, 0xFF, 0xFF, 0xFF, 0xFE],
        ),
        FloatFormat::VaxDFloat | FloatFormat::VaxGFloat => (
            seq![0xFFu8, 0xFF, 0xFF, 0xFF, 0xFF, 0xFF, 0xFF, 0xFF],
            seq![0xFFu8, 0x7F, 0xFF, 0xFF, 0xFF, 0xFF, 0xFF, 0xFF],
            seq![0xFFu8, 0xFF, 0xFF, 0xFF, 0xFF, 0xFF, 0xFE, 0xFF],
        ),
    }
}

/// Reversing twice gives the sequence back.
proof fn lemma_reverse_twice(s: Seq<u8>)
    ensures
        s.reverse().reverse() == s,
{
    if s.len() > 0 {
        assert(s.reverse().reverse() =~= s);
    } else {
        assert(s.reverse().reverse() =~= s);
    }
}

/// In an IEEE 754 file the default sentinels of a big-endian file are
/// those of a little-endian file, each byte-reversed.
pub proof fn lemma_spss_defaults_honor_the_byte_order()
    ensures
        ({
            let little = default_sentinels(FloatFormat::Ieee754, ByteOrder::LittleEndian);
            let big = default_sentinels(FloatFormat::Ieee754, ByteOrder::BigEndian);
            &&& big.0 == little.0.reverse()
            &&& big.1 == little.1.reverse()
            &&& big.2 == little.2.reverse()
        }),
{
}

/// The IBM and VAX default sentinels do not depend on the byte order.
pub proof fn lemma_spss_defaults_ignore_byte_order_for_the_legacy_formats(format: FloatFormat)
    requires
        format != FloatFormat::Ieee754,
    ensures
        default_sentinels(format, ByteOrder::LittleEndian) == default_sentinels(
            format,
            ByteOrder::BigEndian,
        ),
{
}

/// `LOWEST` never has the bytes of system-missing, in any format or
/// byte order.
pub proof fn lemma_spss_defaults_keep_lowest_distinct(format: FloatFormat, byte_order: ByteOrder)
    ensures
        default_sentinels(format, byte_order).2 != default_sentinels(format, byte_order).0,
{
    let sentinels = default_sentinels(format, byte_order);
    if format == FloatFormat::Ieee754 {
        let low = le_bytes(FLOAT_SENTINELS_IEEE_LOWEST_BITS as nat, 8);
        let sys = le_bytes(FLOAT_SENTINELS_IEEE_SYSTEM_MISSING_BITS as nat, 8);
        assert(low[0] == 0xFE);
        assert(sys[0] == 0xFF);
        assert(low.len() == 8 && sys.len() == 8) by {
            reveal_with_fuel(le_bytes, 9);
        }
        if byte_order == ByteOrder::BigEndian {
            assert(sentinels.2[7] == low[0]);
            assert(sentinels.0[7] == sys[0]);
        } else {
            assert(sentinels.2[0] != sentinels.0[0]);
        }
    } else if format == FloatFormat::IbmHfp {
        assert(sentinels.2[7] != sentinels.0[7]);
    } else {
        assert(sentinels.2[6] != sentinels.0[6]);
    }
}

/// Builder for [`FloatSentinels`] from raw on-disk bytes.
#[derive(Debug, Clone, Copy)]
pub struct RawFloatSentinelsBuilder {
    system_missing: Option<[u8; 8]>,
    highest: Option<[u8; 8]>,
    lowest: Option<[u8; 8]>,
}

impl RawFloatSentinelsBuilder {
    /// The `system_missing` set so far, as a specification value.
    pub closed spec fn spec_system_missing(self) -> Option<Seq<u8>> {
        match self.system_missing {
            Some(v) => Some(v@),
            None => None,
        }
    }

    /// The `highest` set so far, as a specification value.
    pub closed spec fn spec_highest(self) -> Option<Seq<u8>> {
        match self.highest {
            Some(v) => Some(v@),
            None => None,
        }
    }

    /// The `lowest` set so far, as a specification value.
    pub closed spec fn spec_lowest(self) -> Option<Seq<u8>> {
        match self.lowest {
            Some(v) => Some(v@),
            None => None,
        }
    }

    /// Sets the system-missing bytes.
    pub fn system_missing(self, bytes: [u8; 8]) -> (res: Self)
        ensures
            res.spec_system_missing() == Some(bytes@),
            res.spec_highest() == self.spec_highest(),
            res.spec_lowest() == self.spec_lowest(),
    {
        let mut b = self;
        b.system_missing = Some(bytes);
        b
    }

    /// Sets the `HIGHEST` bytes.
    pub fn highest(self, bytes: [u8; 8]) -> (res: Self)
        ensures
            res.spec_highest() == Some(bytes@),
            res.spec_system_missing() == self.spec_system_missing(),
            res.spec_lowest() == self.spec_lowest(),
    {
        let mut b = self;
        b.highest = Some(bytes);
        b
    }

    /// Sets the `LOWEST` bytes.
    pub fn lowest(self, bytes: [u8; 8]) -> (res: Self)
        ensures
            res.spec_lowest() == Some(bytes@),
            res.spec_system_missing() == self.spec_system_missing(),
            res.spec_highest() == self.spec_highest(),
    {
        let mut b = self;
        b.lowest = Some(bytes);
        b
    }

    /// Finalizes this builder into a [`FloatSentinels`]; unset fields take their defaults.
    pub fn build(self) -> (res: FloatSentinels)
        ensures
            res.spec_system_missing() == (match self.spec_system_missing() {
                Some(v) => v,
                None => seq![0u8, 0u8, 0u8, 0u8, 0u8, 0u8, 0u8, 0u8],
            }),
            res.spec_highest() == (match self.spec_highest() {
                Some(v) => v,
                None => seq![0u8, 0u8, 0u8, 0u8, 0u8, 0u8, 0u8, 0u8],
            }),
            res.spec_lowest() == (match self.spec_lowest() {
                Some(v) => v,
                None => seq![0u8, 0u8, 0u8, 0u8, 0u8, 0u8, 0u8, 0u8],
            }),
    {
        let system_missing = match self.system_missing {
            Some(v) => v,
            None => [0u8, 0u8, 0u8, 0u8, 0u8, 0u8, 0u8, 0u8],
        };
        let highest = match self.highest {
            Some(v) => v,
            None => [0u8, 0u8, 0u8, 0u8, 0u8, 0u8, 0u8, 0u8],
        };
        let lowest = match self.lowest {
            Some(v) => v,
            None => [0u8, 0u8, 0u8, 0u8, 0u8, 0u8, 0u8, 0u8],
        };
        FloatSentinels { system_missing, highest, lowest }
    }
}

/// Parses a subtype-4 payload into its three raw sentinels, each eight
/// bytes kept verbatim.
///
/// # Errors
///
/// [`Field::ExtensionElementSize`] when `actual_size != 8`, else
/// [`Field::ExtensionElementCount`] when `actual_count != 3`.
pub fn parse(
    actual_size: u32,
    actual_count: u32,
    payload: &[u8],
    position: u64,
) -> (res: Result<FloatSentinels>)
    requires
        actual_size == FLOAT_SENTINELS_ELEMENT_SIZE && actual_count == FLOAT_SENTINELS_ELEMENT_COUNT ==> payload@.len() == 24,
    ensures
        actual_size != FLOAT_SENTINELS_ELEMENT_SIZE ==> res is Err && is_unexpected_value(
            res->Err_0,
            position,
            Field::ExtensionElementSize,
        ),
        actual_size == FLOAT_SENTINELS_ELEMENT_SIZE && actual_count
            != FLOAT_SENTINELS_ELEMENT_COUNT ==> res is Err && is_unexpected_value(
            res->Err_0,
            position,
            Field::ExtensionElementCount,
        ),
        actual_size == FLOAT_SENTINELS_ELEMENT_SIZE && actual_count
            == FLOAT_SENTINELS_ELEMENT_COUNT ==> res is Ok && res->Ok_0.spec_system_missing()
            == payload@.subrange(0, 8) && res->Ok_0.spec_highest() == payload@.subrange(8, 16)
            && res->Ok_0.spec_lowest() == payload@.subrange(16, 24),
{
    let shape = validate_extension_shape(
        actual_size,
        actual_count,
        FLOAT_SENTINELS_ELEMENT_SIZE,
        FLOAT_SENTINELS_ELEMENT_COUNT,
        position,
    );
    if let Err(error) = shape {
        return Err(error);
    }
    let system_missing = slab(payload, FLOAT_SENTINELS_SYSTEM_MISSING_OFFSET);
    let highest = slab(payload, FLOAT_SENTINELS_HIGHEST_OFFSET);
    let lowest = slab(payload, FLOAT_SENTINELS_LOWEST_OFFSET);
    Ok(
        FloatSentinels::raw_builder().system_missing(system_missing).highest(highest).lowest(
            lowest,
        ).build(),
    )
}

/// Whether two eight-byte slots hold the same bytes.
fn same_slot(a: [u8; 8], b: [u8; 8]) -> (res: bool)
    ensures
        res == (a@ == b@),
{
    let mut i: usize = 0;
    while i < 8
        invariant
            i <= 8,
            forall|j: int| 0 <= j < i ==> a@[j] == b@[j],
        decreases 8 - i,
    {
        if a[i] != b[i] {
            return false;
        }
        i = i + 1;
    }
    assert(a@ =~= b@);
    true
}

/// The eight bytes of `payload` at `offset`.
pub(crate) fn slab(payload: &[u8], offset: usize) -> (res: [u8; 8])
    requires
        offset + 8 <= payload@.len(),
    ensures
        res@ == payload@.subrange(offset as int, offset + 8),
{
    let res = [
        payload[offset],
        payload[offset + 1],
        payload[offset + 2],
        payload[offset + 3],
        payload[offset + 4],
        payload[offset + 5],
        payload[offset + 6],
        payload[offset + 7],
    ];
    assert(res@ =~= payload@.subrange(offset as int, offset + 8));
    res
}

} // verus!
