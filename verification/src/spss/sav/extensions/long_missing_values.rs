//! Subtype 22 — long string missing values (collection wrapper).
use vstd::prelude::*;
use crate::spss::sav::byte_cursor::{
    read_bytes_at, read_length_prefixed_at, read_u32_at, read_u8_at, take_bytes,
    take_length_prefixed, take_u32, take_u8,
};
use crate::spss::sav::byte_order::ByteOrder;
use crate::spss::sav::dictionary_format::{LONG_STRING_MISSING_VALUE_MAX_COUNT, TEXT_ELEMENT_SIZE};
use crate::spss::sav::extensions::extension_parse::unexpected_value_error;
use crate::spss::sav::extensions::long_missing_value_record::LongMissingValueRecord;
use crate::spss::sav::sav_error::{is_unexpected_value, Field, Result};
use crate::spss::sav::text_encoding::TextEncoding;

verus! {

/// The long string missing values from one extension subtype-22
/// record, one record per variable, in on-disk order.
#[derive(Debug, Clone, PartialEq, Eq)]
pub struct LongMissingValues {
    records: Vec<LongMissingValueRecord>,
}

impl LongMissingValues {
    /// The `records` field, as a specification value.
    pub closed spec fn spec_records(self) -> Seq<LongMissingValueRecord> {
        self.records@
    }

    /// Returns a fresh [`LongMissingValuesBuilder`].
    pub fn builder() -> (res: LongMissingValuesBuilder)
        ensures
            res.spec_records().len() == 0,
    {
        LongMissingValuesBuilder { records: Vec::new() }
    }

    /// The per-variable records, in on-disk order.
    pub fn records(&self) -> (res: &[LongMissingValueRecord])
        ensures
            res@ == self.spec_records(),
    {
        self.records.as_slice()
    }
}

/// Builder for [`LongMissingValues`].
#[derive(Debug, Clone)]
pub struct LongMissingValuesBuilder {
    records: Vec<LongMissingValueRecord>,
}

impl LongMissingValuesBuilder {
    /// The `records` collected so far, as a specification value.
    pub closed spec fn spec_records(self) -> Seq<LongMissingValueRecord> {
        self.records@
    }

    /// Appends one variable's record.
    pub fn record(self, value: LongMissingValueRecord) -> (res: Self)
        ensures
            res.spec_records() == self.spec_records().push(value),
    {
        let mut b = self;
        b.records.push(value);
        proof {
            assert(b.spec_records() =~= self.spec_records().push(value));
        }
        b
    }

    /// Replaces the collection with `records`.
    pub fn records(self, records: Vec<LongMissingValueRecord>) -> (res: Self)
        ensures
            res.spec_records() == records@,
    {
        let mut b = self;
        b.records = records;
        b
    }

    /// Finalizes this builder into a [`LongMissingValues`]; unset fields take their defaults.
    pub fn build(self) -> (res: LongMissingValues)
        ensures
            res.spec_records() == self.spec_records(),
    {
        let records = self.records;
        LongMissingValues { records }
    }
}

/// One variable's raw subtype-22 entry: name bytes and value bytes.
pub type RawMissingRecord = (Seq<u8>, Seq<Seq<u8>>);

/// `count` values of `width` bytes each off the front of `s`, and what
/// remains.
pub open spec fn fixed_values(s: Seq<u8>, width: nat, count: nat) -> Option<(Seq<Seq<u8>>, Seq<u8>)>
    decreases count,
{
    if count == 0 {
        Some((Seq::empty(), s))
    } else {
        match fixed_values(s, width, (count - 1) as nat) {
            None => None,
            Some((values, rest)) => match take_bytes(rest, width) {
                None => None,
                Some((value, rest)) => Some((values.push(value), rest)),
            },
        }
    }
}

/// Once `k` values cannot be read, neither can `count >= k`.
proof fn lemma_fixed_values_fail(s: Seq<u8>, width: nat, k: nat, count: nat)
    requires
        k <= count,
        fixed_values(s, width, k) is None,
    ensures
        fixed_values(s, width, count) is None,
    decreases count - k,
{
    if k < count {
        lemma_fixed_values_fail(s, width, k + 1, count);
    }
}

/// One variable's entry off the front of `s`: a length-prefixed name, a
/// count byte (`1..=3`), a `u32` width, then that many values; or the
/// field that describes why it cannot be read.
pub open spec fn missing_record(s: Seq<u8>, byte_order: ByteOrder) -> std::result::Result<
    (RawMissingRecord, Seq<u8>),
    Field,
> {
    match take_length_prefixed(s, byte_order) {
        None => Err(Field::LongMissingValue),
        Some((name, rest)) => match take_u8(rest) {
            None => Err(Field::LongMissingValue),
            Some((count, rest)) => if count == 0 || count > LONG_STRING_MISSING_VALUE_MAX_COUNT {
                Err(Field::LongMissingValueCount)
            } else {
                match take_u32(rest, byte_order) {
                    None => Err(Field::LongMissingValue),
                    Some((width, rest)) => match fixed_values(rest, width as nat, count as nat) {
                        None => Err(Field::LongMissingValue),
                        Some((values, rest)) => Ok(((name, values), rest)),
                    },
                }
            },
        },
    }
}

/// The entries of a subtype-22 payload, read until it is exhausted, or
/// the field of the first entry that cannot be read.
pub open spec fn missing_records(s: Seq<u8>, byte_order: ByteOrder) -> std::result::Result<
    Seq<RawMissingRecord>,
    Field,
>
    decreases s.len(),
{
    if s.len() == 0 {
        Ok(Seq::empty())
    } else {
        match missing_record(s, byte_order) {
            Err(field) => Err(field),
            Ok((record, rest)) => if rest.len() < s.len() {
                match missing_records(rest, byte_order) {
                    Err(field) => Err(field),
                    Ok(records) => Ok(seq![record] + records),
                }
            } else {
                Err(Field::LongMissingValue)
            },
        }
    }
}

/// Whether `record` is `raw` with its name decoded through `encoding`
/// and its values kept verbatim.
pub open spec fn decodes_missing_record(
    record: LongMissingValueRecord,
    raw: RawMissingRecord,
    encoding: TextEncoding,
) -> bool {
    &&& record.spec_variable_name() == encoding.decoded(raw.0)
    &&& record.spec_values() == raw.1
}

/// Parses the per-variable entry of a subtype-22 payload at `at`,
/// returning the record and the offset just past it.
#[verifier::loop_isolation(false)]
fn parse_long_missing_value_record(
    payload: &[u8],
    at: usize,
    byte_order: ByteOrder,
    encoding: &TextEncoding,
    position: u64,
) -> (res: Result<(LongMissingValueRecord, usize)>)
    requires
        at < payload@.len(),
    ensures
        match missing_record(payload@.skip(at as int), byte_order) {
            Err(field) => res is Err && is_unexpected_value(res->Err_0, position, field),
            Ok((raw, rest)) => res is Ok && at < res->Ok_0.1 <= payload@.len() && payload@.skip(
                res->Ok_0.1 as int,
            ) == rest && decodes_missing_record(res->Ok_0.0, raw, *encoding),
        },
{
    let ghost s = payload@.skip(at as int);
    let (name_start, name_end) = match read_length_prefixed_at(payload, at, byte_order) {
        Some(range) => range,
        None => return Err(unexpected_value_error(position, Field::LongMissingValue)),
    };
    let ghost name = payload@.subrange(name_start as int, name_end as int);
    assert(take_length_prefixed(s, byte_order) == Some((name, payload@.skip(name_end as int))));
    let (count, after_count) = match read_u8_at(payload, name_end) {
        Some(read) => read,
        None => return Err(unexpected_value_error(position, Field::LongMissingValue)),
    };
    if count == 0 || count > LONG_STRING_MISSING_VALUE_MAX_COUNT {
        return Err(unexpected_value_error(position, Field::LongMissingValueCount));
    }
    let (width, after_width) = match read_u32_at(payload, after_count, byte_order) {
        Some(read) => read,
        None => return Err(unexpected_value_error(position, Field::LongMissingValue)),
    };
    let width = width as usize;
    let ghost values_start = payload@.skip(after_width as int);
    let mut values: Vec<Vec<u8>> = Vec::new();
    let ghost mut done: Seq<Seq<u8>> = Seq::empty();
    let mut cur = after_width;
    for i in 0..count
        invariant
            after_width <= cur <= payload@.len(),
            values_start == payload@.skip(after_width as int),
            fixed_values(values_start, width as nat, i as nat) == Some(
                (done, payload@.skip(cur as int)),
            ),
            values@.map_values(|v: Vec<u8>| v@) == done,
    {
        let end = match read_bytes_at(payload, cur, width) {
            Some(end) => end,
            None => {
                proof {
                    lemma_fixed_values_fail(values_start, width as nat, i as nat + 1, count as nat);
                }
                return Err(unexpected_value_error(position, Field::LongMissingValue));
            },
        };
        let value = vstd::slice::slice_to_vec(&payload[cur..end]);
        let ghost old_values = values@;
        values.push(value);
        proof {
            done = done.push(value@);
            assert(values@.map_values(|v: Vec<u8>| v@) =~= done);
        }
        cur = end;
    }
    let name_bytes = &payload[name_start..name_end];
    let record = LongMissingValueRecord::builder().variable_name(encoding.decode(name_bytes))
        .add_values(values).build();
    assert(record.spec_values() =~= done);
    Ok((record, cur))
}

/// Parses an extension subtype-22 payload (long string missing values)
/// into one [`LongMissingValueRecord`] per variable.
///
/// The payload repeats until exhausted: a `u32`-length-prefixed
/// variable name, a count byte (`1..=3`), a `u32` width shared by every
/// value, then that many values each `width` bytes long. The `u32`
/// fields honor `byte_order`. Names are decoded through `encoding`;
/// value bytes are kept verbatim.
///
/// # Errors
///
/// * [`Field::ExtensionElementSize`] when `actual_size != 1`.
/// * [`Field::LongMissingValueCount`] when a count byte is not `1..=3`.
/// * [`Field::LongMissingValue`] when the payload is truncated.
pub fn parse(
    actual_size: u32,
    payload: &[u8],
    byte_order: ByteOrder,
    encoding: &TextEncoding,
    position: u64,
) -> (res: Result<Vec<LongMissingValueRecord>>)
    ensures
        actual_size != TEXT_ELEMENT_SIZE ==> res is Err && is_unexpected_value(
            res->Err_0,
            position,
            Field::ExtensionElementSize,
        ),
        actual_size == TEXT_ELEMENT_SIZE ==> match missing_records(payload@, byte_order) {
            Err(field) => res is Err && is_unexpected_value(res->Err_0, position, field),
            Ok(raws) => res is Ok && res->Ok_0@.len() == raws.len() && forall|k: int|
                0 <= k < raws.len() ==> decodes_missing_record(
                    #[trigger] res->Ok_0@[k],
                    raws[k],
                    *encoding,
                ),
        },
{
    if actual_size != TEXT_ELEMENT_SIZE {
        return Err(unexpected_value_error(position, Field::ExtensionElementSize));
    }
    let mut records: Vec<LongMissingValueRecord> = Vec::new();
    let ghost mut done: Seq<RawMissingRecord> = Seq::empty();
    let mut at: usize = 0;
    assert(payload@.skip(0) =~= payload@);
    while at < payload.len()
        invariant
            actual_size == TEXT_ELEMENT_SIZE,
            at <= payload@.len(),
            missing_records(payload@, byte_order) == match missing_records(
                payload@.skip(at as int),
                byte_order,
            ) {
                Err(field) => Err(field),
                Ok(rest) => Ok(done + rest),
            },
            records@.len() == done.len(),
            forall|k: int|
                0 <= k < done.len() ==> decodes_missing_record(
                    #[trigger] records@[k],
                    done[k],
                    *encoding,
                ),
        decreases payload@.len() - at,
    {
        let (record, next) = parse_long_missing_value_record(payload, at, byte_order, encoding, position)?;
        let ghost entry = missing_record(payload@.skip(at as int), byte_order)->Ok_0;
        let ghost raw = entry.0;
        records.push(record);
        proof {
            let old_done = done;
            done = done.push(raw);
            assert forall|rest: Seq<RawMissingRecord>| #[trigger] (old_done + (seq![raw] + rest))
                =~= done + rest by {}
        }
        at = next;
    }
    assert(payload@.skip(at as int) =~= Seq::<u8>::empty());
    assert(done + Seq::<RawMissingRecord>::empty() =~= done);
    Ok(records)
}

} // verus!
