//! Subtype 21 — long string value labels (collection wrapper).
use vstd::prelude::*;
use crate::spss::sav::byte_cursor::{
    read_length_prefixed_at, read_u32_at, take_length_prefixed, take_u32,
};
use crate::spss::sav::byte_order::ByteOrder;
use crate::spss::sav::dictionary_format::TEXT_ELEMENT_SIZE;
use crate::spss::sav::extensions::extension_parse::unexpected_value_error;
use crate::spss::sav::extensions::long_value_label::LongValueLabel;
use crate::spss::sav::extensions::long_value_label_record::LongValueLabelRecord;
use crate::spss::sav::sav_error::{is_unexpected_value, Field, Result};
use crate::spss::sav::text_encoding::TextEncoding;

verus! {

/// The long string value labels from one extension subtype-21 record,
/// one record per variable, in on-disk order.
#[derive(Debug, Clone, PartialEq, Eq)]
pub struct LongValueLabels {
    records: Vec<LongValueLabelRecord>,
}

impl LongValueLabels {
    /// The `records` field, as a specification value.
    pub closed spec fn spec_records(self) -> Seq<LongValueLabelRecord> {
        self.records@
    }

    /// Returns a fresh [`LongValueLabelsBuilder`].
    pub fn builder() -> (res: LongValueLabelsBuilder)
        ensures
            res.spec_records().len() == 0,
    {
        LongValueLabelsBuilder { records: Vec::new() }
    }

    /// The per-variable records, in on-disk order.
    pub fn records(&self) -> (res: &[LongValueLabelRecord])
        ensures
            res@ == self.spec_records(),
    {
        self.records.as_slice()
    }
}

/// Builder for [`LongValueLabels`].
#[derive(Debug, Clone)]
pub struct LongValueLabelsBuilder {
    records: Vec<LongValueLabelRecord>,
}

impl LongValueLabelsBuilder {
    /// The `records` collected so far, as a specification value.
    pub closed spec fn spec_records(self) -> Seq<LongValueLabelRecord> {
        self.records@
    }

    /// Appends one variable's record.
    pub fn add_record(self, value: LongValueLabelRecord) -> (res: Self)
        ensures
            res.spec_records() == self.spec_records().push(value),
    {
        let mut b = self;
        b.records.push(value);
        proof {
            assert(b.spec_records() =~= self.spec_records().push(value));
        }
        b
    }

    /// Appends `records`.
    pub fn add_records(self, records: Vec<LongValueLabelRecord>) -> (res: Self)
        ensures
            res.spec_records() == self.spec_records() + records@,
    {
        let mut b = self;
        let mut more = records;
        b.records.append(&mut more);
        proof {
            assert(b.spec_records() =~= self.spec_records() + records@);
        }
        b
    }

    /// Finalizes this builder into a [`LongValueLabels`]; unset fields take their defaults.
    pub fn build(self) -> (res: LongValueLabels)
        ensures
            res.spec_records() == self.spec_records(),
    {
        let records = self.records;
        LongValueLabels { records }
    }
}

/// One variable's raw subtype-21 entry: name bytes, declared width, and
/// the `(value, label)` byte pairs.
pub type RawLabelRecord = (Seq<u8>, u32, Seq<(Seq<u8>, Seq<u8>)>);

/// `count` length-prefixed `(value, label)` pairs off the front of `s`,
/// and what remains.
pub open spec fn label_pairs(s: Seq<u8>, byte_order: ByteOrder, count: nat) -> Option<
    (Seq<(Seq<u8>, Seq<u8>)>, Seq<u8>),
>
    decreases count,
{
    if count == 0 {
        Some((Seq::empty(), s))
    } else {
        match label_pairs(s, byte_order, (count - 1) as nat) {
            None => None,
            Some((pairs, rest)) => match take_length_prefixed(rest, byte_order) {
                None => None,
                Some((value, rest)) => match take_length_prefixed(rest, byte_order) {
                    None => None,
                    Some((label, rest)) => Some((pairs.push((value, label)), rest)),
                },
            },
        }
    }
}

/// Once `k` label pairs cannot be read, neither can `count >= k`.
proof fn lemma_label_pairs_fail(s: Seq<u8>, byte_order: ByteOrder, k: nat, count: nat)
    requires
        k <= count,
        label_pairs(s, byte_order, k) is None,
    ensures
        label_pairs(s, byte_order, count) is None,
    decreases count - k,
{
    if k < count {
        lemma_label_pairs_fail(s, byte_order, k + 1, count);
    }
}

/// One variable's entry off the front of `s`: a length-prefixed name, a
/// `u32` width, a `u32` label count, then that many pairs.
pub open spec fn label_record(s: Seq<u8>, byte_order: ByteOrder) -> Option<(RawLabelRecord, Seq<u8>)> {
    match take_length_prefixed(s, byte_order) {
        None => None,
        Some((name, rest)) => match take_u32(rest, byte_order) {
            None => None,
            Some((width, rest)) => match take_u32(rest, byte_order) {
                None => None,
                Some((count, rest)) => match label_pairs(rest, byte_order, count as nat) {
                    None => None,
                    Some((pairs, rest)) => Some(((name, width, pairs), rest)),
                },
            },
        },
    }
}

/// The entries of a subtype-21 payload, read until it is exhausted, or
/// `None` when it is truncated.
pub open spec fn label_records(s: Seq<u8>, byte_order: ByteOrder) -> Option<Seq<RawLabelRecord>>
    decreases s.len(),
{
    if s.len() == 0 {
        Some(Seq::empty())
    } else {
        match label_record(s, byte_order) {
            None => None,
            Some((record, rest)) => if rest.len() < s.len() {
                match label_records(rest, byte_order) {
                    None => None,
                    Some(records) => Some(seq![record] + records),
                }
            } else {
                None
            },
        }
    }
}

/// Whether `record` is `raw` with its name and labels decoded through
/// `encoding` and its values kept verbatim.
pub open spec fn decodes_label_record(
    record: LongValueLabelRecord,
    raw: RawLabelRecord,
    encoding: TextEncoding,
) -> bool {
    &&& record.spec_variable_name() == encoding.decoded(raw.0)
    &&& record.spec_width() == raw.1
    &&& record.spec_labels().len() == raw.2.len()
    &&& forall|k: int|
        0 <= k < raw.2.len() ==> (#[trigger] record.spec_labels()[k]).spec_value() == raw.2[k].0
            && record.spec_labels()[k].spec_label() == encoding.decoded(raw.2[k].1)
}

/// Parses the per-variable entry of a subtype-21 payload at `at`,
/// returning the record and the offset just past it.
#[verifier::loop_isolation(false)]
fn parse_long_value_label_record(
    payload: &[u8],
    at: usize,
    byte_order: ByteOrder,
    encoding: &TextEncoding,
    position: u64,
) -> (res: Result<(LongValueLabelRecord, usize)>)
    requires
        at < payload@.len(),
    ensures
        match label_record(payload@.skip(at as int), byte_order) {
            None => res is Err && is_unexpected_value(res->Err_0, position, Field::LongValueLabel),
            Some((raw, rest)) => res is Ok && at < res->Ok_0.1 <= payload@.len() && payload@.skip(
                res->Ok_0.1 as int,
            ) == rest && decodes_label_record(res->Ok_0.0, raw, *encoding),
        },
{
    let ghost s = payload@.skip(at as int);
    let (name_start, name_end) = match read_length_prefixed_at(payload, at, byte_order) {
        Some(range) => range,
        None => return Err(unexpected_value_error(position, Field::LongValueLabel)),
    };
    let ghost name = payload@.subrange(name_start as int, name_end as int);
    assert(take_length_prefixed(s, byte_order) == Some((name, payload@.skip(name_end as int))));
    let (width, after_width) = match read_u32_at(payload, name_end, byte_order) {
        Some(read) => read,
        None => {
            assert(label_record(s, byte_order) is None);
            return Err(unexpected_value_error(position, Field::LongValueLabel));
        },
    };
    let (count, after_count) = match read_u32_at(payload, after_width, byte_order) {
        Some(read) => read,
        None => {
            assert(label_record(s, byte_order) is None);
            return Err(unexpected_value_error(position, Field::LongValueLabel));
        },
    };
    let ghost pairs_start = payload@.skip(after_count as int);
    let mut labels: Vec<LongValueLabel> = Vec::new();
    let ghost mut done: Seq<(Seq<u8>, Seq<u8>)> = Seq::empty();
    let mut cur = after_count;
    for i in 0..count
        invariant
            after_count <= cur <= payload@.len(),
            pairs_start == payload@.skip(after_count as int),
            label_pairs(pairs_start, byte_order, i as nat) == Some((done, payload@.skip(cur as int))),
            labels@.len() == done.len(),
            forall|k: int|
                0 <= k < done.len() ==> (#[trigger] labels@[k]).spec_value() == done[k].0
                    && labels@[k].spec_label() == encoding.decoded(done[k].1),
    {
        let (value_start, value_end) = match read_length_prefixed_at(payload, cur, byte_order) {
            Some(range) => range,
            None => {
                proof {
                    lemma_label_pairs_fail(pairs_start, byte_order, i as nat + 1, count as nat);
                    assert(label_record(s, byte_order) is None);
                }
                return Err(unexpected_value_error(position, Field::LongValueLabel));
            },
        };
        let (label_start, label_end) = match read_length_prefixed_at(
            payload,
            value_end,
            byte_order,
        ) {
            Some(range) => range,
            None => {
                proof {
                    lemma_label_pairs_fail(pairs_start, byte_order, i as nat + 1, count as nat);
                    assert(label_record(s, byte_order) is None);
                }
                return Err(unexpected_value_error(position, Field::LongValueLabel));
            },
        };
        let value_bytes = &payload[value_start..value_end];
        let label_bytes = &payload[label_start..label_end];
        let label = LongValueLabel::builder().value(vstd::slice::slice_to_vec(value_bytes)).label(
            encoding.decode(label_bytes),
        ).build();
        labels.push(label);
        proof {
            done = done.push((value_bytes@, label_bytes@));
        }
        cur = label_end;
    }
    let name_bytes = &payload[name_start..name_end];
    let record = LongValueLabelRecord::builder().variable_name(encoding.decode(name_bytes)).width(
        width,
    ).add_labels(labels).build();
    assert(record.spec_labels() =~= labels@);
    assert(label_record(s, byte_order) == Some(((name, width, done), payload@.skip(cur as int))));
    Ok((record, cur))
}

/// Parses an extension subtype-21 payload (long string value labels)
/// into one [`LongValueLabelRecord`] per variable.
///
/// The payload repeats until exhausted: a `u32`-length-prefixed
/// variable name, a `u32` declared width, a `u32` label count, then that
/// many `(value, label)` pairs, each a `u32`-length-prefixed byte
/// string. All `u32` fields honor `byte_order`. Names and labels are
/// decoded through `encoding`; value bytes are kept verbatim.
///
/// # Errors
///
/// * [`Field::ExtensionElementSize`] when `actual_size != 1`.
/// * [`Field::LongValueLabel`] when the payload is truncated.
pub fn parse(
    actual_size: u32,
    payload: &[u8],
    byte_order: ByteOrder,
    encoding: &TextEncoding,
    position: u64,
) -> (res: Result<Vec<LongValueLabelRecord>>)
    ensures
        actual_size != TEXT_ELEMENT_SIZE ==> res is Err && is_unexpected_value(
            res->Err_0,
            position,
            Field::ExtensionElementSize,
        ),
        actual_size == TEXT_ELEMENT_SIZE ==> match label_records(payload@, byte_order) {
            None => res is Err && is_unexpected_value(res->Err_0, position, Field::LongValueLabel),
            Some(raws) => res is Ok && res->Ok_0@.len() == raws.len() && forall|k: int|
                0 <= k < raws.len() ==> decodes_label_record(
                    #[trigger] res->Ok_0@[k],
                    raws[k],
                    *encoding,
                ),
        },
{
    if actual_size != TEXT_ELEMENT_SIZE {
        return Err(unexpected_value_error(position, Field::ExtensionElementSize));
    }
    let mut records: Vec<LongValueLabelRecord> = Vec::new();
    let ghost mut done: Seq<RawLabelRecord> = Seq::empty();
    let mut at: usize = 0;
    assert(payload@.skip(0) =~= payload@);
    while at < payload.len()
        invariant
            actual_size == TEXT_ELEMENT_SIZE,
            at <= payload@.len(),
            label_records(payload@, byte_order) == match label_records(
                payload@.skip(at as int),
                byte_order,
            ) {
                None => None,
                Some(rest) => Some(done + rest),
            },
            records@.len() == done.len(),
            forall|k: int|
                0 <= k < done.len() ==> decodes_label_record(
                    #[trigger] records@[k],
                    done[k],
                    *encoding,
                ),
        decreases payload@.len() - at,
    {
        let (record, next) = parse_long_value_label_record(payload, at, byte_order, encoding, position)?;
        let ghost entry = label_record(payload@.skip(at as int), byte_order)->0;
        let ghost raw = entry.0;
        assert(label_records(payload@.skip(at as int), byte_order) == match label_records(
            payload@.skip(next as int),
            byte_order,
        ) {
            None => None,
            Some(rest) => Some(seq![raw] + rest),
        });
        records.push(record);
        proof {
            let old_done = done;
            done = done.push(raw);
            assert forall|rest: Seq<RawLabelRecord>| #[trigger] (old_done + (seq![raw] + rest))
                =~= done + rest by {}
        }
        at = next;
    }
    assert(payload@.skip(at as int) =~= Seq::<u8>::empty());
    assert(done + Seq::<RawLabelRecord>::empty() =~= done);
    Ok(records)
}

} // verus!
