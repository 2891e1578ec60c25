//! Subtype 18 — per-variable custom attributes (collection wrapper).
use vstd::prelude::*;
use crate::spss::sav::dictionary_format::{TEXT_ELEMENT_SIZE, VARIABLE_ATTRIBUTES_NAME_TERMINATOR};
use crate::spss::sav::extensions::extension_parse::{
    attribute_set, decodes_attribute, parse_attribute_set, take_before, take_before_at,
    unexpected_value_error, RawAttribute,
};
use crate::spss::sav::extensions::variable_attribute_entry::VariableAttributeEntry;
use crate::spss::sav::extensions::variable_attribute_record::VariableAttributeRecord;
use crate::spss::sav::sav_error::{is_unexpected_value, Field, Result};
use crate::spss::sav::text_encoding::TextEncoding;

verus! {

/// The per-variable custom attributes from one extension subtype-18
/// record, one entry per variable, in on-disk order.
#[derive(Debug, Clone, PartialEq, Eq)]
pub struct VariableAttributes {
    records: Vec<VariableAttributeRecord>,
}

impl VariableAttributes {
    /// The `records` field, as a specification value.
    pub closed spec fn spec_records(self) -> Seq<VariableAttributeRecord> {
        self.records@
    }

    /// Returns a fresh [`VariableAttributesBuilder`].
    pub fn builder() -> (res: VariableAttributesBuilder)
        ensures
            res.spec_records().len() == 0,
    {
        VariableAttributesBuilder { records: Vec::new() }
    }

    /// The per-variable attribute records, in on-disk order.
    pub fn records(&self) -> (res: &[VariableAttributeRecord])
        ensures
            res@ == self.spec_records(),
    {
        self.records.as_slice()
    }
}

/// Builder for [`VariableAttributes`].
#[derive(Debug, Clone)]
pub struct VariableAttributesBuilder {
    records: Vec<VariableAttributeRecord>,
}

impl VariableAttributesBuilder {
    /// The `records` collected so far, as a specification value.
    pub closed spec fn spec_records(self) -> Seq<VariableAttributeRecord> {
        self.records@
    }

    /// Appends one variable's attribute record.
    pub fn record(self, value: VariableAttributeRecord) -> (res: Self)
        ensures
            res.spec_records() == self.spec_records().push(value),
    {
        let mut b = self;
        b.records.push(value);
        proof {
            assert(b.spec_records() =~= self.spec_records().push(value));
        }
        b
    }

    /// Replaces the collection with `records`.
    pub fn records(self, records: Vec<VariableAttributeRecord>) -> (res: Self)
        ensures
            res.spec_records() == records@,
    {
        let mut b = self;
        b.records = records;
        b
    }

    /// Finalizes this builder into a [`VariableAttributes`]; unset fields take their defaults.
    pub fn build(self) -> (res: VariableAttributes)
        ensures
            res.spec_records() == self.spec_records(),
    {
        let records = self.records;
        VariableAttributes { records }
    }
}

/// One variable's raw attributes: its name bytes and its attributes.
pub type RawVariableAttributes = (Seq<u8>, Seq<RawAttribute>);

/// One `name:` group off the front of `s`: the variable name up to the
/// first `:` (not empty), then one attribute set.
pub open spec fn variable_attribute_group(s: Seq<u8>) -> Option<(RawVariableAttributes, Seq<u8>)> {
    match take_before(s, VARIABLE_ATTRIBUTES_NAME_TERMINATOR) {
        None => None,
        Some((name, rest)) => if name.len() == 0 {
            None
        } else {
            match attribute_set(rest) {
                None => None,
                Some((attrs, rest)) => Some(((name, attrs), rest)),
            }
        },
    }
}

/// The groups of a subtype-18 payload, one after another until the
/// payload runs out.
pub open spec fn variable_attribute_list(s: Seq<u8>) -> Option<Seq<RawVariableAttributes>>
    decreases s.len(),
{
    if s.len() == 0 {
        Some(Seq::empty())
    } else {
        match variable_attribute_group(s) {
            None => None,
            Some((group, rest)) => if rest.len() < s.len() {
                match variable_attribute_list(rest) {
                    None => None,
                    Some(more) => Some(seq![group] + more),
                }
            } else {
                None
            },
        }
    }
}

/// Whether `record` is `raw` decoded through `encoding`.
pub open spec fn decodes_variable_attributes(
    record: VariableAttributeRecord,
    raw: RawVariableAttributes,
    encoding: TextEncoding,
) -> bool {
    &&& record.spec_variable_name() == encoding.decoded(raw.0)
    &&& record.spec_attributes().len() == raw.1.len()
    &&& forall|k: int|
        0 <= k < raw.1.len() ==> {
            let entry = #[trigger] record.spec_attributes()[k];
            &&& entry.spec_name() == encoding.decoded(raw.1[k].0)
            &&& entry.spec_values() == raw.1[k].1.map_values(|v: Seq<u8>| encoding.decoded(v))
        }
}

/// Turns decoded `(name, values)` pairs into attribute entries, in
/// order.
fn to_entries(set: Vec<(String, Vec<String>)>) -> (res: Vec<VariableAttributeEntry>)
    ensures
        res@.len() == set@.len(),
        forall|k: int|
            0 <= k < set@.len() ==> (#[trigger] res@[k]).spec_name() == set@[k].0@
                && res@[k].spec_values() == set@[k].1@.map_values(|t: String| t@),
{
    let ghost pairs = set@;
    let mut out: Vec<VariableAttributeEntry> = Vec::new();
    for pair in it: set
        invariant
            pairs == it.seq(),
            out@.len() == it.index(),
            forall|k: int|
                0 <= k < it.index() ==> (#[trigger] out@[k]).spec_name() == pairs[k].0@
                    && out@[k].spec_values() == pairs[k].1@.map_values(|t: String| t@),
    {
        let (name, values) = pair;
        let entry = VariableAttributeEntry::builder().name(name).add_values(values).build();
        out.push(entry);
    }
    out
}

/// Parses one `name:` group of a subtype-18 payload at `at`, returning
/// the record and the offset just past it.
fn parse_variable_attribute(payload: &[u8], at: usize, encoding: &TextEncoding) -> (res: Option<
    (VariableAttributeRecord, usize),
>)
    requires
        at <= payload@.len(),
    ensures
        match variable_attribute_group(payload@.skip(at as int)) {
            None => res is None,
            Some((raw, rest)) => res is Some && res->Some_0.1 <= payload@.len() && payload@.skip(
                res->Some_0.1 as int,
            ) == rest && decodes_variable_attributes(res->Some_0.0, raw, *encoding),
        },
{
    let colon = match take_before_at(payload, at, VARIABLE_ATTRIBUTES_NAME_TERMINATOR) {
        None => return None,
        Some(colon) => colon,
    };
    if colon == at {
        return None;
    }
    let (set, next) = match parse_attribute_set(payload, colon + 1, encoding) {
        None => return None,
        Some(parsed) => parsed,
    };
    let ghost set_view = set@;
    let ghost raws = attribute_set(payload@.skip(colon + 1))->Some_0.0;
    let variable_name = encoding.decode(&payload[at..colon]);
    let entries = to_entries(set);
    let record = VariableAttributeRecord::builder().variable_name(variable_name).add_attributes(
        entries,
    ).build();
    proof {
        assert(Seq::<VariableAttributeEntry>::empty() + entries@ =~= entries@);
        assert forall|k: int| 0 <= k < raws.len() implies {
            let entry = #[trigger] record.spec_attributes()[k];
            &&& entry.spec_name() == encoding.decoded(raws[k].0)
            &&& entry.spec_values() == raws[k].1.map_values(|v: Seq<u8>| encoding.decoded(v))
        } by {
            assert(decodes_attribute(set_view[k], raws[k], *encoding));
        }
    }
    Some((record, next))
}

/// Parses an extension subtype-18 (variable attributes) payload.
///
/// The payload is `name:` groups one after another, each a variable
/// name up to a `:` followed by one attribute set; a `/` ends a group,
/// and a trailing `/` is accepted. Attributes follow the subtype-17
/// grammar. Names and values are decoded through `encoding`.
///
/// # Errors
/// - [`Field::ExtensionElementSize`] when `actual_size` isn't `1`.
/// - [`Field::VariableAttribute`] when a group lacks its `:`, has an
///   empty variable name, or holds a malformed attribute.
pub fn parse(
    actual_size: u32,
    payload: &[u8],
    encoding: &TextEncoding,
    position: u64,
) -> (res: Result<Vec<VariableAttributeRecord>>)
    ensures
        actual_size != TEXT_ELEMENT_SIZE ==> res is Err && is_unexpected_value(
            res->Err_0,
            position,
            Field::ExtensionElementSize,
        ),
        actual_size == TEXT_ELEMENT_SIZE ==> match variable_attribute_list(payload@) {
            None => res is Err && is_unexpected_value(res->Err_0, position, Field::VariableAttribute),
            Some(raws) => res is Ok && res->Ok_0@.len() == raws.len() && forall|k: int|
                0 <= k < raws.len() ==> decodes_variable_attributes(
                    #[trigger] res->Ok_0@[k],
                    raws[k],
                    *encoding,
                ),
        },
{
    if actual_size != TEXT_ELEMENT_SIZE {
        return Err(unexpected_value_error(position, Field::ExtensionElementSize));
    }
    let mut at: usize = 0;
    let mut out: Vec<VariableAttributeRecord> = Vec::new();
    let ghost mut done: Seq<RawVariableAttributes> = Seq::empty();
    proof {
        assert(payload@.skip(0) =~= payload@);
        if let Some(all) = variable_attribute_list(payload@) {
            assert(done + all =~= all);
        }
    }
    while at < payload.len()
        invariant
            actual_size == TEXT_ELEMENT_SIZE,
            at <= payload@.len(),
            variable_attribute_list(payload@) == match variable_attribute_list(
                payload@.skip(at as int),
            ) {
                None => None,
                Some(more) => Some(done + more),
            },
            out@.len() == done.len(),
            forall|k: int|
                0 <= k < done.len() ==> decodes_variable_attributes(
                    #[trigger] out@[k],
                    done[k],
                    *encoding,
                ),
        decreases payload@.len() - at,
    {
        let (record, next) = match parse_variable_attribute(payload, at, encoding) {
            None => return Err(unexpected_value_error(position, Field::VariableAttribute)),
            Some(parsed) => parsed,
        };
        if next <= at {
            return Err(unexpected_value_error(position, Field::VariableAttribute));
        }
        let ghost group = variable_attribute_group(payload@.skip(at as int))->Some_0.0;
        out.push(record);
        proof {
            assert(payload@.skip(next as int).len() < payload@.skip(at as int).len());
            match variable_attribute_list(payload@.skip(next as int)) {
                None => {},
                Some(more) => {
                    assert(done + (seq![group] + more) =~= done.push(group) + more);
                },
            }
            done = done.push(group);
        }
        at = next;
    }
    proof {
        assert(payload@.skip(at as int).len() == 0);
        assert(done + Seq::<RawVariableAttributes>::empty() =~= done);
    }
    Ok(out)
}

} // verus!
