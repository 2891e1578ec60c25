//! Subtypes 7 / 19 — multiple response sets (collection wrapper).
use vstd::prelude::*;
use crate::spss::sav::ascii_number::{bounded_decimal, parse_ascii_u32};
use crate::spss::sav::dictionary_format::{
    FIELD_SEPARATOR, LINE_SEPARATOR, MULTIPLE_RESPONSE_SET_TYPE_CATEGORY,
    MULTIPLE_RESPONSE_SET_TYPE_DICHOTOMY_COUNTED_VALUES,
    MULTIPLE_RESPONSE_SET_TYPE_DICHOTOMY_VARIABLE_LABELS, NAME_TERMINATOR, TEXT_ELEMENT_SIZE,
};
use crate::spss::sav::extensions::category_label_source::CategoryLabelSource;
use crate::spss::sav::extensions::extension_parse::{
    decode_pieces, keep_nonempty,
    lemma_parse_pieces_fail, lemma_parse_pieces_step, parse_pieces, pieces, ranges_within,
    split_nonempty_ranges, split_on, split_ranges, take_before, take_before_at,
    unexpected_value_error,
};
use crate::spss::sav::extensions::multiple_response_set::MultipleResponseSet;
use crate::spss::sav::extensions::multiple_response_set_kind::MultipleResponseSetKind;
use crate::spss::sav::sav_error::{is_unexpected_value, Field, Result};
use crate::spss::sav::text_encoding::TextEncoding;

verus! {

/// The multiple response sets from one extension subtype-7 or -19
/// record, in on-disk order.
#[derive(Debug, Clone, PartialEq, Eq)]
pub struct MultipleResponseSets {
    sets: Vec<MultipleResponseSet>,
}

impl MultipleResponseSets {
    /// The `sets` field, as a specification value.
    pub closed spec fn spec_sets(self) -> Seq<MultipleResponseSet> {
        self.sets@
    }

    /// Returns a fresh [`MultipleResponseSetsBuilder`].
    pub fn builder() -> (res: MultipleResponseSetsBuilder)
        ensures
            res.spec_sets().len() == 0,
    {
        MultipleResponseSetsBuilder { sets: Vec::new() }
    }

    /// The multiple response sets, in on-disk order.
    pub fn sets(&self) -> (res: &[MultipleResponseSet])
        ensures
            res@ == self.spec_sets(),
    {
        self.sets.as_slice()
    }
}

/// Builder for [`MultipleResponseSets`].
#[derive(Debug, Clone)]
pub struct MultipleResponseSetsBuilder {
    sets: Vec<MultipleResponseSet>,
}

impl MultipleResponseSetsBuilder {
    /// The `sets` collected so far, as a specification value.
    pub closed spec fn spec_sets(self) -> Seq<MultipleResponseSet> {
        self.sets@
    }

    /// Appends one multiple response set.
    pub fn set(self, value: MultipleResponseSet) -> (res: Self)
        ensures
            res.spec_sets() == self.spec_sets().push(value),
    {
        let mut b = self;
        b.sets.push(value);
        proof {
            assert(b.spec_sets() =~= self.spec_sets().push(value));
        }
        b
    }

    /// Replaces the collection with `sets`.
    pub fn sets(self, sets: Vec<MultipleResponseSet>) -> (res: Self)
        ensures
            res.spec_sets() == sets@,
    {
        let mut b = self;
        b.sets = sets;
        b
    }

    /// Finalizes this builder into a [`MultipleResponseSets`]; unset fields take their defaults.
    pub fn build(self) -> (res: MultipleResponseSets)
        ensures
            res.spec_sets() == self.spec_sets(),
    {
        let sets = self.sets;
        MultipleResponseSets { sets }
    }
}

/// `s` after its leading field separator, or `None` when it does not
/// start with one.
pub open spec fn after_separator(s: Seq<u8>) -> Option<Seq<u8>> {
    if s.len() > 0 && s[0] == FIELD_SEPARATOR {
        Some(s.skip(1))
    } else {
        None
    }
}

/// A counted string (`<decimal-length> <space> <that-many-bytes>`) off
/// the front of `s`, and what remains.
pub open spec fn counted_string(s: Seq<u8>) -> Option<(Seq<u8>, Seq<u8>)> {
    match take_before(s, FIELD_SEPARATOR) {
        None => None,
        Some((digits, rest)) => match bounded_decimal(digits, u32::MAX as nat) {
            None => None,
            Some(n) => if rest.len() < n {
                None
            } else {
                Some((rest.take(n as int), rest.skip(n as int)))
            },
        },
    }
}

/// A set's raw kind: its type letter, its label-source number (type `E`
/// only, else `0`), and its counted-value bytes (types `D` and `E`).
pub type RawSetKind = (u8, u32, Seq<u8>);

/// The body that follows type letter `type_byte`, off the front of `s`:
/// `C` is a separator; `D` a counted value then a separator; `E` a
/// separator, a label-source number, a separator, a counted value and
/// a separator.
pub open spec fn set_kind(type_byte: u8, s: Seq<u8>) -> Option<(RawSetKind, Seq<u8>)> {
    if type_byte == MULTIPLE_RESPONSE_SET_TYPE_CATEGORY {
        match after_separator(s) {
            None => None,
            Some(rest) => Some(((type_byte, 0u32, Seq::empty()), rest)),
        }
    } else if type_byte == MULTIPLE_RESPONSE_SET_TYPE_DICHOTOMY_VARIABLE_LABELS {
        match counted_string(s) {
            None => None,
            Some((counted, rest)) => match after_separator(rest) {
                None => None,
                Some(rest) => Some(((type_byte, 0u32, counted), rest)),
            },
        }
    } else if type_byte == MULTIPLE_RESPONSE_SET_TYPE_DICHOTOMY_COUNTED_VALUES {
        match after_separator(s) {
            None => None,
            Some(rest) => match take_before(rest, FIELD_SEPARATOR) {
                None => None,
                Some((source, rest)) => match bounded_decimal(source, u32::MAX as nat) {
                    None => None,
                    Some(label_source) => match counted_string(rest) {
                        None => None,
                        Some((counted, rest)) => match after_separator(rest) {
                            None => None,
                            Some(rest) => Some(((type_byte, label_source as u32, counted), rest)),
                        },
                    },
                },
            },
        }
    } else {
        None
    }
}

/// One set line's raw parts: name, kind, label, and member names.
pub type RawSet = (Seq<u8>, RawSetKind, Seq<u8>, Seq<Seq<u8>>);

/// The raw parts of one `$name=<type>...` set line, or `None` when it is
/// malformed (missing `=`, empty name, unknown type letter, malformed
/// counted string or label source).
pub open spec fn set_record(line: Seq<u8>) -> Option<RawSet> {
    match take_before(line, NAME_TERMINATOR) {
        None => None,
        Some((name, rest)) => if name.len() == 0 || rest.len() == 0 {
            None
        } else {
            match set_kind(rest[0], rest.skip(1)) {
                None => None,
                Some((kind, rest)) => match counted_string(rest) {
                    None => None,
                    Some((label, rest)) => Some(
                        (name, kind, label, keep_nonempty(split_on(rest, FIELD_SEPARATOR))),
                    ),
                },
            }
        },
    }
}

/// The sets of a subtype-7 / -19 payload, or `None` when a line is
/// malformed.
pub open spec fn set_records(payload: Seq<u8>) -> Option<Seq<RawSet>> {
    parse_pieces(
        split_on(payload, LINE_SEPARATOR),
        |l: Seq<u8>| l.len() == 0,
        |l: Seq<u8>| set_record(l),
    )
}

/// Whether `kind` is `raw` with its counted value decoded through
/// `encoding`.
pub open spec fn decodes_kind(kind: MultipleResponseSetKind, raw: RawSetKind, encoding: TextEncoding) -> bool {
    if raw.0 == MULTIPLE_RESPONSE_SET_TYPE_CATEGORY {
        kind == MultipleResponseSetKind::MultipleCategory
    } else {
        &&& kind matches MultipleResponseSetKind::MultipleDichotomy { counted_value, category_labels }
        &&& kind->counted_value@ == encoding.decoded(raw.2)
        &&& kind->category_labels == if raw.0 == MULTIPLE_RESPONSE_SET_TYPE_DICHOTOMY_VARIABLE_LABELS {
            CategoryLabelSource::VariableLabels
        } else {
            CategoryLabelSource::CountedValues { label_source: raw.1 }
        }
    }
}

/// Whether `set` is `raw` decoded through `encoding`.
pub open spec fn decodes_set(set: MultipleResponseSet, raw: RawSet, encoding: TextEncoding) -> bool {
    &&& set.spec_name() == encoding.decoded(raw.0)
    &&& decodes_kind(set.spec_kind(), raw.1, encoding)
    &&& set.spec_label() == encoding.decoded(raw.2)
    &&& set.spec_variables() == raw.3.map_values(|m: Seq<u8>| encoding.decoded(m))
}

/// The offset just past the field separator at `at`, or `None` when
/// `at` holds none.
fn expect_field_separator(s: &[u8], at: usize) -> (res: Option<usize>)
    requires
        at <= s@.len(),
    ensures
        res is None <==> after_separator(s@.skip(at as int)) is None,
        res matches Some(next) ==> next == at + 1 && next <= s@.len() && after_separator(s@.skip(at as int)) == Some(
            s@.skip(next as int),
        ),
{
    if at < s.len() && s[at] == FIELD_SEPARATOR {
        assert(s@.skip(at as int).skip(1) =~= s@.skip(at + 1));
        Some(at + 1)
    } else {
        None
    }
}

/// The bounds of the `<count> <bytes>` string at `at`: where its bytes
/// start and end.
fn read_counted_string(s: &[u8], at: usize) -> (res: Option<(usize, usize)>)
    requires
        at <= s@.len(),
    ensures
        res is None <==> counted_string(s@.skip(at as int)) is None,
        res matches Some((start, end)) ==> at < start <= end <= s@.len() && s@.len() <= usize::MAX && counted_string(
            s@.skip(at as int),
        ) == Some((s@.subrange(start as int, end as int), s@.skip(end as int))),
{
    let space = match take_before_at(s, at, FIELD_SEPARATOR) {
        None => return None,
        Some(i) => i,
    };
    let n = match parse_ascii_u32(&s[at..space]) {
        None => return None,
        Some(n) => n as usize,
    };
    let start = space + 1;
    if s.len() - start < n {
        return None;
    }
    assert(s@.skip(start as int).take(n as int) =~= s@.subrange(start as int, start + n));
    assert(s@.skip(start as int).skip(n as int) =~= s@.skip(start + n));
    Some((start, start + n))
}

/// Parses the part of a set line after its type letter `type_byte`,
/// from `body` up to the label.
fn parse_kind(line: &[u8], body: usize, type_byte: u8, encoding: &TextEncoding) -> (res: Option<
    (MultipleResponseSetKind, usize),
>)
    requires
        body <= line@.len(),
    ensures
        match set_kind(type_byte, line@.skip(body as int)) {
            None => res is None,
            Some((raw, rest)) => res is Some && decodes_kind(res->Some_0.0, raw, *encoding)
                && res->Some_0.1 <= line@.len() && line@.skip(res->Some_0.1 as int) == rest,
        },
{
    if type_byte == MULTIPLE_RESPONSE_SET_TYPE_CATEGORY {
        match expect_field_separator(line, body) {
            None => None,
            Some(next) => Some((MultipleResponseSetKind::MultipleCategory, next)),
        }
    } else if type_byte == MULTIPLE_RESPONSE_SET_TYPE_DICHOTOMY_VARIABLE_LABELS {
        let (start, end) = match read_counted_string(line, body) {
            None => return None,
            Some(range) => range,
        };
        let next = match expect_field_separator(line, end) {
            None => return None,
            Some(next) => next,
        };
        let counted_value = encoding.decode(&line[start..end]);
        let kind = MultipleResponseSetKind::MultipleDichotomy {
            counted_value,
            category_labels: CategoryLabelSource::VariableLabels,
        };
        Some((kind, next))
    } else if type_byte == MULTIPLE_RESPONSE_SET_TYPE_DICHOTOMY_COUNTED_VALUES {
        let source_start = match expect_field_separator(line, body) {
            None => return None,
            Some(next) => next,
        };
        let space = match take_before_at(line, source_start, FIELD_SEPARATOR) {
            None => return None,
            Some(i) => i,
        };
        let label_source = match parse_ascii_u32(&line[source_start..space]) {
            None => return None,
            Some(n) => n,
        };
        let (start, end) = match read_counted_string(line, space + 1) {
            None => return None,
            Some(range) => range,
        };
        let next = match expect_field_separator(line, end) {
            None => return None,
            Some(next) => next,
        };
        let counted_value = encoding.decode(&line[start..end]);
        let kind = MultipleResponseSetKind::MultipleDichotomy {
            counted_value,
            category_labels: CategoryLabelSource::CountedValues { label_source },
        };
        Some((kind, next))
    } else {
        None
    }
}

/// Parses one set line of a subtype-7 payload.
#[verifier::loop_isolation(false)]
fn parse_multiple_response_set(line: &[u8], encoding: &TextEncoding, position: u64) -> (res: Result<
    MultipleResponseSet,
>)
    ensures
        match set_record(line@) {
            None => res is Err && is_unexpected_value(
                res->Err_0,
                position,
                Field::MultipleResponseSet,
            ),
            Some(raw) => res is Ok && decodes_set(res->Ok_0, raw, *encoding),
        },
{
    let field = Field::MultipleResponseSet;
    assert(line@.skip(0) =~= line@);
    let eq = match take_before_at(line, 0, NAME_TERMINATOR) {
        None => return Err(unexpected_value_error(position, field)),
        Some(i) => i,
    };
    if eq == 0 || eq + 1 >= line.len() {
        return Err(unexpected_value_error(position, field));
    }
    let type_byte = line[eq + 1];
    let body = eq + 2;
    let ghost rest = line@.skip(eq + 1);
    assert(rest[0] == type_byte);
    assert(rest.skip(1) =~= line@.skip(body as int));
    let (kind, after_kind) = match parse_kind(line, body, type_byte, encoding) {
        None => return Err(unexpected_value_error(position, field)),
        Some(parsed) => parsed,
    };
    let (label_start, label_end) = match read_counted_string(line, after_kind) {
        None => return Err(unexpected_value_error(position, field)),
        Some(range) => range,
    };
    let members = &line[label_end..line.len()];
    assert(members@ =~= line@.skip(label_end as int));
    let ranges = split_nonempty_ranges(members, FIELD_SEPARATOR);
    let names = decode_pieces(members, &ranges, encoding);
    let set = MultipleResponseSet::builder().name(encoding.decode(&line[0..eq])).label(
        encoding.decode(&line[label_start..label_end]),
    ).kind(kind).add_variables(names).build();
    assert(set.spec_variables() =~= names@.map_values(|t: String| t@));
    Ok(set)
}

/// Parses an extension subtype-7 or subtype-19 payload (multiple
/// response sets).
///
/// The payload is one set per line, each terminated by a line feed. A
/// line is `$name=<type>...`, where `<type>` is `C` (multiple
/// category), `D` (multiple dichotomy, labels from variable labels) or
/// `E` (multiple dichotomy, labels from counted values). Counted values
/// and the label are counted strings (`<decimal-length> <space>
/// <that-many-bytes>`); member names follow, space-separated. Names,
/// labels, counted values and members are decoded through `encoding`.
///
/// # Errors
///
/// * [`Field::ExtensionElementSize`] when `actual_size != 1`.
/// * [`Field::MultipleResponseSet`] on a malformed set line.
pub fn parse(
    actual_size: u32,
    payload: &[u8],
    encoding: &TextEncoding,
    position: u64,
) -> (res: Result<Vec<MultipleResponseSet>>)
    ensures
        actual_size != TEXT_ELEMENT_SIZE ==> res is Err && is_unexpected_value(
            res->Err_0,
            position,
            Field::ExtensionElementSize,
        ),
        actual_size == TEXT_ELEMENT_SIZE ==> match set_records(payload@) {
            None => res is Err && is_unexpected_value(
                res->Err_0,
                position,
                Field::MultipleResponseSet,
            ),
            Some(raws) => res is Ok && res->Ok_0@.len() == raws.len() && forall|k: int|
                0 <= k < raws.len() ==> decodes_set(#[trigger] res->Ok_0@[k], raws[k], *encoding),
        },
{
    if actual_size != TEXT_ELEMENT_SIZE {
        return Err(unexpected_value_error(position, Field::ExtensionElementSize));
    }
    let ranges = split_ranges(payload, LINE_SEPARATOR);
    let ghost segs = split_on(payload@, LINE_SEPARATOR);
    let ghost skip = |l: Seq<u8>| l.len() == 0;
    let ghost each = |l: Seq<u8>| set_record(l);
    let mut sets: Vec<MultipleResponseSet> = Vec::new();
    let ghost mut done: Seq<RawSet> = Seq::empty();
    assert(segs.take(0) =~= Seq::<Seq<u8>>::empty());
    for k in 0..ranges.len()
        invariant
            actual_size == TEXT_ELEMENT_SIZE,
            segs == split_on(payload@, LINE_SEPARATOR),
            skip == (|l: Seq<u8>| l.len() == 0),
            each == (|l: Seq<u8>| set_record(l)),
            ranges@.len() == segs.len(),
            ranges_within(payload@, ranges@),
            pieces(payload@, ranges@) == segs,
            parse_pieces(segs.take(k as int), skip, each) == Some(done),
            sets@.len() == done.len(),
            forall|j: int| 0 <= j < done.len() ==> decodes_set(#[trigger] sets@[j], done[j], *encoding),
    {
        let (start, end) = ranges[k];
        let line = &payload[start..end];
        assert(line@ == segs[k as int]);
        proof {
            lemma_parse_pieces_step(segs, skip, each, k as int);
        }
        if line.len() > 0 {
            let set = match parse_multiple_response_set(line, encoding, position) {
                Ok(set) => set,
                Err(error) => {
                    proof {
                        lemma_parse_pieces_fail(segs, skip, each, k as int + 1);
                    }
                    return Err(error);
                },
            };
            sets.push(set);
            proof {
                done = done.push(set_record(line@)->Some_0);
            }
        }
    }
    assert(segs.take(ranges@.len() as int) =~= segs);
    Ok(sets)
}

} // verus!
