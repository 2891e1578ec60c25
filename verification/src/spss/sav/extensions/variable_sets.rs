//! Subtype 5 — named variable groupings (collection wrapper).
use vstd::prelude::*;
use crate::spss::sav::dictionary_format::{
    CARRIAGE_RETURN, FIELD_SEPARATOR, LINE_SEPARATOR, NAME_TERMINATOR, TEXT_ELEMENT_SIZE,
};
use crate::spss::sav::extensions::extension_parse::{
    decode_pieces, find_byte, first_index, keep_nonempty, lemma_parse_pieces_fail,
    lemma_parse_pieces_step, parse_pieces, pieces, ranges_within, split_nonempty_ranges, split_on,
    split_ranges, unexpected_value_error,
};
use crate::spss::sav::extensions::variable_set::VariableSet;
use crate::spss::sav::sav_error::{is_unexpected_value, Field, Result};
use crate::spss::sav::text_encoding::TextEncoding;

verus! {

/// The named variable groupings from one extension subtype-5 record,
/// in on-disk order.
#[derive(Debug, Clone, PartialEq, Eq)]
pub struct VariableSets {
    sets: Vec<VariableSet>,
}

impl VariableSets {
    /// The `sets` field, as a specification value.
    pub closed spec fn spec_sets(self) -> Seq<VariableSet> {
        self.sets@
    }

    /// Returns a fresh [`VariableSetsBuilder`].
    pub fn builder() -> (res: VariableSetsBuilder)
        ensures
            res.spec_sets().len() == 0,
    {
        VariableSetsBuilder { sets: Vec::new() }
    }

    /// The variable sets, in on-disk order.
    pub fn sets(&self) -> (res: &[VariableSet])
        ensures
            res@ == self.spec_sets(),
    {
        self.sets.as_slice()
    }
}

/// Builder for [`VariableSets`].
#[derive(Debug, Clone)]
pub struct VariableSetsBuilder {
    sets: Vec<VariableSet>,
}

impl VariableSetsBuilder {
    /// The `sets` collected so far, as a specification value.
    pub closed spec fn spec_sets(self) -> Seq<VariableSet> {
        self.sets@
    }

    /// Appends one variable set.
    pub fn set(self, value: VariableSet) -> (res: Self)
        ensures
            res.spec_sets() == self.spec_sets().push(value),
    {
        let mut b = self;
        b.sets.push(value);
        proof {
            assert(b.spec_sets() =~= self.spec_sets().push(value));
        }
        b
    }

    /// Replaces the collection with `sets`.
    pub fn sets(self, sets: Vec<VariableSet>) -> (res: Self)
        ensures
            res.spec_sets() == sets@,
    {
        let mut b = self;
        b.sets = sets;
        b
    }

    /// Finalizes this builder into a [`VariableSets`]; unset fields take their defaults.
    pub fn build(self) -> (res: VariableSets)
        ensures
            res.spec_sets() == self.spec_sets(),
    {
        let sets = self.sets;
        VariableSets { sets }
    }
}

/// `line` without the carriage return that may precede its line feed.
pub open spec fn strip_carriage_return(line: Seq<u8>) -> Seq<u8> {
    if line.len() > 0 && line.last() == CARRIAGE_RETURN {
        line.drop_last()
    } else {
        line
    }
}

/// Whether a subtype-5 line holds no set (blank once its carriage
/// return is removed).
pub open spec fn is_blank_line(line: Seq<u8>) -> bool {
    strip_carriage_return(line).len() == 0
}

/// The name bytes and member byte strings of one `name= members` line
/// (its carriage return already removed): the name runs up to the first
/// `=`, a single space after it is skipped, and the space-separated
/// non-empty tokens are the members; `None` when there is no `=` or the
/// name is empty.
pub open spec fn set_line(line: Seq<u8>) -> Option<(Seq<u8>, Seq<Seq<u8>>)> {
    let i = first_index(line, NAME_TERMINATOR) as int;
    if i >= line.len() || i == 0 {
        None
    } else {
        let rest = line.skip(i + 1);
        let members = if rest.len() > 0 && rest[0] == FIELD_SEPARATOR {
            rest.skip(1)
        } else {
            rest
        };
        Some((line.take(i), keep_nonempty(split_on(members, FIELD_SEPARATOR))))
    }
}

/// The sets of a subtype-5 payload, or `None` when a line is malformed.
pub open spec fn set_lines(payload: Seq<u8>) -> Option<Seq<(Seq<u8>, Seq<Seq<u8>>)>> {
    parse_pieces(
        split_on(payload, LINE_SEPARATOR),
        |l: Seq<u8>| is_blank_line(l),
        |l: Seq<u8>| set_line(strip_carriage_return(l)),
    )
}

/// Whether `set` is `raw` decoded through `encoding`.
pub open spec fn decodes_set(set: VariableSet, raw: (Seq<u8>, Seq<Seq<u8>>), encoding: TextEncoding) -> bool {
    &&& set.spec_name() == encoding.decoded(raw.0)
    &&& set.spec_variables() == raw.1.map_values(|m: Seq<u8>| encoding.decoded(m))
}

/// Parses one `name= members...` line of a subtype-5 payload, its
/// carriage return already removed.
fn parse_variable_set(line: &[u8], encoding: &TextEncoding, position: u64) -> (res: Result<
    VariableSet,
>)
    ensures
        match set_line(line@) {
            None => res is Err && is_unexpected_value(res->Err_0, position, Field::VariableSet),
            Some(raw) => res is Ok && decodes_set(res->Ok_0, raw, *encoding),
        },
{
    let name_end = find_byte(line, 0, NAME_TERMINATOR);
    assert(line@.skip(0) =~= line@);
    if name_end == line.len() || name_end == 0 {
        return Err(unexpected_value_error(position, Field::VariableSet));
    }
    let name = &line[0..name_end];
    let start = if name_end + 1 < line.len() && line[name_end + 1] == FIELD_SEPARATOR {
        name_end + 2
    } else {
        name_end + 1
    };
    let members = &line[start..line.len()];
    let ghost rest = line@.skip(name_end + 1);
    assert(members@ =~= (if rest.len() > 0 && rest[0] == FIELD_SEPARATOR {
        rest.skip(1)
    } else {
        rest
    }));
    let ranges = split_nonempty_ranges(members, FIELD_SEPARATOR);
    let names = decode_pieces(members, &ranges, encoding);
    let set = VariableSet::builder().name(encoding.decode(name)).add_variables(names).build();
    assert(set.spec_variables() =~= names@.map_values(|t: String| t@));
    Ok(set)
}

/// Parses an extension subtype-5 payload (named variable groupings).
///
/// The payload is one set per line: a set name, `=`, a space, then the
/// members' names separated by spaces; each line ends with a line feed,
/// optionally preceded by a carriage return. A set may have no members,
/// and blank lines are skipped. Names and members are decoded through
/// `encoding`.
///
/// # Errors
///
/// * [`Field::ExtensionElementSize`] when `actual_size != 1`.
/// * [`Field::VariableSet`] when a non-empty line lacks a `=` or has an
///   empty set name.
pub fn parse(
    actual_size: u32,
    payload: &[u8],
    encoding: &TextEncoding,
    position: u64,
) -> (res: Result<VariableSets>)
    ensures
        actual_size != TEXT_ELEMENT_SIZE ==> res is Err && is_unexpected_value(
            res->Err_0,
            position,
            Field::ExtensionElementSize,
        ),
        actual_size == TEXT_ELEMENT_SIZE ==> match set_lines(payload@) {
            None => res is Err && is_unexpected_value(res->Err_0, position, Field::VariableSet),
            Some(raws) => res is Ok && res->Ok_0.spec_sets().len() == raws.len() && forall|k: int|
                0 <= k < raws.len() ==> decodes_set(
                    #[trigger] res->Ok_0.spec_sets()[k],
                    raws[k],
                    *encoding,
                ),
        },
{
    if actual_size != TEXT_ELEMENT_SIZE {
        return Err(unexpected_value_error(position, Field::ExtensionElementSize));
    }
    let ranges = split_ranges(payload, LINE_SEPARATOR);
    let ghost segs = split_on(payload@, LINE_SEPARATOR);
    let ghost skip = |l: Seq<u8>| is_blank_line(l);
    let ghost each = |l: Seq<u8>| set_line(strip_carriage_return(l));
    let mut sets: Vec<VariableSet> = Vec::new();
    let ghost mut done: Seq<(Seq<u8>, Seq<Seq<u8>>)> = Seq::empty();
    assert(segs.take(0) =~= Seq::<Seq<u8>>::empty());
    for k in 0..ranges.len()
        invariant
            actual_size == TEXT_ELEMENT_SIZE,
            segs == split_on(payload@, LINE_SEPARATOR),
            skip == (|l: Seq<u8>| is_blank_line(l)),
            each == (|l: Seq<u8>| set_line(strip_carriage_return(l))),
            ranges@.len() == segs.len(),
            ranges_within(payload@, ranges@),
            pieces(payload@, ranges@) == segs,
            parse_pieces(segs.take(k as int), skip, each) == Some(done),
            sets@.len() == done.len(),
            forall|j: int| 0 <= j < done.len() ==> decodes_set(#[trigger] sets@[j], done[j], *encoding),
    {
        let (start, end) = ranges[k];
        let line = &payload[start..end];
        assert(line@ == segs[k as int]);
        proof {
            lemma_parse_pieces_step(segs, skip, each, k as int);
        }
        let end = if line.len() > 0 && line[line.len() - 1] == CARRIAGE_RETURN {
            line.len() - 1
        } else {
            line.len()
        };
        let stripped = &line[0..end];
        assert(stripped@ =~= strip_carriage_return(line@));
        if stripped.len() != 0 {
            let set = match parse_variable_set(stripped, encoding, position) {
                Ok(set) => set,
                Err(error) => {
                    proof {
                        lemma_parse_pieces_fail(segs, skip, each, k as int + 1);
                    }
                    return Err(error);
                },
            };
            sets.push(set);
            proof {
                done = done.push(set_line(strip_carriage_return(line@))->Some_0);
            }
        }
    }
    assert(segs.take(ranges@.len() as int) =~= segs);
    let result = VariableSets::builder().sets(sets).build();
    Ok(result)
}

} // verus!
