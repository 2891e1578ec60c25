//! Subtype 13 — long variable name mappings (collection wrapper).
use vstd::prelude::*;
use crate::spss::sav::dictionary_format::{KEY_VALUE_SEPARATOR, PAIR_SEPARATOR, TEXT_ELEMENT_SIZE};
use crate::spss::sav::extensions::extension_parse::{
    find_byte, first_index, lemma_split_on_trailing_separator, pieces, split_on, split_ranges,
    unexpected_value_error,
};
use crate::spss::sav::extensions::long_variable_name::LongVariableName;
use crate::spss::sav::sav_error::{is_unexpected_value, Field, Result};
use crate::spss::sav::text_encoding::TextEncoding;

verus! {

/// The short-to-long variable-name mappings from one extension
/// subtype-13 record, in on-disk order.
#[derive(Debug, Clone, PartialEq, Eq)]
pub struct LongVariableNames {
    mappings: Vec<LongVariableName>,
}

impl LongVariableNames {
    /// The `mappings` field, as a specification value.
    pub closed spec fn spec_mappings(self) -> Seq<LongVariableName> {
        self.mappings@
    }

    /// Returns a fresh [`LongVariableNamesBuilder`].
    pub fn builder() -> (res: LongVariableNamesBuilder)
        ensures
            res.spec_mappings().len() == 0,
    {
        LongVariableNamesBuilder { mappings: Vec::new() }
    }

    /// The name mappings, in on-disk order.
    pub fn mappings(&self) -> (res: &[LongVariableName])
        ensures
            res@ == self.spec_mappings(),
    {
        self.mappings.as_slice()
    }
}

/// Builder for [`LongVariableNames`].
#[derive(Debug, Clone)]
pub struct LongVariableNamesBuilder {
    mappings: Vec<LongVariableName>,
}

impl LongVariableNamesBuilder {
    /// The `mappings` collected so far, as a specification value.
    pub closed spec fn spec_mappings(self) -> Seq<LongVariableName> {
        self.mappings@
    }

    /// Appends one name mapping.
    pub fn mapping(self, value: LongVariableName) -> (res: Self)
        ensures
            res.spec_mappings() == self.spec_mappings().push(value),
    {
        let mut b = self;
        b.mappings.push(value);
        proof {
            assert(b.spec_mappings() =~= self.spec_mappings().push(value));
        }
        b
    }

    /// Replaces the collection with `mappings`.
    pub fn mappings(self, mappings: Vec<LongVariableName>) -> (res: Self)
        ensures
            res.spec_mappings() == mappings@,
    {
        let mut b = self;
        b.mappings = mappings;
        b
    }

    /// Finalizes this builder into a [`LongVariableNames`]; unset fields take their defaults.
    pub fn build(self) -> (res: LongVariableNames)
        ensures
            res.spec_mappings() == self.spec_mappings(),
    {
        let mappings = self.mappings;
        LongVariableNames { mappings }
    }
}

/// The key and value bytes of one `short=long` pair, or `None` when the
/// pair lacks a `=` or has an empty key or value. The split is at the
/// first `=`.
pub open spec fn name_pair(pair: Seq<u8>) -> Option<(Seq<u8>, Seq<u8>)> {
    let i = first_index(pair, KEY_VALUE_SEPARATOR) as int;
    if i >= pair.len() || i == 0 || i + 1 == pair.len() {
        None
    } else {
        Some((pair.take(i), pair.skip(i + 1)))
    }
}

/// The pairs of a subtype-13 payload split at its separators: empty
/// pieces are skipped, and any malformed piece makes the whole `None`.
pub open spec fn name_pairs(pairs: Seq<Seq<u8>>) -> Option<Seq<(Seq<u8>, Seq<u8>)>>
    decreases pairs.len(),
{
    if pairs.len() == 0 {
        Some(Seq::empty())
    } else {
        match name_pairs(pairs.drop_last()) {
            None => None,
            Some(done) => if pairs.last().len() == 0 {
                Some(done)
            } else {
                match name_pair(pairs.last()) {
                    None => None,
                    Some(p) => Some(done.push(p)),
                }
            },
        }
    }
}

/// Once one of the first `k` pairs fails to split, the whole list
/// fails.
proof fn lemma_name_pairs_fail(pairs: Seq<Seq<u8>>, k: int)
    requires
        0 <= k <= pairs.len(),
        name_pairs(pairs.take(k)) is None,
    ensures
        name_pairs(pairs) is None,
    decreases pairs.len() - k,
{
    if k == pairs.len() {
        assert(pairs.take(k) =~= pairs);
    } else {
        assert(pairs.take(k + 1).drop_last() =~= pairs.take(k));
        lemma_name_pairs_fail(pairs, k + 1);
    }
}

/// A trailing pair separator changes nothing: the optional terminating
/// tab is accepted.
pub proof fn lemma_trailing_separator_accepted(payload: Seq<u8>)
    ensures
        name_pairs(split_on(payload.push(PAIR_SEPARATOR), PAIR_SEPARATOR)) == name_pairs(
            split_on(payload, PAIR_SEPARATOR),
        ),
{
    lemma_split_on_trailing_separator(payload, PAIR_SEPARATOR);
    let pieces = split_on(payload, PAIR_SEPARATOR);
    assert(pieces.push(Seq::<u8>::empty()).drop_last() =~= pieces);
}

/// Whether `mapping` is `pair` decoded through `encoding`.
pub open spec fn decodes_pair(
    mapping: LongVariableName,
    pair: (Seq<u8>, Seq<u8>),
    encoding: TextEncoding,
) -> bool {
    &&& mapping.spec_short_name() == encoding.decoded(pair.0)
    &&& mapping.spec_long_name() == encoding.decoded(pair.1)
}

/// Parses a subtype-13 payload (long-variable-name mappings).
///
/// The payload is tab-separated `short=long` pairs; a trailing tab is
/// accepted. Each half is decoded through `encoding`. Duplicate short
/// names are kept in declaration order.
///
/// # Errors
///
/// * [`Field::ExtensionElementSize`] when `actual_size != 1`.
/// * [`Field::LongVariableNamePair`] when a non-empty pair lacks a
///   separator, has an empty key, or has an empty value.
pub fn parse(
    actual_size: u32,
    payload: &[u8],
    encoding: &TextEncoding,
    position: u64,
) -> (res: Result<Vec<LongVariableName>>)
    ensures
        actual_size != TEXT_ELEMENT_SIZE ==> res is Err && is_unexpected_value(
            res->Err_0,
            position,
            Field::ExtensionElementSize,
        ),
        actual_size == TEXT_ELEMENT_SIZE ==> match name_pairs(split_on(payload@, PAIR_SEPARATOR)) {
            None => res is Err && is_unexpected_value(
                res->Err_0,
                position,
                Field::LongVariableNamePair,
            ),
            Some(pairs) => res is Ok && res->Ok_0@.len() == pairs.len() && forall|k: int|
                0 <= k < pairs.len() ==> decodes_pair(#[trigger] res->Ok_0@[k], pairs[k], *encoding),
        },
{
    if actual_size != TEXT_ELEMENT_SIZE {
        return Err(unexpected_value_error(position, Field::ExtensionElementSize));
    }
    let ranges = split_ranges(payload, PAIR_SEPARATOR);
    let ghost segs = split_on(payload@, PAIR_SEPARATOR);
    let mut mappings: Vec<LongVariableName> = Vec::new();
    let ghost mut done: Seq<(Seq<u8>, Seq<u8>)> = Seq::empty();
    assert(segs.take(0) =~= Seq::<Seq<u8>>::empty());
    for k in 0..ranges.len()
        invariant
            actual_size == TEXT_ELEMENT_SIZE,
            segs == split_on(payload@, PAIR_SEPARATOR),
            ranges@.len() == segs.len(),
            crate::spss::sav::extensions::extension_parse::ranges_within(payload@, ranges@),
            pieces(payload@, ranges@) == segs,
            name_pairs(segs.take(k as int)) == Some(done),
            mappings@.len() == done.len(),
            forall|j: int| 0 <= j < done.len() ==> decodes_pair(#[trigger] mappings@[j], done[j], *encoding),
    {
        let (start, end) = ranges[k];
        let pair = &payload[start..end];
        assert(pair@ == segs[k as int]);
        assert(segs.take(k as int + 1).drop_last() =~= segs.take(k as int));
        assert(segs.take(k as int + 1).last() == segs[k as int]);
        if pair.len() > 0 {
            let eq = find_byte(pair, 0, KEY_VALUE_SEPARATOR);
            assert(pair@.skip(0) =~= pair@);
            if eq == pair.len() || eq == 0 || eq + 1 == pair.len() {
                proof {
                    lemma_name_pairs_fail(segs, k as int + 1);
                }
                return Err(unexpected_value_error(position, Field::LongVariableNamePair));
            }
            let key = &pair[0..eq];
            let value = &pair[eq + 1..pair.len()];
            assert(key@ =~= pair@.take(eq as int));
            assert(value@ =~= pair@.skip(eq as int + 1));
            let mapping = LongVariableName::builder().short_name(encoding.decode(key)).long_name(
                encoding.decode(value),
            ).build();
            mappings.push(mapping);
            proof {
                done = done.push((key@, value@));
            }
        }
    }
    assert(segs.take(ranges@.len() as int) =~= segs);
    Ok(mappings)
}

} // verus!
