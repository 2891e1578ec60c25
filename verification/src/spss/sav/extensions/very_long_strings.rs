//! Subtype 14 — very-long-string widths (collection wrapper).
use vstd::prelude::*;
use crate::spss::sav::ascii_number::{bounded_decimal, parse_ascii_u32};
use crate::spss::sav::dictionary_format::{
    KEY_VALUE_SEPARATOR, PAIR_SEPARATOR, TEXT_ELEMENT_SIZE, VERY_LONG_STRINGS_PAIR_PADDING,
};
use crate::spss::sav::extensions::extension_parse::{
    find_byte, first_index, lemma_parse_pieces_fail, lemma_split_on_trailing_separator, lemma_parse_pieces_step, parse_pieces, pieces,
    ranges_within, split_on, split_ranges, trim_end, trimmed_len, unexpected_value_error,
};
use crate::spss::sav::extensions::very_long_string::VeryLongString;
use crate::spss::sav::sav_error::{is_unexpected_value, Field, Result};
use crate::spss::sav::text_encoding::TextEncoding;

verus! {

/// The very-long-string width declarations from one extension
/// subtype-14 record, in on-disk order.
#[derive(Debug, Clone, PartialEq, Eq)]
pub struct VeryLongStrings {
    strings: Vec<VeryLongString>,
}

impl VeryLongStrings {
    /// The `strings` field, as a specification value.
    pub closed spec fn spec_strings(self) -> Seq<VeryLongString> {
        self.strings@
    }

    /// Returns a fresh [`VeryLongStringsBuilder`].
    pub fn builder() -> (res: VeryLongStringsBuilder)
        ensures
            res.spec_strings().len() == 0,
    {
        VeryLongStringsBuilder { strings: Vec::new() }
    }

    /// The very-long-string declarations, in on-disk order.
    pub fn strings(&self) -> (res: &[VeryLongString])
        ensures
            res@ == self.spec_strings(),
    {
        self.strings.as_slice()
    }
}

/// Builder for [`VeryLongStrings`].
#[derive(Debug, Clone)]
pub struct VeryLongStringsBuilder {
    strings: Vec<VeryLongString>,
}

impl VeryLongStringsBuilder {
    /// The `strings` collected so far, as a specification value.
    pub closed spec fn spec_strings(self) -> Seq<VeryLongString> {
        self.strings@
    }

    /// Appends one very-long-string declaration.
    pub fn string(self, value: VeryLongString) -> (res: Self)
        ensures
            res.spec_strings() == self.spec_strings().push(value),
    {
        let mut b = self;
        b.strings.push(value);
        proof {
            assert(b.spec_strings() =~= self.spec_strings().push(value));
        }
        b
    }

    /// Replaces the collection with `strings`.
    pub fn strings(self, strings: Vec<VeryLongString>) -> (res: Self)
        ensures
            res.spec_strings() == strings@,
    {
        let mut b = self;
        b.strings = strings;
        b
    }

    /// Finalizes this builder into a [`VeryLongStrings`]; unset fields take their defaults.
    pub fn build(self) -> (res: VeryLongStrings)
        ensures
            res.spec_strings() == self.spec_strings(),
    {
        let strings = self.strings;
        VeryLongStrings { strings }
    }
}

/// Whether a subtype-14 piece is only padding (the NUL terminator of
/// the previous pair, or the optional trailing separator).
pub open spec fn is_blank_width_pair(piece: Seq<u8>) -> bool {
    trim_end(piece, VERY_LONG_STRINGS_PAIR_PADDING).len() == 0
}

/// The short-name bytes and width of one `short=width` piece, after its
/// trailing NULs are removed; `None` when it lacks a `=`, has an empty
/// key or width, or a width that is not decimal digits fitting a `u32`.
pub open spec fn width_pair(piece: Seq<u8>) -> Option<(Seq<u8>, u32)> {
    let pair = trim_end(piece, VERY_LONG_STRINGS_PAIR_PADDING);
    let i = first_index(pair, KEY_VALUE_SEPARATOR) as int;
    if i >= pair.len() || i == 0 || i + 1 == pair.len() {
        None
    } else {
        match bounded_decimal(pair.skip(i + 1), u32::MAX as nat) {
            None => None,
            Some(width) => Some((pair.take(i), width as u32)),
        }
    }
}

/// The declarations a subtype-14 payload holds, or `None` when a piece
/// is malformed.
pub open spec fn width_pairs(payload: Seq<u8>) -> Option<Seq<(Seq<u8>, u32)>> {
    parse_pieces(
        split_on(payload, PAIR_SEPARATOR),
        |p: Seq<u8>| is_blank_width_pair(p),
        |p: Seq<u8>| width_pair(p),
    )
}

/// A trailing pair separator changes nothing: it is permitted after the
/// last declaration.
pub proof fn lemma_trailing_separator_permitted(payload: Seq<u8>)
    ensures
        width_pairs(payload.push(PAIR_SEPARATOR)) == width_pairs(payload),
{
    lemma_split_on_trailing_separator(payload, PAIR_SEPARATOR);
    let pieces = split_on(payload, PAIR_SEPARATOR);
    assert(pieces.push(Seq::<u8>::empty()).drop_last() =~= pieces);
    assert(is_blank_width_pair(Seq::<u8>::empty()));
}

/// Whether `declaration` is `pair` with its name decoded through
/// `encoding`.
pub open spec fn decodes_width_pair(
    declaration: VeryLongString,
    pair: (Seq<u8>, u32),
    encoding: TextEncoding,
) -> bool {
    &&& declaration.spec_short_name() == encoding.decoded(pair.0)
    &&& declaration.spec_width() == pair.1
}

/// Parses an extension subtype-14 payload (very-long-string widths)
/// into [`VeryLongString`] declarations.
///
/// The payload is tab-separated `short=width` pairs, the width written
/// as ASCII decimal digits. Any run of trailing NULs in a pair is
/// trimmed, and empty pieces are skipped. The short name is decoded
/// through `encoding`; the width is not validated against the schema.
///
/// # Errors
///
/// * [`Field::ExtensionElementSize`] when `actual_size != 1`.
/// * [`Field::VeryLongStringPair`] when a non-empty pair lacks a `=`,
///   has an empty key or width, or a width that isn't decimal digits or
///   doesn't fit in a `u32`.
pub fn parse(
    actual_size: u32,
    payload: &[u8],
    encoding: &TextEncoding,
    position: u64,
) -> (res: Result<Vec<VeryLongString>>)
    ensures
        actual_size != TEXT_ELEMENT_SIZE ==> res is Err && is_unexpected_value(
            res->Err_0,
            position,
            Field::ExtensionElementSize,
        ),
        actual_size == TEXT_ELEMENT_SIZE ==> match width_pairs(payload@) {
            None => res is Err && is_unexpected_value(
                res->Err_0,
                position,
                Field::VeryLongStringPair,
            ),
            Some(pairs) => res is Ok && res->Ok_0@.len() == pairs.len() && forall|k: int|
                0 <= k < pairs.len() ==> decodes_width_pair(
                    #[trigger] res->Ok_0@[k],
                    pairs[k],
                    *encoding,
                ),
        },
{
    if actual_size != TEXT_ELEMENT_SIZE {
        return Err(unexpected_value_error(position, Field::ExtensionElementSize));
    }
    let ranges = split_ranges(payload, PAIR_SEPARATOR);
    let ghost segs = split_on(payload@, PAIR_SEPARATOR);
    let ghost skip = |p: Seq<u8>| is_blank_width_pair(p);
    let ghost each = |p: Seq<u8>| width_pair(p);
    let mut declarations: Vec<VeryLongString> = Vec::new();
    let ghost mut done: Seq<(Seq<u8>, u32)> = Seq::empty();
    assert(segs.take(0) =~= Seq::<Seq<u8>>::empty());
    for k in 0..ranges.len()
        invariant
            actual_size == TEXT_ELEMENT_SIZE,
            segs == split_on(payload@, PAIR_SEPARATOR),
            skip == (|p: Seq<u8>| is_blank_width_pair(p)),
            each == (|p: Seq<u8>| width_pair(p)),
            ranges@.len() == segs.len(),
            ranges_within(payload@, ranges@),
            pieces(payload@, ranges@) == segs,
            parse_pieces(segs.take(k as int), skip, each) == Some(done),
            declarations@.len() == done.len(),
            forall|j: int|
                0 <= j < done.len() ==> decodes_width_pair(
                    #[trigger] declarations@[j],
                    done[j],
                    *encoding,
                ),
    {
        let (start, end) = ranges[k];
        let piece = &payload[start..end];
        assert(piece@ == segs[k as int]);
        proof {
            lemma_parse_pieces_step(segs, skip, each, k as int);
        }
        let trimmed_end = trimmed_len(piece, VERY_LONG_STRINGS_PAIR_PADDING);
        if trimmed_end > 0 {
            let pair = &piece[0..trimmed_end];
            assert(pair@ =~= piece@.take(trimmed_end as int));
            let eq = find_byte(pair, 0, KEY_VALUE_SEPARATOR);
            assert(pair@.skip(0) =~= pair@);
            if eq == pair.len() || eq == 0 || eq + 1 == pair.len() {
                proof {
                    lemma_parse_pieces_fail(segs, skip, each, k as int + 1);
                }
                return Err(unexpected_value_error(position, Field::VeryLongStringPair));
            }
            let key = &pair[0..eq];
            let digits = &pair[eq + 1..pair.len()];
            assert(key@ =~= pair@.take(eq as int));
            assert(digits@ =~= pair@.skip(eq as int + 1));
            let width = match parse_ascii_u32(digits) {
                Some(width) => width,
                None => {
                    proof {
                        lemma_parse_pieces_fail(segs, skip, each, k as int + 1);
                    }
                    return Err(unexpected_value_error(position, Field::VeryLongStringPair));
                },
            };
            let declaration = VeryLongString::builder().short_name(encoding.decode(key)).width(
                width,
            ).build();
            declarations.push(declaration);
            proof {
                done = done.push((key@, width));
            }
        }
    }
    assert(segs.take(ranges@.len() as int) =~= segs);
    Ok(declarations)
}

} // verus!
