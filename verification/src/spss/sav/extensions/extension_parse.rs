//! Parsing helpers shared across extension subtypes.
use vstd::prelude::*;

use crate::spss::sav::dictionary_format::{
    ATTRIBUTE_SET_SEPARATOR, ATTRIBUTE_VALUES_CLOSE, ATTRIBUTE_VALUES_OPEN, ATTRIBUTE_VALUE_QUOTE,
    ATTRIBUTE_VALUE_TERMINATOR,
};
use crate::spss::sav::text_encoding::TextEncoding;
use crate::spss::sav::sav_error::{
    is_unexpected_value, Field, FormatErrorKind, Result, SavError, Section,
};

verus! {

/// Builds a dictionary-section [`FormatErrorKind::UnexpectedValue`]
/// error tagged with `field`, at `position`. Shared by the text and
/// binary extension parsers.
pub fn unexpected_value_error(position: u64, field: Field) -> (res: SavError)
    ensures
        is_unexpected_value(res, position, field),
{
    SavError::format(Section::Dictionary, position, FormatErrorKind::UnexpectedValue { field })
}

/// Validates a fixed-shape extension envelope: `actual_size` must equal
/// `expected_size` and `actual_count` must equal `expected_count`, else
/// an unexpected-value error tagged with the offending field (the size
/// is checked first) is returned. Shared by the fixed-layout binary
/// subtypes (3, 4, 16).
pub fn validate_extension_shape(
    actual_size: u32,
    actual_count: u32,
    expected_size: u32,
    expected_count: u32,
    position: u64,
) -> (res: Result<()>)
    ensures
        actual_size != expected_size ==> res is Err && is_unexpected_value(
            res->Err_0,
            position,
            Field::ExtensionElementSize,
        ),
        actual_size == expected_size && actual_count != expected_count ==> res is Err
            && is_unexpected_value(res->Err_0, position, Field::ExtensionElementCount),
        res is Ok <==> actual_size == expected_size && actual_count == expected_count,
{
    if actual_size != expected_size {
        return Err(unexpected_value_error(position, Field::ExtensionElementSize));
    }
    if actual_count != expected_count {
        return Err(unexpected_value_error(position, Field::ExtensionElementCount));
    }
    Ok(())
}

/// The index of the first `b` in `s`, or `s.len()` when there is none.
pub open spec fn first_index(s: Seq<u8>, b: u8) -> nat
    decreases s.len(),
{
    if s.len() == 0 {
        0
    } else if s[0] == b {
        0
    } else {
        1 + first_index(s.drop_first(), b)
    }
}

/// [`first_index`] is the position of the first `b`, or the length.
pub proof fn lemma_first_index(s: Seq<u8>, b: u8)
    ensures
        first_index(s, b) <= s.len(),
        first_index(s, b) < s.len() ==> s[first_index(s, b) as int] == b,
        forall|j: int| 0 <= j < first_index(s, b) ==> s[j] != b,
    decreases s.len(),
{
    if s.len() > 0 && s[0] != b {
        lemma_first_index(s.drop_first(), b);
        assert forall|j: int| 0 <= j < first_index(s, b) implies s[j] != b by {
            if j > 0 {
                assert(s[j] == s.drop_first()[j - 1]);
            }
        }
    }
}

/// `s` split at every `b`, the separators dropped, as
/// `<[u8]>::split` yields it: `n` separators give `n + 1` pieces, and
/// an empty `s` gives one empty piece.
pub open spec fn split_on(s: Seq<u8>, b: u8) -> Seq<Seq<u8>>
    decreases s.len(),
{
    let i = first_index(s, b);
    if i >= s.len() {
        seq![s]
    } else {
        seq![s.take(i as int)] + split_on(s.skip(i as int + 1), b)
    }
}

/// A `b` appended after the last occurrence leaves the earlier first
/// occurrence where it was, or becomes the first one.
proof fn lemma_first_index_push(s: Seq<u8>, b: u8)
    ensures
        first_index(s.push(b), b) == first_index(s, b),
    decreases s.len(),
{
    lemma_first_index(s, b);
    if s.len() > 0 && s[0] != b {
        assert(s.push(b).drop_first() =~= s.drop_first().push(b));
        lemma_first_index_push(s.drop_first(), b);
    }
}

/// A trailing separator adds one empty piece at the end, and changes no
/// other piece.
pub proof fn lemma_split_on_trailing_separator(s: Seq<u8>, b: u8)
    ensures
        split_on(s.push(b), b) == split_on(s, b).push(Seq::<u8>::empty()),
    decreases s.len(),
{
    lemma_first_index(s, b);
    lemma_first_index_push(s, b);
    let i = first_index(s, b) as int;
    let t = s.push(b);
    if i >= s.len() {
        assert(t.take(i) =~= s);
        assert(t.skip(i + 1) =~= Seq::<u8>::empty());
        assert(split_on(Seq::<u8>::empty(), b) == seq![Seq::<u8>::empty()]);
        assert(split_on(t, b) =~= split_on(s, b).push(Seq::<u8>::empty()));
    } else {
        assert(t.take(i) =~= s.take(i));
        assert(t.skip(i + 1) =~= s.skip(i + 1).push(b));
        lemma_split_on_trailing_separator(s.skip(i + 1), b);
        assert(split_on(t, b) =~= split_on(s, b).push(Seq::<u8>::empty()));
    }
}

/// The index of the first `b` in `s` at or after `from`, or `s.len()`.
pub fn find_byte(s: &[u8], from: usize, b: u8) -> (res: usize)
    requires
        from <= s@.len(),
    ensures
        from <= res <= s@.len(),
        res - from == first_index(s@.skip(from as int), b),
{
    let mut i = from;
    while i < s.len() && s[i] != b
        invariant
            from <= i <= s@.len(),
            first_index(s@.skip(from as int), b) == (i - from) + first_index(s@.skip(i as int), b),
        decreases s@.len() - i,
    {
        assert(s@.skip(i as int).drop_first() =~= s@.skip(i as int + 1));
        i = i + 1;
    }
    i
}

/// The pieces `ranges` pick out of `s`.
pub open spec fn pieces(s: Seq<u8>, ranges: Seq<(usize, usize)>) -> Seq<Seq<u8>> {
    ranges.map_values(|r: (usize, usize)| s.subrange(r.0 as int, r.1 as int))
}

/// Whether every range lies inside `s`.
pub open spec fn ranges_within(s: Seq<u8>, ranges: Seq<(usize, usize)>) -> bool {
    forall|k: int| 0 <= k < ranges.len() ==> #[trigger] ranges[k].0 <= ranges[k].1 <= s.len()
}

/// The byte ranges of the pieces of `s` between the `b` separators, in
/// order, as [`split_on`] describes them.
pub fn split_ranges(s: &[u8], b: u8) -> (res: Vec<(usize, usize)>)
    ensures
        ranges_within(s@, res@),
        pieces(s@, res@) == split_on(s@, b),
{
    let mut out: Vec<(usize, usize)> = Vec::new();
    let mut start: usize = 0;
    assert(s@.skip(0) =~= s@);
    loop
        invariant
            start <= s@.len(),
            ranges_within(s@, out@),
            split_on(s@, b) == pieces(s@, out@) + split_on(s@.skip(start as int), b),
        decreases s@.len() - start,
    {
        let end = find_byte(s, start, b);
        let ghost t = s@.skip(start as int);
        let ghost old_out = out@;
        out.push((start, end));
        assert(pieces(s@, out@) =~= pieces(s@, old_out).push(s@.subrange(start as int, end as int)));
        if end == s.len() {
            assert(t =~= s@.subrange(start as int, end as int));
            assert(split_on(t, b) == seq![t]);
            assert(split_on(s@, b) =~= pieces(s@, out@));
            return out;
        }
        proof {
            lemma_first_index(t, b);
            assert(t.take(end - start) =~= s@.subrange(start as int, end as int));
            assert(t.skip(end - start + 1) =~= s@.skip(end + 1));
            assert(split_on(t, b) == seq![t.take(end - start)] + split_on(
                t.skip(end - start + 1),
                b,
            ));
            assert(split_on(s@, b) =~= pieces(s@, out@) + split_on(s@.skip(end + 1), b));
        }
        start = end + 1;
    }
}

/// `s` with every trailing `pad` byte removed.
pub open spec fn trim_end(s: Seq<u8>, pad: u8) -> Seq<u8>
    decreases s.len(),
{
    if s.len() > 0 && s.last() == pad {
        trim_end(s.drop_last(), pad)
    } else {
        s
    }
}

/// The length of `s` once its trailing `pad` bytes are removed.
pub fn trimmed_len(s: &[u8], pad: u8) -> (res: usize)
    ensures
        res <= s@.len(),
        s@.take(res as int) == trim_end(s@, pad),
{
    let mut end = s.len();
    assert(s@.take(end as int) =~= s@);
    while end > 0 && s[end - 1] == pad
        invariant
            end <= s@.len(),
            trim_end(s@.take(end as int), pad) == trim_end(s@, pad),
        decreases end,
    {
        assert(s@.take(end as int).drop_last() =~= s@.take(end - 1));
        end = end - 1;
    }
    end
}

/// The results of reading each piece with `each`, skipping the pieces
/// `skip` holds of: `None` as soon as one piece reads as `None`.
pub open spec fn parse_pieces<T>(
    pieces: Seq<Seq<u8>>,
    skip: spec_fn(Seq<u8>) -> bool,
    each: spec_fn(Seq<u8>) -> Option<T>,
) -> Option<Seq<T>>
    decreases pieces.len(),
{
    if pieces.len() == 0 {
        Some(Seq::empty())
    } else {
        match parse_pieces(pieces.drop_last(), skip, each) {
            None => None,
            Some(done) => if skip(pieces.last()) {
                Some(done)
            } else {
                match each(pieces.last()) {
                    None => None,
                    Some(v) => Some(done.push(v)),
                }
            },
        }
    }
}

/// One step of [`parse_pieces`] over a prefix.
pub proof fn lemma_parse_pieces_step<T>(
    pieces: Seq<Seq<u8>>,
    skip: spec_fn(Seq<u8>) -> bool,
    each: spec_fn(Seq<u8>) -> Option<T>,
    k: int,
)
    requires
        0 <= k < pieces.len(),
    ensures
        parse_pieces(pieces.take(k + 1), skip, each) == (match parse_pieces(
            pieces.take(k),
            skip,
            each,
        ) {
            None => None,
            Some(done) => if skip(pieces[k]) {
                Some(done)
            } else {
                match each(pieces[k]) {
                    None => None,
                    Some(v) => Some(done.push(v)),
                }
            },
        }),
{
    assert(pieces.take(k + 1).drop_last() =~= pieces.take(k));
    assert(pieces.take(k + 1).last() == pieces[k]);
}

/// A piece that fails to read makes the whole [`parse_pieces`] fail.
pub proof fn lemma_parse_pieces_fail<T>(
    pieces: Seq<Seq<u8>>,
    skip: spec_fn(Seq<u8>) -> bool,
    each: spec_fn(Seq<u8>) -> Option<T>,
    k: int,
)
    requires
        0 <= k <= pieces.len(),
        parse_pieces(pieces.take(k), skip, each) is None,
    ensures
        parse_pieces(pieces, skip, each) is None,
    decreases pieces.len() - k,
{
    if k == pieces.len() {
        assert(pieces.take(k) =~= pieces);
    } else {
        lemma_parse_pieces_step(pieces, skip, each, k);
        lemma_parse_pieces_fail(pieces, skip, each, k + 1);
    }
}

/// The non-empty pieces among `pieces`, in order.
pub open spec fn keep_nonempty(pieces: Seq<Seq<u8>>) -> Seq<Seq<u8>>
    decreases pieces.len(),
{
    if pieces.len() == 0 {
        Seq::empty()
    } else if pieces.last().len() == 0 {
        keep_nonempty(pieces.drop_last())
    } else {
        keep_nonempty(pieces.drop_last()).push(pieces.last())
    }
}

/// The byte ranges of the non-empty pieces of `s` between the `b`
/// separators, in order.
pub fn split_nonempty_ranges(s: &[u8], b: u8) -> (res: Vec<(usize, usize)>)
    ensures
        ranges_within(s@, res@),
        pieces(s@, res@) == keep_nonempty(split_on(s@, b)),
{
    let ranges = split_ranges(s, b);
    let ghost all = split_on(s@, b);
    let mut out: Vec<(usize, usize)> = Vec::new();
    assert(all.take(0) =~= Seq::<Seq<u8>>::empty());
    assert(pieces(s@, out@) =~= Seq::<Seq<u8>>::empty());
    for k in 0..ranges.len()
        invariant
            all == split_on(s@, b),
            ranges_within(s@, ranges@),
            pieces(s@, ranges@) == all,
            ranges_within(s@, out@),
            pieces(s@, out@) == keep_nonempty(all.take(k as int)),
    {
        let (start, end) = ranges[k];
        assert(all.take(k as int + 1).drop_last() =~= all.take(k as int));
        assert(all.take(k as int + 1).last() == all[k as int]);
        assert(s@.subrange(start as int, end as int) == all[k as int]);
        if start < end {
            let ghost old_out = out@;
            out.push((start, end));
            assert(pieces(s@, out@) =~= pieces(s@, old_out).push(s@.subrange(start as int, end as int)));
        }
    }
    assert(all.take(ranges@.len() as int) =~= all);
    out
}

/// Decodes each piece that `ranges` picks out of `s` through `encoding`.
pub fn decode_pieces(s: &[u8], ranges: &Vec<(usize, usize)>, encoding: &TextEncoding) -> (res: Vec<
    String,
>)
    requires
        ranges_within(s@, ranges@),
    ensures
        res@.map_values(|t: String| t@) == pieces(s@, ranges@).map_values(
            |p: Seq<u8>| encoding.decoded(p),
        ),
{
    let mut out: Vec<String> = Vec::new();
    for k in 0..ranges.len()
        invariant
            ranges_within(s@, ranges@),
            out@.len() == k,
            out@.map_values(|t: String| t@) == pieces(s@, ranges@).take(k as int).map_values(
                |p: Seq<u8>| encoding.decoded(p),
            ),
    {
        let (start, end) = ranges[k];
        let piece = &s[start..end];
        let text = encoding.decode(piece);
        assert(pieces(s@, ranges@)[k as int] == piece@);
        let ghost old_out = out@;
        out.push(text);
        assert(out@.map_values(|t: String| t@)[k as int] == encoding.decoded(piece@));
        let ghost now = out@.map_values(|t: String| t@);
        let ghost before = old_out.map_values(|t: String| t@);
        let ghost want = pieces(s@, ranges@).take(k as int + 1).map_values(
            |p: Seq<u8>| encoding.decoded(p),
        );
        let ghost had = pieces(s@, ranges@).take(k as int).map_values(
            |p: Seq<u8>| encoding.decoded(p),
        );
        assert forall|j: int| 0 <= j < k + 1 implies #[trigger] now[j] == want[j] by {
            if j < k {
                assert(before[j] == had[j]);
            }
        }
        assert(now =~= want);
    }
    assert(pieces(s@, ranges@).take(ranges@.len() as int) =~= pieces(s@, ranges@));
    out
}

/// The bytes before the first `delim` in `s`, and the bytes after it;
/// `None` when `delim` is absent.
pub open spec fn take_before(s: Seq<u8>, delim: u8) -> Option<(Seq<u8>, Seq<u8>)> {
    let i = first_index(s, delim) as int;
    if i >= s.len() {
        None
    } else {
        Some((s.take(i), s.skip(i + 1)))
    }
}

/// Finds the first `delim` at or after `at`, the boundary
/// [`take_before`] splits `s.skip(at)` at.
pub fn take_before_at(s: &[u8], at: usize, delim: u8) -> (res: Option<usize>)
    requires
        at <= s@.len(),
    ensures
        res is None <==> take_before(s@.skip(at as int), delim) is None,
        res matches Some(i) ==> at <= i && i + 1 <= s@.len() && s@.len() <= usize::MAX
            && take_before(s@.skip(at as int), delim) == Some(
            (s@.subrange(at as int, i as int), s@.skip(i + 1)),
        ),
{
    let i = find_byte(s, at, delim);
    proof {
        lemma_first_index(s@.skip(at as int), delim);
    }
    if i == s.len() {
        None
    } else {
        assert(s@.skip(at as int).take(i - at) =~= s@.subrange(at as int, i as int));
        assert(s@.skip(at as int).skip(i - at + 1) =~= s@.skip(i + 1));
        Some(i)
    }
}

/// A raw attribute: its name bytes and its value bytes.
pub type RawAttribute = (Seq<u8>, Seq<Seq<u8>>);

/// An attribute value with its single outer quote pair, if present,
/// removed.
pub open spec fn strip_quotes(raw: Seq<u8>) -> Seq<u8> {
    if raw.len() >= 2 && raw[0] == ATTRIBUTE_VALUE_QUOTE && raw.last() == ATTRIBUTE_VALUE_QUOTE {
        raw.subrange(1, raw.len() - 1)
    } else {
        raw
    }
}

/// An attribute's values off the front of `s`, up to and including the
/// closing `)`: one or more values, each ended by a line feed, the
/// list ended by `)`.
pub open spec fn value_list(s: Seq<u8>) -> Option<(Seq<Seq<u8>>, Seq<u8>)>
    decreases s.len(),
{
    match take_before(s, ATTRIBUTE_VALUE_TERMINATOR) {
        None => None,
        Some((raw, rest)) => if rest.len() > 0 && rest[0] == ATTRIBUTE_VALUES_CLOSE {
            Some((seq![strip_quotes(raw)], rest.skip(1)))
        } else if rest.len() < s.len() {
            match value_list(rest) {
                None => None,
                Some((values, rest)) => Some((seq![strip_quotes(raw)] + values, rest)),
            }
        } else {
            None
        },
    }
}

/// One `name(values)` attribute off the front of `s`; the name runs up
/// to the first `(` and must not be empty.
pub open spec fn attribute(s: Seq<u8>) -> Option<(RawAttribute, Seq<u8>)> {
    match take_before(s, ATTRIBUTE_VALUES_OPEN) {
        None => None,
        Some((name, rest)) => if name.len() == 0 {
            None
        } else {
            match value_list(rest) {
                None => None,
                Some((values, rest)) => Some(((name, values), rest)),
            }
        },
    }
}

/// One attribute set off the front of `s`: attributes up to the end of
/// `s` or up to and including a `/` separator.
pub open spec fn attribute_set(s: Seq<u8>) -> Option<(Seq<RawAttribute>, Seq<u8>)>
    decreases s.len(),
{
    match attribute(s) {
        None => None,
        Some((attr, rest)) => if rest.len() == 0 {
            Some((seq![attr], rest))
        } else if rest[0] == ATTRIBUTE_SET_SEPARATOR {
            Some((seq![attr], rest.skip(1)))
        } else if rest.len() < s.len() {
            match attribute_set(rest) {
                None => None,
                Some((attrs, rest)) => Some((seq![attr] + attrs, rest)),
            }
        } else {
            None
        },
    }
}

/// Whether `decoded` is `raw` with its name and values decoded through
/// `encoding`.
pub open spec fn decodes_attribute(
    decoded: (String, Vec<String>),
    raw: RawAttribute,
    encoding: TextEncoding,
) -> bool {
    &&& decoded.0@ == encoding.decoded(raw.0)
    &&& decoded.1@.map_values(|t: String| t@) == raw.1.map_values(|v: Seq<u8>| encoding.decoded(v))
}

/// Parses the parenthesized value list at `at`, returning the decoded
/// values and the offset just past the closing parenthesis.
fn value_list_at(s: &[u8], at: usize, encoding: &TextEncoding) -> (res: Option<(Vec<String>, usize)>)
    requires
        at <= s@.len(),
    ensures
        match value_list(s@.skip(at as int)) {
            None => res is None,
            Some((values, rest)) => res is Some && res->Some_0.1 <= s@.len() && s@.skip(
                res->Some_0.1 as int,
            ) == rest && res->Some_0.0@.map_values(|t: String| t@) == values.map_values(
                |v: Seq<u8>| encoding.decoded(v),
            ),
        },
    decreases s@.len() - at,
{
    let end = match take_before_at(s, at, ATTRIBUTE_VALUE_TERMINATOR) {
        None => return None,
        Some(end) => end,
    };
    let raw = &s[at..end];
    let (start, stop) = if raw.len() >= 2 && raw[0] == ATTRIBUTE_VALUE_QUOTE && raw[raw.len() - 1]
        == ATTRIBUTE_VALUE_QUOTE {
        (1, raw.len() - 1)
    } else {
        (0, raw.len())
    };
    let inner = &raw[start..stop];
    assert(inner@ =~= strip_quotes(raw@));
    let value = encoding.decode(inner);
    let next = end + 1;
    if next < s.len() && s[next] == ATTRIBUTE_VALUES_CLOSE {
        assert(s@.skip(next as int).skip(1) =~= s@.skip(next + 1));
        let out = vec![value];
        assert(out@.map_values(|t: String| t@) =~= seq![strip_quotes(raw@)].map_values(
            |v: Seq<u8>| encoding.decoded(v),
        ));
        return Some((out, next + 1));
    }
    match value_list_at(s, next, encoding) {
        None => None,
        Some((more, after)) => {
            let mut out = vec![value];
            let ghost first = out@;
            let ghost rest_values = more@;
            let mut more = more;
            out.append(&mut more);
            let ghost raws = value_list(s@.skip(next as int))->Some_0.0;
            let ghost now = out@.map_values(|t: String| t@);
            let ghost tail = rest_values.map_values(|t: String| t@);
            let ghost want = (seq![strip_quotes(raw@)] + raws).map_values(
                |v: Seq<u8>| encoding.decoded(v),
            );
            let ghost tail_want = raws.map_values(|v: Seq<u8>| encoding.decoded(v));
            assert(value_list(s@.skip(next as int)) is Some);
            assert(tail == tail_want);
            assert(out@ =~= first + rest_values);
            assert(now.len() == want.len());
            assert forall|j: int| 0 <= j < now.len() implies #[trigger] now[j] == want[j] by {
                if j > 0 {
                    assert(now[j] == tail[j - 1]);
                    assert(want[j] == tail_want[j - 1]);
                } else {
                    assert(now[0] == value@);
                }
            }
            assert(now =~= want);
            Some((out, after))
        },
    }
}

/// Parses one `name(values)` attribute at `at`, returning it decoded
/// and the offset just past it.
fn attribute_at(s: &[u8], at: usize, encoding: &TextEncoding) -> (res: Option<
    ((String, Vec<String>), usize),
>)
    requires
        at <= s@.len(),
    ensures
        match attribute(s@.skip(at as int)) {
            None => res is None,
            Some((raw, rest)) => res is Some && res->Some_0.1 <= s@.len() && s@.skip(
                res->Some_0.1 as int,
            ) == rest && decodes_attribute(res->Some_0.0, raw, *encoding),
        },
{
    let open = match take_before_at(s, at, ATTRIBUTE_VALUES_OPEN) {
        None => return None,
        Some(open) => open,
    };
    if open == at {
        return None;
    }
    let name = encoding.decode(&s[at..open]);
    match value_list_at(s, open + 1, encoding) {
        None => None,
        Some((values, next)) => Some(((name, values), next)),
    }
}

/// Parses one attribute set from `s` at `at`, returning the decoded
/// `(name, values)` pairs and the offset after the set (past its `/`
/// separator, if it ended at one).
pub fn parse_attribute_set(s: &[u8], at: usize, encoding: &TextEncoding) -> (res: Option<
    (Vec<(String, Vec<String>)>, usize),
>)
    requires
        at <= s@.len(),
    ensures
        match attribute_set(s@.skip(at as int)) {
            None => res is None,
            Some((raws, rest)) => res is Some && res->Some_0.1 <= s@.len() && s@.skip(
                res->Some_0.1 as int,
            ) == rest && res->Some_0.0@.len() == raws.len() && forall|k: int|
                0 <= k < raws.len() ==> decodes_attribute(
                    #[trigger] res->Some_0.0@[k],
                    raws[k],
                    *encoding,
                ),
        },
    decreases s@.len() - at,
{
    let (attr, next) = match attribute_at(s, at, encoding) {
        None => return None,
        Some(parsed) => parsed,
    };
    if next == s.len() {
        return Some((vec![attr], next));
    }
    if s[next] == ATTRIBUTE_SET_SEPARATOR {
        assert(s@.skip(next as int).skip(1) =~= s@.skip(next + 1));
        return Some((vec![attr], next + 1));
    }
    if next <= at {
        return None;
    }
    match parse_attribute_set(s, next, encoding) {
        None => None,
        Some((more, after)) => {
            let mut out = vec![attr];
            let ghost first = out@;
            let ghost rest_attrs = more@;
            let mut more = more;
            out.append(&mut more);
            assert(out@ =~= first + rest_attrs);
            Some((out, after))
        },
    }
}

} // verus!
