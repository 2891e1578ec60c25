//! Creation timestamp recorded in a SAV file header.
use vstd::prelude::*;

use crate::spss::sav::ascii_number::{bounded_decimal, parse_ascii_u32};
use crate::spss::sav::extensions::extension_parse::{
    keep_nonempty, pieces, split_nonempty_ranges, split_on, split_ranges, trim_end, trimmed_len,
};
use crate::spss::sav::sav_timestamp::SavTimestamp;
use crate::spss::sav::text_encoding::push_char;
use crate::spss::sav::text_field::{trim_padding, trim_trailing_padding};

verus! {

/// Creation timestamp recorded in a SAV file header.
///
/// Parsing is all-or-nothing: if every component (date and time) was
/// recognized, the result is [`Parsed`](Self::Parsed); if any component
/// failed to parse, the raw strings are preserved in
/// [`Unparsed`](Self::Unparsed).
#[derive(Debug, Clone, PartialEq, Eq, Hash)]
pub enum SavCreationTimestamp {
    /// Both date and time parsed successfully.
    Parsed(SavTimestamp),
    /// At least one part was unparseable; the raw strings are
    /// preserved.
    Unparsed {
        /// Raw date string from the header.
        date: String,
        /// Raw time string from the header.
        time: String,
    },
}

/// Whether `b` is printable ASCII (space through `~`).
pub open spec fn is_printable(b: u8) -> bool {
    32 <= b <= 126
}

/// `b` itself when printable, else `?`.
pub open spec fn ascii_byte(b: u8) -> u8 {
    if is_printable(b) {
        b
    } else {
        63
    }
}

/// A fixed-width field with its trailing spaces and NULs trimmed and
/// every unprintable byte replaced by `?`.
pub open spec fn ascii_bytes(s: Seq<u8>) -> Seq<u8> {
    trim_padding(s).map_values(|b: u8| ascii_byte(b))
}

/// [`ascii_bytes`] as text, one character per byte.
pub open spec fn ascii_text(s: Seq<u8>) -> Seq<char> {
    ascii_bytes(s).map_values(|b: u8| b as char)
}

/// Reads `t` as `u8` text the way `str::parse::<u8>` does: an optional
/// leading `+`, then one or more digits whose value fits in a `u8`.
pub open spec fn unsigned_u8(t: Seq<u8>) -> Option<u8> {
    let digits = if t.len() > 0 && t[0] == 43 {
        t.skip(1)
    } else {
        t
    };
    match bounded_decimal(digits, 255) {
        Some(v) => Some(v as u8),
        None => None,
    }
}

/// `b` with ASCII upper case folded to lower case.
pub open spec fn ascii_lower(b: u8) -> u8 {
    if 65 <= b <= 90 {
        (b + 32) as u8
    } else {
        b
    }
}

/// Whether `b` is ASCII whitespace as `str::trim` and
/// `str::split_whitespace` see it: space, tab, line feed, vertical tab,
/// form feed or carriage return.
pub open spec fn is_ascii_space(b: u8) -> bool {
    b == 32 || (9 <= b && b <= 13)
}

/// `t` with every ASCII whitespace byte made a space.
pub open spec fn spaced(t: Seq<u8>) -> Seq<u8> {
    t.map_values(|b: u8| if is_ascii_space(b) { 32u8 } else { b })
}

/// `t` with ASCII upper case folded to lower case.
pub open spec fn lower_all(t: Seq<u8>) -> Seq<u8> {
    t.map_values(|b: u8| ascii_lower(b))
}

/// The number of the month the three bytes `t` abbreviate (`jan`
/// through `dec`, ignoring ASCII case), or `None`.
pub open spec fn month_abbreviation(t: Seq<u8>) -> Option<u8> {
    if t.len() != 3 {
        None
    } else {
        let l = t.map_values(|b: u8| ascii_lower(b));
        if l == seq![106u8, 97u8, 110u8] {
            Some(1u8)
        } else if l == seq![102u8, 101u8, 98u8] {
            Some(2u8)
        } else if l == seq![109u8, 97u8, 114u8] {
            Some(3u8)
        } else if l == seq![97u8, 112u8, 114u8] {
            Some(4u8)
        } else if l == seq![109u8, 97u8, 121u8] {
            Some(5u8)
        } else if l == seq![106u8, 117u8, 110u8] {
            Some(6u8)
        } else if l == seq![106u8, 117u8, 108u8] {
            Some(7u8)
        } else if l == seq![97u8, 117u8, 103u8] {
            Some(8u8)
        } else if l == seq![115u8, 101u8, 112u8] {
            Some(9u8)
        } else if l == seq![111u8, 99u8, 116u8] {
            Some(10u8)
        } else if l == seq![110u8, 111u8, 118u8] {
            Some(11u8)
        } else if l == seq![100u8, 101u8, 99u8] {
            Some(12u8)
        } else {
            None
        }
    }
}

/// The number of the month `t` abbreviates once its surrounding ASCII
/// whitespace is trimmed (`jan` through `dec`, ignoring ASCII case), or
/// `None`.
pub open spec fn month_number(t: Seq<u8>) -> Option<u8> {
    month_abbreviation(trim_end(trim_start(spaced(t), 32), 32))
}

/// Folding to lower case keeps leading spaces where they are.
proof fn lemma_trim_start_lower(x: Seq<u8>)
    ensures
        trim_start(lower_all(x), 32) == lower_all(trim_start(x, 32)),
    decreases x.len(),
{
    if x.len() > 0 {
        assert(lower_all(x)[0] == ascii_lower(x[0]));
        assert(lower_all(x).drop_first() =~= lower_all(x.drop_first()));
        if x[0] == 32 {
            lemma_trim_start_lower(x.drop_first());
        }
    }
}

/// Folding to lower case keeps trailing spaces where they are.
proof fn lemma_trim_end_lower(x: Seq<u8>)
    ensures
        trim_end(lower_all(x), 32) == lower_all(trim_end(x, 32)),
    decreases x.len(),
{
    if x.len() > 0 {
        assert(lower_all(x).last() == ascii_lower(x.last()));
        assert(lower_all(x).drop_last() =~= lower_all(x.drop_last()));
        if x.last() == 32 {
            lemma_trim_end_lower(x.drop_last());
        }
    }
}

/// Month names are matched ignoring ASCII case: folding a word to lower
/// case first changes nothing.
pub proof fn lemma_month_ignores_case(t: Seq<u8>)
    ensures
        month_number(lower_all(t)) == month_number(t),
{
    assert(spaced(lower_all(t)) =~= lower_all(spaced(t)));
    lemma_trim_start_lower(spaced(t));
    lemma_trim_end_lower(trim_start(spaced(t), 32));
    let w = trim_end(trim_start(spaced(t), 32), 32);
    assert(lower_all(lower_all(w)) =~= lower_all(w));
}

/// The English name of month `k` of the calendar (1 is January), in
/// lower case; empty outside `1..=12`.
pub open spec fn english_month_name(k: int) -> Seq<char> {
    if k == 1 {
        seq!['j', 'a', 'n', 'u', 'a', 'r', 'y']
    } else if k == 2 {
        seq!['f', 'e', 'b', 'r', 'u', 'a', 'r', 'y']
    } else if k == 3 {
        seq!['m', 'a', 'r', 'c', 'h']
    } else if k == 4 {
        seq!['a', 'p', 'r', 'i', 'l']
    } else if k == 5 {
        seq!['m', 'a', 'y']
    } else if k == 6 {
        seq!['j', 'u', 'n', 'e']
    } else if k == 7 {
        seq!['j', 'u', 'l', 'y']
    } else if k == 8 {
        seq!['a', 'u', 'g', 'u', 's', 't']
    } else if k == 9 {
        seq!['s', 'e', 'p', 't', 'e', 'm', 'b', 'e', 'r']
    } else if k == 10 {
        seq!['o', 'c', 't', 'o', 'b', 'e', 'r']
    } else if k == 11 {
        seq!['n', 'o', 'v', 'e', 'm', 'b', 'e', 'r']
    } else if k == 12 {
        seq!['d', 'e', 'c', 'e', 'm', 'b', 'e', 'r']
    } else {
        Seq::empty()
    }
}

/// How a header writes month `k`: the first three letters of its
/// English name, as bytes.
pub open spec fn calendar_abbreviation(k: int) -> Seq<u8> {
    english_month_name(k).take(3).map_values(|c: char| c as u8)
}

/// A three-letter lower-case word is its own trimmed, lower-cased
/// form.
proof fn lemma_plain_word(x: Seq<u8>)
    requires
        x.len() == 3,
        forall|i: int| 0 <= i < 3 ==> 97 <= #[trigger] x[i] <= 122,
    ensures
        trim_end(trim_start(spaced(x), 32), 32) == x,
        lower_all(x) == x,
{
    assert(spaced(x) =~= x);
    assert(lower_all(x) =~= x);
    assert(x[0] != 32);
    assert(x.last() != 32);
}

/// The abbreviation of month `k` reads as `k`.
proof fn lemma_abbreviation_reads_as_its_month(k: int)
    requires
        1 <= k <= 12,
    ensures
        month_abbreviation(calendar_abbreviation(k)) == Some(k as u8),
        month_number(calendar_abbreviation(k)) == Some(k as u8),
        forall|w: Seq<u8>|
            #[trigger] month_abbreviation(w) == Some(k as u8) ==> lower_all(w)
                == calendar_abbreviation(k),
{
    let x = calendar_abbreviation(k);
    let n = english_month_name(k);
    assert(x =~= seq![n[0] as u8, n[1] as u8, n[2] as u8]);
    lemma_plain_word(x);
    assert(k == 1 ==> x =~= seq![106u8, 97u8, 110u8]);
    assert(k == 2 ==> x =~= seq![102u8, 101u8, 98u8]);
    assert(k == 3 ==> x =~= seq![109u8, 97u8, 114u8]);
    assert(k == 4 ==> x =~= seq![97u8, 112u8, 114u8]);
    assert(k == 5 ==> x =~= seq![109u8, 97u8, 121u8]);
    assert(k == 6 ==> x =~= seq![106u8, 117u8, 110u8]);
    assert(k == 7 ==> x =~= seq![106u8, 117u8, 108u8]);
    assert(k == 8 ==> x =~= seq![97u8, 117u8, 103u8]);
    assert(k == 9 ==> x =~= seq![115u8, 101u8, 112u8]);
    assert(k == 10 ==> x =~= seq![111u8, 99u8, 116u8]);
    assert(k == 11 ==> x =~= seq![110u8, 111u8, 118u8]);
    assert(k == 12 ==> x =~= seq![100u8, 101u8, 99u8]);
}

/// Month names follow the calendar: a word whose lower-case form is the
/// first three letters of the English name of month `k` reads as `k`,
/// whatever its ASCII case; and a word that reads as month `m` is,
/// once trimmed and lower-cased, the abbreviation of month `m`, so no
/// other word reads as a month.
pub proof fn lemma_months_follow_the_calendar(t: Seq<u8>, k: int)
    ensures
        1 <= k <= 12 && lower_all(t) == calendar_abbreviation(k) ==> month_number(t) == Some(
            k as u8,
        ),
        month_number(t) matches Some(m) ==> 1 <= m <= 12 && lower_all(
            trim_end(trim_start(spaced(t), 32), 32),
        ) == calendar_abbreviation(m as int),
{
    lemma_month_ignores_case(t);
    if 1 <= k <= 12 && lower_all(t) == calendar_abbreviation(k) {
        lemma_abbreviation_reads_as_its_month(k);
    }
    if let Some(m) = month_number(t) {
        assert(1 <= m <= 12);
        lemma_abbreviation_reads_as_its_month(m as int);
    }
}

/// A `DD MMM YY` date: exactly three words separated by ASCII
/// whitespace, a day, a month abbreviation and a two-digit year.
pub open spec fn date_fields(s: Seq<u8>) -> Option<(u8, u8, u8)> {
    let words = keep_nonempty(split_on(spaced(s), 32));
    if words.len() != 3 {
        None
    } else {
        match (unsigned_u8(words[0]), month_number(words[1]), unsigned_u8(words[2])) {
            (Some(day), Some(month), Some(year)) => Some((day, month, year)),
            _ => None,
        }
    }
}

/// `s` with its leading `pad` bytes removed.
pub open spec fn trim_start(s: Seq<u8>, pad: u8) -> Seq<u8>
    decreases s.len(),
{
    if s.len() > 0 && s[0] == pad {
        trim_start(s.drop_first(), pad)
    } else {
        s
    }
}

/// An `HH:MM:SS` time: after trimming surrounding ASCII whitespace,
/// exactly three `:`-separated numbers.
pub open spec fn time_fields(s: Seq<u8>) -> Option<(u8, u8, u8)> {
    let parts = split_on(trim_end(trim_start(spaced(s), 32), 32), 58);
    if parts.len() != 3 {
        None
    } else {
        match (unsigned_u8(parts[0]), unsigned_u8(parts[1]), unsigned_u8(parts[2])) {
            (Some(hour), Some(minute), Some(second)) => Some((hour, minute, second)),
            _ => None,
        }
    }
}

/// Whether `timestamp` holds exactly the given date and time fields.
pub open spec fn holds_fields(timestamp: SavTimestamp, date: (u8, u8, u8), time: (u8, u8, u8)) -> bool {
    &&& timestamp.spec_day() == date.0
    &&& timestamp.spec_month() == date.1
    &&& timestamp.spec_year() == date.2
    &&& timestamp.spec_hour() == time.0
    &&& timestamp.spec_minute() == time.1
    &&& timestamp.spec_second() == time.2
}

/// Whether `timestamp` is what the header's `date` and `time` fields
/// read as: both parsed, or, when either fails, both kept as text.
pub open spec fn reads_timestamp(timestamp: SavCreationTimestamp, date: Seq<u8>, time: Seq<u8>) -> bool {
    match (date_fields(ascii_bytes(date)), time_fields(ascii_bytes(time))) {
        (Some(d), Some(t)) => timestamp matches SavCreationTimestamp::Parsed(parsed) && holds_fields(
            parsed,
            d,
            t,
        ),
        _ => timestamp matches SavCreationTimestamp::Unparsed { date: date_text, time: time_text }
            && date_text@ == ascii_text(date) && time_text@ == ascii_text(time),
    }
}

impl SavCreationTimestamp {
    /// Constructs a [`SavCreationTimestamp`] from the 9-byte
    /// `creation_date` (`"DD MMM YY"`) and 8-byte `creation_time`
    /// (`"HH:MM:SS"`) fields of a SAV file header. Falls back to
    /// [`Unparsed`](Self::Unparsed) when either component is
    /// unrecognized.
    pub fn from_header_bytes(date_bytes: [u8; 9], time_bytes: [u8; 8]) -> (res: Self)
        ensures
            reads_timestamp(res, date_bytes@, time_bytes@),
    {
        let date_ascii = ascii_field(&date_bytes);
        let time_ascii = ascii_field(&time_bytes);
        let parsed_date = parse_date(date_ascii.as_slice());
        let parsed_time = parse_time(time_ascii.as_slice());
        match (parsed_date, parsed_time) {
            (Some((day, month, year)), Some((hour, minute, second))) => {
                let timestamp = SavTimestamp::builder().day(day).month(month).year(year).hour(
                    hour,
                ).minute(minute).second(second).build();
                SavCreationTimestamp::Parsed(timestamp)
            },
            _ => {
                let date = ascii_to_string(date_ascii.as_slice());
                let time = ascii_to_string(time_ascii.as_slice());
                SavCreationTimestamp::Unparsed { date, time }
            },
        }
    }
}

/// The bytes of [`ascii_bytes`] for a fixed-width field.
fn ascii_field(bytes: &[u8]) -> (res: Vec<u8>)
    ensures
        res@ == ascii_bytes(bytes@),
{
    let trimmed = trim_trailing_padding(bytes);
    let mut out: Vec<u8> = Vec::new();
    for i in 0..trimmed.len()
        invariant
            trimmed@ == trim_padding(bytes@),
            out@ == trimmed@.take(i as int).map_values(|b: u8| ascii_byte(b)),
    {
        let b = trimmed[i];
        let mapped = if 32 <= b && b <= 126 {
            b
        } else {
            63u8
        };
        let ghost before = out@;
        out.push(mapped);
        assert(out@ =~= trimmed@.take(i as int + 1).map_values(|b: u8| ascii_byte(b))) by {
            assert(trimmed@.take(i as int + 1).drop_last() =~= trimmed@.take(i as int));
        }
    }
    assert(trimmed@.take(trimmed@.len() as int) =~= trimmed@);
    out
}

/// Renders bytes as text, one character per byte.
fn ascii_to_string(bytes: &[u8]) -> (res: String)
    ensures
        res@ == bytes@.map_values(|b: u8| b as char),
{
    let mut out = String::new();
    for i in 0..bytes.len()
        invariant
            out@ == bytes@.take(i as int).map_values(|b: u8| b as char),
    {
        let c = bytes[i] as char;
        push_char(&mut out, c);
        assert(out@ =~= bytes@.take(i as int + 1).map_values(|b: u8| b as char)) by {
            assert(bytes@.take(i as int + 1).drop_last() =~= bytes@.take(i as int));
        }
    }
    assert(bytes@.take(bytes@.len() as int) =~= bytes@);
    out
}

/// Best-effort ASCII rendering of a fixed-width string field.
/// Bytes outside printable ASCII become `'?'`; trailing spaces and
/// NULs are trimmed.
pub fn ascii_str(bytes: &[u8]) -> (res: String)
    ensures
        res@ == ascii_text(bytes@),
{
    let mapped = ascii_field(bytes);
    ascii_to_string(mapped.as_slice())
}

/// Reads `t` as `u8` text: an optional `+`, then digits.
fn parse_u8_text(t: &[u8]) -> (res: Option<u8>)
    ensures
        res == unsigned_u8(t@),
{
    let digits = if t.len() > 0 && t[0] == 43 {
        &t[1..t.len()]
    } else {
        t
    };
    assert(t.len() > 0 && t@[0] == 43 ==> digits@ =~= t@.skip(1));
    match parse_ascii_u32(digits) {
        Some(v) => if v <= 255 {
            Some(v as u8)
        } else {
            None
        },
        None => None,
    }
}

/// Folds ASCII upper case to lower case.
fn lower(b: u8) -> (res: u8)
    ensures
        res == ascii_lower(b),
{
    if 65 <= b && b <= 90 {
        b + 32
    } else {
        b
    }
}

/// `s` with every ASCII whitespace byte made a space.
fn spaced_bytes(s: &[u8]) -> (res: Vec<u8>)
    ensures
        res@ == spaced(s@),
{
    let mut out: Vec<u8> = Vec::new();
    for i in 0..s.len()
        invariant
            out@ == spaced(s@.take(i as int)),
    {
        let b = s[i];
        let mapped = if b == 32 || (9 <= b && b <= 13) {
            32u8
        } else {
            b
        };
        out.push(mapped);
        assert(out@ =~= spaced(s@.take(i as int + 1))) by {
            assert(s@.take(i as int + 1).drop_last() =~= s@.take(i as int));
        }
    }
    assert(s@.take(s@.len() as int) =~= s@);
    out
}

/// The bounds of `s` with its leading and trailing spaces trimmed.
fn space_trimmed_range(s: &[u8]) -> (res: (usize, usize))
    ensures
        res.0 <= res.1 <= s@.len(),
        s@.subrange(res.0 as int, res.1 as int) == trim_end(trim_start(s@, 32), 32),
{
    let start = leading_len(s, 32);
    let rest = &s[start..s.len()];
    assert(rest@ =~= s@.skip(start as int));
    let end = trimmed_len(rest, 32);
    assert(rest@.take(end as int) =~= s@.subrange(start as int, start + end));
    (start, start + end)
}

/// The month number `t` abbreviates once its surrounding ASCII
/// whitespace is trimmed, ignoring ASCII case.
fn parse_month(t: &[u8]) -> (res: Option<u8>)
    ensures
        res == month_number(t@),
{
    let normalized = spaced_bytes(t);
    let (start, end) = space_trimmed_range(normalized.as_slice());
    month_of_abbreviation(&normalized.as_slice()[start..end])
}

/// The month number the three bytes `t` abbreviate, ignoring ASCII
/// case.
fn month_of_abbreviation(t: &[u8]) -> (res: Option<u8>)
    ensures
        res == month_abbreviation(t@),
{
    if t.len() != 3 {
        return None;
    }
    let (a, b, c) = (lower(t[0]), lower(t[1]), lower(t[2]));
    let ghost l = t@.map_values(|x: u8| ascii_lower(x));
    assert(l =~= seq![a, b, c]);
    if a == 106 && b == 97 && c == 110 {
        Some(1)
    } else if a == 102 && b == 101 && c == 98 {
        Some(2)
    } else if a == 109 && b == 97 && c == 114 {
        Some(3)
    } else if a == 97 && b == 112 && c == 114 {
        Some(4)
    } else if a == 109 && b == 97 && c == 121 {
        Some(5)
    } else if a == 106 && b == 117 && c == 110 {
        Some(6)
    } else if a == 106 && b == 117 && c == 108 {
        Some(7)
    } else if a == 97 && b == 117 && c == 103 {
        Some(8)
    } else if a == 115 && b == 101 && c == 112 {
        Some(9)
    } else if a == 111 && b == 99 && c == 116 {
        Some(10)
    } else if a == 110 && b == 111 && c == 118 {
        Some(11)
    } else if a == 100 && b == 101 && c == 99 {
        Some(12)
    } else {
        assert(l != seq![106u8, 97u8, 110u8]);
        assert(l != seq![102u8, 101u8, 98u8]);
        assert(l != seq![109u8, 97u8, 114u8]);
        assert(l != seq![97u8, 112u8, 114u8]);
        assert(l != seq![109u8, 97u8, 121u8]);
        assert(l != seq![106u8, 117u8, 110u8]);
        assert(l != seq![106u8, 117u8, 108u8]);
        assert(l != seq![97u8, 117u8, 103u8]);
        assert(l != seq![115u8, 101u8, 112u8]);
        assert(l != seq![111u8, 99u8, 116u8]);
        assert(l != seq![110u8, 111u8, 118u8]);
        assert(l != seq![100u8, 101u8, 99u8]);
        None
    }
}

/// Parses a `DD MMM YY` date.
fn parse_date(s: &[u8]) -> (res: Option<(u8, u8, u8)>)
    ensures
        res == date_fields(s@),
{
    let normalized = spaced_bytes(s);
    let s = normalized.as_slice();
    let words = split_nonempty_ranges(s, 32);
    if words.len() != 3 {
        return None;
    }
    let ghost all = pieces(s@, words@);
    assert(all[0] == s@.subrange(words@[0].0 as int, words@[0].1 as int));
    assert(all[1] == s@.subrange(words@[1].0 as int, words@[1].1 as int));
    assert(all[2] == s@.subrange(words@[2].0 as int, words@[2].1 as int));
    let day = parse_u8_text(&s[words[0].0..words[0].1]);
    let month = parse_month(&s[words[1].0..words[1].1]);
    let year = parse_u8_text(&s[words[2].0..words[2].1]);
    match (day, month, year) {
        (Some(day), Some(month), Some(year)) => Some((day, month, year)),
        _ => None,
    }
}

/// The number of leading `pad` bytes of `s`.
fn leading_len(s: &[u8], pad: u8) -> (res: usize)
    ensures
        res <= s@.len(),
        s@.skip(res as int) == trim_start(s@, pad),
{
    let mut start: usize = 0;
    assert(s@.skip(0) =~= s@);
    while start < s.len() && s[start] == pad
        invariant
            start <= s@.len(),
            trim_start(s@.skip(start as int), pad) == trim_start(s@, pad),
        decreases s@.len() - start,
    {
        assert(s@.skip(start as int).drop_first() =~= s@.skip(start + 1));
        start = start + 1;
    }
    start
}

/// Parses an `HH:MM:SS` time.
fn parse_time(s: &[u8]) -> (res: Option<(u8, u8, u8)>)
    ensures
        res == time_fields(s@),
{
    let normalized = spaced_bytes(s);
    let (start, end) = space_trimmed_range(normalized.as_slice());
    let trimmed = &normalized.as_slice()[start..end];
    let parts = split_ranges(trimmed, 58);
    if parts.len() != 3 {
        return None;
    }
    let ghost all = pieces(trimmed@, parts@);
    assert(all[0] == trimmed@.subrange(parts@[0].0 as int, parts@[0].1 as int));
    assert(all[1] == trimmed@.subrange(parts@[1].0 as int, parts@[1].1 as int));
    assert(all[2] == trimmed@.subrange(parts@[2].0 as int, parts@[2].1 as int));
    let hour = parse_u8_text(&trimmed[parts[0].0..parts[0].1]);
    let minute = parse_u8_text(&trimmed[parts[1].0..parts[1].1]);
    let second = parse_u8_text(&trimmed[parts[2].0..parts[2].1]);
    match (hour, minute, second) {
        (Some(hour), Some(minute), Some(second)) => Some((hour, minute, second)),
        _ => None,
    }
}

} // verus!
