//! How string missing values are compared with string cells.
use vstd::prelude::*;

use crate::spss::sav::text_field::{trim_padding, trim_trailing_padding};

verus! {

/// How many leading bytes of a string value take part in matching it
/// against a missing value: a missing-value slot holds eight bytes.
pub const STRING_COMPARISON_LEN: usize = 8;

/// The part of `bytes` that string missing-value matching compares: the
/// first eight bytes (or fewer, if shorter) without trailing padding.
pub open spec fn key_of(bytes: Seq<u8>) -> Seq<u8> {
    let n = if bytes.len() < STRING_COMPARISON_LEN {
        bytes.len() as int
    } else {
        STRING_COMPARISON_LEN as int
    };
    trim_padding(bytes.take(n))
}

/// Only the first eight bytes of a value take part in matching.
pub proof fn lemma_key_ignores_bytes_past_eight(a: Seq<u8>, b: Seq<u8>)
    requires
        a.len() >= STRING_COMPARISON_LEN,
        b.len() >= STRING_COMPARISON_LEN,
        a.take(STRING_COMPARISON_LEN as int) == b.take(STRING_COMPARISON_LEN as int),
    ensures
        key_of(a) == key_of(b),
{
}

/// Trailing spaces and NULs within the first eight bytes do not take
/// part in matching.
pub proof fn lemma_key_ignores_padding(value: Seq<u8>, pad: u8)
    requires
        value.len() < STRING_COMPARISON_LEN,
        pad == 32 || pad == 0,
    ensures
        key_of(value.push(pad)) == key_of(value),
{
    assert(value.push(pad).take((value.len() + 1) as int) =~= value.push(pad));
    assert(value.push(pad).drop_last() =~= value);
    assert(value.take(value.len() as int) =~= value);
}

/// The comparison key of `bytes`: its first eight bytes without
/// trailing spaces and NULs.
pub fn comparison_key(bytes: &[u8]) -> (res: &[u8])
    ensures
        res@ == key_of(bytes@),
{
    let n = if bytes.len() < STRING_COMPARISON_LEN {
        bytes.len()
    } else {
        STRING_COMPARISON_LEN
    };
    let head = &bytes[0..n];
    assert(head@ =~= bytes@.take(n as int));
    trim_trailing_padding(head)
}

/// Whether the string cell `raw` matches the missing value `key`: the
/// two agree on their comparison keys, so padding and anything past the
/// eighth byte do not count.
pub fn key_matches(key: &[u8], raw: &[u8]) -> (res: bool)
    ensures
        res == (key_of(key@) == key_of(raw@)),
{
    let a = comparison_key(key);
    let b = comparison_key(raw);
    if a.len() != b.len() {
        return false;
    }
    let mut i: usize = 0;
    while i < a.len()
        invariant
            i <= a@.len(),
            a@.len() == b@.len(),
            a@ == key_of(key@),
            b@ == key_of(raw@),
            forall|j: int| 0 <= j < i ==> a@[j] == b@[j],
        decreases a@.len() - i,
    {
        if a[i] != b[i] {
            assert(a@[i as int] != b@[i as int]);
            assert(a@ != b@);
            return false;
        }
        i = i + 1;
    }
    assert(a@ =~= b@);
    true
}

} // verus!
