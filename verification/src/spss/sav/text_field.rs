//! Shared helpers for fixed-width text fields, which SAV pads on the
//! right with spaces or NULs.
use vstd::prelude::*;

use crate::spss::sav::text_encoding::TextEncoding;

verus! {

/// Whether `b` is padding: a space or a NUL.
pub open spec fn is_padding(b: u8) -> bool {
    b == 32 || b == 0
}

/// `s` without its trailing spaces and NULs.
pub open spec fn trim_padding(s: Seq<u8>) -> Seq<u8>
    decreases s.len(),
{
    if s.len() > 0 && is_padding(s.last()) {
        trim_padding(s.drop_last())
    } else {
        s
    }
}

/// `bytes` without its trailing spaces and NULs.
pub fn trim_trailing_padding(bytes: &[u8]) -> (res: &[u8])
    ensures
        res@ == trim_padding(bytes@),
{
    let mut end = bytes.len();
    assert(bytes@.take(end as int) =~= bytes@);
    while end > 0 && (bytes[end - 1] == 32 || bytes[end - 1] == 0)
        invariant
            end <= bytes@.len(),
            trim_padding(bytes@.take(end as int)) == trim_padding(bytes@),
        decreases end,
    {
        assert(bytes@.take(end as int).drop_last() =~= bytes@.take(end - 1));
        end = end - 1;
    }
    let res = &bytes[0..end];
    assert(res@ =~= bytes@.take(end as int));
    res
}

/// Decodes a fixed-width text field through `encoding` after trimming
/// its trailing spaces and NULs.
pub fn decode_trimmed(bytes: &[u8], encoding: &TextEncoding) -> (res: String)
    ensures
        res@ == encoding.decoded(trim_padding(bytes@)),
{
    encoding.decode(trim_trailing_padding(bytes))
}

} // verus!
