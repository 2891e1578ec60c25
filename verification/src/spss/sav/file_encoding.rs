//! What the SAV file declared about its text encoding.
use vstd::prelude::*;

use crate::spss::sav::text_encoding::TextEncoding;

verus! {

/// What the file declared about its text encoding.
///
/// SAV files can declare their encoding in two places: the character
/// encoding record (extension subtype 20), an IANA-style label such as
/// `"UTF-8"`, which is preferred; and the `character_code` field of the
/// machine integer info record (subtype 3), a numeric code page used
/// when subtype 20 is absent.
///
/// `FileEncoding` records what the file said; the encoding the reader
/// applies is governed by its
/// [`EncodingStrategy`](crate::spss::sav::encoding_strategy::EncodingStrategy).
#[derive(Debug, Clone)]
#[non_exhaustive]
pub enum FileEncoding {
    /// Declared by a character-encoding record (subtype 20).
    Declared(TextEncoding),
    /// Inferred from the machine integer info record's `character_code`
    /// when subtype 20 was absent.
    Heuristic(TextEncoding),
    /// Neither subtype 20 nor a recognizable `character_code` was
    /// present.
    Unknown,
}

} // verus!
