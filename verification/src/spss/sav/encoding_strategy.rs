//! Reader policy for choosing a text encoding.
use vstd::prelude::*;

use crate::spss::sav::text_encoding::{windows_1252_name, TextEncoding};

verus! {

/// How the reader chooses the text encoding that strings are decoded
/// through.
#[derive(Debug, PartialEq, Eq)]
#[non_exhaustive]
pub enum EncodingStrategy {
    /// Honor the file's own declaration, falling back as configured.
    Declared {
        /// The encoding to use when the file declares none.
        unspecified: Option<TextEncoding>,
        /// The encoding to use when the file declares one that is not
        /// recognized.
        unrecognized: Option<TextEncoding>,
    },
    /// Decode everything through this encoding, whatever the file says.
    Override(TextEncoding),
}

impl Clone for EncodingStrategy {
    fn clone(&self) -> (res: Self)
        ensures
            res.same_labels(*self),
    {
        match self {
            EncodingStrategy::Declared { unspecified, unrecognized } => EncodingStrategy::Declared {
                unspecified: clone_option(unspecified),
                unrecognized: clone_option(unrecognized),
            },
            EncodingStrategy::Override(e) => EncodingStrategy::Override(e.clone()),
        }
    }
}

/// The label of an optional encoding.
pub open spec fn option_label(e: Option<TextEncoding>) -> Option<Seq<u8>> {
    match e {
        Some(e) => Some(e.label()),
        None => None,
    }
}

/// A copy of an optional encoding.
fn clone_option(e: &Option<TextEncoding>) -> (res: Option<TextEncoding>)
    ensures
        option_label(res) == option_label(*e),
{
    match e {
        Some(e) => Some(e.clone()),
        None => None,
    }
}

impl EncodingStrategy {
    /// Whether `self` and `other` are the same policy over the same
    /// encoding labels.
    pub open spec fn same_labels(self, other: EncodingStrategy) -> bool {
        match (self, other) {
            (
                EncodingStrategy::Declared { unspecified: a, unrecognized: b },
                EncodingStrategy::Declared { unspecified: c, unrecognized: d },
            ) => option_label(a) == option_label(c) && option_label(b) == option_label(d),
            (EncodingStrategy::Override(a), EncodingStrategy::Override(b)) => a.label() == b.label(),
            _ => false,
        }
    }

    /// The label of the encoding the header is decoded through, before
    /// the file's own declaration can be read.
    pub open spec fn interim_label(self) -> Seq<u8> {
        match self {
            EncodingStrategy::Override(e) => e.label(),
            EncodingStrategy::Declared { unspecified: Some(e), .. } => e.label(),
            EncodingStrategy::Declared { unspecified: None, .. } => windows_1252_name(),
        }
    }
}

impl Default for EncodingStrategy {
    /// Honor the file's declaration, with no fallbacks configured.
    fn default() -> (res: Self)
        ensures
            res == (EncodingStrategy::Declared { unspecified: None, unrecognized: None }),
    {
        EncodingStrategy::Declared { unspecified: None, unrecognized: None }
    }
}

/// The encoding to decode with before the file's own declaration is
/// reachable: the override if there is one, else the fallback for an
/// undeclared encoding, else windows-1252.
///
/// Both declaration sites (subtypes 20 and 3) come at the end of the
/// dictionary, so a `Declared` strategy with no `unspecified` fallback
/// gets windows-1252 here rather than an error.
pub fn interim_encoding(strategy: &EncodingStrategy) -> (res: TextEncoding)
    ensures
        res.label() == strategy.interim_label(),
{
    match strategy {
        EncodingStrategy::Override(e) => e.clone(),
        EncodingStrategy::Declared { unspecified: Some(e), .. } => e.clone(),
        EncodingStrategy::Declared { unspecified: None, .. } => TextEncoding::windows_1252(),
    }
}

} // verus!
