//! Subtype 12.
use vstd::prelude::*;
use crate::spss::sav::dictionary_format::TEXT_ELEMENT_SIZE;
use crate::spss::sav::extensions::extension_parse::unexpected_value_error;
use crate::spss::sav::sav_error::{is_unexpected_value, Field, Result};
use crate::spss::sav::text_encoding::TextEncoding;

verus! {

/// A file UUID from extension record subtype 12, kept verbatim as
/// text: neither trimmed nor validated against RFC 4122.
#[derive(Debug, Clone, PartialEq, Eq)]
pub struct Uuid {
    text: String,
}

impl Uuid {
    /// The `text` field, as a specification value.
    pub closed spec fn spec_text(self) -> Seq<char> {
        self.text@
    }

    /// Returns a fresh [`UuidBuilder`].
    pub fn builder() -> (res: UuidBuilder)
        ensures
            res.spec_text() is None,
    {
        UuidBuilder { text: None }
    }

    /// The UUID text, verbatim.
    pub fn text(&self) -> (res: &str)
        ensures
            res@ == self.spec_text(),
    {
        self.text.as_str()
    }
}

/// Builder for [`Uuid`].
#[derive(Debug, Clone)]
pub struct UuidBuilder {
    text: Option<String>,
}

impl UuidBuilder {
    /// The `text` set so far, as a specification value.
    pub closed spec fn spec_text(self) -> Option<Seq<char>> {
        match self.text {
            Some(v) => Some(v@),
            None => None,
        }
    }

    /// Sets the UUID text.
    pub fn text(self, value: String) -> (res: Self)
        ensures
            res.spec_text() == Some(value@),
    {
        let mut b = self;
        b.text = Some(value);
        b
    }

    /// Finalizes this builder into a [`Uuid`]; unset fields take their defaults.
    pub fn build(self) -> (res: Uuid)
        ensures
            res.spec_text() == (match self.spec_text() {
                Some(v) => v,
                None => Seq::<char>::empty(),
            }),
    {
        let text = match self.text {
            Some(v) => v,
            None => String::new(),
        };
        Uuid { text }
    }
}

/// Parses a subtype-12 payload. The payload's byte length is exact, so
/// it is decoded through `encoding` verbatim — nothing is trimmed.
///
/// # Errors
///
/// [`Field::ExtensionElementSize`] when `actual_size != 1`.
pub fn parse(
    actual_size: u32,
    payload: &[u8],
    encoding: &TextEncoding,
    position: u64,
) -> (res: Result<Uuid>)
    ensures
        res is Ok <==> actual_size == TEXT_ELEMENT_SIZE,
        res is Err ==> is_unexpected_value(res->Err_0, position, Field::ExtensionElementSize),
        res matches Ok(v) ==> v.spec_text() == encoding.decoded(payload@),
{
    if actual_size != TEXT_ELEMENT_SIZE {
        return Err(unexpected_value_error(position, Field::ExtensionElementSize));
    }
    Ok(Uuid::builder().text(encoding.decode(payload)).build())
}

} // verus!
