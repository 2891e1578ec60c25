//! Subtype 10.
use vstd::prelude::*;
use crate::spss::sav::dictionary_format::TEXT_ELEMENT_SIZE;
use crate::spss::sav::extensions::extension_parse::unexpected_value_error;
use crate::spss::sav::sav_error::{is_unexpected_value, Field, Result};
use crate::spss::sav::text_encoding::TextEncoding;

verus! {

/// Extra product information from extension record subtype 10: a
/// free-form text identifying the product that wrote the file, kept
/// verbatim (trailing whitespace included).
#[derive(Debug, Clone, PartialEq, Eq)]
pub struct ExtraProductInfo {
    text: String,
}

impl ExtraProductInfo {
    /// The `text` field, as a specification value.
    pub closed spec fn spec_text(self) -> Seq<char> {
        self.text@
    }

    /// Returns a fresh [`ExtraProductInfoBuilder`].
    pub fn builder() -> (res: ExtraProductInfoBuilder)
        ensures
            res.spec_text() is None,
    {
        ExtraProductInfoBuilder { text: None }
    }

    /// The product information text, verbatim.
    pub fn text(&self) -> (res: &str)
        ensures
            res@ == self.spec_text(),
    {
        self.text.as_str()
    }
}

/// Builder for [`ExtraProductInfo`].
#[derive(Debug, Clone)]
pub struct ExtraProductInfoBuilder {
    text: Option<String>,
}

impl ExtraProductInfoBuilder {
    /// The `text` set so far, as a specification value.
    pub closed spec fn spec_text(self) -> Option<Seq<char>> {
        match self.text {
            Some(v) => Some(v@),
            None => None,
        }
    }

    /// Sets the product information text.
    pub fn text(self, value: String) -> (res: Self)
        ensures
            res.spec_text() == Some(value@),
    {
        let mut b = self;
        b.text = Some(value);
        b
    }

    /// Finalizes this builder into a [`ExtraProductInfo`]; unset fields take their defaults.
    pub fn build(self) -> (res: ExtraProductInfo)
        ensures
            res.spec_text() == (match self.spec_text() {
                Some(v) => v,
                None => Seq::<char>::empty(),
            }),
    {
        let text = match self.text {
            Some(v) => v,
            None => String::new(),
        };
        ExtraProductInfo { text }
    }
}

/// Parses a subtype-10 payload. The payload's byte length is exact, so
/// it is decoded through `encoding` verbatim — nothing is trimmed.
///
/// # Errors
///
/// [`Field::ExtensionElementSize`] when `actual_size != 1`.
pub fn parse(
    actual_size: u32,
    payload: &[u8],
    encoding: &TextEncoding,
    position: u64,
) -> (res: Result<ExtraProductInfo>)
    ensures
        res is Ok <==> actual_size == TEXT_ELEMENT_SIZE,
        res is Err ==> is_unexpected_value(res->Err_0, position, Field::ExtensionElementSize),
        res matches Ok(v) ==> v.spec_text() == encoding.decoded(payload@),
{
    if actual_size != TEXT_ELEMENT_SIZE {
        return Err(unexpected_value_error(position, Field::ExtensionElementSize));
    }
    Ok(ExtraProductInfo::builder().text(encoding.decode(payload)).build())
}

} // verus!
