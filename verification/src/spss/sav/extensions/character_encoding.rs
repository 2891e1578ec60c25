//! Subtype 20 — declared character encoding (value wrapper).
use vstd::prelude::*;
use vstd::utf8::{decode_utf8, valid_utf8};

use crate::spss::sav::dictionary_format::TEXT_ELEMENT_SIZE;
use crate::spss::sav::extension_envelope::ExtensionEnvelope;
use crate::spss::sav::extensions::extension_parse::unexpected_value_error;
use crate::spss::sav::sav_error::{is_unexpected_value, Field, Result};
use crate::spss::sav::text_encoding::{utf8_lossy, utf8_lossy_string};
use crate::spss::sav::text_field::{trim_padding, trim_trailing_padding};

verus! {

/// The character encoding label declared by an extension subtype-20
/// record: the label as written on disk, not resolved to an encoding.
#[derive(Debug, Clone, PartialEq, Eq)]
pub struct CharacterEncoding {
    name: String,
}

impl CharacterEncoding {
    /// The `name` field, as a specification value.
    pub closed spec fn spec_name(self) -> Seq<char> {
        self.name@
    }

    /// Returns a fresh [`CharacterEncodingBuilder`].
    pub fn builder() -> (res: CharacterEncodingBuilder)
        ensures
            res.spec_name() is None,
    {
        CharacterEncodingBuilder { name: None }
    }

    /// The declared encoding label, verbatim.
    pub fn name(&self) -> (res: &str)
        ensures
            res@ == self.spec_name(),
    {
        self.name.as_str()
    }
}

/// Builder for [`CharacterEncoding`].
#[derive(Debug, Clone)]
pub struct CharacterEncodingBuilder {
    name: Option<String>,
}

impl CharacterEncodingBuilder {
    /// The `name` set so far, as a specification value.
    pub closed spec fn spec_name(self) -> Option<Seq<char>> {
        match self.name {
            Some(v) => Some(v@),
            None => None,
        }
    }

    /// Sets the declared encoding label.
    pub fn name(self, value: String) -> (res: Self)
        ensures
            res.spec_name() == Some(value@),
    {
        let mut b = self;
        b.name = Some(value);
        b
    }

    /// Finalizes this builder into a [`CharacterEncoding`]; unset fields take their defaults.
    pub fn build(self) -> (res: CharacterEncoding)
        ensures
            res.spec_name() == (match self.spec_name() {
                Some(v) => v,
                None => Seq::<char>::empty(),
            }),
    {
        let name = match self.name {
            Some(v) => v,
            None => String::new(),
        };
        CharacterEncoding { name }
    }
}

/// Parses a subtype-20 payload into the declared encoding label.
///
/// The payload is the encoding name in ASCII; trailing spaces and NULs
/// are trimmed and the remaining bytes are decoded lossily as UTF-8
/// (non-ASCII bytes become U+FFFD rather than failing the read).
///
/// # Errors
///
/// [`Field::ExtensionElementSize`] when `actual_size != 1`.
pub fn parse(actual_size: u32, payload: &[u8], position: u64) -> (res: Result<String>)
    ensures
        actual_size != TEXT_ELEMENT_SIZE ==> res is Err && is_unexpected_value(
            res->Err_0,
            position,
            Field::ExtensionElementSize,
        ),
        actual_size == TEXT_ELEMENT_SIZE ==> res is Ok && res->Ok_0@ == utf8_lossy(
            trim_padding(payload@),
        ),
        actual_size == TEXT_ELEMENT_SIZE && valid_utf8(trim_padding(payload@)) ==> res is Ok
            && res->Ok_0@ == decode_utf8(trim_padding(payload@)),
{
    if actual_size != TEXT_ELEMENT_SIZE {
        return Err(unexpected_value_error(position, Field::ExtensionElementSize));
    }
    let trimmed = trim_trailing_padding(payload);
    Ok(utf8_lossy_string(trimmed))
}

/// Extracts the declared encoding label from a subtype-20 envelope, for
/// resolving the file's encoding: the label has to be known before the
/// text of the records around it can be decoded.
///
/// # Errors
///
/// As [`parse`]: an element size other than 1 is rejected.
pub fn declared_label(envelope: &ExtensionEnvelope) -> (res: Result<String>)
    ensures
        envelope.element_size != TEXT_ELEMENT_SIZE ==> res is Err && is_unexpected_value(
            res->Err_0,
            envelope.element_size_position,
            Field::ExtensionElementSize,
        ),
        envelope.element_size == TEXT_ELEMENT_SIZE ==> res is Ok && res->Ok_0@ == utf8_lossy(
            trim_padding(envelope.payload@),
        ),
{
    parse(envelope.element_size, envelope.payload.as_slice(), envelope.element_size_position)
}

/// Extracts the declared encoding label of a subtype-20 payload, for
/// resolving the file's encoding, and wraps it as a record.
pub fn read(actual_size: u32, payload: &[u8], position: u64) -> (res: Result<CharacterEncoding>)
    ensures
        res is Ok <==> actual_size == TEXT_ELEMENT_SIZE,
        res is Err ==> is_unexpected_value(res->Err_0, position, Field::ExtensionElementSize),
        res matches Ok(e) ==> e.spec_name() == utf8_lossy(trim_padding(payload@)),
{
    let name = parse(actual_size, payload, position)?;
    Ok(CharacterEncoding::builder().name(name).build())
}

} // verus!
