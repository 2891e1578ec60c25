//! The text encodings that SAV strings are decoded through.
//!
//! An encoding is held by its canonical name in `encoding_rs`
//! (`"windows-1252"`, `"UTF-8"`, ...): a plain byte string that the
//! contracts can speak of, where the crate's `&'static Encoding` is
//! opaque. Every encoding has exactly one name, so two encodings are
//! equal exactly when their names are. Every decode goes through
//! `encoding_rs`.
use encoding_rs::Encoding;
use vstd::prelude::*;
use vstd::utf8::{decode_utf8, valid_utf8};

verus! {

/// The bytes of the canonical name of the encoding that `encoding_rs`
/// selects for `label`, or `None` when the label names no encoding.
pub uninterp spec fn label_encoding(label: Seq<u8>) -> Option<Seq<u8>>;

/// The text `encoding_rs` produces when it decodes `bytes` (with BOM
/// sniffing, malformed sequences replaced by U+FFFD) through the
/// encoding that `label` selects.
pub uninterp spec fn decoded_with_label(label: Seq<u8>, bytes: Seq<u8>) -> Seq<char>;

/// The text `String::from_utf8_lossy` produces for `bytes`.
pub uninterp spec fn utf8_lossy(bytes: Seq<u8>) -> Seq<char>;

/// Looks up the canonical name of the encoding a label selects.
///
/// Calls `encoding_rs::Encoding::for_label` and reads `name` of the
/// result, as bytes. Claims that the result is the named lookup applied
/// to the label and, as the crate's tables show, that each of its
/// forty names is ASCII and is itself a label of the same encoding: the
/// name looks itself up, and decodes exactly as `label` does.
#[verifier::external_body]
fn encoding_name_for_label(label: &[u8]) -> (res: Option<Vec<u8>>)
    ensures
        res matches Some(name) ==> label_encoding(label@) == Some(name@) && label_encoding(name@)
            == Some(name@) && (forall|i: int| 0 <= i < name@.len() ==> name@[i] < 128)
            && (forall|bytes: Seq<u8>|
            #[trigger] decoded_with_label(name@, bytes) == decoded_with_label(label@, bytes)),
        res is None ==> label_encoding(label@) is None,
{
    match Encoding::for_label(label) {
        Some(encoding) => Some(encoding.name().as_bytes().to_vec()),
        None => None,
    }
}

/// Decodes `bytes` through the encoding `label` selects.
///
/// Calls `encoding_rs::Encoding::decode` on the encoding that
/// `encoding_rs::Encoding::for_label` returns for `label`, which the
/// precondition guarantees exists. Claims only that the result is the
/// named decode of the two arguments.
#[verifier::external_body]
fn decode_through_label(label: &[u8], bytes: &[u8]) -> (res: String)
    requires
        label_encoding(label@) is Some,
    ensures
        res@ == decoded_with_label(label@, bytes@),
{
    let encoding = Encoding::for_label(label).unwrap();
    encoding.decode(bytes).0.into_owned()
}

/// The bytes of the name `windows-1252`.
pub open spec fn windows_1252_name() -> Seq<u8> {
    seq![119u8, 105u8, 110u8, 100u8, 111u8, 119u8, 115u8, 45u8, 49u8, 50u8, 53u8, 50u8]
}

/// The bytes of the name `UTF-8`.
pub open spec fn utf_8_name() -> Seq<u8> {
    seq![85u8, 84u8, 70u8, 45u8, 56u8]
}

/// The label of `encoding_rs::WINDOWS_1252`.
///
/// Reads `encoding_rs::WINDOWS_1252.name()`, which the crate defines as
/// `"windows-1252"`. Claims that name and that looking it up gives the
/// same encoding back, which holds since `"windows-1252"` is one of that
/// encoding's labels.
#[verifier::external_body]
fn windows_1252_label() -> (res: Vec<u8>)
    ensures
        res@ == windows_1252_name(),
        label_encoding(res@) == Some(res@),
{
    encoding_rs::WINDOWS_1252.name().as_bytes().to_vec()
}

/// The label of `encoding_rs::UTF_8`.
///
/// Reads `encoding_rs::UTF_8.name()`, which the crate defines as
/// `"UTF-8"`. Claims that name and that looking it up gives the same
/// encoding back, which holds since `"utf-8"` is one of its labels and
/// the lookup lower-cases.
#[verifier::external_body]
fn utf_8_label() -> (res: Vec<u8>)
    ensures
        res@ == utf_8_name(),
        label_encoding(res@) == Some(res@),
{
    encoding_rs::UTF_8.name().as_bytes().to_vec()
}

/// Decodes `bytes` as UTF-8, replacing malformed sequences.
///
/// Calls `String::from_utf8_lossy`. Claims that the result is the named
/// decode of the bytes and, as its documentation states, that valid
/// UTF-8 comes through unchanged.
#[verifier::external_body]
pub(crate) fn utf8_lossy_string(bytes: &[u8]) -> (res: String)
    ensures
        res@ == utf8_lossy(bytes@),
        valid_utf8(bytes@) ==> res@ == decode_utf8(bytes@),
{
    String::from_utf8_lossy(bytes).into_owned()
}

/// Appends one character to a string.
///
/// Calls `String::push`, which appends `c` to the end of `s`.
#[verifier::external_body]
pub(crate) fn push_char(s: &mut String, c: char)
    ensures
        final(s)@ == old(s)@.push(c),
{
    s.push(c);
}

/// A text encoding, identified by its canonical name in `encoding_rs`;
/// two are equal exactly when they are the same encoding.
#[derive(Debug, PartialEq, Eq)]
pub struct TextEncoding {
    label: Vec<u8>,
}

impl Clone for TextEncoding {
    fn clone(&self) -> (res: Self)
        ensures
            res.label() == self.label(),
    {
        proof {
            use_type_invariant(self);
        }
        let label = vstd::slice::slice_to_vec(self.label.as_slice());
        TextEncoding { label }
    }
}

impl TextEncoding {
    /// The canonical name of this encoding, which is also a label that
    /// selects it.
    pub closed spec fn label(self) -> Seq<u8> {
        self.label@
    }

    /// The label is the canonical name of the encoding it selects.
    #[verifier::type_invariant]
    closed spec fn canonical(self) -> bool {
        &&& label_encoding(self.label@) == Some(self.label@)
        &&& forall|i: int| 0 <= i < self.label@.len() ==> self.label@[i] < 128
    }

    /// The text `bytes` decode to through this encoding.
    pub open spec fn decoded(self, bytes: Seq<u8>) -> Seq<char> {
        decoded_with_label(self.label(), bytes)
    }

    /// The encoding `label` selects, or `None` when it names none.
    pub fn for_label(label: &[u8]) -> (res: Option<TextEncoding>)
        ensures
            res is Some <==> label_encoding(label@) is Some,
            res matches Some(e) ==> Some(e.label()) == label_encoding(label@) && forall|
                bytes: Seq<u8>,
            | #[trigger] e.decoded(bytes) == decoded_with_label(label@, bytes),
    {
        match encoding_name_for_label(label) {
            Some(name) => Some(TextEncoding { label: name }),
            None => None,
        }
    }

    /// Windows-1252, the reader's fallback when a file declares nothing.
    pub fn windows_1252() -> (res: TextEncoding)
        ensures
            res.label() == windows_1252_name(),
    {
        TextEncoding { label: windows_1252_label() }
    }

    /// UTF-8.
    pub fn utf_8() -> (res: TextEncoding)
        ensures
            res.label() == utf_8_name(),
    {
        TextEncoding { label: utf_8_label() }
    }

    /// The canonical name of this encoding.
    pub fn name(&self) -> (res: String)
        ensures
            res@ == self.label().map_values(|b: u8| b as char),
            Some(self.label()) == label_encoding(self.label()),
    {
        proof {
            use_type_invariant(self);
        }
        let mut out = String::new();
        for i in 0..self.label.len()
            invariant
                out@ == self.label@.take(i as int).map_values(|b: u8| b as char),
        {
            push_char(&mut out, self.label[i] as char);
            assert(out@ =~= self.label@.take(i as int + 1).map_values(|b: u8| b as char)) by {
                assert(self.label@.take(i as int + 1).drop_last() =~= self.label@.take(i as int));
            }
        }
        assert(self.label@.take(self.label@.len() as int) =~= self.label@);
        out
    }

    /// Decodes `bytes` through this encoding, replacing malformed
    /// sequences with U+FFFD.
    pub fn decode(&self, bytes: &[u8]) -> (res: String)
        ensures
            res@ == self.decoded(bytes@),
    {
        proof {
            use_type_invariant(self);
        }
        decode_through_label(self.label.as_slice(), bytes)
    }
}

} // verus!
