//! Subtype 17 — file-level custom attributes (collection wrapper).
use vstd::prelude::*;
use crate::spss::sav::dictionary_format::TEXT_ELEMENT_SIZE;
use crate::spss::sav::extensions::extension_parse::{
    attribute_set, decodes_attribute, parse_attribute_set, unexpected_value_error, RawAttribute,
};
use crate::spss::sav::extensions::file_attribute::FileAttribute;
use crate::spss::sav::sav_error::{is_unexpected_value, Field, Result};
use crate::spss::sav::text_encoding::TextEncoding;

verus! {

/// The file-level custom attributes from one extension subtype-17
/// record, in on-disk order.
#[derive(Debug, Clone, PartialEq, Eq)]
pub struct FileAttributes {
    attributes: Vec<FileAttribute>,
}

impl FileAttributes {
    /// The `attributes` field, as a specification value.
    pub closed spec fn spec_attributes(self) -> Seq<FileAttribute> {
        self.attributes@
    }

    /// Returns a fresh [`FileAttributesBuilder`].
    pub fn builder() -> (res: FileAttributesBuilder)
        ensures
            res.spec_attributes().len() == 0,
    {
        FileAttributesBuilder { attributes: Vec::new() }
    }

    /// The file attributes, in on-disk order.
    pub fn attributes(&self) -> (res: &[FileAttribute])
        ensures
            res@ == self.spec_attributes(),
    {
        self.attributes.as_slice()
    }
}

/// Builder for [`FileAttributes`].
#[derive(Debug, Clone)]
pub struct FileAttributesBuilder {
    attributes: Vec<FileAttribute>,
}

impl FileAttributesBuilder {
    /// The `attributes` collected so far, as a specification value.
    pub closed spec fn spec_attributes(self) -> Seq<FileAttribute> {
        self.attributes@
    }

    /// Appends one file attribute.
    pub fn add_attribute(self, value: FileAttribute) -> (res: Self)
        ensures
            res.spec_attributes() == self.spec_attributes().push(value),
    {
        let mut b = self;
        b.attributes.push(value);
        proof {
            assert(b.spec_attributes() =~= self.spec_attributes().push(value));
        }
        b
    }

    /// Appends `attributes`.
    pub fn add_attributes(self, attributes: Vec<FileAttribute>) -> (res: Self)
        ensures
            res.spec_attributes() == self.spec_attributes() + attributes@,
    {
        let mut b = self;
        let mut more = attributes;
        b.attributes.append(&mut more);
        proof {
            assert(b.spec_attributes() =~= self.spec_attributes() + attributes@);
        }
        b
    }

    /// Finalizes this builder into a [`FileAttributes`]; unset fields take their defaults.
    pub fn build(self) -> (res: FileAttributes)
        ensures
            res.spec_attributes() == self.spec_attributes(),
    {
        let attributes = self.attributes;
        FileAttributes { attributes }
    }
}

/// The attributes of a subtype-17 payload: attribute sets one after
/// another until the payload runs out.
pub open spec fn file_attribute_list(s: Seq<u8>) -> Option<Seq<RawAttribute>>
    decreases s.len(),
{
    if s.len() == 0 {
        Some(Seq::empty())
    } else {
        match attribute_set(s) {
            None => None,
            Some((attrs, rest)) => if rest.len() < s.len() {
                match file_attribute_list(rest) {
                    None => None,
                    Some(more) => Some(attrs + more),
                }
            } else {
                None
            },
        }
    }
}

/// Whether `attribute` is `raw` decoded through `encoding`.
pub open spec fn decodes_file_attribute(
    attribute: FileAttribute,
    raw: RawAttribute,
    encoding: TextEncoding,
) -> bool {
    &&& attribute.spec_name() == encoding.decoded(raw.0)
    &&& attribute.spec_values() == raw.1.map_values(|v: Seq<u8>| encoding.decoded(v))
}

/// Turns decoded `(name, values)` pairs into [`FileAttribute`]s,
/// appended to `out` in order.
fn push_file_attributes(set: Vec<(String, Vec<String>)>, out: &mut Vec<FileAttribute>)
    ensures
        final(out)@.len() == old(out)@.len() + set@.len(),
        final(out)@.take(old(out)@.len() as int) == old(out)@,
        forall|k: int|
            0 <= k < set@.len() ==> (#[trigger] final(out)@[old(out)@.len() + k]).spec_name()
                == set@[k].0@ && final(out)@[old(out)@.len() + k].spec_values() == set@[
                k
            ].1@.map_values(|t: String| t@),
{
    let ghost start = out@;
    let ghost pairs = set@;
    for pair in it: set
        invariant
            pairs == it.seq(),
            out@.len() == start.len() + it.index(),
            out@.take(start.len() as int) == start,
            forall|k: int|
                0 <= k < it.index() ==> (#[trigger] out@[start.len() + k]).spec_name()
                    == pairs[k].0@ && out@[start.len() + k].spec_values() == pairs[
                    k
                ].1@.map_values(|t: String| t@),
    {
        let (name, values) = pair;
        let attribute = FileAttribute::builder().name(name).add_values(values).build();
        let ghost before = out@;
        out.push(attribute);
        assert(out@.take(start.len() as int) =~= before.take(start.len() as int));
    }
}

/// Parses an extension subtype-17 (data file attributes) payload into
/// its list of [`FileAttribute`]s.
///
/// The payload is attribute sets one after another (normally a single
/// set spanning the whole payload). Each attribute is a name (everything
/// up to the next `(`) followed, inside parentheses, by one or more
/// values, each terminated by a line feed. Only the single outer quote
/// pair is stripped from each value. Names and values are decoded
/// through `encoding`.
///
/// # Errors
/// - [`Field::ExtensionElementSize`] when `actual_size` isn't `1`.
/// - [`Field::FileAttribute`] on a structurally malformed attribute
///   (missing `(`, empty name, unterminated value, missing `)`).
pub fn parse(
    actual_size: u32,
    payload: &[u8],
    encoding: &TextEncoding,
    position: u64,
) -> (res: Result<Vec<FileAttribute>>)
    ensures
        actual_size != TEXT_ELEMENT_SIZE ==> res is Err && is_unexpected_value(
            res->Err_0,
            position,
            Field::ExtensionElementSize,
        ),
        actual_size == TEXT_ELEMENT_SIZE ==> match file_attribute_list(payload@) {
            None => res is Err && is_unexpected_value(res->Err_0, position, Field::FileAttribute),
            Some(raws) => res is Ok && res->Ok_0@.len() == raws.len() && forall|k: int|
                0 <= k < raws.len() ==> decodes_file_attribute(
                    #[trigger] res->Ok_0@[k],
                    raws[k],
                    *encoding,
                ),
        },
{
    if actual_size != TEXT_ELEMENT_SIZE {
        return Err(unexpected_value_error(position, Field::ExtensionElementSize));
    }
    let mut at: usize = 0;
    let mut out: Vec<FileAttribute> = Vec::new();
    let ghost mut done: Seq<RawAttribute> = Seq::empty();
    proof {
        assert(payload@.skip(0) =~= payload@);
        if let Some(all) = file_attribute_list(payload@) {
            assert(done + all =~= all);
        }
    }
    while at < payload.len()
        invariant
            actual_size == TEXT_ELEMENT_SIZE,
            at <= payload@.len(),
            file_attribute_list(payload@) == match file_attribute_list(payload@.skip(at as int)) {
                None => None,
                Some(more) => Some(done + more),
            },
            out@.len() == done.len(),
            forall|k: int|
                0 <= k < done.len() ==> decodes_file_attribute(
                    #[trigger] out@[k],
                    done[k],
                    *encoding,
                ),
        decreases payload@.len() - at,
    {
        let (set, next) = match parse_attribute_set(payload, at, encoding) {
            None => return Err(unexpected_value_error(position, Field::FileAttribute)),
            Some(parsed) => parsed,
        };
        if next <= at {
            return Err(unexpected_value_error(position, Field::FileAttribute));
        }
        let ghost raws = attribute_set(payload@.skip(at as int))->Some_0.0;
        let ghost set_view = set@;
        let ghost before = out@;
        push_file_attributes(set, &mut out);
        proof {
            assert forall|k: int| 0 <= k < done.len() + raws.len() implies decodes_file_attribute(
                #[trigger] out@[k],
                (done + raws)[k],
                *encoding,
            ) by {
                if k < done.len() {
                    assert(out@[k] == out@.take(before.len() as int)[k]);
                } else {
                    let j = k - done.len();
                    assert(out@[before.len() + j] == out@[k]);
                    assert(decodes_attribute(set_view[j], raws[j], *encoding));
                }
            }
            let rest = payload@.skip(at as int);
            assert(payload@.skip(next as int).len() < rest.len());
            match file_attribute_list(payload@.skip(next as int)) {
                None => {},
                Some(more) => {
                    assert(done + (raws + more) =~= (done + raws) + more);
                },
            }
            done = done + raws;
        }
        at = next;
    }
    proof {
        assert(payload@.skip(at as int).len() == 0);
        assert(done + Seq::<RawAttribute>::empty() =~= done);
    }
    Ok(out)
}

} // verus!
