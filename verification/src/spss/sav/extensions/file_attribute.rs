//! Subtype 17 — file-level custom attributes.
use vstd::prelude::*;

verus! {

/// One file-level custom attribute from extension record subtype 17.
///
/// File attributes are arbitrary `name(values)` pairs attached to the
/// dataset as a whole rather than to a specific variable. A single
/// attribute may carry more than one value: on disk a `name` is
/// followed, inside parentheses, by one or more single-quoted,
/// line-feed-terminated strings.
///
/// The `name` is kept verbatim, including any `[n]` array-index suffix
/// (e.g. `fred[1]`). The values have had their single outer quote pair
/// stripped but are otherwise verbatim. Both are already decoded
/// through the file's active encoding.
#[derive(Debug, Clone, PartialEq, Eq)]
pub struct FileAttribute {
    name: String,
    values: Vec<String>,
}

impl FileAttribute {
    /// The `name` field, as a specification value.
    pub closed spec fn spec_name(self) -> Seq<char> {
        self.name@
    }

    /// The `values` field, as a specification value.
    pub closed spec fn spec_values(self) -> Seq<Seq<char>> {
        self.values@.map_values(|s: String| s@)
    }

    /// Returns a fresh [`FileAttributeBuilder`].
    pub fn builder() -> (res: FileAttributeBuilder)
        ensures
            res.spec_name() is None,
            res.spec_values().len() == 0,
    {
        FileAttributeBuilder { name: None, values: Vec::new() }
    }

    /// Attribute name, verbatim from disk (may include a trailing
    /// `[n]` array-index suffix).
    pub fn name(&self) -> (res: &str)
        ensures
            res@ == self.spec_name(),
    {
        self.name.as_str()
    }

    /// The attribute's values, in on-disk order, each with its outer
    /// single-quote pair already stripped.
    pub fn values(&self) -> (res: &[String])
        ensures
            res@.map_values(|s: String| s@) == self.spec_values(),
    {
        self.values.as_slice()
    }
}

/// Builder for [`FileAttribute`].
#[derive(Debug, Clone)]
pub struct FileAttributeBuilder {
    name: Option<String>,
    values: Vec<String>,
}

impl FileAttributeBuilder {
    /// The `name` set so far, as a specification value.
    pub closed spec fn spec_name(self) -> Option<Seq<char>> {
        match self.name {
            Some(v) => Some(v@),
            None => None,
        }
    }

    /// The `values` collected so far, as a specification value.
    pub closed spec fn spec_values(self) -> Seq<Seq<char>> {
        self.values@.map_values(|s: String| s@)
    }

    /// Sets the attribute name.
    pub fn name(self, value: String) -> (res: Self)
        ensures
            res.spec_name() == Some(value@),
            res.spec_values() == self.spec_values(),
    {
        let mut b = self;
        b.name = Some(value);
        b
    }

    /// Appends one value to the attribute.
    pub fn add_value(self, value: String) -> (res: Self)
        ensures
            res.spec_values() == self.spec_values().push(value@),
            res.spec_name() == self.spec_name(),
    {
        let mut b = self;
        b.values.push(value);
        proof {
            assert(b.spec_values() =~= self.spec_values().push(value@));
        }
        b
    }

    /// Appends `values` to the attribute.
    pub fn add_values(self, values: Vec<String>) -> (res: Self)
        ensures
            res.spec_values() == self.spec_values() + values@.map_values(|s: String| s@),
            res.spec_name() == self.spec_name(),
    {
        let mut b = self;
        let mut more = values;
        b.values.append(&mut more);
        proof {
            assert(b.spec_values() =~= self.spec_values() + values@.map_values(|s: String| s@));
        }
        b
    }

    /// Finalizes this builder into a [`FileAttribute`]; unset fields take their defaults.
    pub fn build(self) -> (res: FileAttribute)
        ensures
            res.spec_name() == (match self.spec_name() {
                Some(v) => v,
                None => Seq::<char>::empty(),
            }),
            res.spec_values() == self.spec_values(),
    {
        let name = match self.name {
            Some(v) => v,
            None => String::new(),
        };
        let values = self.values;
        FileAttribute { name, values }
    }
}

} // verus!
