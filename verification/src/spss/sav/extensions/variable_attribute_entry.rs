//! One attribute inside an extension subtype-18 record.
use vstd::prelude::*;

verus! {

/// One `name(values)` attribute attached to a variable inside an
/// extension subtype-18 record.
///
/// The name is verbatim (including any `[n]` array-index suffix); each
/// value has had its single outer quote pair stripped. Both are decoded
/// through the file's active encoding.
#[derive(Debug, Clone, PartialEq, Eq)]
pub struct VariableAttributeEntry {
    name: String,
    values: Vec<String>,
}

impl VariableAttributeEntry {
    /// The `name` field, as a specification value.
    pub closed spec fn spec_name(self) -> Seq<char> {
        self.name@
    }

    /// The `values` field, as a specification value.
    pub closed spec fn spec_values(self) -> Seq<Seq<char>> {
        self.values@.map_values(|s: String| s@)
    }

    /// Returns a fresh [`VariableAttributeEntryBuilder`].
    pub fn builder() -> (res: VariableAttributeEntryBuilder)
        ensures
            res.spec_name() is None,
            res.spec_values().len() == 0,
    {
        VariableAttributeEntryBuilder { name: None, values: Vec::new() }
    }

    /// Attribute name, verbatim from disk.
    pub fn name(&self) -> (res: &str)
        ensures
            res@ == self.spec_name(),
    {
        self.name.as_str()
    }

    /// The attribute's values, in on-disk order, outer quotes stripped.
    pub fn values(&self) -> (res: &[String])
        ensures
            res@.map_values(|s: String| s@) == self.spec_values(),
    {
        self.values.as_slice()
    }
}

/// Builder for [`VariableAttributeEntry`].
#[derive(Debug, Clone)]
pub struct VariableAttributeEntryBuilder {
    name: Option<String>,
    values: Vec<String>,
}

impl VariableAttributeEntryBuilder {
    /// The `name` set so far, as a specification value.
    pub closed spec fn spec_name(self) -> Option<Seq<char>> {
        match self.name {
            Some(v) => Some(v@),
            None => None,
        }
    }

    /// The `values` collected so far, as a specification value.
    pub closed spec fn spec_values(self) -> Seq<Seq<char>> {
        self.values@.map_values(|s: String| s@)
    }

    /// Sets the attribute name.
    pub fn name(self, value: String) -> (res: Self)
        ensures
            res.spec_name() == Some(value@),
            res.spec_values() == self.spec_values(),
    {
        let mut b = self;
        b.name = Some(value);
        b
    }

    /// Appends one value.
    pub fn add_value(self, value: String) -> (res: Self)
        ensures
            res.spec_values() == self.spec_values().push(value@),
            res.spec_name() == self.spec_name(),
    {
        let mut b = self;
        b.values.push(value);
        proof {
            assert(b.spec_values() =~= self.spec_values().push(value@));
        }
        b
    }

    /// Appends `values`.
    pub fn add_values(self, values: Vec<String>) -> (res: Self)
        ensures
            res.spec_values() == self.spec_values() + values@.map_values(|s: String| s@),
            res.spec_name() == self.spec_name(),
    {
        let mut b = self;
        let mut more = values;
        b.values.append(&mut more);
        proof {
            assert(b.spec_values() =~= self.spec_values() + values@.map_values(|s: String| s@));
        }
        b
    }

    /// Finalizes this builder into a [`VariableAttributeEntry`]; unset fields take their defaults.
    pub fn build(self) -> (res: VariableAttributeEntry)
        ensures
            res.spec_name() == (match self.spec_name() {
                Some(v) => v,
                None => Seq::<char>::empty(),
            }),
            res.spec_values() == self.spec_values(),
    {
        let name = match self.name {
            Some(v) => v,
            None => String::new(),
        };
        let values = self.values;
        VariableAttributeEntry { name, values }
    }
}

} // verus!
