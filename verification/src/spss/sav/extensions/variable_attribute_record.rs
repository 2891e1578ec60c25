//! Subtype 18 — the attributes of one variable.
use vstd::prelude::*;
use crate::spss::sav::extensions::variable_attribute_entry::VariableAttributeEntry;

verus! {

/// The attributes attached to one variable inside an extension
/// subtype-18 record: the variable's name and its attributes, in
/// on-disk order.
#[derive(Debug, Clone, PartialEq, Eq)]
pub struct VariableAttributeRecord {
    variable_name: String,
    attributes: Vec<VariableAttributeEntry>,
}

impl VariableAttributeRecord {
    /// The `variable_name` field, as a specification value.
    pub closed spec fn spec_variable_name(self) -> Seq<char> {
        self.variable_name@
    }

    /// The `attributes` field, as a specification value.
    pub closed spec fn spec_attributes(self) -> Seq<VariableAttributeEntry> {
        self.attributes@
    }

    /// Returns a fresh [`VariableAttributeRecordBuilder`].
    pub fn builder() -> (res: VariableAttributeRecordBuilder)
        ensures
            res.spec_variable_name() is None,
            res.spec_attributes().len() == 0,
    {
        VariableAttributeRecordBuilder { variable_name: None, attributes: Vec::new() }
    }

    /// The variable's name, decoded through the active encoding.
    pub fn variable_name(&self) -> (res: &str)
        ensures
            res@ == self.spec_variable_name(),
    {
        self.variable_name.as_str()
    }

    /// The variable's attributes, in on-disk order.
    pub fn attributes(&self) -> (res: &[VariableAttributeEntry])
        ensures
            res@ == self.spec_attributes(),
    {
        self.attributes.as_slice()
    }
}

/// Builder for [`VariableAttributeRecord`].
#[derive(Debug, Clone)]
pub struct VariableAttributeRecordBuilder {
    variable_name: Option<String>,
    attributes: Vec<VariableAttributeEntry>,
}

impl VariableAttributeRecordBuilder {
    /// The `variable_name` set so far, as a specification value.
    pub closed spec fn spec_variable_name(self) -> Option<Seq<char>> {
        match self.variable_name {
            Some(v) => Some(v@),
            None => None,
        }
    }

    /// The `attributes` collected so far, as a specification value.
    pub closed spec fn spec_attributes(self) -> Seq<VariableAttributeEntry> {
        self.attributes@
    }

    /// Sets the variable name.
    pub fn variable_name(self, value: String) -> (res: Self)
        ensures
            res.spec_variable_name() == Some(value@),
            res.spec_attributes() == self.spec_attributes(),
    {
        let mut b = self;
        b.variable_name = Some(value);
        b
    }

    /// Appends one attribute.
    pub fn add_attribute(self, value: VariableAttributeEntry) -> (res: Self)
        ensures
            res.spec_attributes() == self.spec_attributes().push(value),
            res.spec_variable_name() == self.spec_variable_name(),
    {
        let mut b = self;
        b.attributes.push(value);
        proof {
            assert(b.spec_attributes() =~= self.spec_attributes().push(value));
        }
        b
    }

    /// Appends `attributes`.
    pub fn add_attributes(self, attributes: Vec<VariableAttributeEntry>) -> (res: Self)
        ensures
            res.spec_attributes() == self.spec_attributes() + attributes@,
            res.spec_variable_name() == self.spec_variable_name(),
    {
        let mut b = self;
        let mut more = attributes;
        b.attributes.append(&mut more);
        proof {
            assert(b.spec_attributes() =~= self.spec_attributes() + attributes@);
        }
        b
    }

    /// Finalizes this builder into a [`VariableAttributeRecord`]; unset fields take their defaults.
    pub fn build(self) -> (res: VariableAttributeRecord)
        ensures
            res.spec_variable_name() == (match self.spec_variable_name() {
                Some(v) => v,
                None => Seq::<char>::empty(),
            }),
            res.spec_attributes() == self.spec_attributes(),
    {
        let variable_name = match self.variable_name {
            Some(v) => v,
            None => String::new(),
        };
        let attributes = self.attributes;
        VariableAttributeRecord { variable_name, attributes }
    }
}

} // verus!
