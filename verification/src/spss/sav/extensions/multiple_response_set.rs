//! One multiple response set (subtypes 7 / 19).
use vstd::prelude::*;
use crate::spss::sav::extensions::multiple_response_set_kind::MultipleResponseSetKind;

verus! {

/// One multiple response set (subtype 7 or 19): its name (with the
/// leading `$`), label, kind, and member variables in order.
#[derive(Debug, Clone, PartialEq, Eq)]
pub struct MultipleResponseSet {
    name: String,
    label: String,
    kind: MultipleResponseSetKind,
    variables: Vec<String>,
}

impl MultipleResponseSet {
    /// The `name` field, as a specification value.
    pub closed spec fn spec_name(self) -> Seq<char> {
        self.name@
    }

    /// The `label` field, as a specification value.
    pub closed spec fn spec_label(self) -> Seq<char> {
        self.label@
    }

    /// The `kind` field, as a specification value.
    pub closed spec fn spec_kind(self) -> MultipleResponseSetKind {
        self.kind
    }

    /// The `variables` field, as a specification value.
    pub closed spec fn spec_variables(self) -> Seq<Seq<char>> {
        self.variables@.map_values(|s: String| s@)
    }

    /// Returns a fresh [`MultipleResponseSetBuilder`].
    pub fn builder() -> (res: MultipleResponseSetBuilder)
        ensures
            res.spec_name() is None,
            res.spec_label() is None,
            res.spec_kind() is None,
            res.spec_variables().len() == 0,
    {
        MultipleResponseSetBuilder { name: None, label: None, kind: None, variables: Vec::new() }
    }

    /// The set's name, including the leading `$`.
    pub fn name(&self) -> (res: &str)
        ensures
            res@ == self.spec_name(),
    {
        self.name.as_str()
    }

    /// The set's label.
    pub fn label(&self) -> (res: &str)
        ensures
            res@ == self.spec_label(),
    {
        self.label.as_str()
    }

    /// The set's kind and kind-specific data.
    pub fn kind(&self) -> (res: &MultipleResponseSetKind)
        ensures
            *res == self.spec_kind(),
    {
        &self.kind
    }

    /// The member variables' names, in on-disk order.
    pub fn variables(&self) -> (res: &[String])
        ensures
            res@.map_values(|s: String| s@) == self.spec_variables(),
    {
        self.variables.as_slice()
    }
}

/// Builder for [`MultipleResponseSet`].
#[derive(Debug, Clone)]
pub struct MultipleResponseSetBuilder {
    name: Option<String>,
    label: Option<String>,
    kind: Option<MultipleResponseSetKind>,
    variables: Vec<String>,
}

impl MultipleResponseSetBuilder {
    /// The `name` set so far, as a specification value.
    pub closed spec fn spec_name(self) -> Option<Seq<char>> {
        match self.name {
            Some(v) => Some(v@),
            None => None,
        }
    }

    /// The `label` set so far, as a specification value.
    pub closed spec fn spec_label(self) -> Option<Seq<char>> {
        match self.label {
            Some(v) => Some(v@),
            None => None,
        }
    }

    /// The `kind` set so far, as a specification value.
    pub closed spec fn spec_kind(self) -> Option<MultipleResponseSetKind> {
        match self.kind {
            Some(v) => Some(v),
            None => None,
        }
    }

    /// The `variables` collected so far, as a specification value.
    pub closed spec fn spec_variables(self) -> Seq<Seq<char>> {
        self.variables@.map_values(|s: String| s@)
    }

    /// Sets the name.
    pub fn name(self, value: String) -> (res: Self)
        ensures
            res.spec_name() == Some(value@),
            res.spec_label() == self.spec_label(),
            res.spec_kind() == self.spec_kind(),
            res.spec_variables() == self.spec_variables(),
    {
        let mut b = self;
        b.name = Some(value);
        b
    }

    /// Sets the label.
    pub fn label(self, value: String) -> (res: Self)
        ensures
            res.spec_label() == Some(value@),
            res.spec_name() == self.spec_name(),
            res.spec_kind() == self.spec_kind(),
            res.spec_variables() == self.spec_variables(),
    {
        let mut b = self;
        b.label = Some(value);
        b
    }

    /// Sets the kind.
    pub fn kind(self, value: MultipleResponseSetKind) -> (res: Self)
        ensures
            res.spec_kind() == Some(value),
            res.spec_name() == self.spec_name(),
            res.spec_label() == self.spec_label(),
            res.spec_variables() == self.spec_variables(),
    {
        let mut b = self;
        b.kind = Some(value);
        b
    }

    /// Appends one member.
    pub fn add_variable(self, value: String) -> (res: Self)
        ensures
            res.spec_variables() == self.spec_variables().push(value@),
            res.spec_name() == self.spec_name(),
            res.spec_label() == self.spec_label(),
            res.spec_kind() == self.spec_kind(),
    {
        let mut b = self;
        b.variables.push(value);
        proof {
            assert(b.spec_variables() =~= self.spec_variables().push(value@));
        }
        b
    }

    /// Appends `variables`.
    pub fn add_variables(self, variables: Vec<String>) -> (res: Self)
        ensures
            res.spec_variables() == self.spec_variables() + variables@.map_values(|s: String| s@),
            res.spec_name() == self.spec_name(),
            res.spec_label() == self.spec_label(),
            res.spec_kind() == self.spec_kind(),
    {
        let mut b = self;
        let mut more = variables;
        b.variables.append(&mut more);
        proof {
            assert(b.spec_variables() =~= self.spec_variables() + variables@.map_values(|s: String| s@));
        }
        b
    }

    /// Finalizes this builder into a [`MultipleResponseSet`]; unset fields take their defaults.
    pub fn build(self) -> (res: MultipleResponseSet)
        ensures
            res.spec_name() == (match self.spec_name() {
                Some(v) => v,
                None => Seq::<char>::empty(),
            }),
            res.spec_label() == (match self.spec_label() {
                Some(v) => v,
                None => Seq::<char>::empty(),
            }),
            res.spec_kind() == (match self.spec_kind() {
                Some(v) => v,
                None => MultipleResponseSetKind::MultipleCategory,
            }),
            res.spec_variables() == self.spec_variables(),
    {
        let name = match self.name {
            Some(v) => v,
            None => String::new(),
        };
        let label = match self.label {
            Some(v) => v,
            None => String::new(),
        };
        let kind = match self.kind {
            Some(v) => v,
            None => MultipleResponseSetKind::MultipleCategory,
        };
        let variables = self.variables;
        MultipleResponseSet { name, label, kind, variables }
    }
}

} // verus!
