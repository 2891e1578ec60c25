//! One named variable grouping inside a variable sets record (subtype 5).
use vstd::prelude::*;

verus! {

/// One named variable grouping inside a variable sets record
/// (subtype 5): a set name and its members' long names, in order.
#[derive(Debug, Clone, PartialEq, Eq)]
pub struct VariableSet {
    name: String,
    variables: Vec<String>,
}

impl VariableSet {
    /// The `name` field, as a specification value.
    pub closed spec fn spec_name(self) -> Seq<char> {
        self.name@
    }

    /// The `variables` field, as a specification value.
    pub closed spec fn spec_variables(self) -> Seq<Seq<char>> {
        self.variables@.map_values(|s: String| s@)
    }

    /// Returns a fresh [`VariableSetBuilder`].
    pub fn builder() -> (res: VariableSetBuilder)
        ensures
            res.spec_name() is None,
            res.spec_variables().len() == 0,
    {
        VariableSetBuilder { name: None, variables: Vec::new() }
    }

    /// The set's name.
    pub fn name(&self) -> (res: &str)
        ensures
            res@ == self.spec_name(),
    {
        self.name.as_str()
    }

    /// The member variables' names, in on-disk order.
    pub fn variables(&self) -> (res: &[String])
        ensures
            res@.map_values(|s: String| s@) == self.spec_variables(),
    {
        self.variables.as_slice()
    }
}

/// Builder for [`VariableSet`].
#[derive(Debug, Clone)]
pub struct VariableSetBuilder {
    name: Option<String>,
    variables: Vec<String>,
}

impl VariableSetBuilder {
    /// The `name` set so far, as a specification value.
    pub closed spec fn spec_name(self) -> Option<Seq<char>> {
        match self.name {
            Some(v) => Some(v@),
            None => None,
        }
    }

    /// The `variables` collected so far, as a specification value.
    pub closed spec fn spec_variables(self) -> Seq<Seq<char>> {
        self.variables@.map_values(|s: String| s@)
    }

    /// Sets the set name.
    pub fn name(self, value: String) -> (res: Self)
        ensures
            res.spec_name() == Some(value@),
            res.spec_variables() == self.spec_variables(),
    {
        let mut b = self;
        b.name = Some(value);
        b
    }

    /// Appends one member.
    pub fn add_variable(self, value: String) -> (res: Self)
        ensures
            res.spec_variables() == self.spec_variables().push(value@),
            res.spec_name() == self.spec_name(),
    {
        let mut b = self;
        b.variables.push(value);
        proof {
            assert(b.spec_variables() =~= self.spec_variables().push(value@));
        }
        b
    }

    /// Appends `variables`.
    pub fn add_variables(self, variables: Vec<String>) -> (res: Self)
        ensures
            res.spec_variables() == self.spec_variables() + variables@.map_values(|s: String| s@),
            res.spec_name() == self.spec_name(),
    {
        let mut b = self;
        let mut more = variables;
        b.variables.append(&mut more);
        proof {
            assert(b.spec_variables() =~= self.spec_variables() + variables@.map_values(|s: String| s@));
        }
        b
    }

    /// Finalizes this builder into a [`VariableSet`]; unset fields take their defaults.
    pub fn build(self) -> (res: VariableSet)
        ensures
            res.spec_name() == (match self.spec_name() {
                Some(v) => v,
                None => Seq::<char>::empty(),
            }),
            res.spec_variables() == self.spec_variables(),
    {
        let name = match self.name {
            Some(v) => v,
            None => String::new(),
        };
        let variables = self.variables;
        VariableSet { name, variables }
    }
}

} // verus!
