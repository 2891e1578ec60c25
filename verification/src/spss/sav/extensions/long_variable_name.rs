//! Subtype 13 — one long variable name mapping.
use vstd::prelude::*;

verus! {

/// One short-to-long variable-name mapping from an extension
/// subtype-13 record.
#[derive(Debug, Clone, PartialEq, Eq)]
pub struct LongVariableName {
    short_name: String,
    long_name: String,
}

impl LongVariableName {
    /// The `short_name` field, as a specification value.
    pub closed spec fn spec_short_name(self) -> Seq<char> {
        self.short_name@
    }

    /// The `long_name` field, as a specification value.
    pub closed spec fn spec_long_name(self) -> Seq<char> {
        self.long_name@
    }

    /// Returns a fresh [`LongVariableNameBuilder`].
    pub fn builder() -> (res: LongVariableNameBuilder)
        ensures
            res.spec_short_name() is None,
            res.spec_long_name() is None,
    {
        LongVariableNameBuilder { short_name: None, long_name: None }
    }

    /// The 8-byte-or-shorter variable name as written in the type-2 record.
    pub fn short_name(&self) -> (res: &str)
        ensures
            res@ == self.spec_short_name(),
    {
        self.short_name.as_str()
    }

    /// The full variable name the short name maps to.
    pub fn long_name(&self) -> (res: &str)
        ensures
            res@ == self.spec_long_name(),
    {
        self.long_name.as_str()
    }
}

/// Builder for [`LongVariableName`].
#[derive(Debug, Clone)]
pub struct LongVariableNameBuilder {
    short_name: Option<String>,
    long_name: Option<String>,
}

impl LongVariableNameBuilder {
    /// The `short_name` set so far, as a specification value.
    pub closed spec fn spec_short_name(self) -> Option<Seq<char>> {
        match self.short_name {
            Some(v) => Some(v@),
            None => None,
        }
    }

    /// The `long_name` set so far, as a specification value.
    pub closed spec fn spec_long_name(self) -> Option<Seq<char>> {
        match self.long_name {
            Some(v) => Some(v@),
            None => None,
        }
    }

    /// Sets the short name.
    pub fn short_name(self, value: String) -> (res: Self)
        ensures
            res.spec_short_name() == Some(value@),
            res.spec_long_name() == self.spec_long_name(),
    {
        let mut b = self;
        b.short_name = Some(value);
        b
    }

    /// Sets the long name.
    pub fn long_name(self, value: String) -> (res: Self)
        ensures
            res.spec_long_name() == Some(value@),
            res.spec_short_name() == self.spec_short_name(),
    {
        let mut b = self;
        b.long_name = Some(value);
        b
    }

    /// Finalizes this builder into a [`LongVariableName`]; unset fields take their defaults.
    pub fn build(self) -> (res: LongVariableName)
        ensures
            res.spec_short_name() == (match self.spec_short_name() {
                Some(v) => v,
                None => Seq::<char>::empty(),
            }),
            res.spec_long_name() == (match self.spec_long_name() {
                Some(v) => v,
                None => Seq::<char>::empty(),
            }),
    {
        let short_name = match self.short_name {
            Some(v) => v,
            None => String::new(),
        };
        let long_name = match self.long_name {
            Some(v) => v,
            None => String::new(),
        };
        LongVariableName { short_name, long_name }
    }
}

} // verus!
