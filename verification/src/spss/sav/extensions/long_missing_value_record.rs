//! Long missing values for one very-long-string variable (subtype 22).
use vstd::prelude::*;

verus! {

/// One variable's long string missing values (subtype 22): its name
/// and its raw missing values, each kept verbatim.
#[derive(Debug, Clone, PartialEq, Eq)]
pub struct LongMissingValueRecord {
    variable_name: String,
    values: Vec<Vec<u8>>,
}

impl LongMissingValueRecord {
    /// The `variable_name` field, as a specification value.
    pub closed spec fn spec_variable_name(self) -> Seq<char> {
        self.variable_name@
    }

    /// The `values` field, as a specification value.
    pub closed spec fn spec_values(self) -> Seq<Seq<u8>> {
        self.values@.map_values(|v: Vec<u8>| v@)
    }

    /// Returns a fresh [`LongMissingValueRecordBuilder`].
    pub fn builder() -> (res: LongMissingValueRecordBuilder)
        ensures
            res.spec_variable_name() is None,
            res.spec_values().len() == 0,
    {
        LongMissingValueRecordBuilder { variable_name: None, values: Vec::new() }
    }

    /// The variable the missing values belong to.
    pub fn variable_name(&self) -> (res: &str)
        ensures
            res@ == self.spec_variable_name(),
    {
        self.variable_name.as_str()
    }

    /// The raw missing values, in on-disk order.
    pub fn values(&self) -> (res: &[Vec<u8>])
        ensures
            res@.map_values(|v: Vec<u8>| v@) == self.spec_values(),
    {
        self.values.as_slice()
    }
}

/// Builder for [`LongMissingValueRecord`].
#[derive(Debug, Clone)]
pub struct LongMissingValueRecordBuilder {
    variable_name: Option<String>,
    values: Vec<Vec<u8>>,
}

impl LongMissingValueRecordBuilder {
    /// The `variable_name` set so far, as a specification value.
    pub closed spec fn spec_variable_name(self) -> Option<Seq<char>> {
        match self.variable_name {
            Some(v) => Some(v@),
            None => None,
        }
    }

    /// The `values` collected so far, as a specification value.
    pub closed spec fn spec_values(self) -> Seq<Seq<u8>> {
        self.values@.map_values(|v: Vec<u8>| v@)
    }

    /// Sets the variable name.
    pub fn variable_name(self, value: String) -> (res: Self)
        ensures
            res.spec_variable_name() == Some(value@),
            res.spec_values() == self.spec_values(),
    {
        let mut b = self;
        b.variable_name = Some(value);
        b
    }

    /// Appends one raw missing value.
    pub fn add_value(self, value: Vec<u8>) -> (res: Self)
        ensures
            res.spec_values() == self.spec_values().push(value@),
            res.spec_variable_name() == self.spec_variable_name(),
    {
        let mut b = self;
        b.values.push(value);
        proof {
            assert(b.spec_values() =~= self.spec_values().push(value@));
        }
        b
    }

    /// Appends `values`.
    pub fn add_values(self, values: Vec<Vec<u8>>) -> (res: Self)
        ensures
            res.spec_values() == self.spec_values() + values@.map_values(|v: Vec<u8>| v@),
            res.spec_variable_name() == self.spec_variable_name(),
    {
        let mut b = self;
        let mut more = values;
        b.values.append(&mut more);
        proof {
            assert(b.spec_values() =~= self.spec_values() + values@.map_values(|v: Vec<u8>| v@));
        }
        b
    }

    /// Finalizes this builder into a [`LongMissingValueRecord`]; unset fields take their defaults.
    pub fn build(self) -> (res: LongMissingValueRecord)
        ensures
            res.spec_variable_name() == (match self.spec_variable_name() {
                Some(v) => v,
                None => Seq::<char>::empty(),
            }),
            res.spec_values() == self.spec_values(),
    {
        let variable_name = match self.variable_name {
            Some(v) => v,
            None => String::new(),
        };
        let values = self.values;
        LongMissingValueRecord { variable_name, values }
    }
}

} // verus!
