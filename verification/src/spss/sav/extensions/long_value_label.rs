//! One value-label pair inside a long string value labels record.
use vstd::prelude::*;

verus! {

/// One value-label pair inside a long string value labels record
/// (subtype 21): the value's raw bytes and its decoded label.
#[derive(Debug, Clone, PartialEq, Eq)]
pub struct LongValueLabel {
    value: Vec<u8>,
    label: String,
}

impl LongValueLabel {
    /// The `value` field, as a specification value.
    pub closed spec fn spec_value(self) -> Seq<u8> {
        self.value@
    }

    /// The `label` field, as a specification value.
    pub closed spec fn spec_label(self) -> Seq<char> {
        self.label@
    }

    /// Returns a fresh [`LongValueLabelBuilder`].
    pub fn builder() -> (res: LongValueLabelBuilder)
        ensures
            res.spec_value().len() == 0,
            res.spec_label() is None,
    {
        LongValueLabelBuilder { value: Vec::new(), label: None }
    }

    /// The labeled value's raw bytes, verbatim.
    pub fn value(&self) -> (res: &[u8])
        ensures
            res@ == self.spec_value(),
    {
        self.value.as_slice()
    }

    /// The label text.
    pub fn label(&self) -> (res: &str)
        ensures
            res@ == self.spec_label(),
    {
        self.label.as_str()
    }
}

/// Builder for [`LongValueLabel`].
#[derive(Debug, Clone)]
pub struct LongValueLabelBuilder {
    value: Vec<u8>,
    label: Option<String>,
}

impl LongValueLabelBuilder {
    /// The `value` collected so far, as a specification value.
    pub closed spec fn spec_value(self) -> Seq<u8> {
        self.value@
    }

    /// The `label` set so far, as a specification value.
    pub closed spec fn spec_label(self) -> Option<Seq<char>> {
        match self.label {
            Some(v) => Some(v@),
            None => None,
        }
    }

    /// Sets the value bytes.
    pub fn value(self, value: Vec<u8>) -> (res: Self)
        ensures
            res.spec_value() == value@,
            res.spec_label() == self.spec_label(),
    {
        let mut b = self;
        b.value = value;
        b
    }

    /// Sets the label text.
    pub fn label(self, label: String) -> (res: Self)
        ensures
            res.spec_label() == Some(label@),
            res.spec_value() == self.spec_value(),
    {
        let mut b = self;
        b.label = Some(label);
        b
    }

    /// Finalizes this builder into a [`LongValueLabel`]; unset fields take their defaults.
    pub fn build(self) -> (res: LongValueLabel)
        ensures
            res.spec_value() == self.spec_value(),
            res.spec_label() == (match self.spec_label() {
                Some(v) => v,
                None => Seq::<char>::empty(),
            }),
    {
        let value = self.value;
        let label = match self.label {
            Some(v) => v,
            None => String::new(),
        };
        LongValueLabel { value, label }
    }
}

} // verus!
