//! Wire-level value-label entry from a type-3 value-label record.
use vstd::prelude::*;

verus! {

/// One entry of a type-3 value-label record, undecoded value: the raw
/// 8-byte value slot and its label text.
#[derive(Debug, Clone, PartialEq, Eq)]
pub struct RawValueLabelEntry {
    value: [u8; 8],
    label: String,
}

impl RawValueLabelEntry {
    /// The `value` field, as a specification value.
    pub closed spec fn spec_value(self) -> Seq<u8> {
        self.value@
    }

    /// The `label` field, as a specification value.
    pub closed spec fn spec_label(self) -> Seq<char> {
        self.label@
    }

    /// Returns a fresh [`RawValueLabelEntryBuilder`].
    pub fn builder() -> (res: RawValueLabelEntryBuilder)
        ensures
            res.spec_value() is None,
            res.spec_label() is None,
    {
        RawValueLabelEntryBuilder { value: None, label: None }
    }

    /// The raw 8-byte value slot.
    pub fn value(&self) -> (res: [u8; 8])
        ensures
            res@ == self.spec_value(),
    {
        self.value
    }

    /// The label text.
    pub fn label(&self) -> (res: &str)
        ensures
            res@ == self.spec_label(),
    {
        self.label.as_str()
    }
}

/// Builder for [`RawValueLabelEntry`].
#[derive(Debug, Clone)]
pub struct RawValueLabelEntryBuilder {
    value: Option<[u8; 8]>,
    label: Option<String>,
}

impl RawValueLabelEntryBuilder {
    /// The `value` set so far, as a specification value.
    pub closed spec fn spec_value(self) -> Option<Seq<u8>> {
        match self.value {
            Some(v) => Some(v@),
            None => None,
        }
    }

    /// The `label` set so far, as a specification value.
    pub closed spec fn spec_label(self) -> Option<Seq<char>> {
        match self.label {
            Some(v) => Some(v@),
            None => None,
        }
    }

    /// Sets the raw value slot.
    pub fn value(self, value: [u8; 8]) -> (res: Self)
        ensures
            res.spec_value() == Some(value@),
            res.spec_label() == self.spec_label(),
    {
        let mut b = self;
        b.value = Some(value);
        b
    }

    /// Sets the label text.
    pub fn label(self, label: String) -> (res: Self)
        ensures
            res.spec_label() == Some(label@),
            res.spec_value() == self.spec_value(),
    {
        let mut b = self;
        b.label = Some(label);
        b
    }

    /// Finalizes this builder into a [`RawValueLabelEntry`]; unset fields take their defaults.
    pub fn build(self) -> (res: RawValueLabelEntry)
        ensures
            res.spec_value() == (match self.spec_value() {
                Some(v) => v,
                None => seq![0u8, 0u8, 0u8, 0u8, 0u8, 0u8, 0u8, 0u8],
            }),
            res.spec_label() == (match self.spec_label() {
                Some(v) => v,
                None => Seq::<char>::empty(),
            }),
    {
        let value = match self.value {
            Some(v) => v,
            None => [0u8, 0u8, 0u8, 0u8, 0u8, 0u8, 0u8, 0u8],
        };
        let label = match self.label {
            Some(v) => v,
            None => String::new(),
        };
        RawValueLabelEntry { value, label }
    }
}

} // verus!
