//! Long value labels for one very-long-string variable (subtype 21).
use vstd::prelude::*;
use crate::spss::sav::extensions::long_value_label::LongValueLabel;

verus! {

/// One variable's long string value labels (subtype 21): its name,
/// declared width, and labels in on-disk order.
#[derive(Debug, Clone, PartialEq, Eq)]
pub struct LongValueLabelRecord {
    variable_name: String,
    width: u32,
    labels: Vec<LongValueLabel>,
}

impl LongValueLabelRecord {
    /// The `variable_name` field, as a specification value.
    pub closed spec fn spec_variable_name(self) -> Seq<char> {
        self.variable_name@
    }

    /// The `width` field, as a specification value.
    pub closed spec fn spec_width(self) -> u32 {
        self.width
    }

    /// The `labels` field, as a specification value.
    pub closed spec fn spec_labels(self) -> Seq<LongValueLabel> {
        self.labels@
    }

    /// Returns a fresh [`LongValueLabelRecordBuilder`].
    pub fn builder() -> (res: LongValueLabelRecordBuilder)
        ensures
            res.spec_variable_name() is None,
            res.spec_width() is None,
            res.spec_labels().len() == 0,
    {
        LongValueLabelRecordBuilder { variable_name: None, width: None, labels: Vec::new() }
    }

    /// The variable the labels belong to.
    pub fn variable_name(&self) -> (res: &str)
        ensures
            res@ == self.spec_variable_name(),
    {
        self.variable_name.as_str()
    }

    /// The variable's declared width.
    pub fn width(&self) -> (res: u32)
        ensures
            res == self.spec_width(),
    {
        self.width
    }

    /// The value-label pairs, in on-disk order.
    pub fn labels(&self) -> (res: &[LongValueLabel])
        ensures
            res@ == self.spec_labels(),
    {
        self.labels.as_slice()
    }
}

/// Builder for [`LongValueLabelRecord`].
#[derive(Debug, Clone)]
pub struct LongValueLabelRecordBuilder {
    variable_name: Option<String>,
    width: Option<u32>,
    labels: Vec<LongValueLabel>,
}

impl LongValueLabelRecordBuilder {
    /// The `variable_name` set so far, as a specification value.
    pub closed spec fn spec_variable_name(self) -> Option<Seq<char>> {
        match self.variable_name {
            Some(v) => Some(v@),
            None => None,
        }
    }

    /// The `width` set so far, as a specification value.
    pub closed spec fn spec_width(self) -> Option<u32> {
        match self.width {
            Some(v) => Some(v),
            None => None,
        }
    }

    /// The `labels` collected so far, as a specification value.
    pub closed spec fn spec_labels(self) -> Seq<LongValueLabel> {
        self.labels@
    }

    /// Sets the variable name.
    pub fn variable_name(self, value: String) -> (res: Self)
        ensures
            res.spec_variable_name() == Some(value@),
            res.spec_width() == self.spec_width(),
            res.spec_labels() == self.spec_labels(),
    {
        let mut b = self;
        b.variable_name = Some(value);
        b
    }

    /// Sets the declared width.
    pub fn width(self, width: u32) -> (res: Self)
        ensures
            res.spec_width() == Some(width),
            res.spec_variable_name() == self.spec_variable_name(),
            res.spec_labels() == self.spec_labels(),
    {
        let mut b = self;
        b.width = Some(width);
        b
    }

    /// Appends one label.
    pub fn add_label(self, label: LongValueLabel) -> (res: Self)
        ensures
            res.spec_labels() == self.spec_labels().push(label),
            res.spec_variable_name() == self.spec_variable_name(),
            res.spec_width() == self.spec_width(),
    {
        let mut b = self;
        b.labels.push(label);
        proof {
            assert(b.spec_labels() =~= self.spec_labels().push(label));
        }
        b
    }

    /// Appends `labels`.
    pub fn add_labels(self, labels: Vec<LongValueLabel>) -> (res: Self)
        ensures
            res.spec_labels() == self.spec_labels() + labels@,
            res.spec_variable_name() == self.spec_variable_name(),
            res.spec_width() == self.spec_width(),
    {
        let mut b = self;
        let mut more = labels;
        b.labels.append(&mut more);
        proof {
            assert(b.spec_labels() =~= self.spec_labels() + labels@);
        }
        b
    }

    /// Finalizes this builder into a [`LongValueLabelRecord`]; unset fields take their defaults.
    pub fn build(self) -> (res: LongValueLabelRecord)
        ensures
            res.spec_variable_name() == (match self.spec_variable_name() {
                Some(v) => v,
                None => Seq::<char>::empty(),
            }),
            res.spec_width() == (match self.spec_width() {
                Some(v) => v,
                None => 0u32,
            }),
            res.spec_labels() == self.spec_labels(),
    {
        let variable_name = match self.variable_name {
            Some(v) => v,
            None => String::new(),
        };
        let width = match self.width {
            Some(v) => v,
            None => 0u32,
        };
        let labels = self.labels;
        LongValueLabelRecord { variable_name, width, labels }
    }
}

} // verus!
