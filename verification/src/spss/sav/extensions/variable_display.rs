//! Subtype 11 — per-variable display parameters.
use vstd::prelude::*;
use crate::spss::sav::alignment::Alignment;
use crate::spss::sav::measurement_level::MeasurementLevel;

verus! {

/// One variable's display parameters from an extension subtype-11
/// record: measurement level, display width (absent in the two-field
/// form of the record) and alignment.
#[derive(Debug, Clone, Copy, PartialEq, Eq)]
pub struct VariableDisplay {
    measurement_level: MeasurementLevel,
    display_width: Option<u32>,
    alignment: Alignment,
}

impl VariableDisplay {
    /// The `measurement_level` field, as a specification value.
    pub closed spec fn spec_measurement_level(self) -> MeasurementLevel {
        self.measurement_level
    }

    /// The `display_width` field, as a specification value.
    pub closed spec fn spec_display_width(self) -> Option<u32> {
        self.display_width
    }

    /// The `alignment` field, as a specification value.
    pub closed spec fn spec_alignment(self) -> Alignment {
        self.alignment
    }

    /// Returns a fresh [`VariableDisplayBuilder`].
    pub fn builder() -> (res: VariableDisplayBuilder)
        ensures
            res.spec_measurement_level() is None,
            res.spec_display_width() is None,
            res.spec_alignment() is None,
    {
        VariableDisplayBuilder { measurement_level: None, display_width: None, alignment: None }
    }

    /// The variable's measurement level.
    pub fn measurement_level(&self) -> (res: MeasurementLevel)
        ensures
            res == self.spec_measurement_level(),
    {
        self.measurement_level
    }

    /// The display width in characters, when the record carries one.
    pub fn display_width(&self) -> (res: Option<u32>)
        ensures
            res == self.spec_display_width(),
    {
        self.display_width
    }

    /// The display alignment.
    pub fn alignment(&self) -> (res: Alignment)
        ensures
            res == self.spec_alignment(),
    {
        self.alignment
    }
}

/// Builder for [`VariableDisplay`].
#[derive(Debug, Clone, Copy)]
pub struct VariableDisplayBuilder {
    measurement_level: Option<MeasurementLevel>,
    display_width: Option<u32>,
    alignment: Option<Alignment>,
}

impl VariableDisplayBuilder {
    /// The `measurement_level` set so far, as a specification value.
    pub closed spec fn spec_measurement_level(self) -> Option<MeasurementLevel> {
        match self.measurement_level {
            Some(v) => Some(v),
            None => None,
        }
    }

    /// The `display_width` collected so far, as a specification value.
    pub closed spec fn spec_display_width(self) -> Option<u32> {
        self.display_width
    }

    /// The `alignment` set so far, as a specification value.
    pub closed spec fn spec_alignment(self) -> Option<Alignment> {
        match self.alignment {
            Some(v) => Some(v),
            None => None,
        }
    }

    /// Sets the measurement level.
    pub fn measurement_level(self, value: MeasurementLevel) -> (res: Self)
        ensures
            res.spec_measurement_level() == Some(value),
            res.spec_display_width() == self.spec_display_width(),
            res.spec_alignment() == self.spec_alignment(),
    {
        let mut b = self;
        b.measurement_level = Some(value);
        b
    }

    /// Sets the display width.
    pub fn display_width(self, value: u32) -> (res: Self)
        ensures
            res.spec_display_width() == Some(value),
            res.spec_measurement_level() == self.spec_measurement_level(),
            res.spec_alignment() == self.spec_alignment(),
    {
        let mut b = self;
        b.display_width = Some(value);
        b
    }

    /// Clears the display width.
    pub fn clear_display_width(self) -> (res: Self)
        ensures
            res.spec_display_width() is None,
            res.spec_measurement_level() == self.spec_measurement_level(),
            res.spec_alignment() == self.spec_alignment(),
    {
        let mut b = self;
        b.display_width = None;
        b
    }

    /// Sets the alignment.
    pub fn alignment(self, value: Alignment) -> (res: Self)
        ensures
            res.spec_alignment() == Some(value),
            res.spec_measurement_level() == self.spec_measurement_level(),
            res.spec_display_width() == self.spec_display_width(),
    {
        let mut b = self;
        b.alignment = Some(value);
        b
    }

    /// Finalizes this builder into a [`VariableDisplay`]; unset fields take their defaults.
    pub fn build(self) -> (res: VariableDisplay)
        ensures
            res.spec_measurement_level() == (match self.spec_measurement_level() {
                Some(v) => v,
                None => MeasurementLevel::Unspecified,
            }),
            res.spec_display_width() == self.spec_display_width(),
            res.spec_alignment() == (match self.spec_alignment() {
                Some(v) => v,
                None => Alignment::Left,
            }),
    {
        let measurement_level = match self.measurement_level {
            Some(v) => v,
            None => MeasurementLevel::Unspecified,
        };
        let display_width = self.display_width;
        let alignment = match self.alignment {
            Some(v) => v,
            None => Alignment::Left,
        };
        VariableDisplay { measurement_level, display_width, alignment }
    }
}

} // verus!
