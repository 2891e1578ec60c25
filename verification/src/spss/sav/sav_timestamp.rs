//! A SAV timestamp.
use vstd::prelude::*;

verus! {

/// A date and time of day as a SAV header records it: each component
/// exactly as written on disk, with no calendar validation.
#[derive(Debug, Clone, Copy, PartialEq, Eq, Hash)]
pub struct SavTimestamp {
    day: u8,
    month: u8,
    year: u8,
    hour: u8,
    minute: u8,
    second: u8,
}

impl SavTimestamp {
    /// The `day` field, as a specification value.
    pub closed spec fn spec_day(self) -> u8 {
        self.day
    }

    /// The `month` field, as a specification value.
    pub closed spec fn spec_month(self) -> u8 {
        self.month
    }

    /// The `year` field, as a specification value.
    pub closed spec fn spec_year(self) -> u8 {
        self.year
    }

    /// The `hour` field, as a specification value.
    pub closed spec fn spec_hour(self) -> u8 {
        self.hour
    }

    /// The `minute` field, as a specification value.
    pub closed spec fn spec_minute(self) -> u8 {
        self.minute
    }

    /// The `second` field, as a specification value.
    pub closed spec fn spec_second(self) -> u8 {
        self.second
    }

    /// Returns a fresh [`SavTimestampBuilder`].
    pub fn builder() -> (res: SavTimestampBuilder)
        ensures
            res.spec_day() is None,
            res.spec_month() is None,
            res.spec_year() is None,
            res.spec_hour() is None,
            res.spec_minute() is None,
            res.spec_second() is None,
    {
        SavTimestampBuilder { day: None, month: None, year: None, hour: None, minute: None, second: None }
    }

    /// Day of the month, as written (not validated against the month).
    pub fn day(&self) -> (res: u8)
        ensures
            res == self.spec_day(),
    {
        self.day
    }

    /// Month, `1` for January through `12` for December.
    pub fn month(&self) -> (res: u8)
        ensures
            res == self.spec_month(),
    {
        self.month
    }

    /// Two-digit year as written (0–99); no base year is applied.
    pub fn year(&self) -> (res: u8)
        ensures
            res == self.spec_year(),
    {
        self.year
    }

    /// Hour, as written.
    pub fn hour(&self) -> (res: u8)
        ensures
            res == self.spec_hour(),
    {
        self.hour
    }

    /// Minute, as written.
    pub fn minute(&self) -> (res: u8)
        ensures
            res == self.spec_minute(),
    {
        self.minute
    }

    /// Second, as written.
    pub fn second(&self) -> (res: u8)
        ensures
            res == self.spec_second(),
    {
        self.second
    }
}

/// Builder for [`SavTimestamp`].
#[derive(Debug, Clone, Copy)]
pub struct SavTimestampBuilder {
    day: Option<u8>,
    month: Option<u8>,
    year: Option<u8>,
    hour: Option<u8>,
    minute: Option<u8>,
    second: Option<u8>,
}

impl SavTimestampBuilder {
    /// The `day` set so far, as a specification value.
    pub closed spec fn spec_day(self) -> Option<u8> {
        match self.day {
            Some(v) => Some(v),
            None => None,
        }
    }

    /// The `month` set so far, as a specification value.
    pub closed spec fn spec_month(self) -> Option<u8> {
        match self.month {
            Some(v) => Some(v),
            None => None,
        }
    }

    /// The `year` set so far, as a specification value.
    pub closed spec fn spec_year(self) -> Option<u8> {
        match self.year {
            Some(v) => Some(v),
            None => None,
        }
    }

    /// The `hour` set so far, as a specification value.
    pub closed spec fn spec_hour(self) -> Option<u8> {
        match self.hour {
            Some(v) => Some(v),
            None => None,
        }
    }

    /// The `minute` set so far, as a specification value.
    pub closed spec fn spec_minute(self) -> Option<u8> {
        match self.minute {
            Some(v) => Some(v),
            None => None,
        }
    }

    /// The `second` set so far, as a specification value.
    pub closed spec fn spec_second(self) -> Option<u8> {
        match self.second {
            Some(v) => Some(v),
            None => None,
        }
    }

    /// Sets the day.
    pub fn day(self, value: u8) -> (res: Self)
        ensures
            res.spec_day() == Some(value),
            res.spec_month() == self.spec_month(),
            res.spec_year() == self.spec_year(),
            res.spec_hour() == self.spec_hour(),
            res.spec_minute() == self.spec_minute(),
            res.spec_second() == self.spec_second(),
    {
        let mut b = self;
        b.day = Some(value);
        b
    }

    /// Sets the month.
    pub fn month(self, value: u8) -> (res: Self)
        ensures
            res.spec_month() == Some(value),
            res.spec_day() == self.spec_day(),
            res.spec_year() == self.spec_year(),
            res.spec_hour() == self.spec_hour(),
            res.spec_minute() == self.spec_minute(),
            res.spec_second() == self.spec_second(),
    {
        let mut b = self;
        b.month = Some(value);
        b
    }

    /// Sets the year.
    pub fn year(self, value: u8) -> (res: Self)
        ensures
            res.spec_year() == Some(value),
            res.spec_day() == self.spec_day(),
            res.spec_month() == self.spec_month(),
            res.spec_hour() == self.spec_hour(),
            res.spec_minute() == self.spec_minute(),
            res.spec_second() == self.spec_second(),
    {
        let mut b = self;
        b.year = Some(value);
        b
    }

    /// Sets the hour.
    pub fn hour(self, value: u8) -> (res: Self)
        ensures
            res.spec_hour() == Some(value),
            res.spec_day() == self.spec_day(),
            res.spec_month() == self.spec_month(),
            res.spec_year() == self.spec_year(),
            res.spec_minute() == self.spec_minute(),
            res.spec_second() == self.spec_second(),
    {
        let mut b = self;
        b.hour = Some(value);
        b
    }

    /// Sets the minute.
    pub fn minute(self, value: u8) -> (res: Self)
        ensures
            res.spec_minute() == Some(value),
            res.spec_day() == self.spec_day(),
            res.spec_month() == self.spec_month(),
            res.spec_year() == self.spec_year(),
            res.spec_hour() == self.spec_hour(),
            res.spec_second() == self.spec_second(),
    {
        let mut b = self;
        b.minute = Some(value);
        b
    }

    /// Sets the second.
    pub fn second(self, value: u8) -> (res: Self)
        ensures
            res.spec_second() == Some(value),
            res.spec_day() == self.spec_day(),
            res.spec_month() == self.spec_month(),
            res.spec_year() == self.spec_year(),
            res.spec_hour() == self.spec_hour(),
            res.spec_minute() == self.spec_minute(),
    {
        let mut b = self;
        b.second = Some(value);
        b
    }

    /// Finalizes this builder into a [`SavTimestamp`]; unset fields take their defaults.
    pub fn build(self) -> (res: SavTimestamp)
        ensures
            res.spec_day() == (match self.spec_day() {
                Some(v) => v,
                None => 0u8,
            }),
            res.spec_month() == (match self.spec_month() {
                Some(v) => v,
                None => 0u8,
            }),
            res.spec_year() == (match self.spec_year() {
                Some(v) => v,
                None => 0u8,
            }),
            res.spec_hour() == (match self.spec_hour() {
                Some(v) => v,
                None => 0u8,
            }),
            res.spec_minute() == (match self.spec_minute() {
                Some(v) => v,
                None => 0u8,
            }),
            res.spec_second() == (match self.spec_second() {
                Some(v) => v,
                None => 0u8,
            }),
    {
        let day = match self.day {
            Some(v) => v,
            None => 0u8,
        };
        let month = match self.month {
            Some(v) => v,
            None => 0u8,
        };
        let year = match self.year {
            Some(v) => v,
            None => 0u8,
        };
        let hour = match self.hour {
            Some(v) => v,
            None => 0u8,
        };
        let minute = match self.minute {
            Some(v) => v,
            None => 0u8,
        };
        let second = match self.second {
            Some(v) => v,
            None => 0u8,
        };
        SavTimestamp { day, month, year, hour, minute, second }
    }
}

} // verus!
