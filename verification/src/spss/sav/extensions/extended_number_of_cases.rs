//! Subtype 16 — extended number of cases.
use vstd::prelude::*;
use crate::spss::sav::byte_order::ByteOrder;
use crate::spss::sav::dictionary_format::{
    EXTENDED_NUMBER_OF_CASES_ELEMENT_COUNT, EXTENDED_NUMBER_OF_CASES_ELEMENT_SIZE,
};
use crate::spss::sav::extensions::extension_parse::validate_extension_shape;
use crate::spss::sav::extensions::float_sentinels::slab;
use crate::spss::sav::sav_error::{is_unexpected_value, Field, Result};

verus! {

/// Extended number-of-cases record from extension record subtype 16:
/// a version flag and the authoritative case count, used when the
/// header's 32-bit `case_count` field is `-1`.
#[derive(Debug, Clone, Copy, PartialEq, Eq, Hash)]
pub struct ExtendedNumberOfCases {
    version: i64,
    count: i64,
}

impl ExtendedNumberOfCases {
    /// The `version` field, as a specification value.
    pub closed spec fn spec_version(self) -> i64 {
        self.version
    }

    /// The `count` field, as a specification value.
    pub closed spec fn spec_count(self) -> i64 {
        self.count
    }

    /// Returns a fresh [`ExtendedNumberOfCasesBuilder`].
    pub fn builder() -> (res: ExtendedNumberOfCasesBuilder)
        ensures
            res.spec_version() is None,
            res.spec_count() is None,
    {
        ExtendedNumberOfCasesBuilder { version: None, count: None }
    }

    /// Version flag from the record body, surfaced verbatim.
    pub fn version(&self) -> (res: i64)
        ensures
            res == self.spec_version(),
    {
        self.version
    }

    /// Authoritative case count when the header's `case_count` is `-1`.
    pub fn count(&self) -> (res: i64)
        ensures
            res == self.spec_count(),
    {
        self.count
    }
}

/// Builder for [`ExtendedNumberOfCases`].
#[derive(Debug, Clone, Copy)]
pub struct ExtendedNumberOfCasesBuilder {
    version: Option<i64>,
    count: Option<i64>,
}

impl ExtendedNumberOfCasesBuilder {
    /// The `version` set so far, as a specification value.
    pub closed spec fn spec_version(self) -> Option<i64> {
        match self.version {
            Some(v) => Some(v),
            None => None,
        }
    }

    /// The `count` set so far, as a specification value.
    pub closed spec fn spec_count(self) -> Option<i64> {
        match self.count {
            Some(v) => Some(v),
            None => None,
        }
    }

    /// Sets the version flag.
    pub fn version(self, value: i64) -> (res: Self)
        ensures
            res.spec_version() == Some(value),
            res.spec_count() == self.spec_count(),
    {
        let mut b = self;
        b.version = Some(value);
        b
    }

    /// Sets the case count.
    pub fn count(self, value: i64) -> (res: Self)
        ensures
            res.spec_count() == Some(value),
            res.spec_version() == self.spec_version(),
    {
        let mut b = self;
        b.count = Some(value);
        b
    }

    /// Finalizes this builder into a [`ExtendedNumberOfCases`]; unset fields take their defaults.
    pub fn build(self) -> (res: ExtendedNumberOfCases)
        ensures
            res.spec_version() == (match self.spec_version() {
                Some(v) => v,
                None => 0i64,
            }),
            res.spec_count() == (match self.spec_count() {
                Some(v) => v,
                None => 0i64,
            }),
    {
        let version = match self.version {
            Some(v) => v,
            None => 0i64,
        };
        let count = match self.count {
            Some(v) => v,
            None => 0i64,
        };
        ExtendedNumberOfCases { version, count }
    }
}

/// Parses a subtype-16 payload: two `i64`s in `byte_order`, the version
/// flag then the case count.
///
/// # Errors
///
/// [`Field::ExtensionElementSize`] when `actual_size != 8`, else
/// [`Field::ExtensionElementCount`] when `actual_count != 2`.
pub fn parse(
    actual_size: u32,
    actual_count: u32,
    payload: &[u8],
    byte_order: ByteOrder,
    position: u64,
) -> (res: Result<ExtendedNumberOfCases>)
    requires
        actual_size == EXTENDED_NUMBER_OF_CASES_ELEMENT_SIZE && actual_count == EXTENDED_NUMBER_OF_CASES_ELEMENT_COUNT ==> payload@.len() == 16,
    ensures
        actual_size != EXTENDED_NUMBER_OF_CASES_ELEMENT_SIZE ==> res is Err && is_unexpected_value(
            res->Err_0,
            position,
            Field::ExtensionElementSize,
        ),
        actual_size == EXTENDED_NUMBER_OF_CASES_ELEMENT_SIZE && actual_count
            != EXTENDED_NUMBER_OF_CASES_ELEMENT_COUNT ==> res is Err && is_unexpected_value(
            res->Err_0,
            position,
            Field::ExtensionElementCount,
        ),
        actual_size == EXTENDED_NUMBER_OF_CASES_ELEMENT_SIZE && actual_count
            == EXTENDED_NUMBER_OF_CASES_ELEMENT_COUNT ==> res is Ok && res->Ok_0.spec_version() == (
        byte_order.unsigned(payload@.subrange(0, 8)) as u64) as i64 && res->Ok_0.spec_count() == (
        byte_order.unsigned(payload@.subrange(8, 16)) as u64) as i64,
{
    let shape = validate_extension_shape(
        actual_size,
        actual_count,
        EXTENDED_NUMBER_OF_CASES_ELEMENT_SIZE,
        EXTENDED_NUMBER_OF_CASES_ELEMENT_COUNT,
        position,
    );
    if let Err(error) = shape {
        return Err(error);
    }
    let version = byte_order.read_i64(slab(payload, 0));
    let count = byte_order.read_i64(slab(payload, 8));
    Ok(ExtendedNumberOfCases::builder().version(version).count(count).build())
}

} // verus!
