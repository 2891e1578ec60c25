//! Wire-level payload of an extension subtype-11 record.
use vstd::prelude::*;
use crate::spss::sav::byte_order::ByteOrder;
use crate::spss::sav::dictionary_format::DISPLAY_PARAMETERS_ELEMENT_SIZE;
use crate::spss::sav::extensions::extension_parse::unexpected_value_error;
use crate::spss::sav::sav_error::{is_unexpected_value, Field, Result};

verus! {

/// The wire-level payload of an extension subtype-11 record: the
/// display-parameter integers in on-disk order, not yet sliced per
/// variable (each variable takes two or three of them).
#[derive(Debug, Clone, PartialEq, Eq)]
pub struct RawDisplayParameters {
    values: Vec<u32>,
}

impl RawDisplayParameters {
    /// The `values` field, as a specification value.
    pub closed spec fn spec_values(self) -> Seq<u32> {
        self.values@
    }

    /// Returns a fresh [`RawDisplayParametersBuilder`].
    pub fn builder() -> (res: RawDisplayParametersBuilder)
        ensures
            res.spec_values().len() == 0,
    {
        RawDisplayParametersBuilder { values: Vec::new() }
    }

    /// The raw `u32` values, in on-disk order.
    pub fn values(&self) -> (res: &[u32])
        ensures
            res@ == self.spec_values(),
    {
        self.values.as_slice()
    }
}

/// Builder for [`RawDisplayParameters`].
#[derive(Debug, Clone)]
pub struct RawDisplayParametersBuilder {
    values: Vec<u32>,
}

impl RawDisplayParametersBuilder {
    /// The `values` collected so far, as a specification value.
    pub closed spec fn spec_values(self) -> Seq<u32> {
        self.values@
    }

    /// Appends `values`.
    pub fn add_values(self, values: Vec<u32>) -> (res: Self)
        ensures
            res.spec_values() == self.spec_values() + values@,
    {
        let mut b = self;
        let mut more = values;
        b.values.append(&mut more);
        proof {
            assert(b.spec_values() =~= self.spec_values() + values@);
        }
        b
    }

    /// Appends one value.
    pub fn add_value(self, value: u32) -> (res: Self)
        ensures
            res.spec_values() == self.spec_values().push(value),
    {
        let mut b = self;
        b.values.push(value);
        proof {
            assert(b.spec_values() =~= self.spec_values().push(value));
        }
        b
    }

    /// Finalizes this builder into a [`RawDisplayParameters`]; unset fields take their defaults.
    pub fn build(self) -> (res: RawDisplayParameters)
        ensures
            res.spec_values() == self.spec_values(),
    {
        let values = self.values;
        RawDisplayParameters { values }
    }
}

/// Parses a subtype-11 payload into its raw `u32` values, each read in
/// `byte_order`. A trailing partial element (never written by a
/// well-formed envelope) is ignored.
///
/// # Errors
///
/// [`Field::ExtensionElementSize`] when `actual_size != 4`.
pub fn parse(
    actual_size: u32,
    payload: &[u8],
    byte_order: ByteOrder,
    position: u64,
) -> (res: Result<RawDisplayParameters>)
    ensures
        actual_size != DISPLAY_PARAMETERS_ELEMENT_SIZE ==> res is Err && is_unexpected_value(
            res->Err_0,
            position,
            Field::ExtensionElementSize,
        ),
        actual_size == DISPLAY_PARAMETERS_ELEMENT_SIZE ==> res is Ok
            && res->Ok_0.spec_values().len() == payload@.len() / 4 && forall|k: int|
            0 <= k < payload@.len() / 4 ==> #[trigger] res->Ok_0.spec_values()[k]
                == byte_order.unsigned(payload@.subrange(4 * k, 4 * k + 4)),
{
    if actual_size != DISPLAY_PARAMETERS_ELEMENT_SIZE {
        return Err(unexpected_value_error(position, Field::ExtensionElementSize));
    }
    let mut values: Vec<u32> = Vec::new();
    let mut at: usize = 0;
    while at < payload.len() && payload.len() - at >= 4
        invariant
            at <= payload@.len(),
            at % 4 == 0,
            values@.len() == at / 4,
            forall|j: int|
                0 <= j < at / 4 ==> #[trigger] values@[j] == byte_order.unsigned(
                    payload@.subrange(4 * j, 4 * j + 4),
                ),
        decreases payload@.len() - at,
    {
        let bytes = [payload[at], payload[at + 1], payload[at + 2], payload[at + 3]];
        assert(bytes@ =~= payload@.subrange(at as int, at as int + 4));
        values.push(byte_order.read_u32(bytes));
        at = at + 4;
    }
    Ok(RawDisplayParameters::builder().add_values(values).build())
}

} // verus!
