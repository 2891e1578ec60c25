//! Wire-level missing-value bytes from a single SAV variable record.
use vstd::prelude::*;

verus! {

/// The missing-value bytes of one type-2 variable record, undecoded:
/// each value is the raw 8-byte slot, numeric or string depending on
/// the variable.
#[derive(Debug, Clone, PartialEq, Eq)]
#[non_exhaustive]
pub enum RawMissingValues {
    /// No missing values declared.
    Nothing,
    /// One to three discrete values.
    Discrete(Vec<[u8; 8]>),
    /// A closed range.
    Range {
        /// Low end of the range.
        low: [u8; 8],
        /// High end of the range.
        high: [u8; 8],
    },
    /// A closed range plus one discrete value.
    RangeWithDiscrete {
        /// Low end of the range.
        low: [u8; 8],
        /// High end of the range.
        high: [u8; 8],
        /// The discrete value.
        discrete: [u8; 8],
    },
}

/// Every declared slot of `raw` in on-disk order, a range's ends
/// included, or `None` when nothing is declared.
pub open spec fn declared_slots(raw: RawMissingValues) -> Option<Seq<[u8; 8]>> {
    match raw {
        RawMissingValues::Nothing => None,
        RawMissingValues::Discrete(entries) => Some(entries@),
        RawMissingValues::Range { low, high } => Some(seq![low, high]),
        RawMissingValues::RangeWithDiscrete { low, high, discrete } => Some(seq![low, high, discrete]),
    }
}

impl RawMissingValues {
    /// Every declared slot in on-disk order, a range's ends included:
    /// the keys a string variable's missing values compare against.
    /// `None` when nothing is declared.
    pub fn slots(&self) -> (res: Option<Vec<[u8; 8]>>)
        ensures
            match declared_slots(*self) {
                None => res is None,
                Some(slots) => res is Some && res->Some_0@ == slots,
            },
    {
        match self {
            RawMissingValues::Nothing => None,
            RawMissingValues::Discrete(entries) => {
                let mut out: Vec<[u8; 8]> = Vec::new();
                for i in 0..entries.len()
                    invariant
                        out@ == entries@.take(i as int),
                {
                    out.push(entries[i]);
                    assert(out@ =~= entries@.take(i as int + 1));
                }
                assert(entries@.take(entries@.len() as int) =~= entries@);
                Some(out)
            },
            RawMissingValues::Range { low, high } => Some(vec![*low, *high]),
            RawMissingValues::RangeWithDiscrete { low, high, discrete } => Some(
                vec![*low, *high, *discrete],
            ),
        }
    }
}

impl Default for RawMissingValues {
    /// No missing values.
    fn default() -> (res: Self)
        ensures
            res == RawMissingValues::Nothing,
    {
        RawMissingValues::Nothing
    }
}

} // verus!
