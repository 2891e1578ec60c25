//! Wire-level value-label set from a paired type-3 + type-4 record.
use vstd::prelude::*;
use crate::spss::sav::raw_value_label_entry::RawValueLabelEntry;

verus! {

/// A value-label set from a paired type-3 and type-4 record: the
/// entries and the indices of the variable segments they apply to.
#[derive(Debug, Clone, PartialEq, Eq)]
pub struct RawValueLabelSet {
    entries: Vec<RawValueLabelEntry>,
    segment_indices: Vec<u32>,
}

impl RawValueLabelSet {
    /// The `entries` field, as a specification value.
    pub closed spec fn spec_entries(self) -> Seq<RawValueLabelEntry> {
        self.entries@
    }

    /// The `segment_indices` field, as a specification value.
    pub closed spec fn spec_segment_indices(self) -> Seq<u32> {
        self.segment_indices@
    }

    /// Returns a fresh [`RawValueLabelSetBuilder`].
    pub fn builder() -> (res: RawValueLabelSetBuilder)
        ensures
            res.spec_entries().len() == 0,
            res.spec_segment_indices().len() == 0,
    {
        RawValueLabelSetBuilder { entries: Vec::new(), segment_indices: Vec::new() }
    }

    /// The value-label entries, in on-disk order.
    pub fn entries(&self) -> (res: &[RawValueLabelEntry])
        ensures
            res@ == self.spec_entries(),
    {
        self.entries.as_slice()
    }

    /// The indices of the segments the labels apply to, as written.
    pub fn segment_indices(&self) -> (res: &[u32])
        ensures
            res@ == self.spec_segment_indices(),
    {
        self.segment_indices.as_slice()
    }
}

/// Builder for [`RawValueLabelSet`].
#[derive(Debug, Clone)]
pub struct RawValueLabelSetBuilder {
    entries: Vec<RawValueLabelEntry>,
    segment_indices: Vec<u32>,
}

impl RawValueLabelSetBuilder {
    /// The `entries` collected so far, as a specification value.
    pub closed spec fn spec_entries(self) -> Seq<RawValueLabelEntry> {
        self.entries@
    }

    /// The `segment_indices` collected so far, as a specification value.
    pub closed spec fn spec_segment_indices(self) -> Seq<u32> {
        self.segment_indices@
    }

    /// Appends `entries`.
    pub fn add_entries(self, entries: Vec<RawValueLabelEntry>) -> (res: Self)
        ensures
            res.spec_entries() == self.spec_entries() + entries@,
            res.spec_segment_indices() == self.spec_segment_indices(),
    {
        let mut b = self;
        let mut more = entries;
        b.entries.append(&mut more);
        proof {
            assert(b.spec_entries() =~= self.spec_entries() + entries@);
        }
        b
    }

    /// Appends one entry.
    pub fn add_entry(self, entry: RawValueLabelEntry) -> (res: Self)
        ensures
            res.spec_entries() == self.spec_entries().push(entry),
            res.spec_segment_indices() == self.spec_segment_indices(),
    {
        let mut b = self;
        b.entries.push(entry);
        proof {
            assert(b.spec_entries() =~= self.spec_entries().push(entry));
        }
        b
    }

    /// Appends `indices`.
    pub fn add_segment_indices(self, indices: Vec<u32>) -> (res: Self)
        ensures
            res.spec_segment_indices() == self.spec_segment_indices() + indices@,
            res.spec_entries() == self.spec_entries(),
    {
        let mut b = self;
        let mut more = indices;
        b.segment_indices.append(&mut more);
        proof {
            assert(b.spec_segment_indices() =~= self.spec_segment_indices() + indices@);
        }
        b
    }

    /// Appends one segment index.
    pub fn add_segment_index(self, index: u32) -> (res: Self)
        ensures
            res.spec_segment_indices() == self.spec_segment_indices().push(index),
            res.spec_entries() == self.spec_entries(),
    {
        let mut b = self;
        b.segment_indices.push(index);
        proof {
            assert(b.spec_segment_indices() =~= self.spec_segment_indices().push(index));
        }
        b
    }

    /// Finalizes this builder into a [`RawValueLabelSet`]; unset fields take their defaults.
    pub fn build(self) -> (res: RawValueLabelSet)
        ensures
            res.spec_entries() == self.spec_entries(),
            res.spec_segment_indices() == self.spec_segment_indices(),
    {
        let entries = self.entries;
        let segment_indices = self.segment_indices;
        RawValueLabelSet { entries, segment_indices }
    }
}

} // verus!
