//! The machine float info record (raw sentinel bytes).
use vstd::prelude::*;

verus! {

/// The machine float info record: system-missing, `HIGHEST` and
/// `LOWEST` as raw on-disk bytes.
#[derive(Debug, Clone, Copy, PartialEq, Eq)]
pub struct MachineFloatInfo {
    system_missing: [u8; 8],
    highest: [u8; 8],
    lowest: [u8; 8],
}

impl MachineFloatInfo {
    /// The `system_missing` field, as a specification value.
    pub closed spec fn spec_system_missing(self) -> Seq<u8> {
        self.system_missing@
    }

    /// The `highest` field, as a specification value.
    pub closed spec fn spec_highest(self) -> Seq<u8> {
        self.highest@
    }

    /// The `lowest` field, as a specification value.
    pub closed spec fn spec_lowest(self) -> Seq<u8> {
        self.lowest@
    }

    /// Returns a fresh [`MachineFloatInfoBuilder`].
    pub fn builder() -> (res: MachineFloatInfoBuilder)
        ensures
            res.spec_system_missing() is None,
            res.spec_highest() is None,
            res.spec_lowest() is None,
    {
        MachineFloatInfoBuilder { system_missing: None, highest: None, lowest: None }
    }

    /// The raw on-disk bytes of the system-missing sentinel.
    pub fn system_missing(&self) -> (res: [u8; 8])
        ensures
            res@ == self.spec_system_missing(),
    {
        self.system_missing
    }

    /// The raw on-disk bytes of the `HIGHEST` sentinel.
    pub fn highest(&self) -> (res: [u8; 8])
        ensures
            res@ == self.spec_highest(),
    {
        self.highest
    }

    /// The raw on-disk bytes of the `LOWEST` sentinel.
    pub fn lowest(&self) -> (res: [u8; 8])
        ensures
            res@ == self.spec_lowest(),
    {
        self.lowest
    }
}

/// Builder for [`MachineFloatInfo`].
#[derive(Debug, Clone, Copy)]
pub struct MachineFloatInfoBuilder {
    system_missing: Option<[u8; 8]>,
    highest: Option<[u8; 8]>,
    lowest: Option<[u8; 8]>,
}

impl MachineFloatInfoBuilder {
    /// The `system_missing` set so far, as a specification value.
    pub closed spec fn spec_system_missing(self) -> Option<Seq<u8>> {
        match self.system_missing {
            Some(v) => Some(v@),
            None => None,
        }
    }

    /// The `highest` set so far, as a specification value.
    pub closed spec fn spec_highest(self) -> Option<Seq<u8>> {
        match self.highest {
            Some(v) => Some(v@),
            None => None,
        }
    }

    /// The `lowest` set so far, as a specification value.
    pub closed spec fn spec_lowest(self) -> Option<Seq<u8>> {
        match self.lowest {
            Some(v) => Some(v@),
            None => None,
        }
    }

    /// Sets the system-missing bytes.
    pub fn system_missing(self, bytes: [u8; 8]) -> (res: Self)
        ensures
            res.spec_system_missing() == Some(bytes@),
            res.spec_highest() == self.spec_highest(),
            res.spec_lowest() == self.spec_lowest(),
    {
        let mut b = self;
        b.system_missing = Some(bytes);
        b
    }

    /// Sets the `HIGHEST` bytes.
    pub fn highest(self, bytes: [u8; 8]) -> (res: Self)
        ensures
            res.spec_highest() == Some(bytes@),
            res.spec_system_missing() == self.spec_system_missing(),
            res.spec_lowest() == self.spec_lowest(),
    {
        let mut b = self;
        b.highest = Some(bytes);
        b
    }

    /// Sets the `LOWEST` bytes.
    pub fn lowest(self, bytes: [u8; 8]) -> (res: Self)
        ensures
            res.spec_lowest() == Some(bytes@),
            res.spec_system_missing() == self.spec_system_missing(),
            res.spec_highest() == self.spec_highest(),
    {
        let mut b = self;
        b.lowest = Some(bytes);
        b
    }

    /// Finalizes this builder into a [`MachineFloatInfo`]; unset fields take their defaults.
    pub fn build(self) -> (res: MachineFloatInfo)
        ensures
            res.spec_system_missing() == (match self.spec_system_missing() {
                Some(v) => v,
                None => seq![0u8, 0u8, 0u8, 0u8, 0u8, 0u8, 0u8, 0u8],
            }),
            res.spec_highest() == (match self.spec_highest() {
                Some(v) => v,
                None => seq![0u8, 0u8, 0u8, 0u8, 0u8, 0u8, 0u8, 0u8],
            }),
            res.spec_lowest() == (match self.spec_lowest() {
                Some(v) => v,
                None => seq![0u8, 0u8, 0u8, 0u8, 0u8, 0u8, 0u8, 0u8],
            }),
    {
        let system_missing = match self.system_missing {
            Some(v) => v,
            None => [0u8, 0u8, 0u8, 0u8, 0u8, 0u8, 0u8, 0u8],
        };
        let highest = match self.highest {
            Some(v) => v,
            None => [0u8, 0u8, 0u8, 0u8, 0u8, 0u8, 0u8, 0u8],
        };
        let lowest = match self.lowest {
            Some(v) => v,
            None => [0u8, 0u8, 0u8, 0u8, 0u8, 0u8, 0u8, 0u8],
        };
        MachineFloatInfo { system_missing, highest, lowest }
    }
}

} // verus!
