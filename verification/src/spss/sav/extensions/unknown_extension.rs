//! Extension records of an unrecognized subtype, kept verbatim.
use vstd::prelude::*;

verus! {

/// A type-7 extension record whose subtype this library does not
/// recognize, preserved verbatim.
///
/// The reader emits a
/// [`SavWarning::UnknownExtensionSubtype`](crate::spss::sav::sav_warning::SavWarning::UnknownExtensionSubtype)
/// whenever one of these is produced for an unrecognized code. Both
/// envelope dimensions are kept so the record can be re-emitted verbatim
/// without inferring either factor.
#[derive(Debug, Clone, PartialEq, Eq)]
pub struct UnknownExtension {
    subtype: u32,
    element_size: usize,
    element_count: usize,
    payload: Vec<u8>,
}

impl UnknownExtension {
    /// The `subtype` field, as a specification value.
    pub closed spec fn spec_subtype(self) -> u32 {
        self.subtype
    }

    /// The `element_size` field, as a specification value.
    pub closed spec fn spec_element_size(self) -> usize {
        self.element_size
    }

    /// The `element_count` field, as a specification value.
    pub closed spec fn spec_element_count(self) -> usize {
        self.element_count
    }

    /// The `payload` field, as a specification value.
    pub closed spec fn spec_payload(self) -> Seq<u8> {
        self.payload@
    }

    /// Returns a fresh [`UnknownExtensionBuilder`].
    pub fn builder() -> (res: UnknownExtensionBuilder)
        ensures
            res.spec_subtype() is None,
            res.spec_element_size() is None,
            res.spec_element_count() is None,
            res.spec_payload().len() == 0,
    {
        UnknownExtensionBuilder { subtype: None, element_size: None, element_count: None, payload: Vec::new() }
    }

    /// The on-disk subtype number this record carried.
    pub fn subtype(&self) -> (res: u32)
        ensures
            res == self.spec_subtype(),
    {
        self.subtype
    }

    /// Element size in bytes, as declared in the record envelope.
    pub fn element_size(&self) -> (res: usize)
        ensures
            res == self.spec_element_size(),
    {
        self.element_size
    }

    /// Element count, as declared in the record envelope.
    pub fn element_count(&self) -> (res: usize)
        ensures
            res == self.spec_element_count(),
    {
        self.element_count
    }

    /// Raw payload bytes, `element_size() * element_count()` of them
    /// when read from a file.
    pub fn payload(&self) -> (res: &[u8])
        ensures
            res@ == self.spec_payload(),
    {
        self.payload.as_slice()
    }
}

/// Builder for [`UnknownExtension`].
#[derive(Debug, Clone)]
pub struct UnknownExtensionBuilder {
    subtype: Option<u32>,
    element_size: Option<usize>,
    element_count: Option<usize>,
    payload: Vec<u8>,
}

impl UnknownExtensionBuilder {
    /// The `subtype` set so far, as a specification value.
    pub closed spec fn spec_subtype(self) -> Option<u32> {
        match self.subtype {
            Some(v) => Some(v),
            None => None,
        }
    }

    /// The `element_size` set so far, as a specification value.
    pub closed spec fn spec_element_size(self) -> Option<usize> {
        match self.element_size {
            Some(v) => Some(v),
            None => None,
        }
    }

    /// The `element_count` set so far, as a specification value.
    pub closed spec fn spec_element_count(self) -> Option<usize> {
        match self.element_count {
            Some(v) => Some(v),
            None => None,
        }
    }

    /// The `payload` collected so far, as a specification value.
    pub closed spec fn spec_payload(self) -> Seq<u8> {
        self.payload@
    }

    /// Sets the on-disk subtype number.
    pub fn subtype(self, subtype: u32) -> (res: Self)
        ensures
            res.spec_subtype() == Some(subtype),
            res.spec_element_size() == self.spec_element_size(),
            res.spec_element_count() == self.spec_element_count(),
            res.spec_payload() == self.spec_payload(),
    {
        let mut b = self;
        b.subtype = Some(subtype);
        b
    }

    /// Sets the declared element size in bytes.
    pub fn element_size(self, element_size: usize) -> (res: Self)
        ensures
            res.spec_element_size() == Some(element_size),
            res.spec_subtype() == self.spec_subtype(),
            res.spec_element_count() == self.spec_element_count(),
            res.spec_payload() == self.spec_payload(),
    {
        let mut b = self;
        b.element_size = Some(element_size);
        b
    }

    /// Sets the declared element count.
    pub fn element_count(self, element_count: usize) -> (res: Self)
        ensures
            res.spec_element_count() == Some(element_count),
            res.spec_subtype() == self.spec_subtype(),
            res.spec_element_size() == self.spec_element_size(),
            res.spec_payload() == self.spec_payload(),
    {
        let mut b = self;
        b.element_count = Some(element_count);
        b
    }

    /// Sets the raw payload bytes.
    pub fn payload(self, payload: Vec<u8>) -> (res: Self)
        ensures
            res.spec_payload() == payload@,
            res.spec_subtype() == self.spec_subtype(),
            res.spec_element_size() == self.spec_element_size(),
            res.spec_element_count() == self.spec_element_count(),
    {
        let mut b = self;
        b.payload = payload;
        b
    }

    /// Finalizes this builder into a [`UnknownExtension`]; unset fields take their defaults.
    pub fn build(self) -> (res: UnknownExtension)
        ensures
            res.spec_subtype() == (match self.spec_subtype() {
                Some(v) => v,
                None => 0u32,
            }),
            res.spec_element_size() == (match self.spec_element_size() {
                Some(v) => v,
                None => 0usize,
            }),
            res.spec_element_count() == (match self.spec_element_count() {
                Some(v) => v,
                None => 0usize,
            }),
            res.spec_payload() == self.spec_payload(),
    {
        let subtype = match self.subtype {
            Some(v) => v,
            None => 0u32,
        };
        let element_size = match self.element_size {
            Some(v) => v,
            None => 0usize,
        };
        let element_count = match self.element_count {
            Some(v) => v,
            None => 0usize,
        };
        let payload = self.payload;
        UnknownExtension { subtype, element_size, element_count, payload }
    }
}

} // verus!
