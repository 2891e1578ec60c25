//! Subtype 14 — one very-long-string width declaration.
use vstd::prelude::*;

verus! {

/// One very-long-string width declaration from an extension
/// subtype-14 record: a variable's short name and its true width.
#[derive(Debug, Clone, PartialEq, Eq)]
pub struct VeryLongString {
    short_name: String,
    width: u32,
}

impl VeryLongString {
    /// The `short_name` field, as a specification value.
    pub closed spec fn spec_short_name(self) -> Seq<char> {
        self.short_name@
    }

    /// The `width` field, as a specification value.
    pub closed spec fn spec_width(self) -> u32 {
        self.width
    }

    /// Returns a fresh [`VeryLongStringBuilder`].
    pub fn builder() -> (res: VeryLongStringBuilder)
        ensures
            res.spec_short_name() is None,
            res.spec_width() is None,
    {
        VeryLongStringBuilder { short_name: None, width: None }
    }

    /// The short name of the variable the width applies to.
    pub fn short_name(&self) -> (res: &str)
        ensures
            res@ == self.spec_short_name(),
    {
        self.short_name.as_str()
    }

    /// The declared width in bytes.
    pub fn width(&self) -> (res: u32)
        ensures
            res == self.spec_width(),
    {
        self.width
    }
}

/// Builder for [`VeryLongString`].
#[derive(Debug, Clone)]
pub struct VeryLongStringBuilder {
    short_name: Option<String>,
    width: Option<u32>,
}

impl VeryLongStringBuilder {
    /// The `short_name` set so far, as a specification value.
    pub closed spec fn spec_short_name(self) -> Option<Seq<char>> {
        match self.short_name {
            Some(v) => Some(v@),
            None => None,
        }
    }

    /// The `width` set so far, as a specification value.
    pub closed spec fn spec_width(self) -> Option<u32> {
        match self.width {
            Some(v) => Some(v),
            None => None,
        }
    }

    /// Sets the short name.
    pub fn short_name(self, value: String) -> (res: Self)
        ensures
            res.spec_short_name() == Some(value@),
            res.spec_width() == self.spec_width(),
    {
        let mut b = self;
        b.short_name = Some(value);
        b
    }

    /// Sets the width.
    pub fn width(self, value: u32) -> (res: Self)
        ensures
            res.spec_width() == Some(value),
            res.spec_short_name() == self.spec_short_name(),
    {
        let mut b = self;
        b.width = Some(value);
        b
    }

    /// Finalizes this builder into a [`VeryLongString`]; unset fields take their defaults.
    pub fn build(self) -> (res: VeryLongString)
        ensures
            res.spec_short_name() == (match self.spec_short_name() {
                Some(v) => v,
                None => Seq::<char>::empty(),
            }),
            res.spec_width() == (match self.spec_width() {
                Some(v) => v,
                None => 0u32,
            }),
    {
        let short_name = match self.short_name {
            Some(v) => v,
            None => String::new(),
        };
        let width = match self.width {
            Some(v) => v,
            None => 0u32,
        };
        VeryLongString { short_name, width }
    }
}

} // verus!
