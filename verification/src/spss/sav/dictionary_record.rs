//! One typed record from the SAV dictionary section.
use vstd::prelude::*;

use crate::spss::sav::extensions::extension_record::ExtensionRecord;

verus! {

/// One record read from the dictionary section.
#[derive(Debug, Clone)]
#[non_exhaustive]
pub enum DictionaryRecord {
    /// A type-7 extension record.
    Extension(ExtensionRecord),
}

} // verus!
