//! The options a reader is configured with, as one value.
use vstd::prelude::*;

use crate::spss::sav::encoding_strategy::EncodingStrategy;

verus! {

/// Everything a reader is configured with, carried through the reader
/// phases as one value so that a new option does not change every
/// constructor between the entry point and the code that consults it.
#[derive(Debug)]
pub struct ReaderOptions {
    encoding_strategy: EncodingStrategy,
}

impl Default for ReaderOptions {
    /// Options that honor the file's declared encoding.
    fn default() -> (res: Self)
        ensures
            res.spec_encoding_strategy() == (EncodingStrategy::Declared { unspecified: None, unrecognized: None }),
    {
        ReaderOptions { encoding_strategy: EncodingStrategy::default() }
    }
}

impl ReaderOptions {
    /// How the text encoding is chosen, as a specification value.
    pub closed spec fn spec_encoding_strategy(self) -> EncodingStrategy {
        self.encoding_strategy
    }

    /// Sets how the text encoding is chosen.
    pub fn set_encoding_strategy(&mut self, strategy: EncodingStrategy)
        ensures
            final(self).spec_encoding_strategy() == strategy,
    {
        self.encoding_strategy = strategy;
    }

    /// How the text encoding is chosen.
    pub fn encoding_strategy(&self) -> (res: EncodingStrategy)
        ensures
            res.same_labels(self.spec_encoding_strategy()),
    {
        self.encoding_strategy.clone()
    }
}

} // verus!
