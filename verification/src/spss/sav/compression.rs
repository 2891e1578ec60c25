//! Compression of a SAV file's data section.
use vstd::prelude::*;

verus! {

/// How the data records of a SAV file are compressed.
#[derive(Debug, Clone, Copy, PartialEq, Eq, Hash, Structural)]
#[non_exhaustive]
pub enum Compression {
    /// Uncompressed: each case is a run of 8-byte data units.
    Uncompressed,
    /// Bytecode compression (header code `1`).
    Bytecode,
    /// Zlib block compression of a ZSAV file (header code `2`).
    Zlib,
}

} // verus!
