//! Per-reader state shared by the reader phases: the bytes of the file,
//! how far into them reading has come, and the warnings raised so far.
//!
//! Byte order and encoding are not held here: every multi-byte read
//! takes its byte order as a parameter, and the encoding belongs to the
//! phase that decodes text.
use vstd::prelude::*;

use crate::spss::sav::byte_order::ByteOrder;
use crate::spss::sav::sav_error::{unexpected_eof, Field, FormatErrorKind, Result, SavError, Section};
use crate::spss::sav::sav_warning::SavWarning;

verus! {

/// Whether `error` is an I/O error raised while reading `section`.
pub open spec fn is_io_error(error: SavError, section: Section) -> bool {
    error matches SavError::Io { section: s, .. } && s == section
}

/// The bytes of a file held in memory and how many of them have been
/// read.
#[derive(Debug)]
struct FileBytes {
    source: Vec<u8>,
    offset: usize,
}

impl FileBytes {
    /// Reading never runs past the end of the file.
    #[verifier::type_invariant]
    closed spec fn within(self) -> bool {
        self.offset <= self.source.len()
    }
}

/// The reading position over a file held in memory, and the warnings
/// the reader phases have raised.
#[derive(Debug)]
pub struct ReaderState {
    bytes: FileBytes,
    warnings: Vec<SavWarning>,
}

impl ReaderState {
    /// All bytes of the file.
    pub closed spec fn spec_source(self) -> Seq<u8> {
        self.bytes.source@
    }

    /// How many bytes have been read.
    pub closed spec fn spec_offset(self) -> nat {
        self.bytes.offset as nat
    }

    /// The warnings raised so far, oldest first.
    pub closed spec fn spec_warnings(self) -> Seq<SavWarning> {
        self.warnings@
    }

    /// The bytes not yet read.
    pub open spec fn remaining(self) -> Seq<u8> {
        self.spec_source().skip(self.spec_offset() as int)
    }

    /// Whether `after` is `self` with `n` more bytes read and nothing
    /// else changed, the warnings included.
    pub open spec fn advanced(self, after: ReaderState, n: nat) -> bool {
        &&& after.spec_source() == self.spec_source()
        &&& after.spec_offset() == self.spec_offset() + n
        &&& after.spec_warnings() == self.spec_warnings()
    }

    /// Starts reading `source` from its first byte.
    pub fn new(source: Vec<u8>) -> (res: Self)
        ensures
            res.spec_source() == source@,
            res.spec_offset() == 0,
            res.spec_warnings() == Seq::<SavWarning>::empty(),
    {
        ReaderState { bytes: FileBytes { source, offset: 0 }, warnings: Vec::new() }
    }

    /// The warnings raised so far, oldest first.
    pub fn warnings(&self) -> (res: &[SavWarning])
        ensures
            res@ == self.spec_warnings(),
    {
        self.warnings.as_slice()
    }

    /// The warnings, for a reader phase to add to; the bytes and the
    /// reading position stay as they are.
    pub fn warnings_mut(&mut self) -> (res: &mut Vec<SavWarning>)
        ensures
            res@ == old(self).spec_warnings(),
            final(self).spec_source() == old(self).spec_source(),
            final(self).spec_offset() == old(self).spec_offset(),
            final(self).spec_warnings() == final(res)@,
    {
        &mut self.warnings
    }

    /// The byte offset of the next read.
    pub fn position(&self) -> (res: u64)
        ensures
            res == self.spec_offset(),
            self.spec_offset() <= self.spec_source().len(),
    {
        proof {
            use_type_invariant(&self.bytes);
        }
        self.bytes.offset as u64
    }

    /// Reads the next `len` bytes.
    ///
    /// # Errors
    ///
    /// [`SavError::Io`] (unexpected end of file) when fewer than `len`
    /// bytes remain; nothing is consumed then.
    pub fn read_vec(&mut self, len: usize, section: Section) -> (res: Result<Vec<u8>>)
        ensures
            old(self).remaining().len() < len ==> res is Err && is_io_error(res->Err_0, section)
                && *final(self) == *old(self),
            old(self).remaining().len() >= len ==> res is Ok && res->Ok_0@ == old(
                self,
            ).remaining().take(len as int) && old(self).advanced(*final(self), len as nat),
    {
        proof {
            use_type_invariant(&self.bytes);
        }
        if self.bytes.source.len() - self.bytes.offset < len {
            return Err(SavError::io(section, unexpected_eof()));
        }
        let out = vstd::slice::slice_to_vec(&self.bytes.source.as_slice()[self.bytes.offset..self.bytes.offset + len]);
        assert(out@ =~= old(self).remaining().take(len as int));
        self.bytes.offset = self.bytes.offset + len;
        Ok(out)
    }

    /// Reads the next `N` bytes into an array.
    pub fn read_array<const N: usize>(&mut self, section: Section) -> (res: Result<[u8; N]>)
        ensures
            old(self).remaining().len() < N ==> res is Err && is_io_error(res->Err_0, section)
                && *final(self) == *old(self),
            old(self).remaining().len() >= N ==> res is Ok && res->Ok_0@ == old(
                self,
            ).remaining().take(N as int) && old(self).advanced(*final(self), N as nat),
    {
        let v = self.read_vec(N, section)?;
        let mut out = [0u8; N];
        let mut i: usize = 0;
        while i < N
            invariant
                i <= N,
                v@.len() == N,
                forall|j: int| 0 <= j < i ==> out@[j] == v@[j],
            decreases N - i,
        {
            out[i] = v[i];
            i = i + 1;
        }
        assert(out@ =~= v@);
        Ok(out)
    }

    /// Skips the next `len` bytes.
    pub fn skip(&mut self, len: usize, section: Section) -> (res: Result<()>)
        ensures
            old(self).remaining().len() < len ==> res is Err && is_io_error(res->Err_0, section)
                && *final(self) == *old(self),
            old(self).remaining().len() >= len ==> res is Ok && old(self).advanced(
                *final(self),
                len as nat,
            ),
    {
        proof {
            use_type_invariant(&self.bytes);
        }
        if self.bytes.source.len() - self.bytes.offset < len {
            return Err(SavError::io(section, unexpected_eof()));
        }
        self.bytes.offset = self.bytes.offset + len;
        Ok(())
    }

    /// Reads a four-byte unsigned integer in `byte_order`.
    pub fn read_u32(&mut self, byte_order: ByteOrder, section: Section) -> (res: Result<u32>)
        ensures
            old(self).remaining().len() < 4 ==> res is Err && is_io_error(res->Err_0, section)
                && *final(self) == *old(self),
            old(self).remaining().len() >= 4 ==> res is Ok && res->Ok_0 as nat
                == byte_order.unsigned(old(self).remaining().take(4)) && old(self).advanced(
                *final(self),
                4,
            ),
    {
        let bytes = self.read_array::<4>(section)?;
        Ok(byte_order.read_u32(bytes))
    }

    /// Reads one byte.
    pub fn read_u8(&mut self, section: Section) -> (res: Result<u8>)
        ensures
            old(self).remaining().len() < 1 ==> res is Err && is_io_error(res->Err_0, section)
                && *final(self) == *old(self),
            old(self).remaining().len() >= 1 ==> res is Ok && res->Ok_0 == old(self).remaining()[0]
                && old(self).advanced(*final(self), 1),
    {
        let v = self.read_vec(1, section)?;
        Ok(v[0])
    }

    /// Reads a four-byte unsigned integer in `byte_order` as a `usize`.
    /// Every `u32` fits a `usize` on the platforms this library targets,
    /// so `field` is never reported.
    pub fn read_u32_as_usize(&mut self, byte_order: ByteOrder, section: Section, field: Field) -> (res:
        Result<usize>)
        ensures
            old(self).remaining().len() < 4 ==> res is Err && is_io_error(res->Err_0, section)
                && *final(self) == *old(self),
            old(self).remaining().len() >= 4 ==> res is Ok && res->Ok_0 as nat
                == byte_order.unsigned(old(self).remaining().take(4)) && old(self).advanced(
                *final(self),
                4,
            ),
    {
        let value = self.read_u32(byte_order, section)?;
        Ok(value as usize)
    }

    /// Fills `buffer` with the next `buffer.len()` bytes. Returns
    /// `false`, reading nothing, when no bytes remain at all.
    ///
    /// # Errors
    ///
    /// [`FormatErrorKind::Truncated`] when some but too few bytes remain;
    /// those are consumed and the error is reported at the end of the
    /// input.
    pub fn read_into(&mut self, buffer: &mut Vec<u8>, section: Section) -> (res: Result<bool>)
        ensures
            final(buffer)@.len() == old(buffer)@.len(),
            old(self).remaining().len() == 0 ==> res == Ok::<bool, SavError>(false) && *final(self)
                == *old(self),
            old(self).remaining().len() >= old(buffer)@.len() && (old(self).remaining().len() > 0
                || old(buffer)@.len() == 0) ==> res == Ok::<bool, SavError>(
                old(self).remaining().len() > 0,
            ) && final(buffer)@ == old(self).remaining().take(old(buffer)@.len() as int) && old(
                self,
            ).advanced(*final(self), old(buffer)@.len()),
            0 < old(self).remaining().len() < old(buffer)@.len() ==> res is Err && res->Err_0.is_format(
                section,
                old(self).spec_source().len() as u64,
                FormatErrorKind::Truncated {
                    expected: old(buffer)@.len() as u64,
                    actual: old(self).remaining().len() as u64,
                },
            ) && old(self).advanced(*final(self), old(self).remaining().len()),
    {
        proof {
            use_type_invariant(&self.bytes);
        }
        let available = self.bytes.source.len() - self.bytes.offset;
        if available == 0 {
            return Ok(false);
        }
        let wanted = buffer.len();
        if available < wanted {
            self.bytes.offset = self.bytes.source.len();
            return Err(
                SavError::format(
                    section,
                    self.bytes.offset as u64,
                    FormatErrorKind::Truncated { expected: wanted as u64, actual: available as u64 },
                ),
            );
        }
        let start = self.bytes.offset;
        let mut i: usize = 0;
        while i < wanted
            invariant
                i <= wanted,
                wanted == buffer@.len(),
                start + wanted <= self.bytes.source.len(),
                forall|j: int| 0 <= j < i ==> buffer@[j] == self.bytes.source@[start + j],
            decreases wanted - i,
        {
            buffer.set(i, self.bytes.source[start + i]);
            i = i + 1;
        }
        assert(buffer@ =~= old(self).remaining().take(wanted as int));
        self.bytes.offset = start + wanted;
        Ok(true)
    }

    /// Reads a four-byte two's-complement integer in `byte_order`.
    pub fn read_i32(&mut self, byte_order: ByteOrder, section: Section) -> (res: Result<i32>)
        ensures
            old(self).remaining().len() < 4 ==> res is Err && is_io_error(res->Err_0, section)
                && *final(self) == *old(self),
            old(self).remaining().len() >= 4 ==> res is Ok && res->Ok_0 == (byte_order.unsigned(
                old(self).remaining().take(4),
            ) as u32) as i32 && old(self).advanced(*final(self), 4),
    {
        let bytes = self.read_array::<4>(section)?;
        Ok(byte_order.read_i32(bytes))
    }
}

} // verus!
