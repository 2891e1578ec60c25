//! Streaming reader for the SAV dictionary section.
use vstd::prelude::*;

use crate::spss::sav::byte_order::ByteOrder;
use crate::spss::sav::dictionary_record::DictionaryRecord;
use crate::spss::sav::extension_envelope::{
    has_shape, read_extension, reads_extension, skippable, EnvelopeView, ExtensionEnvelope,
};
use crate::spss::sav::extensions::extension_record::ExtensionRecord;
use crate::spss::sav::extensions::extension_subtype::ExtensionSubtype;
use crate::spss::sav::float_format::FloatFormat;
use crate::spss::sav::reader_state::{is_io_error, ReaderState};
use crate::spss::sav::sav_error::{Field, FormatErrorKind, Result, SavError, Section};
use crate::spss::sav::sav_header::SavHeader;
use crate::spss::sav::sav_warning::SavWarning;
use crate::spss::sav::text_encoding::TextEncoding;

verus! {

/// Record type of an extension record.
pub const EXTENSION_RECORD_TYPE: i32 = 7;
/// Record type of the record that ends the dictionary.
pub const DICTIONARY_TERMINATOR_RECORD_TYPE: i32 = 999;

/// The `i32` at `at` in `s`, in `byte_order`.
pub open spec fn i32_field(s: Seq<u8>, at: int, byte_order: ByteOrder) -> i32 {
    (byte_order.unsigned(s.subrange(at, at + 4)) as u32) as i32
}

/// The `u32` at `at` in `s`, in `byte_order`.
pub open spec fn u32_field(s: Seq<u8>, at: int, byte_order: ByteOrder) -> u32 {
    byte_order.unsigned(s.subrange(at, at + 4)) as u32
}

/// The payload length a type-7 record at the front of `r` declares.
pub open spec fn extension_len(r: Seq<u8>, byte_order: ByteOrder) -> nat {
    u32_field(r, 8, byte_order) as nat * u32_field(r, 12, byte_order) as nat
}

/// Whether `r` starts with a complete extension record that is skipped:
/// a float-sentinel, extended-case-count or character-encoding record
/// whose shape is not its subtype's.
pub open spec fn is_skipped_extension(r: Seq<u8>, byte_order: ByteOrder) -> bool {
    &&& r.len() >= 16
    &&& i32_field(r, 0, byte_order) == EXTENSION_RECORD_TYPE
    &&& skippable(ExtensionSubtype::spec_from_code(i32_field(r, 4, byte_order)))
    &&& !has_shape(
        ExtensionSubtype::spec_from_code(i32_field(r, 4, byte_order)),
        u32_field(r, 8, byte_order),
        u32_field(r, 12, byte_order),
    )
    &&& extension_len(r, byte_order) <= usize::MAX
    &&& r.len() >= 16 + extension_len(r, byte_order)
}

/// How many bytes of skipped extension records `r` starts with, and the
/// warnings they raise.
pub open spec fn skipped_prefix(r: Seq<u8>, byte_order: ByteOrder) -> (nat, Seq<SavWarning>)
    decreases r.len(),
{
    if is_skipped_extension(r, byte_order) {
        let n = 16 + extension_len(r, byte_order);
        let (m, w) = skipped_prefix(r.skip(n as int), byte_order);
        (
            n + m,
            seq![SavWarning::MalformedExtension { subtype: i32_field(r, 4, byte_order) }] + w,
        )
    } else {
        (0, Seq::empty())
    }
}

/// A dictionary-read outcome in the form an extension read gives it.
pub open spec fn as_extension_outcome(outcome: Result<Option<DictionaryRecord>>) -> Result<
    Option<ExtensionRecord>,
> {
    match outcome {
        Ok(Some(DictionaryRecord::Extension(r))) => Ok(Some(r)),
        Ok(None) => Ok(None),
        Err(e) => Err(e),
    }
}

/// The envelope of the extension record at the front of `r`, which
/// starts at file offset `at`.
pub open spec fn envelope_at(r: Seq<u8>, at: u64, byte_order: ByteOrder) -> EnvelopeView {
    EnvelopeView {
        subtype: i32_field(r, 4, byte_order),
        element_size: u32_field(r, 8, byte_order),
        element_count: u32_field(r, 12, byte_order),
        payload: r.subrange(16, 16 + extension_len(r, byte_order) as int),
        byte_order,
        element_size_position: (at + 8) as u64,
    }
}

/// What reading the one record at the front of `r` (at file offset
/// `at`) gives: `outcome`, with `consumed` bytes read, the warnings
/// `added`, and whether the dictionary has `ended`.
pub open spec fn reads_record(
    r: Seq<u8>,
    at: u64,
    byte_order: ByteOrder,
    encoding: TextEncoding,
    float_format: FloatFormat,
    outcome: Result<Option<DictionaryRecord>>,
    consumed: int,
    added: Seq<SavWarning>,
    ended: bool,
) -> bool {
    if r.len() < 4 {
        outcome is Err && is_io_error(outcome->Err_0, Section::Dictionary)
    } else if i32_field(r, 0, byte_order) == DICTIONARY_TERMINATOR_RECORD_TYPE {
        if r.len() < 8 {
            outcome is Err && is_io_error(outcome->Err_0, Section::Dictionary)
        } else {
            outcome matches Ok(None) && consumed == 8 && added.len() == 0 && ended
        }
    } else if i32_field(r, 0, byte_order) == EXTENSION_RECORD_TYPE {
        if r.len() < 16 {
            outcome is Err && is_io_error(outcome->Err_0, Section::Dictionary)
        } else if extension_len(r, byte_order) > usize::MAX {
            outcome is Err && outcome->Err_0.is_format(
                Section::Dictionary,
                (at + 12) as u64,
                FormatErrorKind::FieldTooLarge { field: Field::ExtensionElementCount },
            )
        } else if r.len() < 16 + extension_len(r, byte_order) {
            outcome is Err && is_io_error(outcome->Err_0, Section::Dictionary)
        } else {
            &&& reads_extension(
                envelope_at(r, at, byte_order),
                encoding,
                byte_order,
                float_format,
                as_extension_outcome(outcome),
                added,
            )
            &&& outcome is Ok ==> consumed == 16 + extension_len(r, byte_order) && !ended
        }
    } else {
        outcome is Err && outcome->Err_0.is_format(
            Section::Dictionary,
            at,
            FormatErrorKind::UnknownRecordType { value: i32_field(r, 0, byte_order) },
        )
    }
}

/// A record's type and, for an extension record, its envelope.
pub enum RecordFrame {
    /// The terminator record that ends the dictionary.
    Terminator,
    /// An extension record.
    Extension(ExtensionEnvelope),
}

/// Whether `outcome` is the frame of the record at the front of `r` (at
/// file offset `at`), as far as reading it can tell before the payload
/// is parsed.
pub open spec fn frames_record(r: Seq<u8>, at: u64, byte_order: ByteOrder, outcome: Result<RecordFrame>) -> bool {
    if r.len() < 4 {
        outcome is Err && is_io_error(outcome->Err_0, Section::Dictionary)
    } else if i32_field(r, 0, byte_order) == DICTIONARY_TERMINATOR_RECORD_TYPE {
        if r.len() < 8 {
            outcome is Err && is_io_error(outcome->Err_0, Section::Dictionary)
        } else {
            outcome matches Ok(RecordFrame::Terminator)
        }
    } else if i32_field(r, 0, byte_order) == EXTENSION_RECORD_TYPE {
        if r.len() < 16 {
            outcome is Err && is_io_error(outcome->Err_0, Section::Dictionary)
        } else if extension_len(r, byte_order) > usize::MAX {
            outcome is Err && outcome->Err_0.is_format(
                Section::Dictionary,
                (at + 12) as u64,
                FormatErrorKind::FieldTooLarge { field: Field::ExtensionElementCount },
            )
        } else if r.len() < 16 + extension_len(r, byte_order) {
            outcome is Err && is_io_error(outcome->Err_0, Section::Dictionary)
        } else {
            outcome matches Ok(RecordFrame::Extension(env)) && env@ == envelope_at(r, at, byte_order)
                && env.well_formed()
        }
    } else {
        outcome is Err && outcome->Err_0.is_format(
            Section::Dictionary,
            at,
            FormatErrorKind::UnknownRecordType { value: i32_field(r, 0, byte_order) },
        )
    }
}

/// The number of bytes the frame of a record takes, payload included.
pub open spec fn frame_len(r: Seq<u8>, byte_order: ByteOrder) -> nat {
    if i32_field(r, 0, byte_order) == DICTIONARY_TERMINATOR_RECORD_TYPE {
        8
    } else {
        16 + extension_len(r, byte_order)
    }
}

/// Reads the type of the next record and, for an extension record, its
/// header and payload.
fn read_frame(state: &mut ReaderState, byte_order: ByteOrder) -> (res: Result<RecordFrame>)
    ensures
        frames_record(old(state).remaining(), old(state).spec_offset() as u64, byte_order, res),
        res is Ok ==> old(state).advanced(*final(state), frame_len(old(state).remaining(), byte_order)),
{
    let ghost r = state.remaining();
    let at = state.position();
    let code = match state.read_i32(byte_order, Section::Dictionary) {
        Ok(code) => code,
        Err(e) => return Err(e),
    };
    assert(r.take(4) =~= r.subrange(0, 4));
    if code == DICTIONARY_TERMINATOR_RECORD_TYPE {
        return match state.skip(4, Section::Dictionary) {
            Ok(()) => Ok(RecordFrame::Terminator),
            Err(e) => Err(e),
        };
    }
    if code != EXTENSION_RECORD_TYPE {
        return Err(
            SavError::format(
                Section::Dictionary,
                at,
                FormatErrorKind::UnknownRecordType { value: code },
            ),
        );
    }
    let ghost r4 = state.remaining();
    let subtype = match state.read_i32(byte_order, Section::Dictionary) {
        Ok(v) => v,
        Err(e) => return Err(e),
    };
    let size_position = state.position();
    let ghost r8 = state.remaining();
    let size = match state.read_u32(byte_order, Section::Dictionary) {
        Ok(v) => v,
        Err(e) => return Err(e),
    };
    let count_position = state.position();
    let ghost r12 = state.remaining();
    let count = match state.read_u32(byte_order, Section::Dictionary) {
        Ok(v) => v,
        Err(e) => return Err(e),
    };
    proof {
        assert(r4.take(4) =~= r.subrange(4, 8));
        assert(r8.take(4) =~= r.subrange(8, 12));
        assert(r12.take(4) =~= r.subrange(12, 16));
    }
    let len = match (size as usize).checked_mul(count as usize) {
        Some(len) => len,
        None => {
            return Err(
                SavError::format(
                    Section::Dictionary,
                    count_position,
                    FormatErrorKind::FieldTooLarge { field: Field::ExtensionElementCount },
                ),
            );
        },
    };
    let payload = match state.read_vec(len, Section::Dictionary) {
        Ok(v) => v,
        Err(e) => return Err(e),
    };
    proof {
        assert(payload@ =~= r.subrange(16, 16 + len));
    }
    let env = ExtensionEnvelope {
        subtype,
        element_size: size,
        element_count: count,
        payload,
        byte_order,
        element_size_position: size_position,
    };
    Ok(RecordFrame::Extension(env))
}

/// A skipped read: a record that reads as `Ok(None)` is a skippable
/// record of the wrong shape, and raised exactly its one warning.
proof fn lemma_skip_only_when_malformed(
    env: EnvelopeView,
    encoding: TextEncoding,
    byte_order: ByteOrder,
    float_format: FloatFormat,
    added: Seq<SavWarning>,
)
    requires
        reads_extension(env, encoding, byte_order, float_format, Ok(None), added),
    ensures
        skippable(ExtensionSubtype::spec_from_code(env.subtype)),
        !has_shape(
            ExtensionSubtype::spec_from_code(env.subtype),
            env.element_size,
            env.element_count,
        ),
        added == seq![SavWarning::MalformedExtension { subtype: env.subtype }],
{
}

/// Streaming reader for the dictionary section: yields one record per
/// call until the terminator record.
///
/// Extension records (type 7) are read and parsed by subtype; the
/// terminator (type 999) ends the dictionary. Other record types,
/// the variable (2), value-label (3 and 4) and document (6) records
/// among them, are not read: they are reported as
/// [`FormatErrorKind::UnknownRecordType`], so a file that holds any of
/// them stops at its first such record.
#[derive(Debug)]
pub struct DictionaryReader {
    state: ReaderState,
    header: SavHeader,
    weight_variable_index: Option<usize>,
    encoding: TextEncoding,
    finished: bool,
}

impl DictionaryReader {
    /// The bytes not yet read.
    pub closed spec fn spec_remaining(self) -> Seq<u8> {
        self.state.remaining()
    }

    /// The file offset of the next read.
    pub closed spec fn spec_position(self) -> nat {
        self.state.spec_offset()
    }

    /// The file's header.
    pub closed spec fn spec_header(self) -> SavHeader {
        self.header
    }

    /// The zero-based index of the weight variable, if any.
    pub closed spec fn spec_weight_variable_index(self) -> Option<usize> {
        self.weight_variable_index
    }

    /// The encoding text is decoded through.
    pub closed spec fn spec_encoding(self) -> TextEncoding {
        self.encoding
    }

    /// The label of the encoding text is decoded through.
    pub open spec fn spec_encoding_label(self) -> Seq<u8> {
        self.spec_encoding().label()
    }

    /// The warnings raised so far, oldest first.
    pub closed spec fn spec_warnings(self) -> Seq<SavWarning> {
        self.state.spec_warnings()
    }

    /// Whether the terminator record has been read.
    pub closed spec fn spec_finished(self) -> bool {
        self.finished
    }

    /// Starts the dictionary phase where the header left off.
    pub(crate) fn new(
        state: ReaderState,
        header: SavHeader,
        weight_variable_index: Option<usize>,
        encoding: TextEncoding,
    ) -> (res: Self)
        ensures
            res.spec_remaining() == state.remaining(),
            res.spec_position() == state.spec_offset(),
            res.spec_header() == header,
            res.spec_weight_variable_index() == weight_variable_index,
            res.spec_encoding_label() == encoding.label(),
            res.spec_warnings() == state.spec_warnings(),
            !res.spec_finished(),
    {
        DictionaryReader {
            state,
            header,
            weight_variable_index,
            encoding,
            finished: false,
        }
    }

    /// The file's header.
    pub fn header(&self) -> (res: &SavHeader)
        ensures
            *res == self.spec_header(),
    {
        &self.header
    }

    /// Warnings raised so far, by the header and by the records read.
    pub fn warnings(&self) -> (res: &[SavWarning])
        ensures
            res@ == self.spec_warnings(),
    {
        self.state.warnings()
    }

    /// The zero-based index of the weight variable, or `None` when the
    /// file is unweighted.
    pub fn weight_variable_index(&self) -> (res: Option<usize>)
        ensures
            res == self.spec_weight_variable_index(),
    {
        self.weight_variable_index
    }

    /// Reads the next dictionary record; `Ok(None)` once the terminator
    /// has been read.
    ///
    /// A float-sentinel, extended-case-count or character-encoding
    /// record whose element size or count is wrong is skipped with a
    /// [`SavWarning::MalformedExtension`], and the record after it is
    /// read instead.
    ///
    /// # Errors
    ///
    /// [`SavError::Io`] when the input ends inside a record;
    /// [`FormatErrorKind::UnknownRecordType`] for a record type other
    /// than 7 or 999; otherwise the error of the extension record's
    /// parser.
    pub fn read_record(&mut self) -> (res: Result<Option<DictionaryRecord>>)
        ensures
            final(self).spec_header() == old(self).spec_header(),
            final(self).spec_weight_variable_index() == old(self).spec_weight_variable_index(),
            final(self).spec_encoding_label() == old(self).spec_encoding_label(),
            old(self).spec_finished() ==> res is Ok && res->Ok_0 is None && *final(self) == *old(self),
            !old(self).spec_finished() ==> {
                let byte_order = old(self).spec_header().spec_byte_order();
                let (skipped, skip_warnings) = skipped_prefix(old(self).spec_remaining(), byte_order);
                let consumed = final(self).spec_position() - old(self).spec_position() - skipped;
                let added = final(self).spec_warnings().skip(
                    (old(self).spec_warnings().len() + skip_warnings.len()) as int,
                );
                &&& reads_record(
                    old(self).spec_remaining().skip(skipped as int),
                    (old(self).spec_position() + skipped) as u64,
                    byte_order,
                    old(self).spec_encoding(),
                    old(self).spec_header().spec_float_format(),
                    res,
                    consumed,
                    added,
                    final(self).spec_finished(),
                )
                &&& res is Ok ==> final(self).spec_remaining() == old(self).spec_remaining().skip(
                    skipped + consumed,
                ) && final(self).spec_warnings().take(
                    (old(self).spec_warnings().len() + skip_warnings.len()) as int,
                ) == old(self).spec_warnings() + skip_warnings
            },
    {
        if self.finished {
            return Ok(None);
        }
        let byte_order = self.header.byte_order();
        let float_format = self.header.float_format();
        let ghost r0 = self.state.remaining();
        let ghost p0 = self.state.spec_offset();
        let ghost w0 = self.state.spec_warnings();
        let ghost mut skipped: nat = 0;
        let ghost mut skip_warnings: Seq<SavWarning> = Seq::empty();
        proof {
            assert(r0.skip(0) =~= r0);
            assert(w0 + Seq::<SavWarning>::empty() =~= w0);
            let (n, w) = skipped_prefix(r0, byte_order);
            assert(Seq::<SavWarning>::empty() + w =~= w);
        }
        loop
            invariant
                !self.finished,
                !old(self).finished,
                byte_order == self.header.spec_byte_order(),
                float_format == self.header.spec_float_format(),
                self.header == old(self).header,
                self.weight_variable_index == old(self).weight_variable_index,
                self.encoding == old(self).encoding,
                self.state.spec_source() == old(self).state.spec_source(),
                r0 == old(self).state.remaining(),
                p0 == old(self).state.spec_offset(),
                w0 == old(self).state.spec_warnings(),
                self.state.spec_offset() == p0 + skipped,
                self.state.remaining() == r0.skip(skipped as int),
                skipped <= r0.len(),
                self.state.spec_warnings() == w0 + skip_warnings,
                skipped_prefix(r0, byte_order) == (
                    skipped + skipped_prefix(self.state.remaining(), byte_order).0,
                    skip_warnings + skipped_prefix(self.state.remaining(), byte_order).1,
                ),
            decreases self.state.remaining().len(),
        {
            let ghost r = self.state.remaining();
            let at = self.state.position();
            let frame = read_frame(&mut self.state, byte_order);
            let env = match frame {
                Err(e) => {
                    proof {
                        assert(!is_skipped_extension(r, byte_order));
                    }
                    return Err(e);
                },
                Ok(RecordFrame::Terminator) => {
                    self.finished = true;
                    proof {
                        assert(!is_skipped_extension(r, byte_order));
                        assert(self.state.spec_warnings().skip((w0.len() + skip_warnings.len()) as int) =~= Seq::<
                            SavWarning,
                        >::empty());
                        assert(self.state.spec_warnings().take((w0.len() + skip_warnings.len()) as int) =~= w0
                            + skip_warnings);
                        assert(self.state.remaining() =~= r0.skip((skipped + 8) as int));
                    }
                    return Ok(None);
                },
                Ok(RecordFrame::Extension(env)) => env,
            };
            let ghost len = extension_len(r, byte_order);
            let ghost subtype = env.subtype;
            let ghost before = self.state.spec_warnings();
            let outcome = read_extension(
                env,
                &self.encoding,
                byte_order,
                float_format,
                self.state.warnings_mut(),
            );
            match outcome {
                Err(e) => {
                    proof {
                        assert(!is_skipped_extension(r, byte_order));
                    }
                    return Err(e);
                },
                Ok(Some(record)) => {
                    proof {
                        assert(!is_skipped_extension(r, byte_order));
                        assert(self.state.spec_warnings().take((w0.len() + skip_warnings.len()) as int) =~= w0
                            + skip_warnings);
                        assert(self.state.remaining() =~= r0.skip((skipped + 16 + len) as int));
                    }
                    return Ok(Some(DictionaryRecord::Extension(record)));
                },
                Ok(None) => {
                    proof {
                        lemma_skip_only_when_malformed(
                            envelope_at(r, at, byte_order),
                            self.encoding,
                            byte_order,
                            float_format,
                            self.state.spec_warnings().skip(before.len() as int),
                        );
                        assert(is_skipped_extension(r, byte_order));
                        let n = 16 + extension_len(r, byte_order);
                        assert(r.skip(n as int) =~= self.state.remaining());
                        let w = seq![SavWarning::MalformedExtension { subtype }];
                        assert(self.state.spec_warnings() =~= w0 + (skip_warnings + w)) by {
                            let ws = self.state.spec_warnings();
                            let k = before.len() as int;
                            assert(ws =~= ws.take(k) + ws.skip(k));
                        }
                        let (m, rest_w) = skipped_prefix(self.state.remaining(), byte_order);
                        assert(skip_warnings + (w + rest_w) =~= (skip_warnings + w) + rest_w);
                        assert(r0.skip(skipped as int).skip(n as int) =~= r0.skip((skipped + n) as int));
                        skipped = skipped + n;
                        skip_warnings = skip_warnings + w;
                    }
                },
            }
        }
    }
}

} // verus!
