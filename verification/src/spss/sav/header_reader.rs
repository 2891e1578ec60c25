//! Reader for the 176-byte SAV file header: the first phase of reading
//! a file, which hands over to the dictionary phase.
use vstd::prelude::*;

use crate::spss::sav::byte_order::ByteOrder;
use crate::spss::sav::dictionary_reader::DictionaryReader;
use crate::spss::sav::encoding_strategy::{interim_encoding, EncodingStrategy};
use crate::spss::sav::float_format::FloatFormat;
use crate::spss::sav::header_format::{
    BIAS_LEN, CREATION_DATE_LEN, CREATION_TIME_LEN, FILE_LABEL_LEN, PRODUCT_NAME_LEN,
    RECORD_TYPE_LEN, TRAILING_PADDING_LEN,
};
use crate::spss::sav::header_parse::{
    compression_for_code, identify_float_format, is_header_error, layout_byte_order, magic_kind,
    check_float_format, parse_case_count, parse_file_label, parse_layout_code, parse_magic,
    parse_nominal_case_size, parse_product_name, parse_weight_index, resolve_compression,
    MagicKind,
};
use crate::spss::sav::reader_state::{is_io_error, ReaderState};
use crate::spss::sav::sav_creation_timestamp::{reads_timestamp, SavCreationTimestamp};
use crate::spss::sav::sav_error::{FormatErrorKind, Result, SavError, Section};
use crate::spss::sav::sav_header::SavHeader;
use crate::spss::sav::sav_warning::SavWarning;
use crate::spss::sav::text_encoding::decoded_with_label;
use crate::spss::sav::text_field::trim_padding;

verus! {

/// The `i32` at `at` in the header bytes `s`, in `byte_order`.
pub open spec fn header_i32(s: Seq<u8>, at: int, byte_order: ByteOrder) -> i32 {
    (byte_order.unsigned(s.subrange(at, at + 4)) as u32) as i32
}

/// The warnings the compression code at offset 72 raises against the
/// magic bytes at offset 0.
pub open spec fn header_warnings_ok(warnings: Seq<SavWarning>, s: Seq<u8>, magic: MagicKind, code: i32) -> bool {
    if !(0 <= code <= 2) {
        warnings == seq![SavWarning::UnknownCompressionCode { code }]
    } else if (code == 2) != (magic == MagicKind::Fl3) {
        &&& warnings.len() == 1
        &&& warnings[0] matches SavWarning::CompressionMismatch { rec_type, code: c }
        &&& rec_type@ == s.take(4)
        &&& c == code
    } else {
        warnings.len() == 0
    }
}

/// Whether `dict` is the dictionary phase that a complete, valid header
/// `s` hands over to: every header field decoded from its offset, text
/// through the encoding `label` selects, reading positioned just after
/// the header.
pub open spec fn reads_header(
    dict: DictionaryReader,
    s: Seq<u8>,
    label: Seq<u8>,
    magic: MagicKind,
    byte_order: ByteOrder,
    float_format: FloatFormat,
) -> bool {
    let header = dict.spec_header();
    let nominal = header_i32(s, 68, byte_order);
    let code = header_i32(s, 72, byte_order);
    let weight = header_i32(s, 76, byte_order);
    let cases = header_i32(s, 80, byte_order);
    &&& header.spec_product_name() == decoded_with_label(label, trim_padding(s.subrange(4, 64)))
    &&& header.spec_byte_order() == byte_order
    &&& header.spec_nominal_case_size() == (if nominal >= 0 {
        Some(nominal as u32)
    } else {
        None
    })
    &&& header.spec_compression() == compression_for_code(code)
    &&& header_warnings_ok(dict.spec_warnings(), s, magic, code)
    &&& dict.spec_weight_variable_index() == (if weight > 0 {
        Some((weight - 1) as usize)
    } else {
        None
    })
    &&& header.spec_case_count() == (if cases >= 0 {
        Some(cases as u32)
    } else {
        None
    })
    &&& header.spec_float_format() == float_format
    &&& header.spec_bias() == s.subrange(84, 92)
    &&& reads_timestamp(header.spec_creation_timestamp(), s.subrange(92, 101), s.subrange(101, 109))
    &&& header.spec_file_label() == decoded_with_label(label, trim_padding(s.subrange(109, 173)))
    &&& dict.spec_position() == 176
    &&& dict.spec_remaining() == s.skip(176)
    &&& dict.spec_encoding_label() == label
    &&& !dict.spec_finished()
}

/// Entry point for reading a SAV file held in memory: call
/// [`read_header`](Self::read_header) to parse the file header and
/// advance to the dictionary phase.
#[derive(Debug)]
pub struct HeaderReader {
    state: ReaderState,
    encoding_strategy: EncodingStrategy,
}

impl HeaderReader {
    /// The bytes of the file.
    pub closed spec fn spec_source(self) -> Seq<u8> {
        self.state.spec_source()
    }

    /// The encoding strategy.
    pub closed spec fn spec_encoding_strategy(self) -> EncodingStrategy {
        self.encoding_strategy
    }

    /// Nothing has been read yet.
    #[verifier::type_invariant]
    closed spec fn at_start(self) -> bool {
        &&& self.state.spec_offset() == 0
        &&& self.state.spec_warnings().len() == 0
    }

    /// Starts reading the file `source` under `encoding_strategy`.
    pub fn new(source: Vec<u8>, encoding_strategy: EncodingStrategy) -> (res: Self)
        ensures
            res.spec_source() == source@,
            res.spec_encoding_strategy() == encoding_strategy,
    {
        HeaderReader { state: ReaderState::new(source), encoding_strategy }
    }

    /// The encoding strategy the reader was created with.
    pub fn encoding_strategy(&self) -> (res: EncodingStrategy)
        ensures
            res.same_labels(self.spec_encoding_strategy()),
    {
        self.encoding_strategy.clone()
    }

    /// Warnings accumulated so far: none, before the header is read.
    pub fn warnings(&self) -> (res: &[SavWarning])
        ensures
            res@.len() == 0,
    {
        proof {
            use_type_invariant(self);
        }
        self.state.warnings()
    }

    /// Parses the 176-byte file header and moves on to the dictionary
    /// phase.
    ///
    /// Text fields are decoded through the strategy's interim encoding:
    /// the override, else the fallback for an undeclared encoding, else
    /// windows-1252.
    ///
    /// # Errors
    ///
    /// [`SavError::Io`] when the input ends inside the header;
    /// [`SavError::Format`] when the header does not match a recognized
    /// layout: bad magic, unreadable layout code, or a compression bias
    /// that is no format's encoding of `100.0`.
    pub fn read_header(self) -> (res: Result<DictionaryReader>)
        ensures
            ({
                let s = self.spec_source();
                let label = self.spec_encoding_strategy().interim_label();
                if s.len() < 4 {
                    res is Err && is_io_error(res->Err_0, Section::Header)
                } else {
                    match magic_kind(s.take(4)) {
                        None => res is Err && is_header_error(
                            res->Err_0,
                            0,
                            FormatErrorKind::InvalidMagic,
                        ),
                        Some(magic) => if s.len() < 68 {
                            res is Err && is_io_error(res->Err_0, Section::Header)
                        } else {
                            match layout_byte_order(s.subrange(64, 68)) {
                                None => res is Err && is_header_error(
                                    res->Err_0,
                                    64,
                                    FormatErrorKind::UnreadableLayoutCode,
                                ),
                                Some(byte_order) => if s.len() < 92 {
                                    res is Err && is_io_error(res->Err_0, Section::Header)
                                } else {
                                    match identify_float_format(s.subrange(84, 92), byte_order) {
                                        None => res is Err && is_header_error(
                                            res->Err_0,
                                            84,
                                            FormatErrorKind::UnknownFloatFormat,
                                        ),
                                        Some(float_format) => if s.len() < 176 {
                                            res is Err && is_io_error(res->Err_0, Section::Header)
                                        } else {
                                            res is Ok && reads_header(
                                                res->Ok_0,
                                                s,
                                                label,
                                                magic,
                                                byte_order,
                                                float_format,
                                            )
                                        },
                                    }
                                },
                            }
                        },
                    }
                }
            }),
    {
        proof {
            use_type_invariant(&self);
        }
        let HeaderReader { state, encoding_strategy } = self;
        let mut state = state;
        let ghost s = state.spec_source();
        assert(state.remaining() =~= s);
        let encoding = interim_encoding(&encoding_strategy);
        state.warnings_mut().clear();

        let record_type = match state.read_array::<RECORD_TYPE_LEN>(Section::Header) {
            Ok(v) => v,
            Err(e) => return Err(e),
        };
        let magic = match parse_magic(record_type, 0) {
            Ok(m) => m,
            Err(e) => return Err(e),
        };
        let product_name_bytes = match state.read_vec(PRODUCT_NAME_LEN, Section::Header) {
            Ok(v) => v,
            Err(e) => return Err(e),
        };
        let product_name = parse_product_name(product_name_bytes.as_slice(), &encoding);
        let layout_position = state.position();
        let layout_code = match state.read_array::<4>(Section::Header) {
            Ok(v) => v,
            Err(e) => return Err(e),
        };
        proof {
            assert(product_name_bytes@ =~= s.subrange(4, 64));
            assert(layout_code@ =~= s.subrange(64, 68));
        }
        let byte_order = match parse_layout_code(layout_code, layout_position) {
            Ok(b) => b,
            Err(e) => return Err(e),
        };
        let nominal_case_size_value = match state.read_i32(byte_order, Section::Header) {
            Ok(v) => v,
            Err(e) => return Err(e),
        };
        let nominal_case_size = parse_nominal_case_size(nominal_case_size_value);
        let compression_code = match state.read_i32(byte_order, Section::Header) {
            Ok(v) => v,
            Err(e) => return Err(e),
        };
        let (compression, compression_warning) = resolve_compression(
            compression_code,
            magic,
            record_type,
        );
        if let Some(warning) = compression_warning {
            state.warnings_mut().push(warning);
        }
        let weight_index_value = match state.read_i32(byte_order, Section::Header) {
            Ok(v) => v,
            Err(e) => return Err(e),
        };
        let weight_variable_index = match parse_weight_index(weight_index_value) {
            Some(i) => Some(i - 1),
            None => None,
        };
        let case_count_value = match state.read_i32(byte_order, Section::Header) {
            Ok(v) => v,
            Err(e) => return Err(e),
        };
        let case_count = parse_case_count(case_count_value);
        let bias_position = state.position();
        let bias = match state.read_array::<BIAS_LEN>(Section::Header) {
            Ok(v) => v,
            Err(e) => return Err(e),
        };
        proof {
            assert(s.skip(68).take(4) =~= s.subrange(68, 72));
            assert(s.skip(72).take(4) =~= s.subrange(72, 76));
            assert(s.skip(76).take(4) =~= s.subrange(76, 80));
            assert(s.skip(80).take(4) =~= s.subrange(80, 84));
            assert(bias@ =~= s.subrange(84, 92));
        }
        let float_format = match check_float_format(bias, byte_order, bias_position) {
            Ok(f) => f,
            Err(e) => return Err(e),
        };
        let date_bytes = match state.read_array::<CREATION_DATE_LEN>(Section::Header) {
            Ok(v) => v,
            Err(e) => return Err(e),
        };
        let time_bytes = match state.read_array::<CREATION_TIME_LEN>(Section::Header) {
            Ok(v) => v,
            Err(e) => return Err(e),
        };
        let creation_timestamp = SavCreationTimestamp::from_header_bytes(date_bytes, time_bytes);
        let file_label_bytes = match state.read_vec(FILE_LABEL_LEN, Section::Header) {
            Ok(v) => v,
            Err(e) => return Err(e),
        };
        let file_label = parse_file_label(file_label_bytes.as_slice(), &encoding);
        match state.skip(TRAILING_PADDING_LEN, Section::Header) {
            Ok(()) => {},
            Err(e) => return Err(e),
        }
        proof {
            assert(date_bytes@ =~= s.subrange(92, 101));
            assert(time_bytes@ =~= s.subrange(101, 109));
            assert(file_label_bytes@ =~= s.subrange(109, 173));
            assert(state.remaining() =~= s.skip(176));
            assert(record_type@ =~= s.take(4));
        }
        let header = SavHeader::new(
            product_name,
            file_label,
            creation_timestamp,
            compression,
            byte_order,
            float_format,
            bias,
            case_count,
            nominal_case_size,
        );
        Ok(DictionaryReader::new(state, header, weight_variable_index, encoding))
    }
}

} // verus!
