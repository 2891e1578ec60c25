//! The SAV system-file format.

/// Display alignment of a SAV variable.
pub mod alignment;
/// Decimal rendering and parsing of ASCII digits.
pub mod ascii_number;
/// Sequential reads over an in-memory payload.
pub(crate) mod byte_cursor;
/// Byte order of multibyte values in a SAV file.
pub mod byte_order;
/// Compression of a SAV file's data section.
pub mod compression;
/// On-disk byte layout of the SAV dictionary section.
pub(crate) mod dictionary_format;
/// Streaming reader for the SAV dictionary section.
pub mod dictionary_reader;
/// One typed record from the SAV dictionary section.
pub mod dictionary_record;
/// Reader policy for choosing a text encoding.
pub mod encoding_strategy;
/// The decoded header of a type-7 extension record.
pub mod extension_envelope;
/// SAV extension records.
pub mod extensions;
/// What the SAV file declared about its text encoding.
pub mod file_encoding;
/// How a SAV file encodes a double on disk.
pub mod float_encoding;
/// On-disk floating-point representation of doubles.
pub mod float_format;
/// On-disk byte layout of the 176-byte SAV file header.
pub mod header_format;
/// Parse helpers for the SAV file header.
pub mod header_parse;
/// Reader for the 176-byte SAV file header.
pub mod header_reader;
/// Measurement level of a SAV variable.
pub mod measurement_level;
/// How string missing values are compared with string cells.
pub mod missing_value_keys;
/// Successfully parsed SAV creation timestamp.
pub mod parsed_sav_timestamp;
/// Wire-level missing-value bytes from a variable record.
pub mod raw_missing_values;
/// Wire-level value-label entry from a type-3 record.
pub mod raw_value_label_entry;
/// Wire-level value-label set from a paired type-3 + type-4 record.
pub mod raw_value_label_set;
/// The options a reader is configured with.
pub mod reader_options;
/// Per-reader state shared by the reader phases.
pub(crate) mod reader_state;
/// On-disk byte layout of the SAV data-record section.
pub mod record_format;
/// Creation timestamp recorded in a SAV file header.
pub mod sav_creation_timestamp;
/// SAV-format-specific errors.
pub mod sav_error;
/// SAV file header.
pub mod sav_header;
/// A SAV timestamp.
pub mod sav_timestamp;
/// Recoverable issues raised during SAV reading.
pub mod sav_warning;
/// The text encodings that SAV strings are decoded through.
pub mod text_encoding;
/// Shared helpers for decoding fixed-width text fields.
pub(crate) mod text_field;
