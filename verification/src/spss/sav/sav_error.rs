//! SAV-format-specific errors.
use vstd::prelude::*;

use crate::spss::sav::ascii_number::{decimal_text, render_i64, render_u64, signed_text};

verus! {

/// The I/O error carried by [`SavError::Io`].
#[verifier::external_type_specification]
#[verifier::external_body]
pub struct ExIoError(std::io::Error);

/// Section of a SAV file where an error occurred.
///
/// SAV is structurally three sections: a fixed-size header, a stream of
/// interleaved typed dictionary records terminated by the `999` marker,
/// and the data records that follow.
#[derive(Debug, Clone, Copy, PartialEq, Eq, Hash, Structural)]
#[non_exhaustive]
pub enum Section {
    /// File header (magic, file label, byte order, creation timestamp).
    Header,
    /// Dictionary section: variable, value-label, document and
    /// extension records, up to the `999` end-of-dictionary marker.
    Dictionary,
    /// Compressed or uncompressed data records that follow the
    /// dictionary terminator.
    Records,
}

impl Section {
    /// The section's name as it appears in messages.
    pub open spec fn text(self) -> Seq<char> {
        match self {
            Section::Header => "header"@,
            Section::Dictionary => "dictionary"@,
            Section::Records => "records"@,
        }
    }

    /// Renders the section's name.
    pub fn to_string(&self) -> (res: String)
        ensures
            res@ == self.text(),
    {
        match self {
            Section::Header => String::from_str("header"),
            Section::Dictionary => String::from_str("dictionary"),
            Section::Records => String::from_str("records"),
        }
    }
}

/// Specific field within a section.
#[derive(Debug, Clone, Copy, PartialEq, Eq, Hash, Structural)]
#[non_exhaustive]
pub enum Field {
    /// File magic bytes.
    Magic,
    /// File label string.
    FileLabel,
    /// Creation date string.
    CreationDate,
    /// Creation time string.
    CreationTime,
    /// Variable count in the header.
    VariableCount,
    /// Case (record) count in the header.
    CaseCount,
    /// Compression code in the header.
    CompressionCode,
    /// Bias used by bytecode compression.
    CompressionBias,
    /// Variable name.
    VariableName,
    /// Variable label.
    VariableLabel,
    /// Variable type code from a type-2 record.
    VariableType,
    /// Variable record's `n_missing_values` field.
    MissingValueCount,
    /// Variable display format.
    VariableFormat,
    /// Variable measurement level.
    MeasurementLevel,
    /// Value-label set name.
    ValueLabelName,
    /// Value-label entry.
    ValueLabelEntry,
    /// Document line.
    DocumentLine,
    /// Extension record subtype.
    ExtensionSubtype,
    /// Extension record element size.
    ExtensionElementSize,
    /// Extension record element count.
    ExtensionElementCount,
    /// One `short=long` pair inside an extension subtype-13 record.
    LongVariableNamePair,
    /// One `short=width` pair inside an extension subtype-14 record.
    VeryLongStringPair,
    /// One attribute inside an extension subtype-17 record.
    FileAttribute,
    /// One attribute inside an extension subtype-18 record.
    VariableAttribute,
    /// Cell value within a record.
    CellValue,
    /// One variable set line inside an extension subtype-5 record.
    VariableSet,
    /// One set line inside an extension subtype-7 or -19 record.
    MultipleResponseSet,
    /// One variable's labels inside an extension subtype-21 record.
    LongValueLabel,
    /// One variable's values inside an extension subtype-22 record.
    LongMissingValue,
    /// The count byte of one variable inside a subtype-22 record.
    LongMissingValueCount,
}

impl Field {
    /// The field's name as it appears in messages.
    pub open spec fn text(self) -> Seq<char> {
        match self {
            Field::Magic => "magic"@,
            Field::FileLabel => "file label"@,
            Field::CreationDate => "creation date"@,
            Field::CreationTime => "creation time"@,
            Field::VariableCount => "variable count"@,
            Field::CaseCount => "case count"@,
            Field::CompressionCode => "compression code"@,
            Field::CompressionBias => "compression bias"@,
            Field::VariableName => "variable name"@,
            Field::VariableLabel => "variable label"@,
            Field::VariableType => "variable type code"@,
            Field::MissingValueCount => "missing value count"@,
            Field::VariableFormat => "variable format"@,
            Field::MeasurementLevel => "measurement level"@,
            Field::ValueLabelName => "value-label name"@,
            Field::ValueLabelEntry => "value-label entry"@,
            Field::DocumentLine => "document line"@,
            Field::ExtensionSubtype => "extension subtype"@,
            Field::ExtensionElementSize => "extension element size"@,
            Field::ExtensionElementCount => "extension element count"@,
            Field::LongVariableNamePair => "long variable name pair"@,
            Field::VeryLongStringPair => "very long string pair"@,
            Field::FileAttribute => "file attribute"@,
            Field::VariableAttribute => "variable attribute"@,
            Field::CellValue => "cell value"@,
            Field::VariableSet => "variable set"@,
            Field::MultipleResponseSet => "multiple response set"@,
            Field::LongValueLabel => "long value label"@,
            Field::LongMissingValue => "long missing value"@,
            Field::LongMissingValueCount => "long missing value count"@,
        }
    }

    /// Renders the field's name.
    pub fn to_string(&self) -> (res: String)
        ensures
            res@ == self.text(),
    {
        let text = match self {
            Field::Magic => "magic",
            Field::FileLabel => "file label",
            Field::CreationDate => "creation date",
            Field::CreationTime => "creation time",
            Field::VariableCount => "variable count",
            Field::CaseCount => "case count",
            Field::CompressionCode => "compression code",
            Field::CompressionBias => "compression bias",
            Field::VariableName => "variable name",
            Field::VariableLabel => "variable label",
            Field::VariableType => "variable type code",
            Field::MissingValueCount => "missing value count",
            Field::VariableFormat => "variable format",
            Field::MeasurementLevel => "measurement level",
            Field::ValueLabelName => "value-label name",
            Field::ValueLabelEntry => "value-label entry",
            Field::DocumentLine => "document line",
            Field::ExtensionSubtype => "extension subtype",
            Field::ExtensionElementSize => "extension element size",
            Field::ExtensionElementCount => "extension element count",
            Field::LongVariableNamePair => "long variable name pair",
            Field::VeryLongStringPair => "very long string pair",
            Field::FileAttribute => "file attribute",
            Field::VariableAttribute => "variable attribute",
            Field::CellValue => "cell value",
            Field::VariableSet => "variable set",
            Field::MultipleResponseSet => "multiple response set",
            Field::LongValueLabel => "long value label",
            Field::LongMissingValue => "long missing value",
            Field::LongMissingValueCount => "long missing value count",
        };
        String::from_str(text)
    }
}

/// Specific kind of SAV format violation.
#[derive(Debug, Clone, Copy, PartialEq, Eq, Structural)]
#[non_exhaustive]
pub enum FormatErrorKind {
    /// Magic bytes do not match the expected `$FL2` / `$FL3` tag.
    InvalidMagic,
    /// A field contained an unexpected byte value.
    UnexpectedValue {
        /// Which field held the unexpected value.
        field: Field,
    },
    /// A section ended before the expected number of bytes.
    Truncated {
        /// Bytes expected.
        expected: u64,
        /// Bytes actually present.
        actual: u64,
    },
    /// A field's value exceeds the SAV format's representable range.
    FieldTooLarge {
        /// Field that was too large.
        field: Field,
    },
    /// String content is not valid in the file's declared encoding.
    InvalidEncoding {
        /// Field that failed to decode.
        field: Field,
    },
    /// A value-label set references a variable that doesn't exist.
    DanglingValueLabel,
    /// Bytecode compression bias did not match the expected value.
    InvalidCompressionBias,
    /// The header's `layout_code` field decoded to neither `2` nor `3`
    /// under either little-endian or big-endian interpretation.
    UnreadableLayoutCode,
    /// The header's `bias` field could not be decoded as the canonical
    /// value (`100.0`) under any of the recognized floating-point
    /// formats (IEEE 754, IBM HFP, VAX).
    UnknownFloatFormat,
    /// The dictionary section yielded a record-type tag that the
    /// dictionary reader does not read. The format defines `2`, `3`,
    /// `4`, `6`, `7` and `999`; this library reads extension records
    /// (`7`) and the terminator (`999`), and reports every other tag,
    /// the variable, value-label and document records included, with
    /// this error.
    UnknownRecordType {
        /// Raw record-type tag.
        value: i32,
    },
    /// A type-2 record carried `type == -1` (continuation) when no
    /// string variable was expecting one.
    UnexpectedContinuationRecord,
    /// A non-continuation record appeared while the previous string
    /// variable's continuation run was still incomplete.
    MissingContinuationRecord {
        /// Number of continuation records still expected.
        expected_remaining: u32,
    },
    /// A type-3 / type-4 adjacency rule was violated.
    UnpairedValueLabelRecord {
        /// Record-type tag observed in violation.
        saw: i32,
    },
    /// The running byte offset no longer fits in a `u64`.
    PositionOverflow,
}

impl FormatErrorKind {
    /// The kind's message.
    pub open spec fn text(self) -> Seq<char> {
        match self {
            FormatErrorKind::InvalidMagic => "invalid magic bytes"@,
            FormatErrorKind::UnexpectedValue { field } => "unexpected value in "@ + field.text(),
            FormatErrorKind::Truncated { expected, actual } => "truncated: expected "@
                + decimal_text(expected as nat) + " bytes, got "@ + decimal_text(actual as nat),
            FormatErrorKind::FieldTooLarge { field } => field.text()
                + " value exceeds the SAV format limit"@,
            FormatErrorKind::InvalidEncoding { field } => "invalid encoding in "@ + field.text(),
            FormatErrorKind::DanglingValueLabel => "value-label references a missing variable"@,
            FormatErrorKind::InvalidCompressionBias => "bytecode compression bias mismatch"@,
            FormatErrorKind::UnreadableLayoutCode => "unreadable layout code"@,
            FormatErrorKind::UnknownFloatFormat => "unknown floating-point format"@,
            FormatErrorKind::UnknownRecordType { value } => "unknown record type "@ + signed_text(
                value as int,
            ),
            FormatErrorKind::UnexpectedContinuationRecord =>
                "continuation record when none was expected"@,
            FormatErrorKind::MissingContinuationRecord { expected_remaining } =>
                "string variable expected "@ + decimal_text(expected_remaining as nat)
                + " more continuation record(s)"@,
            FormatErrorKind::UnpairedValueLabelRecord { saw } =>
                "unpaired value-label record (saw record type "@ + signed_text(saw as int) + ")"@,
            FormatErrorKind::PositionOverflow => "byte position overflows the file offset"@,
        }
    }

    /// Renders the kind's message.
    pub fn to_string(&self) -> (res: String)
        ensures
            res@ == self.text(),
    {
        match self {
            FormatErrorKind::InvalidMagic => String::from_str("invalid magic bytes"),
            FormatErrorKind::UnexpectedValue { field } => {
                let mut s = String::from_str("unexpected value in ");
                s.append(field.to_string().as_str());
                s
            },
            FormatErrorKind::Truncated { expected, actual } => {
                let mut s = String::from_str("truncated: expected ");
                s.append(render_u64(*expected).as_str());
                s.append(" bytes, got ");
                s.append(render_u64(*actual).as_str());
                s
            },
            FormatErrorKind::FieldTooLarge { field } => {
                let mut s = field.to_string();
                s.append(" value exceeds the SAV format limit");
                s
            },
            FormatErrorKind::InvalidEncoding { field } => {
                let mut s = String::from_str("invalid encoding in ");
                s.append(field.to_string().as_str());
                s
            },
            FormatErrorKind::DanglingValueLabel => String::from_str(
                "value-label references a missing variable",
            ),
            FormatErrorKind::InvalidCompressionBias => String::from_str(
                "bytecode compression bias mismatch",
            ),
            FormatErrorKind::UnreadableLayoutCode => String::from_str("unreadable layout code"),
            FormatErrorKind::UnknownFloatFormat => String::from_str(
                "unknown floating-point format",
            ),
            FormatErrorKind::UnknownRecordType { value } => {
                let mut s = String::from_str("unknown record type ");
                s.append(render_i64(*value as i64).as_str());
                s
            },
            FormatErrorKind::UnexpectedContinuationRecord => String::from_str(
                "continuation record when none was expected",
            ),
            FormatErrorKind::MissingContinuationRecord { expected_remaining } => {
                let mut s = String::from_str("string variable expected ");
                s.append(render_u64(*expected_remaining as u64).as_str());
                s.append(" more continuation record(s)");
                s
            },
            FormatErrorKind::UnpairedValueLabelRecord { saw } => {
                let mut s = String::from_str("unpaired value-label record (saw record type ");
                s.append(render_i64(*saw as i64).as_str());
                s.append(")");
                s
            },
            FormatErrorKind::PositionOverflow => String::from_str(
                "byte position overflows the file offset",
            ),
        }
    }
}

/// A SAV format violation with file context.
#[derive(Debug)]
pub struct FormatError {
    section: Section,
    position: u64,
    kind: FormatErrorKind,
}

impl FormatError {
    /// The section the error was found in.
    pub closed spec fn spec_section(self) -> Section {
        self.section
    }

    /// The byte offset the error was found at.
    pub closed spec fn spec_position(self) -> u64 {
        self.position
    }

    /// The kind of violation.
    pub closed spec fn spec_kind(self) -> FormatErrorKind {
        self.kind
    }

    /// Assembles an error from its parts.
    pub fn new(section: Section, position: u64, kind: FormatErrorKind) -> (res: Self)
        ensures
            res.spec_section() == section,
            res.spec_position() == position,
            res.spec_kind() == kind,
    {
        FormatError { section, position, kind }
    }

    /// Section of the file where the error occurred.
    pub fn section(&self) -> (res: Section)
        ensures
            res == self.spec_section(),
    {
        self.section
    }

    /// Byte offset in the file where the error was detected.
    pub fn position(&self) -> (res: u64)
        ensures
            res == self.spec_position(),
    {
        self.position
    }

    /// Specific kind of format violation.
    pub fn kind(&self) -> (res: FormatErrorKind)
        ensures
            res == self.spec_kind(),
    {
        self.kind
    }

    /// The error's message.
    pub open spec fn text(self) -> Seq<char> {
        "format error in "@ + self.spec_section().text() + " section at byte "@ + decimal_text(
            self.spec_position() as nat,
        ) + ": "@ + self.spec_kind().text()
    }

    /// Renders the error's message.
    pub fn to_string(&self) -> (res: String)
        ensures
            res@ == self.text(),
    {
        let mut s = String::from_str("format error in ");
        s.append(self.section.to_string().as_str());
        s.append(" section at byte ");
        s.append(render_u64(self.position).as_str());
        s.append(": ");
        s.append(self.kind.to_string().as_str());
        s
    }
}

/// Unified error type for SAV reading and value construction.
#[derive(Debug)]
#[non_exhaustive]
pub enum SavError {
    /// I/O error from the underlying reader.
    Io {
        /// Section being processed when the I/O error occurred.
        section: Section,
        /// Underlying I/O error.
        source: std::io::Error,
    },
    /// File contents violate the SAV format specification.
    Format(FormatError),
    /// A user-supplied string cannot be encoded in the requested
    /// encoding.
    InvalidEncoding,
    /// A user-supplied string-keyed value-label exceeds the SAV
    /// format's eight-byte slot.
    StringTooLong {
        /// Encoded byte count of the supplied value.
        actual: usize,
    },
    /// A discrete missing-value list contained more than three entries.
    TooManyMissingValues {
        /// Number of values supplied by the caller.
        actual: usize,
    },
}

/// Renders an I/O error through its `Display` impl.
///
/// Calls `<std::io::Error as Display>::fmt`. Nothing is claimed of the
/// text: for operating-system errors it comes from the platform.
#[verifier::external_body]
fn io_error_text(error: &std::io::Error) -> String {
    format!("{}", error)
}

/// Builds the error that a read past the end of the input reports.
///
/// Calls `std::io::Error::from(std::io::ErrorKind::UnexpectedEof)`.
/// Nothing is claimed of the value: the type is opaque here.
#[verifier::external_body]
pub(crate) fn unexpected_eof() -> std::io::Error {
    std::io::Error::from(std::io::ErrorKind::UnexpectedEof)
}

/// Whether `error` is the dictionary-section error raised for an
/// unexpected value in `field`, at `position`.
pub open spec fn is_unexpected_value(error: SavError, position: u64, field: Field) -> bool {
    error.is_format(Section::Dictionary, position, FormatErrorKind::UnexpectedValue { field })
}

impl SavError {
    /// Whether this is the format error `section` / `position` / `kind`.
    pub open spec fn is_format(self, section: Section, position: u64, kind: FormatErrorKind) -> bool {
        match self {
            SavError::Format(e) => e.spec_section() == section && e.spec_position() == position
                && e.spec_kind() == kind,
            _ => false,
        }
    }

    /// Constructs an [`Io`](Self::Io) variant tagged with `section`.
    pub fn io(section: Section, source: std::io::Error) -> (res: Self)
        ensures
            res matches SavError::Io { section: s, .. } && s == section,
    {
        SavError::Io { section, source }
    }

    /// Constructs a [`Format`](Self::Format) variant from its parts.
    pub fn format(section: Section, position: u64, kind: FormatErrorKind) -> (res: Self)
        ensures
            res.is_format(section, position, kind),
    {
        SavError::Format(FormatError::new(section, position, kind))
    }

    /// The message of every variant but [`Io`](Self::Io), whose text
    /// ends with the underlying error's own message.
    pub open spec fn text_prefix(self) -> Seq<char> {
        match self {
            SavError::Io { section, .. } => "I/O error in "@ + section.text() + " section: "@,
            SavError::Format(e) => e.text(),
            SavError::InvalidEncoding =>
                "string value cannot be encoded in the requested encoding"@,
            SavError::StringTooLong { actual } => "string value-label key is "@ + decimal_text(
                actual as nat,
            ) + " bytes; the SAV format caps it at 8"@,
            SavError::TooManyMissingValues { actual } => "discrete missing-value list has "@
                + decimal_text(actual as nat) + " entries; the SAV format caps it at 3"@,
        }
    }

    /// Renders the error's message.
    pub fn to_string(&self) -> (res: String)
        ensures
            self is Io ==> self.text_prefix().is_prefix_of(res@),
            !(self is Io) ==> res@ == self.text_prefix(),
    {
        match self {
            SavError::Io { section, source } => {
                let mut s = String::from_str("I/O error in ");
                s.append(section.to_string().as_str());
                s.append(" section: ");
                let ghost prefix = s@;
                s.append(io_error_text(source).as_str());
                assert(s@.take(prefix.len() as int) =~= prefix);
                assert(prefix.is_prefix_of(s@));
                s
            },
            SavError::Format(e) => e.to_string(),
            SavError::InvalidEncoding => String::from_str(
                "string value cannot be encoded in the requested encoding",
            ),
            SavError::StringTooLong { actual } => {
                let mut s = String::from_str("string value-label key is ");
                s.append(render_u64(*actual as u64).as_str());
                s.append(" bytes; the SAV format caps it at 8");
                s
            },
            SavError::TooManyMissingValues { actual } => {
                let mut s = String::from_str("discrete missing-value list has ");
                s.append(render_u64(*actual as u64).as_str());
                s.append(" entries; the SAV format caps it at 3");
                s
            },
        }
    }
}

/// Convenience alias for results from SAV operations.
pub type Result<T> = std::result::Result<T, SavError>;

} // verus!
