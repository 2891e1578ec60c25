# spss_sav

A reader for the header and dictionary of SPSS system files (`.sav` and
`.zsav`), written in Verus. The reading logic is verified: every public
function carries a contract over a mathematical model of the bytes it
reads, and Verus proves the code against it.

## Layout

- `src/spss/sav/` — the verified library.
  - `header_reader.rs`, `header_parse.rs`, `header_format.rs`: the
    176-byte file header. `HeaderReader::read_header` states, field by
    field, what each offset of the header decodes to and which error
    each malformed header gives.
  - `dictionary_reader.rs`, `extension_envelope.rs`: the record stream
    after the header. Each type-7 record is framed, dispatched on its
    subtype and parsed; the terminator ends the stream.
  - `extensions/`: one module per extension subtype, each with a
    grammar written as spec functions and a `parse` proved against it.
  - `sav_creation_timestamp.rs`, `sav_error.rs`, `text_encoding.rs`,
    `byte_order.rs`, `reader_state.rs` and the smaller value types.
- What is not here: the dictionary reader reads extension records and
  the terminator only; variable, value-label and document records are
  reported as unknown record types. Reading data records (the row
  decoder, per-cell parsing, the lazy record) and the display-format
  type are absent too: the modules they are built on (data layout,
  schema, values, row coding) are not part of this project's sources.
- `app/` — ordinary Rust around the library: decoding and encoding
  doubles in the IBM, VAX and IEEE formats (through `ibm_hfp` and
  `vax-floating`), numeric missing-value specifications, and reading a
  file from disk.
- `tests/` — tests of the library on concrete byte streams.

Text is decoded through `encoding_rs`; the library holds an encoding by
its canonical name, and the contracts speak of the decoded text
through named results of `encoding_rs`'s functions.
