//! Reading SPSS system (`.sav`) files: the header, the extension records
//! of the dictionary, and the wire-level building blocks they share.
pub mod spss;
