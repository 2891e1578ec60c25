//! SPSS file formats.
pub mod sav;
