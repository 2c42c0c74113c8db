//! Decoding of the fixed-size header of an ELF binary.

pub mod codec;
pub mod enumerations;
pub mod errors;
pub mod header;
pub mod ident;
pub mod report;
pub mod text;
pub mod types;
