//! Why decoding a header can fail.

use vstd::prelude::*;

verus! {

/// The ways in which a byte buffer fails to decode.
#[derive(Debug, Clone, Copy, PartialEq, Eq, Structural)]
pub enum ElfError {
    /// Fewer bytes than the identification block or the selected layout needs.
    BufferTooShort,
    /// An identification block was given more than its sixteen bytes.
    LengthMismatch,
    /// The magic sequence is not `0x7F 'E' 'L' 'F'`.
    NotAnElfFile,
    /// The class byte is neither 32-bit nor 64-bit.
    UnknownClass,
}

/// The message shown for each kind of error.
pub open spec fn error_message(e: ElfError) -> Seq<char> {
    match e {
        ElfError::BufferTooShort => "File is not large enough to be an ELF binary."@,
        ElfError::LengthMismatch => "The identification block takes exactly 16 bytes."@,
        ElfError::NotAnElfFile => "File is not an ELF."@,
        ElfError::UnknownClass => "Unknown ELF class."@,
    }
}

impl ElfError {
    /// The error as a message for the user.
    pub fn describe(&self) -> (r: InvalidHeaderError)
        ensures
            r@ == error_message(*self),
    {
        match self {
            ElfError::BufferTooShort => InvalidHeaderError::new(
                "File is not large enough to be an ELF binary.",
            ),
            ElfError::LengthMismatch => InvalidHeaderError::new(
                "The identification block takes exactly 16 bytes.",
            ),
            ElfError::NotAnElfFile => InvalidHeaderError::new("File is not an ELF."),
            ElfError::UnknownClass => InvalidHeaderError::new("Unknown ELF class."),
        }
    }
}

/// An error that carries a message.
#[derive(Debug)]
pub struct InvalidHeaderError {
    details: String,
}

impl View for InvalidHeaderError {
    type V = Seq<char>;

    closed spec fn view(&self) -> Seq<char> {
        self.details@
    }
}

impl InvalidHeaderError {
    pub fn new(msg: &str) -> (r: InvalidHeaderError)
        ensures
            r@ == msg@,
    {
        InvalidHeaderError { details: String::from_str(msg) }
    }

    /// The message.
    pub fn details(&self) -> (r: String)
        ensures
            r@ == self@,
    {
        self.details.clone()
    }
}

} // verus!
