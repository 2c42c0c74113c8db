//! Width tags, magic bytes and the width-polymorphic scalar roles of a header.

use vstd::prelude::*;

use crate::types::{
    Elf32Addr, Elf32Half, Elf32Off, Elf32Word, Elf64Addr, Elf64Half, Elf64Off, Elf64Word,
};

verus! {

/// Positions of the four magic bytes in the identification block.
#[allow(non_camel_case_types)]
#[derive(Debug)]
pub enum ELFMAG_Bit {
    EI_MAG0,
    EI_MAG1,
    EI_MAG2,
    EI_MAG3,
}

/// The four magic bytes, `0x7F 'E' 'L' 'F'`.
#[allow(non_camel_case_types)]
#[derive(Debug)]
pub enum ELFMAG_Byte {
    ELFMAG0,
    ELFMAG1,
    ELFMAG2,
    ELFMAG3,
}

/// The magic sequence that opens every ELF file.
pub open spec fn elf_magic() -> Seq<u8> {
    seq![0x7Fu8, 0x45u8, 0x4Cu8, 0x46u8]
}

impl ELFMAG_Bit {
    /// Index of this magic byte in the identification block.
    pub open spec fn spec_index(&self) -> nat {
        match self {
            ELFMAG_Bit::EI_MAG0 => 0,
            ELFMAG_Bit::EI_MAG1 => 1,
            ELFMAG_Bit::EI_MAG2 => 2,
            ELFMAG_Bit::EI_MAG3 => 3,
        }
    }

    pub fn index(&self) -> (r: usize)
        ensures
            r == self.spec_index(),
    {
        match self {
            ELFMAG_Bit::EI_MAG0 => 0,
            ELFMAG_Bit::EI_MAG1 => 1,
            ELFMAG_Bit::EI_MAG2 => 2,
            ELFMAG_Bit::EI_MAG3 => 3,
        }
    }
}

impl ELFMAG_Byte {
    /// The byte value this magic byte must have.
    pub open spec fn spec_value(&self) -> u8 {
        match self {
            ELFMAG_Byte::ELFMAG0 => 0x7F,
            ELFMAG_Byte::ELFMAG1 => 0x45,
            ELFMAG_Byte::ELFMAG2 => 0x4C,
            ELFMAG_Byte::ELFMAG3 => 0x46,
        }
    }

    pub fn value(&self) -> (r: u8)
        ensures
            r == self.spec_value(),
            r == elf_magic()[self.position() as int],
    {
        match self {
            ELFMAG_Byte::ELFMAG0 => 0x7F,
            ELFMAG_Byte::ELFMAG1 => 0x45,
            ELFMAG_Byte::ELFMAG2 => 0x4C,
            ELFMAG_Byte::ELFMAG3 => 0x46,
        }
    }

    /// Where this byte stands in the magic sequence.
    pub open spec fn position(&self) -> nat {
        match self {
            ELFMAG_Byte::ELFMAG0 => 0,
            ELFMAG_Byte::ELFMAG1 => 1,
            ELFMAG_Byte::ELFMAG2 => 2,
            ELFMAG_Byte::ELFMAG3 => 3,
        }
    }
}

/// The two widths an ELF object can have.
#[derive(Debug, Clone, Copy, PartialEq, Eq, Structural)]
pub enum Elf {
    Elf32,
    Elf64,
}

/// Marker of the types that name a part of the format.
pub trait ELF {}

/// A value that holds either a 32-bit-object payload or a 64-bit-object payload.
pub trait Selectable<T32, T64> {
    /// The payload, if the value is tagged as coming from a 32-bit object.
    spec fn elf32_value(&self) -> Option<T32>;

    /// The payload, if the value is tagged as coming from a 64-bit object.
    spec fn elf64_value(&self) -> Option<T64>;

    fn is_elf32_type(&self) -> (r: bool)
        ensures
            r == self.elf32_value() is Some,
    ;

    fn is_elf64_type(&self) -> (r: bool)
        ensures
            r == self.elf64_value() is Some,
    ;

    fn get_elf32_value(&self) -> (r: Option<T32>)
        ensures
            r == self.elf32_value(),
    ;

    fn get_elf64_value(&self) -> (r: Option<T64>)
        ensures
            r == self.elf64_value(),
    ;

    /// Every value carries exactly one of the two payloads.
    proof fn lemma_width_exclusive(&self)
        ensures
            (self.elf32_value() is Some) != (self.elf64_value() is Some),
    ;
}

/// Width markers of 32-bit objects and their scalar roles.
#[derive(Debug)]
pub enum Elf32Types {
    Elf32Half,
    Elf32Word,
    Elf32Addr,
    Elf32Off,
}

impl ELF for Elf32Types {}

/// Width markers of 64-bit objects and their scalar roles.
#[derive(Debug)]
pub enum Elf64Types {
    Elf64Half,
    Elf64Word,
    Elf64Addr,
    Elf64Off,
}

impl ELF for Elf64Types {}

/// The scalar roles of a header field, independent of width.
#[derive(Debug)]
pub enum ElfTypes {
    Half,
    Word,
    Addr,
    Offset,
}

impl ELF for ElfTypes {}

/// A half-word field: counts, sizes, the object type and the machine.
#[derive(Debug, Clone, Copy, PartialEq, Eq, Structural)]
pub enum Half {
    Elf32(Elf32Half),
    Elf64(Elf64Half),
}

impl Selectable<Elf32Half, Elf64Half> for Half {
    open spec fn elf32_value(&self) -> Option<Elf32Half> {
        match self {
            Half::Elf32(v) => Some(*v),
            _ => None,
        }
    }

    open spec fn elf64_value(&self) -> Option<Elf64Half> {
        match self {
            Half::Elf64(v) => Some(*v),
            _ => None,
        }
    }

    fn is_elf32_type(&self) -> (r: bool) {
        match self {
            Half::Elf32(_) => true,
            _ => false,
        }
    }

    fn is_elf64_type(&self) -> (r: bool) {
        match self {
            Half::Elf64(_) => true,
            _ => false,
        }
    }

    fn get_elf32_value(&self) -> (r: Option<Elf32Half>) {
        match self {
            Half::Elf32(v) => Some(*v),
            _ => None,
        }
    }

    fn get_elf64_value(&self) -> (r: Option<Elf64Half>) {
        match self {
            Half::Elf64(v) => Some(*v),
            _ => None,
        }
    }

    proof fn lemma_width_exclusive(&self) {
    }
}

/// A word field: the object version and the processor flags.
#[derive(Debug, Clone, Copy, PartialEq, Eq, Structural)]
pub enum Word {
    Elf32(Elf32Word),
    Elf64(Elf64Word),
}

impl Selectable<Elf32Word, Elf64Word> for Word {
    open spec fn elf32_value(&self) -> Option<Elf32Word> {
        match self {
            Word::Elf32(v) => Some(*v),
            _ => None,
        }
    }

    open spec fn elf64_value(&self) -> Option<Elf64Word> {
        match self {
            Word::Elf64(v) => Some(*v),
            _ => None,
        }
    }

    fn is_elf32_type(&self) -> (r: bool) {
        match self {
            Word::Elf32(_) => true,
            _ => false,
        }
    }

    fn is_elf64_type(&self) -> (r: bool) {
        match self {
            Word::Elf64(_) => true,
            _ => false,
        }
    }

    fn get_elf32_value(&self) -> (r: Option<Elf32Word>) {
        match self {
            Word::Elf32(v) => Some(*v),
            _ => None,
        }
    }

    fn get_elf64_value(&self) -> (r: Option<Elf64Word>) {
        match self {
            Word::Elf64(v) => Some(*v),
            _ => None,
        }
    }

    proof fn lemma_width_exclusive(&self) {
    }
}

/// An address field: the entry point.
#[derive(Debug, Clone, Copy, PartialEq, Eq, Structural)]
pub enum Addr {
    Elf32(Elf32Addr),
    Elf64(Elf64Addr),
}

impl Selectable<Elf32Addr, Elf64Addr> for Addr {
    open spec fn elf32_value(&self) -> Option<Elf32Addr> {
        match self {
            Addr::Elf32(v) => Some(*v),
            _ => None,
        }
    }

    open spec fn elf64_value(&self) -> Option<Elf64Addr> {
        match self {
            Addr::Elf64(v) => Some(*v),
            _ => None,
        }
    }

    fn is_elf32_type(&self) -> (r: bool) {
        match self {
            Addr::Elf32(_) => true,
            _ => false,
        }
    }

    fn is_elf64_type(&self) -> (r: bool) {
        match self {
            Addr::Elf64(_) => true,
            _ => false,
        }
    }

    fn get_elf32_value(&self) -> (r: Option<Elf32Addr>) {
        match self {
            Addr::Elf32(v) => Some(*v),
            _ => None,
        }
    }

    fn get_elf64_value(&self) -> (r: Option<Elf64Addr>) {
        match self {
            Addr::Elf64(v) => Some(*v),
            _ => None,
        }
    }

    proof fn lemma_width_exclusive(&self) {
    }
}

/// An offset field: where the program and section header tables start.
#[derive(Debug, Clone, Copy, PartialEq, Eq, Structural)]
pub enum Offset {
    Elf32(Elf32Off),
    Elf64(Elf64Off),
}

impl Selectable<Elf32Off, Elf64Off> for Offset {
    open spec fn elf32_value(&self) -> Option<Elf32Off> {
        match self {
            Offset::Elf32(v) => Some(*v),
            _ => None,
        }
    }

    open spec fn elf64_value(&self) -> Option<Elf64Off> {
        match self {
            Offset::Elf64(v) => Some(*v),
            _ => None,
        }
    }

    fn is_elf32_type(&self) -> (r: bool) {
        match self {
            Offset::Elf32(_) => true,
            _ => false,
        }
    }

    fn is_elf64_type(&self) -> (r: bool) {
        match self {
            Offset::Elf64(_) => true,
            _ => false,
        }
    }

    fn get_elf32_value(&self) -> (r: Option<Elf32Off>) {
        match self {
            Offset::Elf32(v) => Some(*v),
            _ => None,
        }
    }

    fn get_elf64_value(&self) -> (r: Option<Elf64Off>) {
        match self {
            Offset::Elf64(v) => Some(*v),
            _ => None,
        }
    }

    proof fn lemma_width_exclusive(&self) {
    }
}

} // verus!
