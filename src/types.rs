//! Names for the scalar widths of the ELF format and the codes the header uses.

use vstd::prelude::*;

use crate::enumerations::{Elf32Types, Elf64Types};

verus! {

/// Width marker of a 32-bit object.
pub type Elf32 = Elf32Types;

/// Width marker of a 64-bit object.
pub type Elf64 = Elf64Types;

/// A 16-bit quantity of a 32-bit object.
pub type Elf32Half = u16;

/// A 16-bit quantity of a 64-bit object.
pub type Elf64Half = u16;

/// A 32-bit quantity of a 32-bit object.
pub type Elf32Word = u32;

/// A 32-bit quantity of a 64-bit object.
pub type Elf64Word = u32;

/// An address of a 32-bit object.
pub type Elf32Addr = u32;

/// An address of a 64-bit object.
pub type Elf64Addr = u64;

/// A file offset of a 32-bit object.
pub type Elf32Off = u32;

/// A file offset of a 64-bit object.
pub type Elf64Off = u64;

/// Class byte of a 32-bit object.
pub const ELFCLASS32: u8 = 1;

/// Class byte of a 64-bit object.
pub const ELFCLASS64: u8 = 2;

/// Encoding byte of a little-endian object.
pub const ELFDATA2LSB: u8 = 1;

/// Encoding byte of a big-endian object.
pub const ELFDATA2MSB: u8 = 2;

/// The only format version there is.
pub const EV_CURRENT: u8 = 1;

/// Object type: none.
pub const ET_NONE: u16 = 0;

/// Object type: relocatable file.
pub const ET_REL: u16 = 1;

/// Object type: executable file.
pub const ET_EXEC: u16 = 2;

/// Object type: shared object.
pub const ET_DYN: u16 = 3;

/// Object type: core file.
pub const ET_CORE: u16 = 4;

/// First object type reserved for operating systems.
pub const ET_LOOS: u16 = 0xfe00;

/// Last object type reserved for operating systems.
pub const ET_HIOS: u16 = 0xfeff;

/// First object type reserved for processors.
pub const ET_LOPROC: u16 = 0xff00;

/// Last object type reserved for processors.
pub const ET_HIPROC: u16 = 0xffff;

/// Machine: none.
pub const EM_NONE: u16 = 0;

/// Machine: SPARC.
pub const EM_SPARC: u16 = 2;

/// Machine: Intel 80386.
pub const EM_386: u16 = 3;

/// Machine: SPARC 32+.
pub const EM_SPARC32PLUS: u16 = 18;

/// Machine: SPARC V9.
pub const EM_SPARCV9: u16 = 43;

/// Machine: x86-64.
pub const EM_X86_64: u16 = 62;

} // verus!
