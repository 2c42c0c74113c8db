//! The header record: the identification block and the fields at fixed offsets after it.

use std::marker::PhantomData;

use vstd::prelude::*;

use crate::codec::{
    be_value, lemma_swap32_reverses, swap16, swap32, swap64, swap_u16, swap_u32, swap_u64,
    vec_slice_to_u16, vec_slice_to_u32, vec_slice_to_u64,
};
use crate::enumerations::{Addr, Half, Offset, Word};
use crate::errors::ElfError;
use crate::ident::{EIdent, EI_NIDENT};
use crate::text::{decimal_text, hex_text, push_decimal, push_hex};
use crate::types::{
    Elf32, Elf64, EM_386, EM_NONE, EM_SPARC, EM_SPARC32PLUS, EM_SPARCV9, EM_X86_64, ET_CORE,
    ET_DYN, ET_EXEC, ET_HIOS, ET_LOOS, ET_LOPROC, ET_NONE, ET_REL,
};

verus! {

/// The header of an ELF file of width `W` (`Elf32` or `Elf64`).
///
/// Each scalar field carries the payload of the record's width, as decoded
/// most significant byte first; [`Header::is_little_endian`] says whether it
/// must be byte-swapped to get the value the file means.
#[derive(Debug)]
pub struct Header<W> {
    /// Magic number and the other identification bytes.
    pub e_ident: EIdent,
    /// Object file type.
    pub e_type: Half,
    /// Target architecture.
    pub e_machine: Half,
    /// Object file version.
    pub e_version: Word,
    /// Entry point virtual address.
    pub e_entry: Addr,
    /// Program header table offset.
    pub e_phoff: Offset,
    /// Section header table offset.
    pub e_shoff: Offset,
    /// Processor-specific flags.
    pub e_flags: Word,
    /// Size of this header.
    pub e_ehsize: Half,
    /// Size of one program header table entry.
    pub e_phentsize: Half,
    /// Number of program header table entries.
    pub e_phnum: Half,
    /// Size of one section header table entry.
    pub e_shentsize: Half,
    /// Number of section header table entries.
    pub e_shnum: Half,
    /// Index of the section holding the section names.
    pub e_shstrndx: Half,
    /// The width the record was decoded for.
    pub marker: PhantomData<W>,
}

/// The fields of one section header.
pub struct SectionHeader<W> {
    pub sh_name: Word,
    pub sh_type: Word,
    pub sh_flags: Word,
    pub sh_addr: Addr,
    pub sh_offset: Offset,
    pub sh_size: Word,
    pub sh_link: Word,
    pub sh_info: Word,
    pub sh_addralign: Word,
    pub sh_entsize: Word,
    pub marker: PhantomData<W>,
}

/// The 16-bit payload of a half-word, whatever its width.
pub open spec fn half_payload(h: Half) -> u16 {
    match h {
        Half::Elf32(v) => v,
        Half::Elf64(v) => v,
    }
}

/// The 32-bit payload of a word, whatever its width.
pub open spec fn word_payload(w: Word) -> u32 {
    match w {
        Word::Elf32(v) => v,
        Word::Elf64(v) => v,
    }
}

/// A half-word in the byte order the file declares.
pub open spec fn half_in_order(little_endian: bool, h: Half) -> u16 {
    if little_endian {
        swap16(half_payload(h))
    } else {
        half_payload(h)
    }
}

/// A word in the byte order the file declares.
pub open spec fn word_in_order(little_endian: bool, w: Word) -> u32 {
    if little_endian {
        swap32(word_payload(w))
    } else {
        word_payload(w)
    }
}

/// An address in the byte order the file declares.
pub open spec fn addr_in_order(little_endian: bool, a: Addr) -> nat {
    match a {
        Addr::Elf32(v) => if little_endian {
            swap32(v) as nat
        } else {
            v as nat
        },
        Addr::Elf64(v) => if little_endian {
            swap64(v) as nat
        } else {
            v as nat
        },
    }
}

/// An offset in the byte order the file declares.
pub open spec fn offset_in_order(little_endian: bool, o: Offset) -> nat {
    match o {
        Offset::Elf32(v) => if little_endian {
            swap32(v) as nat
        } else {
            v as nat
        },
        Offset::Elf64(v) => if little_endian {
            swap64(v) as nat
        } else {
            v as nat
        },
    }
}

/// Label of an object type.
pub open spec fn type_label(t: u16) -> Seq<char> {
    if t == 0 {
        "no file type"@
    } else if t == 1 {
        "relocatable"@
    } else if t == 2 {
        "executable"@
    } else if t == 3 {
        "shared object"@
    } else if t == 4 {
        "core file"@
    } else if 0xfe00 <= t && t <= 0xfeff {
        "OS specific"@
    } else if 0xff00 <= t {
        "processor specific"@
    } else {
        "invalid"@
    }
}

/// Label of a machine code.
pub open spec fn machine_label(m: u16) -> Seq<char> {
    if m == 0 {
        "none"@
    } else if m == 2 {
        "SPARC"@
    } else if m == 3 {
        "x86"@
    } else if m == 18 {
        "SPARC32+"@
    } else if m == 43 {
        "SPARC V9"@
    } else if m == 62 {
        "x86-64"@
    } else {
        "unrecognized/to be implemented"@
    }
}

/// Reads the 2-byte window at `at`.
fn half_at(bytes: &[u8], at: usize) -> (r: u16)
    requires
        at + 2 <= bytes@.len(),
    ensures
        r as nat == be_value(bytes@.subrange(at as int, at + 2)),
{
    let len = bytes.len();
    assert(at + 2 <= len);
    vec_slice_to_u16(&bytes[at..at + 2]).unwrap()
}

/// Reads the 4-byte window at `at`.
fn word_at(bytes: &[u8], at: usize) -> (r: u32)
    requires
        at + 4 <= bytes@.len(),
    ensures
        r as nat == be_value(bytes@.subrange(at as int, at + 4)),
{
    let len = bytes.len();
    assert(at + 4 <= len);
    vec_slice_to_u32(&bytes[at..at + 4]).unwrap()
}

/// Reads the 8-byte window at `at`.
fn xword_at(bytes: &[u8], at: usize) -> (r: u64)
    requires
        at + 8 <= bytes@.len(),
    ensures
        r as nat == be_value(bytes@.subrange(at as int, at + 8)),
{
    let len = bytes.len();
    assert(at + 8 <= len);
    vec_slice_to_u64(&bytes[at..at + 8]).unwrap()
}

impl Header<Elf32> {
    /// Bytes of the whole 32-bit header, identification block included.
    pub const HEADER_LEN: usize = 52;

    /// Bytes of the 32-bit fields after the identification block.
    pub const FIELDS_LEN: usize = 36;

    /// Every scalar field carries a 32-bit-object payload.
    pub open spec fn wf(&self) -> bool {
        &&& self.e_type is Elf32
        &&& self.e_machine is Elf32
        &&& self.e_version is Elf32
        &&& self.e_entry is Elf32
        &&& self.e_phoff is Elf32
        &&& self.e_shoff is Elf32
        &&& self.e_flags is Elf32
        &&& self.e_ehsize is Elf32
        &&& self.e_phentsize is Elf32
        &&& self.e_phnum is Elf32
        &&& self.e_shentsize is Elf32
        &&& self.e_shnum is Elf32
        &&& self.e_shstrndx is Elf32
    }

    /// The fields hold the 32-bit layout of `f`, the bytes after the identification block.
    pub open spec fn decodes_fields(&self, f: Seq<u8>) -> bool {
        &&& f.len() >= 36
        &&& self.e_type == Half::Elf32(be_value(f.subrange(0, 2)) as u16)
        &&& self.e_machine == Half::Elf32(be_value(f.subrange(2, 4)) as u16)
        &&& self.e_version == Word::Elf32(be_value(f.subrange(4, 8)) as u32)
        &&& self.e_entry == Addr::Elf32(be_value(f.subrange(8, 12)) as u32)
        &&& self.e_phoff == Offset::Elf32(be_value(f.subrange(12, 16)) as u32)
        &&& self.e_shoff == Offset::Elf32(be_value(f.subrange(16, 20)) as u32)
        &&& self.e_flags == Word::Elf32(be_value(f.subrange(20, 24)) as u32)
        &&& self.e_ehsize == Half::Elf32(be_value(f.subrange(24, 26)) as u16)
        &&& self.e_phentsize == Half::Elf32(be_value(f.subrange(26, 28)) as u16)
        &&& self.e_phnum == Half::Elf32(be_value(f.subrange(28, 30)) as u16)
        &&& self.e_shentsize == Half::Elf32(be_value(f.subrange(30, 32)) as u16)
        &&& self.e_shnum == Half::Elf32(be_value(f.subrange(32, 34)) as u16)
        &&& self.e_shstrndx == Half::Elf32(be_value(f.subrange(34, 36)) as u16)
    }

    /// Decodes a whole 32-bit header from the start of `bytes`.
    pub fn new(bytes: &[u8]) -> (r: Result<Header<Elf32>, ElfError>)
        ensures
            bytes@.len() < 52 <==> r is Err,
            r is Err ==> r == Err::<Header<Elf32>, ElfError>(ElfError::BufferTooShort),
            r matches Ok(h) ==> {
                &&& h.wf()
                &&& h.e_ident.decodes(bytes@.subrange(0, 16))
                &&& h.decodes_fields(bytes@.subrange(16, bytes@.len() as int))
            },
    {
        if bytes.len() < Self::HEADER_LEN {
            return Err(ElfError::BufferTooShort);
        }
        let e_ident = match EIdent::new(&bytes[0..EI_NIDENT]) {
            Ok(id) => id,
            Err(e) => return Err(e),
        };
        Self::new_partial(&bytes[EI_NIDENT..bytes.len()], e_ident)
    }

    /// Decodes the 32-bit fields from the start of `bytes`, the bytes after
    /// the identification block `e_ident_st`.
    pub fn new_partial(bytes: &[u8], e_ident_st: EIdent) -> (r: Result<Header<Elf32>, ElfError>)
        ensures
            bytes@.len() < 36 <==> r is Err,
            r is Err ==> r == Err::<Header<Elf32>, ElfError>(ElfError::BufferTooShort),
            r matches Ok(h) ==> {
                &&& h.wf()
                &&& h.e_ident == e_ident_st
                &&& h.decodes_fields(bytes@)
            },
    {
        if bytes.len() < Self::FIELDS_LEN {
            return Err(ElfError::BufferTooShort);
        }
        Ok(Header {
            e_ident: e_ident_st,
            e_type: Half::Elf32(half_at(bytes, 0)),
            e_machine: Half::Elf32(half_at(bytes, 2)),
            e_version: Word::Elf32(word_at(bytes, 4)),
            e_entry: Addr::Elf32(word_at(bytes, 8)),
            e_phoff: Offset::Elf32(word_at(bytes, 12)),
            e_shoff: Offset::Elf32(word_at(bytes, 16)),
            e_flags: Word::Elf32(word_at(bytes, 20)),
            e_ehsize: Half::Elf32(half_at(bytes, 24)),
            e_phentsize: Half::Elf32(half_at(bytes, 26)),
            e_phnum: Half::Elf32(half_at(bytes, 28)),
            e_shentsize: Half::Elf32(half_at(bytes, 30)),
            e_shnum: Half::Elf32(half_at(bytes, 32)),
            e_shstrndx: Half::Elf32(half_at(bytes, 34)),
            marker: PhantomData,
        })
    }
}

impl Header<Elf64> {
    /// Bytes of the whole 64-bit header, identification block included.
    pub const HEADER_LEN: usize = 64;

    /// Bytes of the 64-bit fields after the identification block.
    pub const FIELDS_LEN: usize = 48;

    /// Every scalar field carries a 64-bit-object payload.
    pub open spec fn wf(&self) -> bool {
        &&& self.e_type is Elf64
        &&& self.e_machine is Elf64
        &&& self.e_version is Elf64
        &&& self.e_entry is Elf64
        &&& self.e_phoff is Elf64
        &&& self.e_shoff is Elf64
        &&& self.e_flags is Elf64
        &&& self.e_ehsize is Elf64
        &&& self.e_phentsize is Elf64
        &&& self.e_phnum is Elf64
        &&& self.e_shentsize is Elf64
        &&& self.e_shnum is Elf64
        &&& self.e_shstrndx is Elf64
    }

    /// The fields hold the 64-bit layout of `f`, the bytes after the identification block.
    pub open spec fn decodes_fields(&self, f: Seq<u8>) -> bool {
        &&& f.len() >= 48
        &&& self.e_type == Half::Elf64(be_value(f.subrange(0, 2)) as u16)
        &&& self.e_machine == Half::Elf64(be_value(f.subrange(2, 4)) as u16)
        &&& self.e_version == Word::Elf64(be_value(f.subrange(4, 8)) as u32)
        &&& self.e_entry == Addr::Elf64(be_value(f.subrange(8, 16)) as u64)
        &&& self.e_phoff == Offset::Elf64(be_value(f.subrange(16, 24)) as u64)
        &&& self.e_shoff == Offset::Elf64(be_value(f.subrange(24, 32)) as u64)
        &&& self.e_flags == Word::Elf64(be_value(f.subrange(32, 36)) as u32)
        &&& self.e_ehsize == Half::Elf64(be_value(f.subrange(36, 38)) as u16)
        &&& self.e_phentsize == Half::Elf64(be_value(f.subrange(38, 40)) as u16)
        &&& self.e_phnum == Half::Elf64(be_value(f.subrange(40, 42)) as u16)
        &&& self.e_shentsize == Half::Elf64(be_value(f.subrange(42, 44)) as u16)
        &&& self.e_shnum == Half::Elf64(be_value(f.subrange(44, 46)) as u16)
        &&& self.e_shstrndx == Half::Elf64(be_value(f.subrange(46, 48)) as u16)
    }

    /// Decodes a whole 64-bit header from the start of `bytes`.
    pub fn new(bytes: &[u8]) -> (r: Result<Header<Elf64>, ElfError>)
        ensures
            bytes@.len() < 64 <==> r is Err,
            r is Err ==> r == Err::<Header<Elf64>, ElfError>(ElfError::BufferTooShort),
            r matches Ok(h) ==> {
                &&& h.wf()
                &&& h.e_ident.decodes(bytes@.subrange(0, 16))
                &&& h.decodes_fields(bytes@.subrange(16, bytes@.len() as int))
            },
    {
        if bytes.len() < Self::HEADER_LEN {
            return Err(ElfError::BufferTooShort);
        }
        let e_ident = match EIdent::new(&bytes[0..EI_NIDENT]) {
            Ok(id) => id,
            Err(e) => return Err(e),
        };
        Self::new_partial(&bytes[EI_NIDENT..bytes.len()], e_ident)
    }

    /// Decodes the 64-bit fields from the start of `bytes`, the bytes after
    /// the identification block `e_ident_st`.
    pub fn new_partial(bytes: &[u8], e_ident_st: EIdent) -> (r: Result<Header<Elf64>, ElfError>)
        ensures
            bytes@.len() < 48 <==> r is Err,
            r is Err ==> r == Err::<Header<Elf64>, ElfError>(ElfError::BufferTooShort),
            r matches Ok(h) ==> {
                &&& h.wf()
                &&& h.e_ident == e_ident_st
                &&& h.decodes_fields(bytes@)
            },
    {
        if bytes.len() < Self::FIELDS_LEN {
            return Err(ElfError::BufferTooShort);
        }
        Ok(Header {
            e_ident: e_ident_st,
            e_type: Half::Elf64(half_at(bytes, 0)),
            e_machine: Half::Elf64(half_at(bytes, 2)),
            e_version: Word::Elf64(word_at(bytes, 4)),
            e_entry: Addr::Elf64(xword_at(bytes, 8)),
            e_phoff: Offset::Elf64(xword_at(bytes, 16)),
            e_shoff: Offset::Elf64(xword_at(bytes, 24)),
            e_flags: Word::Elf64(word_at(bytes, 32)),
            e_ehsize: Half::Elf64(half_at(bytes, 36)),
            e_phentsize: Half::Elf64(half_at(bytes, 38)),
            e_phnum: Half::Elf64(half_at(bytes, 40)),
            e_shentsize: Half::Elf64(half_at(bytes, 42)),
            e_shnum: Half::Elf64(half_at(bytes, 44)),
            e_shstrndx: Half::Elf64(half_at(bytes, 46)),
            marker: PhantomData,
        })
    }
}

fn half_ordered(little_endian: bool, h: Half) -> (r: u16)
    ensures
        r == half_in_order(little_endian, h),
{
    let v = match h {
        Half::Elf32(v) => v,
        Half::Elf64(v) => v,
    };
    if little_endian {
        swap_u16(v)
    } else {
        v
    }
}

fn word_ordered(little_endian: bool, w: Word) -> (r: u32)
    ensures
        r == word_in_order(little_endian, w),
{
    let v = match w {
        Word::Elf32(v) => v,
        Word::Elf64(v) => v,
    };
    if little_endian {
        swap_u32(v)
    } else {
        v
    }
}

fn addr_ordered(little_endian: bool, a: Addr) -> (r: u64)
    ensures
        r as nat == addr_in_order(little_endian, a),
{
    match a {
        Addr::Elf32(v) => if little_endian {
            swap_u32(v) as u64
        } else {
            v as u64
        },
        Addr::Elf64(v) => if little_endian {
            swap_u64(v)
        } else {
            v
        },
    }
}

fn offset_ordered(little_endian: bool, o: Offset) -> (r: u64)
    ensures
        r as nat == offset_in_order(little_endian, o),
{
    match o {
        Offset::Elf32(v) => if little_endian {
            swap_u32(v) as u64
        } else {
            v as u64
        },
        Offset::Elf64(v) => if little_endian {
            swap_u64(v)
        } else {
            v
        },
    }
}

impl<W> Header<W> {
    /// The file declares its multi-byte fields little-endian.
    pub open spec fn is_little_endian(&self) -> bool {
        self.e_ident.is_little_endian()
    }

    /// The object type, in the byte order the file declares.
    pub open spec fn type_code(&self) -> u16 {
        half_in_order(self.is_little_endian(), self.e_type)
    }

    /// The machine code, in the byte order the file declares.
    pub open spec fn machine_code(&self) -> u16 {
        half_in_order(self.is_little_endian(), self.e_machine)
    }

    /// Report lines for the type, machine, version, entry point and table offsets.
    pub open spec fn layout_text(&self) -> Seq<char> {
        let le = self.is_little_endian();
        "\tType:                              "@ + type_label(self.type_code()) + "\n"@
            + "\tMachine:                           "@ + machine_label(self.machine_code())
            + "\n"@ + "\tVersion:                           "@ + hex_text(
            word_in_order(le, self.e_version) as nat,
        ) + "\n"@ + "\tEntry point address:               0x"@ + hex_text(
            addr_in_order(le, self.e_entry),
        ) + "\n"@ + "\tStart of program headers:          "@ + decimal_text(
            offset_in_order(le, self.e_phoff),
        ) + " (bytes into file)\n"@ + "\tStart of section headers:          "@ + decimal_text(
            offset_in_order(le, self.e_shoff),
        ) + " (bytes into file)\n"@
    }

    /// Report lines for the flags and the sizes, counts and index of the tables.
    pub open spec fn table_text(&self) -> Seq<char> {
        let le = self.is_little_endian();
        "\tFlags:                             0x"@ + hex_text(
            word_in_order(le, self.e_flags) as nat,
        ) + "\n"@ + "\tSize of this header:               "@ + decimal_text(
            half_in_order(le, self.e_ehsize) as nat,
        ) + " (bytes)\n"@ + "\tSize of program headers:           "@ + decimal_text(
            half_in_order(le, self.e_phentsize) as nat,
        ) + " (bytes)\n"@ + "\tNumber of program headers:         "@ + decimal_text(
            half_in_order(le, self.e_phnum) as nat,
        ) + "\n"@ + "\tSize of section headers:           "@ + decimal_text(
            half_in_order(le, self.e_shentsize) as nat,
        ) + " (bytes)\n"@ + "\tNumber of section headers:         "@ + decimal_text(
            half_in_order(le, self.e_shnum) as nat,
        ) + "\n"@ + "\tSection header string table index: "@ + decimal_text(
            half_in_order(le, self.e_shstrndx) as nat,
        ) + "\n"@
    }

    /// The whole report on this header.
    pub open spec fn text(&self) -> Seq<char> {
        "  Header:\n"@ + self.e_ident.text() + self.layout_text() + self.table_text()
    }

    pub fn get_e_type_value(&self) -> (r: Half)
        ensures
            r == self.e_type,
    {
        self.e_type
    }

    pub fn get_e_machine_value(&self) -> (r: Half)
        ensures
            r == self.e_machine,
    {
        self.e_machine
    }

    pub fn get_e_version_value(&self) -> (r: Word)
        ensures
            r == self.e_version,
    {
        self.e_version
    }

    pub fn get_e_entry_value(&self) -> (r: Addr)
        ensures
            r == self.e_entry,
    {
        self.e_entry
    }

    pub fn get_e_phoff_value(&self) -> (r: Offset)
        ensures
            r == self.e_phoff,
    {
        self.e_phoff
    }

    pub fn get_e_shoff_value(&self) -> (r: Offset)
        ensures
            r == self.e_shoff,
    {
        self.e_shoff
    }

    pub fn get_e_flags_value(&self) -> (r: Word)
        ensures
            r == self.e_flags,
    {
        self.e_flags
    }

    pub fn get_e_ehsize_value(&self) -> (r: Half)
        ensures
            r == self.e_ehsize,
    {
        self.e_ehsize
    }

    pub fn get_e_phentsize_value(&self) -> (r: Half)
        ensures
            r == self.e_phentsize,
    {
        self.e_phentsize
    }

    pub fn get_e_phnum_value(&self) -> (r: Half)
        ensures
            r == self.e_phnum,
    {
        self.e_phnum
    }

    pub fn get_e_shentsize_value(&self) -> (r: Half)
        ensures
            r == self.e_shentsize,
    {
        self.e_shentsize
    }

    pub fn get_e_shnum_value(&self) -> (r: Half)
        ensures
            r == self.e_shnum,
    {
        self.e_shnum
    }

    pub fn get_e_shstrndx_value(&self) -> (r: Half)
        ensures
            r == self.e_shstrndx,
    {
        self.e_shstrndx
    }

    /// The program header table offset, in the byte order the file declares.
    pub fn program_header_offset(&self) -> (r: u64)
        ensures
            r as nat == offset_in_order(self.is_little_endian(), self.e_phoff),
    {
        offset_ordered(self.e_ident.is_little_endian_data(), self.e_phoff)
    }

    /// Label of the object type.
    pub fn get_e_type_string(&self) -> (r: String)
        ensures
            r@ == type_label(self.type_code()),
    {
        let t = half_ordered(self.e_ident.is_little_endian_data(), self.e_type);
        let label = if t == ET_NONE {
            "no file type"
        } else if t == ET_REL {
            "relocatable"
        } else if t == ET_EXEC {
            "executable"
        } else if t == ET_DYN {
            "shared object"
        } else if t == ET_CORE {
            "core file"
        } else if ET_LOOS <= t && t <= ET_HIOS {
            "OS specific"
        } else if ET_LOPROC <= t {
            "processor specific"
        } else {
            "invalid"
        };
        String::from_str(label)
    }

    /// Label of the target machine.
    pub fn get_e_machine_string(&self) -> (r: String)
        ensures
            r@ == machine_label(self.machine_code()),
    {
        let m = half_ordered(self.e_ident.is_little_endian_data(), self.e_machine);
        let label = if m == EM_NONE {
            "none"
        } else if m == EM_SPARC {
            "SPARC"
        } else if m == EM_386 {
            "x86"
        } else if m == EM_SPARC32PLUS {
            "SPARC32+"
        } else if m == EM_SPARCV9 {
            "SPARC V9"
        } else if m == EM_X86_64 {
            "x86-64"
        } else {
            "unrecognized/to be implemented"
        };
        String::from_str(label)
    }

    fn write_layout_text(&self, out: &mut String)
        ensures
            final(out)@ == old(out)@ + self.layout_text(),
    {
        let ghost start = old(out)@;
        let le = self.e_ident.is_little_endian_data();
        out.append("\tType:                              ");
        out.append(self.get_e_type_string().as_str());
        out.append("\n");
        out.append("\tMachine:                           ");
        out.append(self.get_e_machine_string().as_str());
        out.append("\n");
        out.append("\tVersion:                           ");
        push_hex(out, word_ordered(le, self.e_version) as u64);
        out.append("\n");
        out.append("\tEntry point address:               0x");
        push_hex(out, addr_ordered(le, self.e_entry));
        out.append("\n");
        out.append("\tStart of program headers:          ");
        push_decimal(out, offset_ordered(le, self.e_phoff));
        out.append(" (bytes into file)\n");
        out.append("\tStart of section headers:          ");
        push_decimal(out, offset_ordered(le, self.e_shoff));
        out.append(" (bytes into file)\n");
        assert(out@ =~= start + self.layout_text());
    }

    fn write_table_text(&self, out: &mut String)
        ensures
            final(out)@ == old(out)@ + self.table_text(),
    {
        let ghost start = old(out)@;
        let le = self.e_ident.is_little_endian_data();
        out.append("\tFlags:                             0x");
        push_hex(out, word_ordered(le, self.e_flags) as u64);
        out.append("\n");
        out.append("\tSize of this header:               ");
        push_decimal(out, half_ordered(le, self.e_ehsize) as u64);
        out.append(" (bytes)\n");
        out.append("\tSize of program headers:           ");
        push_decimal(out, half_ordered(le, self.e_phentsize) as u64);
        out.append(" (bytes)\n");
        out.append("\tNumber of program headers:         ");
        push_decimal(out, half_ordered(le, self.e_phnum) as u64);
        out.append("\n");
        out.append("\tSize of section headers:           ");
        push_decimal(out, half_ordered(le, self.e_shentsize) as u64);
        out.append(" (bytes)\n");
        out.append("\tNumber of section headers:         ");
        push_decimal(out, half_ordered(le, self.e_shnum) as u64);
        out.append("\n");
        out.append("\tSection header string table index: ");
        push_decimal(out, half_ordered(le, self.e_shstrndx) as u64);
        out.append("\n");
        assert(out@ =~= start + self.table_text());
    }

    /// The report on this header: the identification block, then each field.
    pub fn render(&self) -> (r: String)
        ensures
            r@ == self.text(),
    {
        let mut out = String::from_str("  Header:\n");
        self.e_ident.write_text(&mut out);
        self.write_layout_text(&mut out);
        self.write_table_text(&mut out);
        assert(out@ =~= self.text());
        out
    }
}

/// Decoding a 52-byte buffer as a 32-bit header gives back, as the program
/// header table offset, the four bytes at `[28, 32)` read most significant
/// byte first; in the byte order the file declares, it is those bytes read
/// in reverse when the file is little-endian.
pub proof fn lemma_phoff_round_trip(bytes: Seq<u8>, h: Header<Elf32>)
    requires
        bytes.len() == 52,
        h.e_ident.decodes(bytes.subrange(0, 16)),
        h.decodes_fields(bytes.subrange(16, 52)),
    ensures
        h.e_phoff == Offset::Elf32(be_value(bytes.subrange(28, 32)) as u32),
        offset_in_order(h.is_little_endian(), h.e_phoff) == if bytes[5] == 1 {
            be_value(bytes.subrange(28, 32).reverse())
        } else {
            be_value(bytes.subrange(28, 32))
        },
{
    let w = bytes.subrange(28, 32);
    assert(bytes.subrange(16, 52).subrange(12, 16) =~= w);
    lemma_swap32_reverses(w);
    assert(h.e_ident.ei_data == bytes.subrange(0, 16)[5]);
}

} // verus!
