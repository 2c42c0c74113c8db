//! The identification block: the first sixteen bytes of every ELF file.

use vstd::prelude::*;

use crate::enumerations::{elf_magic, Elf, ELFMAG_Bit, ELFMAG_Byte};
use crate::errors::ElfError;
use crate::text::{byte_hex_text, push_byte_hex};
use crate::types::{ELFCLASS32, ELFCLASS64, ELFDATA2LSB, ELFDATA2MSB, EV_CURRENT};

verus! {

/// Size of the identification block in bytes.
pub const EI_NIDENT: usize = 16;

/// The identification block, byte for byte.
#[derive(Debug, Clone, Copy)]
pub struct EIdent {
    /// Magic number.
    pub magic_number: [u8; 4],
    /// File class: 32-bit or 64-bit.
    pub ei_class: u8,
    /// Byte order of the multi-byte fields after this block.
    pub ei_data: u8,
    /// Format version.
    pub ei_version: u8,
    /// Operating system or ABI the object targets.
    pub ei_osabi: u8,
    /// Version of that ABI.
    pub ei_abiversion: u8,
    /// Reserved padding.
    pub ei_pad: [u8; 6],
    /// Size of the identification block.
    pub ei_nident: u8,
}

/// Label of a class byte.
pub open spec fn class_label(c: u8) -> Seq<char> {
    if c == 1 {
        "32bit"@
    } else if c == 2 {
        "64bit"@
    } else {
        "invalid"@
    }
}

/// Label of an encoding byte.
pub open spec fn encoding_label(d: u8) -> Seq<char> {
    if d == 1 {
        "little endian"@
    } else if d == 2 {
        "big endian"@
    } else {
        "invalid"@
    }
}

/// Label of a version byte.
pub open spec fn version_label(v: u8) -> Seq<char> {
    if v == 1 {
        "current"@
    } else {
        "invalid"@
    }
}

/// Label of an OS/ABI byte.
pub open spec fn osabi_label(o: u8) -> Seq<char> {
    if o == 0 {
        "System V"@
    } else if o == 1 {
        "HP-UX"@
    } else if o == 2 {
        "NetBSD"@
    } else if o == 3 {
        "Linux"@
    } else if o == 6 {
        "Solaris"@
    } else if o == 7 {
        "AIX"@
    } else if o == 8 {
        "IRIX"@
    } else if o == 9 {
        "FreeBSD"@
    } else if o == 10 {
        "TRU64"@
    } else if o == 11 {
        "Modesto"@
    } else if o == 12 {
        "OpenBSD"@
    } else if 64 <= o {
        "architecture specific"@
    } else {
        "invalid"@
    }
}

/// Label of an ABI version byte.
pub open spec fn abiversion_label(a: u8) -> Seq<char> {
    if a == 0 {
        "unspecified"@
    } else {
        "other"@
    }
}

/// The four magic bytes in hexadecimal, separated by spaces.
pub open spec fn magic_text(m: Seq<u8>) -> Seq<char> {
    byte_hex_text(m[0]) + " "@ + byte_hex_text(m[1]) + " "@ + byte_hex_text(m[2]) + " "@
        + byte_hex_text(m[3])
}

impl EIdent {
    /// `self` holds, field by field, the sixteen bytes `bytes`.
    pub open spec fn decodes(&self, bytes: Seq<u8>) -> bool {
        &&& bytes.len() == 16
        &&& self.magic_number@ == bytes.subrange(0, 4)
        &&& self.ei_class == bytes[4]
        &&& self.ei_data == bytes[5]
        &&& self.ei_version == bytes[6]
        &&& self.ei_osabi == bytes[7]
        &&& self.ei_abiversion == bytes[8]
        &&& self.ei_pad@ == bytes.subrange(9, 15)
        &&& self.ei_nident == bytes[15]
    }

    /// The magic number is that of an ELF file.
    pub open spec fn has_elf_magic(&self) -> bool {
        self.magic_number@ == elf_magic()
    }

    /// The multi-byte fields after this block are little-endian.
    pub open spec fn is_little_endian(&self) -> bool {
        self.ei_data == ELFDATA2LSB
    }

    /// The summary lines of this block.
    pub open spec fn text(&self) -> Seq<char> {
        line("\tMagic Numbers:                     "@, magic_text(self.magic_number@)) + line(
            "\tClass:                             "@,
            class_label(self.ei_class),
        ) + line("\tEncoding:                          "@, encoding_label(self.ei_data)) + line(
            "\tVersion:                           "@,
            version_label(self.ei_version),
        ) + line("\tOS/ABI:                            "@, osabi_label(self.ei_osabi)) + line(
            "\tABI Version:                       "@,
            abiversion_label(self.ei_abiversion),
        )
    }

    /// Decodes exactly sixteen bytes.
    pub fn new(bytes: &[u8]) -> (r: Result<EIdent, ElfError>)
        ensures
            bytes@.len() == 16 <==> r is Ok,
            bytes@.len() < 16 <==> r == Err::<EIdent, ElfError>(ElfError::BufferTooShort),
            bytes@.len() > 16 <==> r == Err::<EIdent, ElfError>(ElfError::LengthMismatch),
            r matches Ok(id) ==> id.decodes(bytes@),
    {
        if bytes.len() < EI_NIDENT {
            return Err(ElfError::BufferTooShort);
        }
        if bytes.len() > EI_NIDENT {
            return Err(ElfError::LengthMismatch);
        }
        let magic_number = [bytes[0], bytes[1], bytes[2], bytes[3]];
        let ei_pad = [bytes[9], bytes[10], bytes[11], bytes[12], bytes[13], bytes[14]];
        let id = EIdent {
            magic_number,
            ei_class: bytes[4],
            ei_data: bytes[5],
            ei_version: bytes[6],
            ei_osabi: bytes[7],
            ei_abiversion: bytes[8],
            ei_pad,
            ei_nident: bytes[15],
        };
        assert(id.magic_number@ =~= bytes@.subrange(0, 4));
        assert(id.ei_pad@ =~= bytes@.subrange(9, 15));
        Ok(id)
    }

    pub fn is_elf(&self) -> (r: bool)
        ensures
            r == self.has_elf_magic(),
    {
        let r = self.magic_number[ELFMAG_Bit::EI_MAG0.index()] == ELFMAG_Byte::ELFMAG0.value()
            && self.magic_number[ELFMAG_Bit::EI_MAG1.index()] == ELFMAG_Byte::ELFMAG1.value()
            && self.magic_number[ELFMAG_Bit::EI_MAG2.index()] == ELFMAG_Byte::ELFMAG2.value()
            && self.magic_number[ELFMAG_Bit::EI_MAG3.index()] == ELFMAG_Byte::ELFMAG3.value();
        proof {
            if r {
                assert(self.magic_number@ =~= elf_magic());
            }
        }
        r
    }

    pub fn is_32bit(&self) -> (r: bool)
        ensures
            r == (self.ei_class == ELFCLASS32),
    {
        self.ei_class == ELFCLASS32
    }

    pub fn is_64bit(&self) -> (r: bool)
        ensures
            r == (self.ei_class == ELFCLASS64),
    {
        self.ei_class == ELFCLASS64
    }

    /// The width that the class byte selects.
    pub fn width(&self) -> (r: Result<Elf, ElfError>)
        ensures
            self.ei_class == ELFCLASS32 <==> r == Ok::<Elf, ElfError>(Elf::Elf32),
            self.ei_class == ELFCLASS64 <==> r == Ok::<Elf, ElfError>(Elf::Elf64),
            self.ei_class != ELFCLASS32 && self.ei_class != ELFCLASS64 <==> r == Err::<
                Elf,
                ElfError,
            >(ElfError::UnknownClass),
    {
        if self.ei_class == ELFCLASS32 {
            Ok(Elf::Elf32)
        } else if self.ei_class == ELFCLASS64 {
            Ok(Elf::Elf64)
        } else {
            Err(ElfError::UnknownClass)
        }
    }

    pub fn is_little_endian_data(&self) -> (r: bool)
        ensures
            r == self.is_little_endian(),
    {
        self.ei_data == ELFDATA2LSB
    }

    /// The magic number in hexadecimal.
    pub fn get_magic_string(&self) -> (r: String)
        ensures
            r@ == magic_text(self.magic_number@),
    {
        let mut out = String::new();
        push_byte_hex(&mut out, self.magic_number[0]);
        out.append(" ");
        push_byte_hex(&mut out, self.magic_number[1]);
        out.append(" ");
        push_byte_hex(&mut out, self.magic_number[2]);
        out.append(" ");
        push_byte_hex(&mut out, self.magic_number[3]);
        assert(out@ =~= magic_text(self.magic_number@));
        out
    }

    pub fn get_ei_class_string(&self) -> (r: String)
        ensures
            r@ == class_label(self.ei_class),
    {
        if self.ei_class == ELFCLASS32 {
            String::from_str("32bit")
        } else if self.ei_class == ELFCLASS64 {
            String::from_str("64bit")
        } else {
            String::from_str("invalid")
        }
    }

    pub fn get_ei_encoding_string(&self) -> (r: String)
        ensures
            r@ == encoding_label(self.ei_data),
    {
        if self.ei_data == ELFDATA2LSB {
            String::from_str("little endian")
        } else if self.ei_data == ELFDATA2MSB {
            String::from_str("big endian")
        } else {
            String::from_str("invalid")
        }
    }

    pub fn get_ei_version_string(&self) -> (r: String)
        ensures
            r@ == version_label(self.ei_version),
    {
        if self.ei_version == EV_CURRENT {
            String::from_str("current")
        } else {
            String::from_str("invalid")
        }
    }

    pub fn get_ei_osabi_string(&self) -> (r: String)
        ensures
            r@ == osabi_label(self.ei_osabi),
    {
        let label = match self.ei_osabi {
            0 => "System V",
            1 => "HP-UX",
            2 => "NetBSD",
            3 => "Linux",
            6 => "Solaris",
            7 => "AIX",
            8 => "IRIX",
            9 => "FreeBSD",
            10 => "TRU64",
            11 => "Modesto",
            12 => "OpenBSD",
            64..=255 => "architecture specific",
            _ => "invalid",
        };
        String::from_str(label)
    }

    pub fn get_ei_abiversion_string(&self) -> (r: String)
        ensures
            r@ == abiversion_label(self.ei_abiversion),
    {
        if self.ei_abiversion == 0 {
            String::from_str("unspecified")
        } else {
            String::from_str("other")
        }
    }

    /// Appends the summary lines of this block to `out`.
    pub fn write_text(&self, out: &mut String)
        ensures
            final(out)@ == old(out)@ + self.text(),
    {
        let ghost start = old(out)@;
        let magic = self.get_magic_string();
        write_line(out, "\tMagic Numbers:                     ", magic.as_str());
        let class = self.get_ei_class_string();
        write_line(out, "\tClass:                             ", class.as_str());
        let encoding = self.get_ei_encoding_string();
        write_line(out, "\tEncoding:                          ", encoding.as_str());
        let version = self.get_ei_version_string();
        write_line(out, "\tVersion:                           ", version.as_str());
        let osabi = self.get_ei_osabi_string();
        write_line(out, "\tOS/ABI:                            ", osabi.as_str());
        let abiversion = self.get_ei_abiversion_string();
        write_line(out, "\tABI Version:                       ", abiversion.as_str());
        assert(out@ =~= start + self.text());
    }
}

/// One report line: a label, a value and a line break.
pub open spec fn line(label: Seq<char>, value: Seq<char>) -> Seq<char> {
    label + value + "\n"@
}

/// Appends one report line to `out`.
pub fn write_line(out: &mut String, label: &str, value: &str)
    ensures
        final(out)@ == old(out)@ + line(label@, value@),
{
    let ghost start = old(out)@;
    out.append(label);
    out.append(value);
    out.append("\n");
    assert(out@ =~= start + line(label@, value@));
}

/// Sixteen bytes always decode, and the block is an ELF one exactly when
/// they open with `0x7F 'E' 'L' 'F'`.
pub proof fn lemma_is_elf_iff_magic(bytes: Seq<u8>, id: EIdent)
    requires
        bytes.len() == 16,
        id.decodes(bytes),
    ensures
        id.has_elf_magic() <==> (bytes[0] == 0x7F && bytes[1] == 0x45 && bytes[2] == 0x4C
            && bytes[3] == 0x46),
{
    if bytes[0] == 0x7F && bytes[1] == 0x45 && bytes[2] == 0x4C && bytes[3] == 0x46 {
        assert(id.magic_number@ =~= elf_magic());
    }
    if id.has_elf_magic() {
        assert(id.magic_number@[0] == bytes[0]);
        assert(id.magic_number@[1] == bytes[1]);
        assert(id.magic_number@[2] == bytes[2]);
        assert(id.magic_number@[3] == bytes[3]);
    }
}

} // verus!
