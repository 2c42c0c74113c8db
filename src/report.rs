//! From the bytes of a whole file to the report on its header.

use vstd::prelude::*;

use crate::enumerations::{elf_magic, Elf};
use crate::errors::ElfError;
use crate::header::Header;
use crate::ident::{EIdent, EI_NIDENT};
use crate::types::{Elf32, Elf64};

verus! {

/// The file opens with the ELF magic sequence.
pub open spec fn opens_with_magic(content: Seq<u8>) -> bool {
    content.len() >= 4 && content.subrange(0, 4) == elf_magic()
}

/// The report on the header of the file `content`.
///
/// A file shorter than the identification block, or than the layout its
/// class selects, is `BufferTooShort`; one without the magic sequence is
/// `NotAnElfFile`. A class that is neither 32-bit nor 64-bit is no error:
/// the report then covers the identification block alone.
pub fn dissect(content: &[u8]) -> (r: Result<String, ElfError>)
    ensures
        r == Err::<String, ElfError>(ElfError::BufferTooShort) <==> {
            ||| content@.len() < 16
            ||| opens_with_magic(content@) && content@[4] == 1 && content@.len() < 52
            ||| opens_with_magic(content@) && content@[4] == 2 && content@.len() < 64
        },
        r == Err::<String, ElfError>(ElfError::NotAnElfFile) <==> content@.len() >= 16
            && !opens_with_magic(content@),
        r matches Err(e) ==> e == ElfError::BufferTooShort || e == ElfError::NotAnElfFile,
        r matches Ok(s) ==> {
            &&& content@[4] == 1 ==> exists|h: Header<Elf32>|
                {
                    &&& h.e_ident.decodes(content@.subrange(0, 16))
                    &&& #[trigger] h.decodes_fields(content@.subrange(16, content@.len() as int))
                    &&& s@ == h.text()
                }
            &&& content@[4] == 2 ==> exists|h: Header<Elf64>|
                {
                    &&& h.e_ident.decodes(content@.subrange(0, 16))
                    &&& #[trigger] h.decodes_fields(content@.subrange(16, content@.len() as int))
                    &&& s@ == h.text()
                }
            &&& content@[4] != 1 && content@[4] != 2 ==> exists|id: EIdent|
                #[trigger] id.decodes(content@.subrange(0, 16)) && s@ == "  Header:\n"@ + id.text()
        },
{
    if content.len() < EI_NIDENT {
        return Err(ElfError::BufferTooShort);
    }
    let e_ident = match EIdent::new(&content[0..EI_NIDENT]) {
        Ok(id) => id,
        Err(e) => return Err(e),
    };
    proof {
        assert(content@.subrange(0, 16).subrange(0, 4) =~= content@.subrange(0, 4));
    }
    if !e_ident.is_elf() {
        return Err(ElfError::NotAnElfFile);
    }
    let rest = &content[EI_NIDENT..content.len()];
    match e_ident.width() {
        Ok(Elf::Elf32) => match Header::<Elf32>::new_partial(rest, e_ident) {
            Ok(h) => Ok(h.render()),
            Err(e) => Err(e),
        },
        Ok(Elf::Elf64) => match Header::<Elf64>::new_partial(rest, e_ident) {
            Ok(h) => Ok(h.render()),
            Err(e) => Err(e),
        },
        Err(_) => {
            let mut out = String::from_str("  Header:\n");
            e_ident.write_text(&mut out);
            Ok(out)
        },
    }
}

} // verus!
