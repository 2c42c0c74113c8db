use dissect::enumerations::{Addr, Half, Offset, Selectable, Word};
use dissect::errors::ElfError;
use dissect::header::Header;
use dissect::ident::EIdent;
use dissect::types::{Elf32, Elf64};

/// A little-endian 32-bit x86 executable header.
fn elf32_le_header() -> Vec<u8> {
    vec![
        0x7F, 0x45, 0x4C, 0x46, 0x01, 0x01, 0x01, 0x00, 0x00, 0x00, 0x00, 0x00, 0x00, 0x00, 0x00, 0x00,
        0x02, 0x00, // type
        0x03, 0x00, // machine
        0x01, 0x00, 0x00, 0x00, // version
        0x00, 0x80, 0x04, 0x08, // entry
        0x34, 0x00, 0x00, 0x00, // program header offset
        0x00, 0x10, 0x00, 0x00, // section header offset
        0x00, 0x00, 0x00, 0x00, // flags
        0x34, 0x00, // header size
        0x20, 0x00, // program header entry size
        0x02, 0x00, // program header count
        0x28, 0x00, // section header entry size
        0x05, 0x00, // section header count
        0x04, 0x00, // section name table index
    ]
}

/// A big-endian 64-bit SPARC V9 shared object header.
fn elf64_be_header() -> Vec<u8> {
    vec![
        0x7F, 0x45, 0x4C, 0x46, 0x02, 0x02, 0x01, 0x06, 0x00, 0x00, 0x00, 0x00, 0x00, 0x00, 0x00, 0x00,
        0x00, 0x03, // type
        0x00, 0x2B, // machine
        0x00, 0x00, 0x00, 0x01, // version
        0x00, 0x00, 0x00, 0x01, 0x00, 0x00, 0x10, 0x00, // entry
        0x00, 0x00, 0x00, 0x00, 0x00, 0x00, 0x00, 0x40, // program header offset
        0x00, 0x00, 0x00, 0x00, 0x00, 0x01, 0x00, 0x00, // section header offset
        0x00, 0x00, 0x00, 0x02, // flags
        0x00, 0x40, // header size
        0x00, 0x38, // program header entry size
        0x00, 0x07, // program header count
        0x00, 0x40, // section header entry size
        0x00, 0x1C, // section header count
        0x00, 0x1B, // section name table index
    ]
}

#[test]
fn elf32_fields_at_their_offsets() {
    let bytes = elf32_le_header();
    let h = Header::<Elf32>::new(&bytes).unwrap();
    assert!(h.e_ident.is_elf());
    assert_eq!(h.get_e_type_value(), Half::Elf32(0x0200));
    assert_eq!(h.get_e_machine_value(), Half::Elf32(0x0300));
    assert_eq!(h.get_e_version_value(), Word::Elf32(0x0100_0000));
    assert_eq!(h.get_e_entry_value(), Addr::Elf32(0x0080_0408));
    assert_eq!(h.get_e_phoff_value(), Offset::Elf32(0x3400_0000));
    assert_eq!(h.get_e_shoff_value(), Offset::Elf32(0x0010_0000));
    assert_eq!(h.get_e_flags_value(), Word::Elf32(0));
    assert_eq!(h.get_e_ehsize_value(), Half::Elf32(0x3400));
    assert_eq!(h.get_e_phentsize_value(), Half::Elf32(0x2000));
    assert_eq!(h.get_e_phnum_value(), Half::Elf32(0x0200));
    assert_eq!(h.get_e_shentsize_value(), Half::Elf32(0x2800));
    assert_eq!(h.get_e_shnum_value(), Half::Elf32(0x0500));
    assert_eq!(h.get_e_shstrndx_value(), Half::Elf32(0x0400));
    assert_eq!(h.get_e_type_string(), "executable");
    assert_eq!(h.get_e_machine_string(), "x86");
}

#[test]
fn elf32_program_header_offset_round_trip() {
    let mut bytes = elf32_le_header();
    bytes[28..32].copy_from_slice(&[0x12, 0x34, 0x56, 0x78]);
    let h = Header::<Elf32>::new(&bytes).unwrap();
    assert_eq!(h.get_e_phoff_value(), Offset::Elf32(0x1234_5678));
    assert_eq!(h.get_e_phoff_value().get_elf32_value(), Some(0x1234_5678));
    assert_eq!(h.program_header_offset(), 0x7856_3412);
    bytes[5] = 2;
    let h = Header::<Elf32>::new(&bytes).unwrap();
    assert_eq!(h.program_header_offset(), 0x1234_5678);
}

#[test]
fn elf32_partial_matches_whole() {
    let bytes = elf32_le_header();
    let id = EIdent::new(&bytes[0..16]).unwrap();
    let h = Header::<Elf32>::new_partial(&bytes[16..52], id).unwrap();
    let whole = Header::<Elf32>::new(&bytes).unwrap();
    assert_eq!(h.render(), whole.render());
    assert_eq!(h.e_entry, whole.e_entry);
}

#[test]
fn elf32_short_buffers_fail() {
    let bytes = elf32_le_header();
    assert_eq!(Header::<Elf32>::new(&bytes[0..51]).unwrap_err(), ElfError::BufferTooShort);
    assert_eq!(Header::<Elf32>::new(&bytes[0..10]).unwrap_err(), ElfError::BufferTooShort);
    let id = EIdent::new(&bytes[0..16]).unwrap();
    assert_eq!(
        Header::<Elf32>::new_partial(&bytes[16..51], id).unwrap_err(),
        ElfError::BufferTooShort
    );
}

#[test]
fn elf32_longer_buffers_read_the_prefix() {
    let mut bytes = elf32_le_header();
    bytes.extend_from_slice(&[0xAA; 20]);
    let h = Header::<Elf32>::new(&bytes).unwrap();
    assert_eq!(h.get_e_shstrndx_value(), Half::Elf32(0x0400));
}

#[test]
fn elf64_fields_at_their_offsets() {
    let bytes = elf64_be_header();
    let h = Header::<Elf64>::new(&bytes).unwrap();
    assert_eq!(h.get_e_type_value(), Half::Elf64(3));
    assert_eq!(h.get_e_machine_value(), Half::Elf64(43));
    assert_eq!(h.get_e_version_value(), Word::Elf64(1));
    assert_eq!(h.get_e_entry_value(), Addr::Elf64(0x1_0000_1000));
    assert_eq!(h.get_e_phoff_value(), Offset::Elf64(0x40));
    assert_eq!(h.get_e_shoff_value(), Offset::Elf64(0x10000));
    assert_eq!(h.get_e_flags_value(), Word::Elf64(2));
    assert_eq!(h.get_e_ehsize_value(), Half::Elf64(64));
    assert_eq!(h.get_e_phentsize_value(), Half::Elf64(56));
    assert_eq!(h.get_e_phnum_value(), Half::Elf64(7));
    assert_eq!(h.get_e_shentsize_value(), Half::Elf64(64));
    assert_eq!(h.get_e_shnum_value(), Half::Elf64(28));
    assert_eq!(h.get_e_shstrndx_value(), Half::Elf64(27));
    assert_eq!(h.get_e_type_string(), "shared object");
    assert_eq!(h.get_e_machine_string(), "SPARC V9");
    assert_eq!(h.program_header_offset(), 0x40);
}

#[test]
fn elf64_with_unrecognized_machine() {
    let mut bytes = elf64_be_header();
    bytes[18] = 0xFF;
    bytes[19] = 0xFF;
    let id = EIdent::new(&bytes[0..16]).unwrap();
    assert!(id.is_64bit());
    let rest = &bytes[16..64];
    assert_eq!(rest.len(), 48);
    let h = Header::<Elf64>::new_partial(rest, id).unwrap();
    assert_eq!(h.get_e_machine_value(), Half::Elf64(0xFFFF));
    assert_eq!(h.get_e_machine_string(), "unrecognized/to be implemented");
}

#[test]
fn elf64_short_buffers_fail() {
    let bytes = elf64_be_header();
    assert_eq!(Header::<Elf64>::new(&bytes[0..63]).unwrap_err(), ElfError::BufferTooShort);
    let id = EIdent::new(&bytes[0..16]).unwrap();
    assert_eq!(
        Header::<Elf64>::new_partial(&bytes[16..63], id).unwrap_err(),
        ElfError::BufferTooShort
    );
}

#[test]
fn record_fields_share_its_width() {
    let h32 = Header::<Elf32>::new(&elf32_le_header()).unwrap();
    assert!(h32.e_entry.is_elf32_type() && !h32.e_entry.is_elf64_type());
    assert_eq!(h32.e_entry.get_elf64_value(), None);
    let h64 = Header::<Elf64>::new(&elf64_be_header()).unwrap();
    assert!(h64.e_shoff.is_elf64_type() && !h64.e_shoff.is_elf32_type());
    assert_eq!(h64.e_shoff.get_elf32_value(), None);
}

#[test]
fn object_type_labels() {
    let cases = [
        (0x0000u16, "no file type"),
        (0x0001, "relocatable"),
        (0x0002, "executable"),
        (0x0003, "shared object"),
        (0x0004, "core file"),
        (0x0005, "invalid"),
        (0xfdff, "invalid"),
        (0xfe00, "OS specific"),
        (0xfe80, "OS specific"),
        (0xfeff, "OS specific"),
        (0xff00, "processor specific"),
        (0xffff, "processor specific"),
    ];
    let mut bytes = elf64_be_header();
    for (code, label) in cases {
        bytes[16..18].copy_from_slice(&code.to_be_bytes());
        let h = Header::<Elf64>::new(&bytes).unwrap();
        assert_eq!(h.get_e_type_string(), label);
    }
}

#[test]
fn machine_labels() {
    let cases = [
        (0u16, "none"),
        (2, "SPARC"),
        (3, "x86"),
        (18, "SPARC32+"),
        (43, "SPARC V9"),
        (62, "x86-64"),
        (1, "unrecognized/to be implemented"),
        (40, "unrecognized/to be implemented"),
    ];
    let mut bytes = elf32_le_header();
    for (code, label) in cases {
        bytes[18..20].copy_from_slice(&code.to_le_bytes());
        let h = Header::<Elf32>::new(&bytes).unwrap();
        assert_eq!(h.get_e_machine_string(), label);
    }
}
