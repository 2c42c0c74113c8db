use dissect::enumerations::Elf;
use dissect::errors::ElfError;
use dissect::ident::EIdent;

const ELF32_LE: [u8; 16] = [
    0x7F, 0x45, 0x4C, 0x46, 0x01, 0x01, 0x01, 0x00, 0x00, 0x00, 0x00, 0x00, 0x00, 0x00, 0x00, 0x00,
];

#[test]
fn elf_ident_scenario() {
    let id = EIdent::new(&ELF32_LE).unwrap();
    assert!(id.is_elf());
    assert_eq!(id.get_ei_class_string(), "32bit");
    assert_eq!(id.get_ei_encoding_string(), "little endian");
    assert_eq!(id.get_ei_version_string(), "current");
    assert!(id.is_32bit());
    assert!(!id.is_64bit());
}

#[test]
fn fields_are_taken_byte_for_byte() {
    let bytes: [u8; 16] = [0x7F, 0x45, 0x4C, 0x46, 2, 2, 1, 3, 7, 9, 10, 11, 12, 13, 14, 16];
    let id = EIdent::new(&bytes).unwrap();
    assert_eq!(id.magic_number, [0x7F, 0x45, 0x4C, 0x46]);
    assert_eq!(id.ei_class, 2);
    assert_eq!(id.ei_data, 2);
    assert_eq!(id.ei_version, 1);
    assert_eq!(id.ei_osabi, 3);
    assert_eq!(id.ei_abiversion, 7);
    assert_eq!(id.ei_pad, [9, 10, 11, 12, 13, 14]);
    assert_eq!(id.ei_nident, 16);
    assert!(id.is_64bit());
    assert_eq!(id.get_ei_encoding_string(), "big endian");
    assert_eq!(id.get_ei_osabi_string(), "Linux");
    assert_eq!(id.get_ei_abiversion_string(), "other");
}

#[test]
fn other_magic_is_not_elf() {
    for i in 0..4 {
        let mut bytes = ELF32_LE;
        bytes[i] ^= 0x20;
        let id = EIdent::new(&bytes).unwrap();
        assert!(!id.is_elf());
    }
    let zeros = [0u8; 16];
    assert!(!EIdent::new(&zeros).unwrap().is_elf());
}

#[test]
fn fifteen_bytes_are_too_short() {
    assert_eq!(EIdent::new(&ELF32_LE[0..15]).unwrap_err(), ElfError::BufferTooShort);
    assert_eq!(EIdent::new(&[]).unwrap_err(), ElfError::BufferTooShort);
}

#[test]
fn sixteen_bytes_without_magic_construct() {
    let bytes = [0u8, 1, 2, 3, 1, 1, 1, 0, 0, 0, 0, 0, 0, 0, 0, 0];
    let id = EIdent::new(&bytes).unwrap();
    assert!(!id.is_elf());
}

#[test]
fn seventeen_bytes_do_not_fit() {
    let mut bytes = ELF32_LE.to_vec();
    bytes.push(0);
    assert_eq!(EIdent::new(&bytes).unwrap_err(), ElfError::LengthMismatch);
}

#[test]
fn class_selects_width() {
    let mut bytes = ELF32_LE;
    assert_eq!(EIdent::new(&bytes).unwrap().width(), Ok(Elf::Elf32));
    bytes[4] = 2;
    assert_eq!(EIdent::new(&bytes).unwrap().width(), Ok(Elf::Elf64));
    for class in [0u8, 3, 255] {
        bytes[4] = class;
        let id = EIdent::new(&bytes).unwrap();
        assert_eq!(id.width(), Err(ElfError::UnknownClass));
        assert!(!id.is_32bit());
        assert!(!id.is_64bit());
        assert_eq!(id.get_ei_class_string(), "invalid");
    }
}

#[test]
fn ident_labels() {
    let mut bytes = ELF32_LE;
    bytes[5] = 0;
    bytes[6] = 2;
    let id = EIdent::new(&bytes).unwrap();
    assert_eq!(id.get_ei_encoding_string(), "invalid");
    assert_eq!(id.get_ei_version_string(), "invalid");
    assert_eq!(id.get_ei_abiversion_string(), "unspecified");
    assert_eq!(id.get_magic_string(), "7F 45 4C 46");
    let names = [
        (0u8, "System V"),
        (1, "HP-UX"),
        (2, "NetBSD"),
        (3, "Linux"),
        (4, "invalid"),
        (5, "invalid"),
        (6, "Solaris"),
        (7, "AIX"),
        (8, "IRIX"),
        (9, "FreeBSD"),
        (10, "TRU64"),
        (11, "Modesto"),
        (12, "OpenBSD"),
        (13, "invalid"),
        (63, "invalid"),
        (64, "architecture specific"),
        (97, "architecture specific"),
        (255, "architecture specific"),
    ];
    for (code, name) in names {
        bytes[7] = code;
        assert_eq!(EIdent::new(&bytes).unwrap().get_ei_osabi_string(), name);
    }
}

#[test]
fn ident_summary_lines() {
    let id = EIdent::new(&ELF32_LE).unwrap();
    let mut out = String::new();
    id.write_text(&mut out);
    let expected = "\
        \tMagic Numbers:                     7F 45 4C 46\n\
        \tClass:                             32bit\n\
        \tEncoding:                          little endian\n\
        \tVersion:                           current\n\
        \tOS/ABI:                            System V\n\
        \tABI Version:                       unspecified\n";
    assert_eq!(out, expected);
}
