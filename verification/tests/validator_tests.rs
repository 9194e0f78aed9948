use antboot::status::FormatError;
use antboot::validator::parse_header;

/// A minimal well-formed 64-bit little-endian executable header with no
/// section or segment tables.
fn minimal_elf64() -> Vec<u8> {
    let mut h = vec![0u8; 64];
    h[0] = 0x7f;
    h[1] = 0x45;
    h[2] = 0x4c;
    h[3] = 0x46;
    h[4] = 2; // 64-bit
    h[5] = 1; // little-endian
    h[6] = 1; // identification version
    h[16] = 2; // executable
    h[18] = 0x3e; // machine: x86-64
    h[20] = 1; // file version
    h[24] = 0x00;
    h[25] = 0x10; // entry 0x1000
    h[52] = 64; // header size
    h
}

#[test]
fn well_formed_header_validates() {
    let h = minimal_elf64();
    let d = parse_header(&h).unwrap();
    assert_eq!(d.class, 2);
    assert_eq!(d.endianness, 1);
    assert_eq!(d.machine, 0x3e);
    assert_eq!(d.entry, 0x1000);
}

#[test]
fn big_endian_machine_field_is_read_in_file_order() {
    let mut h = minimal_elf64();
    h[5] = 2; // big-endian
    h[18] = 0x00;
    h[19] = 0x3e;
    let d = parse_header(&h).unwrap();
    assert_eq!(d.endianness, 2);
    assert_eq!(d.machine, 0x3e);
}

#[test]
fn bad_magic_names_offset_expected_and_found() {
    let mut h = minimal_elf64();
    h[1] = 0x99;
    let e = parse_header(&h).err().unwrap();
    assert_eq!(e, FormatError::BadMagic { offset: 1, expected: 0x45, found: 0x99 });
}

#[test]
fn wrong_first_byte_is_reported_at_offset_zero() {
    let mut h = minimal_elf64();
    h[0] = 0;
    let e = parse_header(&h).err().unwrap();
    assert_eq!(e, FormatError::BadMagic { offset: 0, expected: 0x7f, found: 0 });
}

#[test]
fn buffer_shorter_than_magic_is_too_short() {
    let e = parse_header(&[0x7f, 0x45]).err().unwrap();
    assert_eq!(e, FormatError::TooShort { length: 2 });
}

#[test]
fn valid_magic_with_bad_class_is_malformed() {
    let mut h = minimal_elf64();
    h[4] = 9;
    let e = parse_header(&h).err().unwrap();
    assert_eq!(e, FormatError::Malformed);
}

#[test]
fn valid_magic_with_bad_ident_version_is_malformed() {
    let mut h = minimal_elf64();
    h[6] = 0;
    let e = parse_header(&h).err().unwrap();
    assert_eq!(e, FormatError::Malformed);
}

#[test]
fn truncated_header_after_ident_is_malformed() {
    let h = minimal_elf64();
    let e = parse_header(&h[..32]).err().unwrap();
    assert_eq!(e, FormatError::Malformed);
}
