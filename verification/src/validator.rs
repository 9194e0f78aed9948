use vstd::prelude::*;
use crate::status::FormatError;

verus! {

/// The four-byte executable magic, byte by byte.
pub open spec fn magic_byte(i: int) -> u8 {
    if i == 0 {
        0x7f
    } else if i == 1 {
        0x45
    } else if i == 2 {
        0x4c
    } else {
        0x46
    }
}

/// The buffer starts with the executable magic.
pub open spec fn elf_magic_ok(s: Seq<u8>) -> bool {
    s.len() >= 4 && s[0] == magic_byte(0) && s[1] == magic_byte(1) && s[2] == magic_byte(2) && s[3]
        == magic_byte(3)
}

/// The sixteen-byte identification prefix is well formed: the magic, a known
/// word-size class, a known byte order, and the current identification
/// version.
pub open spec fn elf_ident_ok(s: Seq<u8>) -> bool {
    &&& s.len() >= 16
    &&& elf_magic_ok(s)
    &&& (s[4] == 1 || s[4] == 2)
    &&& (s[5] == 1 || s[5] == 2)
    &&& s[6] == 1
}

/// Byte length of the whole file header for the buffer's word-size class.
pub open spec fn elf_header_len(s: Seq<u8>) -> int {
    if s[4] == 1 {
        52
    } else {
        64
    }
}

/// The buffer covers the whole file header of its class.
pub open spec fn elf_header_complete(s: Seq<u8>) -> bool {
    s.len() >= elf_header_len(s)
}

/// The machine-type field: a two-byte value in the file's own byte order.
pub open spec fn elf_machine_of(s: Seq<u8>) -> int {
    if s[5] == 1 {
        s[18] + s[19] * 0x100
    } else {
        s[18] * 0x100 + s[19]
    }
}

/// The header places neither a section nor a segment table in the file: both
/// table offsets are zero for the buffer's class.
pub open spec fn elf_tables_absent(s: Seq<u8>) -> bool {
    if s[4] == 1 {
        forall|i: int| 28 <= i < 36 ==> s[i] == 0
    } else {
        forall|i: int| 32 <= i < 48 ==> s[i] == 0
    }
}

/// The structural facts of a loaded executable that header validation
/// confirms: word-size class, byte order, target machine, and the declared
/// entry address. Classes and byte orders are the identification bytes as
/// the header carries them.
#[derive(Clone, Copy, Debug, PartialEq, Eq, Structural)]
pub struct ExecutableDescriptor {
    /// Word-size class: 1 for 32-bit, 2 for 64-bit.
    pub class: u8,
    /// Byte order: 1 for little-endian, 2 for big-endian.
    pub endianness: u8,
    /// Target machine type, as the header's two-byte field reads.
    pub machine: u16,
    /// Declared entry address.
    pub entry: u64,
}

#[verifier::external_type_specification]
#[verifier::external_body]
pub struct ExParseError(elf::ParseError);

/// Relies on elf::ElfBytes::<AnyEndian>::minimal_parse: it succeeds only
/// after verifying the identification prefix (magic, class, byte order,
/// identification version) and reading the whole file header, and it fails
/// on any buffer whose magic is absent or wrong; with both table offsets
/// zero and a complete header of a valid identification it finds no further
/// fault. The returned class and byte order are the identification bytes;
/// the machine type is the header's two-byte field in the file's byte order.
#[verifier::external_body]
fn parse_elf(data: &[u8]) -> (r: Result<ExecutableDescriptor, elf::ParseError>)
    ensures
        r matches Ok(d) ==> elf_ident_ok(data@) && elf_header_complete(data@) && d.class == data@[4]
            && d.endianness == data@[5] && d.machine == elf_machine_of(data@),
        !elf_magic_ok(data@) ==> r is Err,
        elf_ident_ok(data@) && elf_header_complete(data@) && elf_tables_absent(data@) ==> r is Ok,
{
    match elf::ElfBytes::<elf::endian::AnyEndian>::minimal_parse(data) {
        Ok(f) => Ok(ExecutableDescriptor {
            class: match f.ehdr.class {
                elf::file::Class::ELF32 => 1,
                elf::file::Class::ELF64 => 2,
            },
            endianness: match f.ehdr.endianness {
                elf::endian::AnyEndian::Little => 1,
                elf::endian::AnyEndian::Big => 2,
            },
            machine: f.ehdr.e_machine,
            entry: f.ehdr.e_entry,
        }),
        Err(e) => Err(e),
    }
}

/// Performs the minimal structural parse of the loaded kernel buffer:
/// enough to confirm it is a well-formed executable of the expected kind,
/// loading no segment and resolving no symbol. Any parse failure names the
/// offset and the expected and found bytes where a single byte decides.
pub fn parse_header(kernel: &[u8]) -> (r: Result<ExecutableDescriptor, FormatError>)
    ensures
        r matches Ok(d) ==> elf_ident_ok(kernel@) && elf_header_complete(kernel@) && d.class
            == kernel@[4] && d.endianness == kernel@[5] && d.machine == elf_machine_of(kernel@),
        elf_ident_ok(kernel@) && elf_header_complete(kernel@) && elf_tables_absent(kernel@)
            ==> r is Ok,
        !elf_magic_ok(kernel@) ==> r is Err,
        kernel@.len() < 4 ==> (r matches Err(e) && e matches FormatError::TooShort { length }
            && length == kernel@.len()),
        kernel@.len() >= 4 && !elf_magic_ok(kernel@) ==> (r matches Err(e) && e
            matches FormatError::BadMagic { offset, expected, found } && 0 <= offset < 4 && found
            == kernel@[offset as int] && expected == magic_byte(offset as int) && found
            != expected),
        elf_magic_ok(kernel@) && r is Err ==> r matches Err(FormatError::Malformed),
{
    let len = kernel.len();
    if len < 4 {
        return Err(FormatError::TooShort { length: len });
    }
    let mut i: usize = 0;
    while i < 4
        invariant
            i <= 4,
            kernel@.len() >= 4,
            forall|k: int| 0 <= k < i ==> kernel@[k] == magic_byte(k),
        decreases 4 - i,
    {
        let expected: u8 = if i == 0 {
            0x7f
        } else if i == 1 {
            0x45
        } else if i == 2 {
            0x4c
        } else {
            0x46
        };
        let found = kernel[i];
        if found != expected {
            return Err(FormatError::BadMagic { offset: i, expected, found });
        }
        i += 1;
    }
    match parse_elf(kernel) {
        Ok(d) => Ok(d),
        Err(_) => Err(FormatError::Malformed),
    }
}

} // verus!
