use clri::error::{DecodeError, Site};
use clri::pe::{PEFile, Section, SectionHeader};

fn push_u16(out: &mut Vec<u8>, v: u16) {
    out.extend_from_slice(&v.to_le_bytes());
}

fn push_u32(out: &mut Vec<u8>, v: u32) {
    out.extend_from_slice(&v.to_le_bytes());
}

/// A minimal PE image with one section named ".text" whose data is four
/// bytes at the end of the file.
fn minimal_pe() -> Vec<u8> {
    let mut d = Vec::new();
    d.extend_from_slice(&[0x4D, 0x5A]); // DOS magic
    while d.len() < 0x3C {
        d.push(0);
    }
    let pe_start = 0x40u32;
    push_u32(&mut d, pe_start);
    d.extend_from_slice(&[0x50, 0x45, 0, 0]); // PE magic
    // COFF header: machine, section count, and the rest zeroed.
    push_u16(&mut d, 0x14C);
    push_u16(&mut d, 1); // one section
    while d.len() < pe_start as usize + 4 + 20 {
        d.push(0);
    }
    // Optional header: 96 bytes, all zero but the directory count.
    while d.len() < pe_start as usize + 4 + 20 + 92 {
        d.push(0);
    }
    push_u32(&mut d, 0); // zero data directories
    // One section header.
    let data_offset = (d.len() + 40) as u32;
    d.extend_from_slice(b".text\0\0\0");
    push_u32(&mut d, 4); // virtual size
    push_u32(&mut d, 0x2000); // virtual address
    push_u32(&mut d, 4); // raw size
    push_u32(&mut d, data_offset);
    d.extend_from_slice(&[0u8; 16]);
    d.extend_from_slice(&[0xDE, 0xAD, 0xBE, 0xEF]);
    d
}

#[test]
fn pe_file_parses_sections() {
    let bytes = minimal_pe();
    let pe = PEFile::read_from(&bytes).unwrap();
    assert_eq!(1, pe.sections.len());
    let section = &pe.sections[0];
    assert_eq!(".text", section.header.name);
    assert_eq!(0x2000, section.header.virtual_address);
    assert_eq!(4, section.header.virtual_size);
    assert_eq!(vec![0xDEu8, 0xAD, 0xBE, 0xEF], section.data);
}

#[test]
fn pe_file_checks_dos_magic() {
    let mut bytes = minimal_pe();
    bytes[0] = 0x4E;
    let err = PEFile::read_from(&bytes).unwrap_err();
    assert_eq!(err, DecodeError::BadMagic(Site::DosMagic));
}

#[test]
fn pe_file_checks_pe_magic() {
    let mut bytes = minimal_pe();
    bytes[0x40] = 0x51;
    let err = PEFile::read_from(&bytes).unwrap_err();
    assert_eq!(err, DecodeError::BadMagic(Site::PeMagic));
}

#[test]
fn rva_resolves_into_containing_section() {
    let bytes = minimal_pe();
    let pe = PEFile::read_from(&bytes).unwrap();
    let (section, offset) = pe.rva_to_section_offset(0x2002).unwrap();
    assert_eq!(".text", section.header.name);
    assert_eq!(2, offset);
    assert!(pe.rva_to_section_offset(0x1000).is_none());
    assert!(pe.rva_to_section_offset(0x2005).is_none());
}

#[test]
fn resolve_rva_subtracts_base() {
    let section = Section {
        header: SectionHeader {
            name: ".text".to_string(),
            virtual_address: 0x2000,
            virtual_size: 8,
            real_size: 8,
            offset: 0,
        },
        data: vec![0u8; 8],
    };
    assert_eq!(3, section.resolve_rva(0x2003));
}
