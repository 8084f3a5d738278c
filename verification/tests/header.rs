use binper::error::Error;
use binper::pe::header::{
    DataDirectory, Headers, Section, DOS_HEADER_FILE_ADD_OF_RELOC_TABLE, DOS_HEADER_SIGNATURE,
    MAX_NUMBER_OF_RVA, OPTIONAL_HEADER_SIGNATURE_64, PE_HEADER_SIGNATURE,
};
use binper::pe::pe::PE as Image;

const PE: [u8; 1008] = [
    0x4D, 0x5A, 0x90, 0x00, 0x03, 0x00, 0x00, 0x00, 0x04, 0x00, 0x00, 0x00, 0xFF, 0xFF, 0x00, 0x00,
    0xB8, 0x00, 0x00, 0x00, 0x00, 0x00, 0x00, 0x00, 0x40, 0x00, 0x00, 0x00, 0x00, 0x00, 0x00, 0x00,
    0x00, 0x00, 0x00, 0x00, 0x00, 0x00, 0x00, 0x00, 0x00, 0x00, 0x00, 0x00, 0x00, 0x00, 0x00, 0x00,
    0x00, 0x00, 0x00, 0x00, 0x00, 0x00, 0x00, 0x00, 0x00, 0x00, 0x00, 0x00, 0x80, 0x00, 0x00, 0x00,
    0x0E, 0x1F, 0xBA, 0x0E, 0x00, 0xB4, 0x09, 0xCD, 0x21, 0xB8, 0x01, 0x4C, 0xCD, 0x21, 0x54, 0x68,
    0x69, 0x73, 0x20, 0x70, 0x72, 0x6F, 0x67, 0x72, 0x61, 0x6D, 0x20, 0x63, 0x61, 0x6E, 0x6E, 0x6F,
    0x74, 0x20, 0x62, 0x65, 0x20, 0x72, 0x75, 0x6E, 0x20, 0x69, 0x6E, 0x20, 0x44, 0x4F, 0x53, 0x20,
    0x6D, 0x6F, 0x64, 0x65, 0x2E, 0x0D, 0x0D, 0x0A, 0x24, 0x00, 0x00, 0x00, 0x00, 0x00, 0x00, 0x00,
    0x50, 0x45, 0x00, 0x00, 0x64, 0x86, 0x0F, 0x00, 0x8E, 0xA0, 0xC6, 0x5E, 0x00, 0x6C, 0x00, 0x00,
    0x9D, 0x04, 0x00, 0x00, 0xF0, 0x00, 0x27, 0x00, 0x0B, 0x02, 0x02, 0x1E, 0x00, 0x1E, 0x00, 0x00,
    0x00, 0x38, 0x00, 0x00, 0x00, 0x0A, 0x00, 0x00, 0xE0, 0x14, 0x00, 0x00, 0x00, 0x10, 0x00, 0x00,
    0x00, 0x00, 0x40, 0x00, 0x00, 0x00, 0x00, 0x00, 0x00, 0x10, 0x00, 0x00, 0x00, 0x02, 0x00, 0x00,
    0x04, 0x00, 0x00, 0x00, 0x00, 0x00, 0x00, 0x00, 0x05, 0x00, 0x02, 0x00, 0x00, 0x00, 0x00, 0x00,
    0x00, 0x30, 0x01, 0x00, 0x00, 0x04, 0x00, 0x00, 0x62, 0x98, 0x01, 0x00, 0x03, 0x00, 0x00, 0x00,
    0x00, 0x00, 0x20, 0x00, 0x00, 0x00, 0x00, 0x00, 0x00, 0x10, 0x00, 0x00, 0x00, 0x00, 0x00, 0x00,
    0x00, 0x00, 0x10, 0x00, 0x00, 0x00, 0x00, 0x00, 0x00, 0x10, 0x00, 0x00, 0x00, 0x00, 0x00, 0x00,
    0x00, 0x00, 0x00, 0x00, 0x10, 0x00, 0x00, 0x00, 0x00, 0x00, 0x00, 0x00, 0x00, 0x00, 0x00, 0x00,
    0x00, 0x80, 0x00, 0x00, 0x6C, 0x07, 0x00, 0x00, 0x00, 0x00, 0x00, 0x00, 0x00, 0x00, 0x00, 0x00,
    0x00, 0x50, 0x00, 0x00, 0x70, 0x02, 0x00, 0x00, 0x00, 0x00, 0x00, 0x00, 0x00, 0x00, 0x00, 0x00,
    0x00, 0x00, 0x00, 0x00, 0x00, 0x00, 0x00, 0x00, 0x00, 0x00, 0x00, 0x00, 0x00, 0x00, 0x00, 0x00,
    0x00, 0x00, 0x00, 0x00, 0x00, 0x00, 0x00, 0x00, 0x00, 0x00, 0x00, 0x00, 0x00, 0x00, 0x00, 0x00,
    0x40, 0x40, 0x00, 0x00, 0x28, 0x00, 0x00, 0x00, 0x00, 0x00, 0x00, 0x00, 0x00, 0x00, 0x00, 0x00,
    0x00, 0x00, 0x00, 0x00, 0x00, 0x00, 0x00, 0x00, 0xD4, 0x81, 0x00, 0x00, 0x98, 0x01, 0x00, 0x00,
    0x00, 0x00, 0x00, 0x00, 0x00, 0x00, 0x00, 0x00, 0x00, 0x00, 0x00, 0x00, 0x00, 0x00, 0x00, 0x00,
    0x00, 0x00, 0x00, 0x00, 0x00, 0x00, 0x00, 0x00, 0x2E, 0x74, 0x65, 0x78, 0x74, 0x00, 0x00, 0x00,
    0xC8, 0x1C, 0x00, 0x00, 0x00, 0x10, 0x00, 0x00, 0x00, 0x1E, 0x00, 0x00, 0x00, 0x04, 0x00, 0x00,
    0x00, 0x00, 0x00, 0x00, 0x00, 0x00, 0x00, 0x00, 0x00, 0x00, 0x00, 0x00, 0x60, 0x00, 0x50, 0x60,
    0x2E, 0x64, 0x61, 0x74, 0x61, 0x00, 0x00, 0x00, 0xD0, 0x00, 0x00, 0x00, 0x00, 0x30, 0x00, 0x00,
    0x00, 0x02, 0x00, 0x00, 0x00, 0x22, 0x00, 0x00, 0x00, 0x00, 0x00, 0x00, 0x00, 0x00, 0x00, 0x00,
    0x00, 0x00, 0x00, 0x00, 0x40, 0x00, 0x50, 0xC0, 0x2E, 0x72, 0x64, 0x61, 0x74, 0x61, 0x00, 0x00,
    0xD0, 0x04, 0x00, 0x00, 0x00, 0x40, 0x00, 0x00, 0x00, 0x06, 0x00, 0x00, 0x00, 0x24, 0x00, 0x00,
    0x00, 0x00, 0x00, 0x00, 0x00, 0x00, 0x00, 0x00, 0x00, 0x00, 0x00, 0x00, 0x40, 0x00, 0x60, 0x40,
    0x2E, 0x70, 0x64, 0x61, 0x74, 0x61, 0x00, 0x00, 0x70, 0x02, 0x00, 0x00, 0x00, 0x50, 0x00, 0x00,
    0x00, 0x04, 0x00, 0x00, 0x00, 0x2A, 0x00, 0x00, 0x00, 0x00, 0x00, 0x00, 0x00, 0x00, 0x00, 0x00,
    0x00, 0x00, 0x00, 0x00, 0x40, 0x00, 0x30, 0x40, 0x2E, 0x78, 0x64, 0x61, 0x74, 0x61, 0x00, 0x00,
    0xF4, 0x01, 0x00, 0x00, 0x00, 0x60, 0x00, 0x00, 0x00, 0x02, 0x00, 0x00, 0x00, 0x2E, 0x00, 0x00,
    0x00, 0x00, 0x00, 0x00, 0x00, 0x00, 0x00, 0x00, 0x00, 0x00, 0x00, 0x00, 0x40, 0x00, 0x30, 0x40,
    0x2E, 0x62, 0x73, 0x73, 0x00, 0x00, 0x00, 0x00, 0x80, 0x09, 0x00, 0x00, 0x00, 0x70, 0x00, 0x00,
    0x00, 0x00, 0x00, 0x00, 0x00, 0x00, 0x00, 0x00, 0x00, 0x00, 0x00, 0x00, 0x00, 0x00, 0x00, 0x00,
    0x00, 0x00, 0x00, 0x00, 0x80, 0x00, 0x60, 0xC0, 0x2E, 0x69, 0x64, 0x61, 0x74, 0x61, 0x00, 0x00,
    0x6C, 0x07, 0x00, 0x00, 0x00, 0x80, 0x00, 0x00, 0x00, 0x08, 0x00, 0x00, 0x00, 0x30, 0x00, 0x00,
    0x00, 0x00, 0x00, 0x00, 0x00, 0x00, 0x00, 0x00, 0x00, 0x00, 0x00, 0x00, 0x40, 0x00, 0x30, 0xC0,
    0x2E, 0x43, 0x52, 0x54, 0x00, 0x00, 0x00, 0x00, 0x68, 0x00, 0x00, 0x00, 0x00, 0x90, 0x00, 0x00,
    0x00, 0x02, 0x00, 0x00, 0x00, 0x38, 0x00, 0x00, 0x00, 0x00, 0x00, 0x00, 0x00, 0x00, 0x00, 0x00,
    0x00, 0x00, 0x00, 0x00, 0x40, 0x00, 0x40, 0xC0, 0x2E, 0x74, 0x6C, 0x73, 0x00, 0x00, 0x00, 0x00,
    0x10, 0x00, 0x00, 0x00, 0x00, 0xA0, 0x00, 0x00, 0x00, 0x02, 0x00, 0x00, 0x00, 0x3A, 0x00, 0x00,
    0x00, 0x00, 0x00, 0x00, 0x00, 0x00, 0x00, 0x00, 0x00, 0x00, 0x00, 0x00, 0x40, 0x00, 0x40, 0xC0,
    0x2F, 0x34, 0x00, 0x00, 0x00, 0x00, 0x00, 0x00, 0x80, 0x00, 0x00, 0x00, 0x00, 0xB0, 0x00, 0x00,
    0x00, 0x02, 0x00, 0x00, 0x00, 0x3C, 0x00, 0x00, 0x00, 0x00, 0x00, 0x00, 0x00, 0x00, 0x00, 0x00,
    0x00, 0x00, 0x00, 0x00, 0x40, 0x00, 0x50, 0x42, 0x2F, 0x31, 0x39, 0x00, 0x00, 0x00, 0x00, 0x00,
    0x27, 0x22, 0x00, 0x00, 0x00, 0xC0, 0x00, 0x00, 0x00, 0x24, 0x00, 0x00, 0x00, 0x3E, 0x00, 0x00,
    0x00, 0x00, 0x00, 0x00, 0x00, 0x00, 0x00, 0x00, 0x00, 0x00, 0x00, 0x00, 0x40, 0x00, 0x10, 0x42,
    0x2F, 0x33, 0x31, 0x00, 0x00, 0x00, 0x00, 0x00, 0xD2, 0x01, 0x00, 0x00, 0x00, 0xF0, 0x00, 0x00,
    0x00, 0x02, 0x00, 0x00, 0x00, 0x62, 0x00, 0x00, 0x00, 0x00, 0x00, 0x00, 0x00, 0x00, 0x00, 0x00,
    0x00, 0x00, 0x00, 0x00, 0x40, 0x00, 0x10, 0x42, 0x2F, 0x34, 0x35, 0x00, 0x00, 0x00, 0x00, 0x00,
    0xE3, 0x02, 0x00, 0x00, 0x00, 0x00, 0x01, 0x00, 0x00, 0x04, 0x00, 0x00, 0x00, 0x64, 0x00, 0x00,
    0x00, 0x00, 0x00, 0x00, 0x00, 0x00, 0x00, 0x00, 0x00, 0x00, 0x00, 0x00, 0x40, 0x00, 0x10, 0x42,
    0x2F, 0x35, 0x37, 0x00, 0x00, 0x00, 0x00, 0x00, 0x88, 0x00, 0x00, 0x00, 0x00, 0x10, 0x01, 0x00,
    0x00, 0x02, 0x00, 0x00, 0x00, 0x68, 0x00, 0x00, 0x00, 0x00, 0x00, 0x00, 0x00, 0x00, 0x00, 0x00,
    0x00, 0x00, 0x00, 0x00, 0x40, 0x00, 0x40, 0x42, 0x2F, 0x37, 0x30, 0x00, 0x00, 0x00, 0x00, 0x00,
    0x9B, 0x00, 0x00, 0x00, 0x00, 0x20, 0x01, 0x00, 0x00, 0x02, 0x00, 0x00, 0x00, 0x6A, 0x00, 0x00,
    0x00, 0x00, 0x00, 0x00, 0x00, 0x00, 0x00, 0x00, 0x00, 0x00, 0x00, 0x00, 0x40, 0x00, 0x10, 0x42,
    0x00, 0x00, 0x00, 0x00, 0x00, 0x00, 0x00, 0x00, 0x00, 0x00, 0x00, 0x00, 0x00, 0x00, 0x00, 0x00,
];

#[test]
fn header() {
    let header = Headers::parse(&&PE[..]).unwrap();
    assert!(header.dos.signature == DOS_HEADER_SIGNATURE);
    assert!(header.dos.file_add_of_reloc_table == DOS_HEADER_FILE_ADD_OF_RELOC_TABLE);
    assert!(header.pe.signature == PE_HEADER_SIGNATURE);
    assert!(header.optional.standard_fields.signature == OPTIONAL_HEADER_SIGNATURE_64);
}

/// Where the section table of the fixture starts and where it ends.
const SECTION_TABLE: usize = 0x188;
const END_OF_HEADERS: usize = 0x188 + 15 * 40;

fn name_of(text: &[u8]) -> u64 {
    let mut raw = [0u8; 8];
    raw[..text.len()].copy_from_slice(text);
    u64::from_le_bytes(raw)
}

#[test]
fn fixture_dos_stub_fields() {
    let header = Headers::parse(&PE[..]).unwrap();
    assert_eq!(header.dos.signature, 0x5A4D);
    assert_eq!(header.dos.last_size, 0x90);
    assert_eq!(header.dos.pages_in_file, 3);
    assert_eq!(header.dos.relocations, 0);
    assert_eq!(header.dos.header_size_in_paragraph, 4);
    assert_eq!(header.dos.min_extra_paragraph_needed, 0);
    assert_eq!(header.dos.max_extra_paragraph_needed, 0xFFFF);
    assert_eq!(header.dos.sp, 0xB8);
    assert_eq!(header.dos.file_add_of_reloc_table, 0x40);
    assert_eq!(header.dos.reserved_1, [0u16; 4]);
    assert_eq!(header.dos.reserved_2, [0u16; 10]);
    assert_eq!(header.dos.pe_header_offset, 0x80);
}

#[test]
fn fixture_coff_fields() {
    let header = Headers::parse(&PE[..]).unwrap();
    assert_eq!(header.coff.machine, 0x8664);
    assert_eq!(header.coff.number_of_section, 15);
    assert_eq!(header.coff.time_date_stamp, 0x5EC6A08E);
    assert_eq!(header.coff.pointer_to_symbol_table, 0x6C00);
    assert_eq!(header.coff.number_of_symbols, 0x49D);
    assert_eq!(header.coff.size_of_optional_header, 0xF0);
    assert_eq!(header.coff.characteristics, 0x27);
}

#[test]
fn fixture_optional_header_fields() {
    let header = Headers::parse(&PE[..]).unwrap();
    let standard = header.optional.standard_fields;
    assert_eq!(standard.signature, 0x20B);
    assert_eq!(standard.major_linker_version, 2);
    assert_eq!(standard.minor_linker_version, 30);
    assert_eq!(standard.size_of_code, 0x1E00);
    assert_eq!(standard.size_of_initialized_data, 0x3800);
    assert_eq!(standard.size_of_uninitialized_data, 0xA00);
    assert_eq!(standard.address_of_entry_point, 0x14E0);
    assert_eq!(standard.base_of_code, 0x1000);
    let specific = header.optional.specific_fields;
    assert_eq!(specific.base_of_data, 0);
    assert_eq!(specific.image_base, 0x400000);
    assert_eq!(specific.section_alignment, 0x1000);
    assert_eq!(specific.file_alignment, 0x200);
    assert_eq!(specific.major_os_version, 4);
    assert_eq!(specific.minor_os_version, 0);
    assert_eq!(specific.major_subsystem_version, 5);
    assert_eq!(specific.minor_subsystem_version, 2);
    assert_eq!(specific.size_of_image, 0x13000);
    assert_eq!(specific.size_of_headers, 0x400);
    assert_eq!(specific.checksum, 0x19862);
    assert_eq!(specific.subsystem, 3);
    assert_eq!(specific.dll_characteristics, 0);
    assert_eq!(specific.size_of_stack_reserve, 0x200000);
    assert_eq!(specific.size_of_stack_commit, 0x1000);
    assert_eq!(specific.size_of_heap_reserve, 0x100000);
    assert_eq!(specific.size_of_heap_commit, 0x1000);
    assert_eq!(specific.loader_flags, 0);
    assert_eq!(specific.number_of_rva_and_sizes, 16);
}

#[test]
fn fixture_data_directories() {
    let header = Headers::parse(&PE[..]).unwrap();
    let items = &header.optional.data_directories.items;
    assert_eq!(items.len(), MAX_NUMBER_OF_RVA);
    assert_eq!(items[0], DataDirectory { virtual_address: 0, size: 0 });
    assert_eq!(items[1], DataDirectory { virtual_address: 0x8000, size: 0x76C });
    assert_eq!(items[3], DataDirectory { virtual_address: 0x5000, size: 0x270 });
    assert_eq!(items[9], DataDirectory { virtual_address: 0x4040, size: 0x28 });
    assert_eq!(items[12], DataDirectory { virtual_address: 0x81D4, size: 0x198 });
    assert_eq!(items[15], DataDirectory { virtual_address: 0, size: 0 });
}

#[test]
fn fixture_section_count_is_honored() {
    let header = Headers::parse(&PE[..]).unwrap();
    assert_eq!(header.sections.items.len(), header.coff.number_of_section as usize);
    assert_eq!(header.sections.items.len(), 15);
    let names: [&[u8]; 15] = [
        b".text", b".data", b".rdata", b".pdata", b".xdata", b".bss", b".idata", b".CRT", b".tls",
        b"/4", b"/19", b"/31", b"/45", b"/57", b"/70",
    ];
    for (section, name) in header.sections.items.iter().zip(names.iter()) {
        assert_eq!(section.name, name_of(name));
    }
}

#[test]
fn fixture_sections_are_decoded_in_place() {
    let header = Headers::parse(&PE[..]).unwrap();
    assert_eq!(
        header.sections.items[0],
        Section {
            name: 0x0000_0074_7865_742E,
            virtual_size: 0x1CC8,
            virtual_address: 0x1000,
            size_of_raw_data: 0x1E00,
            pointer_to_raw_data: 0x400,
            pointer_to_relocations: 0,
            pointer_to_linenumbers: 0,
            number_of_relocations: 0,
            number_of_linenumbers: 0,
            characteristics: 0x6050_0060,
        }
    );
    for (i, section) in header.sections.items.iter().enumerate() {
        let mut at = SECTION_TABLE + 40 * i;
        assert_eq!(*section, Section::parse(&PE[..], &mut at).unwrap());
    }
}

#[test]
fn fixture_end_of_headers_offset() {
    let header = Headers::parse(&PE[..]).unwrap();
    assert_eq!(header._offset, SECTION_TABLE);
    assert_eq!(header._offset, 0x80 + 4 + 20 + 24 + 88 + 16 * 8);
}

#[test]
fn fixture_import_section_is_idata() {
    let header = Headers::parse(&PE[..]).unwrap();
    let section = header.clone().get_import_section().unwrap();
    assert_eq!(section.name, name_of(b".idata"));
    assert_eq!(section.virtual_address, 0x8000);
    assert_eq!(section.virtual_size, 0x76C);
    assert_eq!(section.pointer_to_raw_data, 0x3000);
    assert_eq!(header.imports_offset(), Some(0x3000));
    assert_eq!(header.get_imports_offset(), Some(0x3000));
}

#[test]
fn fixture_import_table_lies_past_the_fixture() {
    assert_eq!(Image::new(&PE[..]), Err(Error::OutOfBounds));
}

#[test]
fn truncated_fixture_is_out_of_bounds() {
    for k in 0..END_OF_HEADERS {
        assert_eq!(Headers::parse(&PE[..k]), Err(Error::OutOfBounds), "cut at {}", k);
        assert_eq!(Image::new(&PE[..k]), Err(Error::OutOfBounds), "cut at {}", k);
    }
    for k in END_OF_HEADERS..=PE.len() {
        assert!(Headers::parse(&PE[..k]).is_ok(), "cut at {}", k);
    }
}

#[test]
fn unknown_optional_magic_is_rejected() {
    let mut bytes = PE.to_vec();
    bytes[0x98] = 0;
    bytes[0x99] = 0;
    assert_eq!(Headers::parse(&bytes), Err(Error::BadSignature(0x0000)));
    assert_eq!(Image::new(&bytes), Err(Error::BadSignature(0x0000)));
    bytes[0x98] = 0x07;
    bytes[0x99] = 0x01;
    assert_eq!(Headers::parse(&bytes), Err(Error::BadSignature(0x0107)));
}

#[test]
fn wrong_dos_signature_is_rejected() {
    let mut bytes = PE.to_vec();
    bytes[0] = 0x5A;
    bytes[1] = 0x4D;
    assert_eq!(Headers::parse(&bytes), Err(Error::BadSignature(0x4D5A)));
}

#[test]
fn wrong_pe_signature_is_rejected() {
    let mut bytes = PE.to_vec();
    bytes[0x82] = 0x01;
    assert_eq!(Headers::parse(&bytes), Err(Error::BadSignature(0x0001_4550)));
    assert_eq!(Image::new(&bytes), Err(Error::BadSignature(0x0001_4550)));
}

#[test]
fn pe_header_offset_past_the_end_is_out_of_bounds() {
    let mut bytes = PE.to_vec();
    bytes[0x3C..0x40].copy_from_slice(&0xFFFF_FFFFu32.to_le_bytes());
    assert_eq!(Headers::parse(&bytes), Err(Error::OutOfBounds));
    bytes[0x3C..0x40].copy_from_slice(&(PE.len() as u32).to_le_bytes());
    assert_eq!(Headers::parse(&bytes), Err(Error::OutOfBounds));
}

#[test]
fn parsing_twice_gives_equal_results() {
    let first = Headers::parse(&PE[..]);
    let second = Headers::parse(&PE[..]);
    assert_eq!(first, second);
    let copy = PE.to_vec();
    assert_eq!(Headers::parse(&copy), first);
    assert_eq!(Image::new(&PE[..]), Image::new(&copy));
}
