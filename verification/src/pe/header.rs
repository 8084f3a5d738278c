//! The headers of a PE image and the offset pipeline that decodes them.

use vstd::prelude::*;
use vstd::std_specs::convert::FromSpecImpl;
use crate::error::{Error, Result};
use crate::reader::{fits, le_u16, le_u32, le_u64, le_u8, read_u16, read_u32, read_u64, read_u8};

verus! {

/// The signature of the MS-DOS stub, `MZ`.
pub const DOS_HEADER_SIGNATURE: u16 = 0x5A4D;

/// The usual file address of the relocation table in the MS-DOS stub.
pub const DOS_HEADER_FILE_ADD_OF_RELOC_TABLE: u16 = 0x0040;

/// The PE signature, `PE\0\0`.
pub const PE_HEADER_SIGNATURE: u32 = 0x00004550;

/// The optional-header magic of a 32-bit image.
pub const OPTIONAL_HEADER_SIGNATURE_32: u16 = 0x10b;

/// The optional-header magic of a 64-bit image.
pub const OPTIONAL_HEADER_SIGNATURE_64: u16 = 0x20b;

/// The number of well-known data directory slots.
pub const MAX_NUMBER_OF_RVA: usize = 16;

/// The MS-DOS stub at the start of every PE image.
#[derive(Debug, PartialEq, Eq, Copy, Clone, Default)]
pub struct Dos {
    pub signature: u16,
    pub last_size: u16,
    pub pages_in_file: u16,
    pub relocations: u16,
    pub header_size_in_paragraph: u16,
    pub min_extra_paragraph_needed: u16,
    pub max_extra_paragraph_needed: u16,
    pub ss: u16,
    pub sp: u16,
    pub checksum: u16,
    pub ip: u16,
    pub cs: u16,
    pub file_add_of_reloc_table: u16,
    pub overlay_number: u16,
    pub reserved_1: [u16; 4],
    pub oem_identifier: u16,
    pub oem_information: u16,
    pub reserved_2: [u16; 10],
    /// The file offset at which the PE signature stands.
    pub pe_header_offset: u32,
}

impl Dos {
    /// The number of bytes the record takes in a file.
    pub open spec fn spec_size() -> int {
        64
    }

    /// The record that the 64 bytes from `at` on encode.
    pub open spec fn spec_at(b: Seq<u8>, at: int) -> Dos {
        Dos {
            signature: le_u16(b, at),
            last_size: le_u16(b, at + 2),
            pages_in_file: le_u16(b, at + 4),
            relocations: le_u16(b, at + 6),
            header_size_in_paragraph: le_u16(b, at + 8),
            min_extra_paragraph_needed: le_u16(b, at + 10),
            max_extra_paragraph_needed: le_u16(b, at + 12),
            ss: le_u16(b, at + 14),
            sp: le_u16(b, at + 16),
            checksum: le_u16(b, at + 18),
            ip: le_u16(b, at + 20),
            cs: le_u16(b, at + 22),
            file_add_of_reloc_table: le_u16(b, at + 24),
            overlay_number: le_u16(b, at + 26),
            reserved_1: [
                le_u16(b, at + 28),
                le_u16(b, at + 30),
                le_u16(b, at + 32),
                le_u16(b, at + 34),
            ],
            oem_identifier: le_u16(b, at + 36),
            oem_information: le_u16(b, at + 38),
            reserved_2: [
                le_u16(b, at + 40),
                le_u16(b, at + 42),
                le_u16(b, at + 44),
                le_u16(b, at + 46),
                le_u16(b, at + 48),
                le_u16(b, at + 50),
                le_u16(b, at + 52),
                le_u16(b, at + 54),
                le_u16(b, at + 56),
                le_u16(b, at + 58),
            ],
            pe_header_offset: le_u32(b, at + 60),
        }
    }

    /// Decodes the record at the cursor. The cursor moves past the record on
    /// success and stays where it was on failure.
    pub fn parse(bytes: &[u8], offset: &mut usize) -> (r: Result<Self>)
        ensures
            fits(bytes@.len(), *old(offset) as int, Self::spec_size()) ==> r == Ok::<Self, Error>(
                Self::spec_at(bytes@, *old(offset) as int),
            ) && *final(offset) == *old(offset) + Self::spec_size(),
            !fits(bytes@.len(), *old(offset) as int, Self::spec_size()) ==> r == Err::<Self, Error>(
                Error::OutOfBounds,
            ) && *final(offset) == *old(offset),
    {
        let mut cur: usize = *offset;
        let signature = read_u16(bytes, &mut cur)?;
        let last_size = read_u16(bytes, &mut cur)?;
        let pages_in_file = read_u16(bytes, &mut cur)?;
        let relocations = read_u16(bytes, &mut cur)?;
        let header_size_in_paragraph = read_u16(bytes, &mut cur)?;
        let min_extra_paragraph_needed = read_u16(bytes, &mut cur)?;
        let max_extra_paragraph_needed = read_u16(bytes, &mut cur)?;
        let ss = read_u16(bytes, &mut cur)?;
        let sp = read_u16(bytes, &mut cur)?;
        let checksum = read_u16(bytes, &mut cur)?;
        let ip = read_u16(bytes, &mut cur)?;
        let cs = read_u16(bytes, &mut cur)?;
        let file_add_of_reloc_table = read_u16(bytes, &mut cur)?;
        let overlay_number = read_u16(bytes, &mut cur)?;
        let r10 = read_u16(bytes, &mut cur)?;
        let r11 = read_u16(bytes, &mut cur)?;
        let r12 = read_u16(bytes, &mut cur)?;
        let r13 = read_u16(bytes, &mut cur)?;
        let oem_identifier = read_u16(bytes, &mut cur)?;
        let oem_information = read_u16(bytes, &mut cur)?;
        let r20 = read_u16(bytes, &mut cur)?;
        let r21 = read_u16(bytes, &mut cur)?;
        let r22 = read_u16(bytes, &mut cur)?;
        let r23 = read_u16(bytes, &mut cur)?;
        let r24 = read_u16(bytes, &mut cur)?;
        let r25 = read_u16(bytes, &mut cur)?;
        let r26 = read_u16(bytes, &mut cur)?;
        let r27 = read_u16(bytes, &mut cur)?;
        let r28 = read_u16(bytes, &mut cur)?;
        let r29 = read_u16(bytes, &mut cur)?;
        let pe_header_offset = read_u32(bytes, &mut cur)?;
        *offset = cur;
        Ok(
            Dos {
                signature,
                last_size,
                pages_in_file,
                relocations,
                header_size_in_paragraph,
                min_extra_paragraph_needed,
                max_extra_paragraph_needed,
                ss,
                sp,
                checksum,
                ip,
                cs,
                file_add_of_reloc_table,
                overlay_number,
                reserved_1: [r10, r11, r12, r13],
                oem_identifier,
                oem_information,
                reserved_2: [r20, r21, r22, r23, r24, r25, r26, r27, r28, r29],
                pe_header_offset,
            },
        )
    }
}

/// The four-byte signature that opens the PE header.
#[derive(Debug, PartialEq, Eq, Copy, Clone, Default)]
pub struct PE {
    pub signature: u32,
}

impl PE {
    /// The number of bytes the record takes in a file.
    pub open spec fn spec_size() -> int {
        4
    }

    /// The record that the 4 bytes from `at` on encode.
    pub open spec fn spec_at(b: Seq<u8>, at: int) -> PE {
        PE {
            signature: le_u32(b, at),
        }
    }

    /// Decodes the record at the cursor. The cursor moves past the record on
    /// success and stays where it was on failure.
    pub fn parse(bytes: &[u8], offset: &mut usize) -> (r: Result<Self>)
        ensures
            fits(bytes@.len(), *old(offset) as int, Self::spec_size()) ==> r == Ok::<Self, Error>(
                Self::spec_at(bytes@, *old(offset) as int),
            ) && *final(offset) == *old(offset) + Self::spec_size(),
            !fits(bytes@.len(), *old(offset) as int, Self::spec_size()) ==> r == Err::<Self, Error>(
                Error::OutOfBounds,
            ) && *final(offset) == *old(offset),
    {
        let mut cur: usize = *offset;
        let signature = read_u32(bytes, &mut cur)?;
        *offset = cur;
        Ok(PE { signature })
    }
}

/// The COFF file header.
#[derive(Debug, PartialEq, Eq, Copy, Clone, Default)]
pub struct COFF {
    pub machine: u16,
    /// How many records the section table holds.
    pub number_of_section: u16,
    pub time_date_stamp: u32,
    pub pointer_to_symbol_table: u32,
    pub number_of_symbols: u32,
    pub size_of_optional_header: u16,
    pub characteristics: u16,
}

impl COFF {
    /// The number of bytes the record takes in a file.
    pub open spec fn spec_size() -> int {
        20
    }

    /// The record that the 20 bytes from `at` on encode.
    pub open spec fn spec_at(b: Seq<u8>, at: int) -> COFF {
        COFF {
            machine: le_u16(b, at),
            number_of_section: le_u16(b, at + 2),
            time_date_stamp: le_u32(b, at + 4),
            pointer_to_symbol_table: le_u32(b, at + 8),
            number_of_symbols: le_u32(b, at + 12),
            size_of_optional_header: le_u16(b, at + 16),
            characteristics: le_u16(b, at + 18),
        }
    }

    /// Decodes the record at the cursor. The cursor moves past the record on
    /// success and stays where it was on failure.
    pub fn parse(bytes: &[u8], offset: &mut usize) -> (r: Result<Self>)
        ensures
            fits(bytes@.len(), *old(offset) as int, Self::spec_size()) ==> r == Ok::<Self, Error>(
                Self::spec_at(bytes@, *old(offset) as int),
            ) && *final(offset) == *old(offset) + Self::spec_size(),
            !fits(bytes@.len(), *old(offset) as int, Self::spec_size()) ==> r == Err::<Self, Error>(
                Error::OutOfBounds,
            ) && *final(offset) == *old(offset),
    {
        let mut cur: usize = *offset;
        let machine = read_u16(bytes, &mut cur)?;
        let number_of_section = read_u16(bytes, &mut cur)?;
        let time_date_stamp = read_u32(bytes, &mut cur)?;
        let pointer_to_symbol_table = read_u32(bytes, &mut cur)?;
        let number_of_symbols = read_u32(bytes, &mut cur)?;
        let size_of_optional_header = read_u16(bytes, &mut cur)?;
        let characteristics = read_u16(bytes, &mut cur)?;
        *offset = cur;
        Ok(COFF { machine, number_of_section, time_date_stamp, pointer_to_symbol_table, number_of_symbols, size_of_optional_header, characteristics })
    }
}

/// The fields that open the optional header in both layouts.
#[derive(Debug, PartialEq, Eq, Copy, Clone, Default)]
pub struct StandardFields {
    /// The magic that tells the 32-bit layout from the 64-bit one.
    pub signature: u16,
    pub major_linker_version: u8,
    pub minor_linker_version: u8,
    pub size_of_code: u32,
    pub size_of_initialized_data: u32,
    pub size_of_uninitialized_data: u32,
    pub address_of_entry_point: u32,
    pub base_of_code: u32,
}

impl StandardFields {
    /// The number of bytes the record takes in a file.
    pub open spec fn spec_size() -> int {
        24
    }

    /// The record that the 24 bytes from `at` on encode.
    pub open spec fn spec_at(b: Seq<u8>, at: int) -> StandardFields {
        StandardFields {
            signature: le_u16(b, at),
            major_linker_version: le_u8(b, at + 2),
            minor_linker_version: le_u8(b, at + 3),
            size_of_code: le_u32(b, at + 4),
            size_of_initialized_data: le_u32(b, at + 8),
            size_of_uninitialized_data: le_u32(b, at + 12),
            address_of_entry_point: le_u32(b, at + 16),
            base_of_code: le_u32(b, at + 20),
        }
    }

    /// Decodes the record at the cursor. The cursor moves past the record on
    /// success and stays where it was on failure.
    pub fn parse(bytes: &[u8], offset: &mut usize) -> (r: Result<Self>)
        ensures
            fits(bytes@.len(), *old(offset) as int, Self::spec_size()) ==> r == Ok::<Self, Error>(
                Self::spec_at(bytes@, *old(offset) as int),
            ) && *final(offset) == *old(offset) + Self::spec_size(),
            !fits(bytes@.len(), *old(offset) as int, Self::spec_size()) ==> r == Err::<Self, Error>(
                Error::OutOfBounds,
            ) && *final(offset) == *old(offset),
    {
        let mut cur: usize = *offset;
        let signature = read_u16(bytes, &mut cur)?;
        let major_linker_version = read_u8(bytes, &mut cur)?;
        let minor_linker_version = read_u8(bytes, &mut cur)?;
        let size_of_code = read_u32(bytes, &mut cur)?;
        let size_of_initialized_data = read_u32(bytes, &mut cur)?;
        let size_of_uninitialized_data = read_u32(bytes, &mut cur)?;
        let address_of_entry_point = read_u32(bytes, &mut cur)?;
        let base_of_code = read_u32(bytes, &mut cur)?;
        *offset = cur;
        Ok(StandardFields { signature, major_linker_version, minor_linker_version, size_of_code, size_of_initialized_data, size_of_uninitialized_data, address_of_entry_point, base_of_code })
    }
}

/// The Windows-specific fields as a 32-bit image lays them out.
#[derive(Debug, PartialEq, Eq, Copy, Clone, Default)]
pub struct SpecificFields32 {
    pub base_of_data: u32,
    pub image_base: u32,
    pub section_alignment: u32,
    pub file_alignment: u32,
    pub major_os_version: u16,
    pub minor_os_version: u16,
    pub major_image_version: u16,
    pub minor_image_version: u16,
    pub major_subsystem_version: u16,
    pub minor_subsystem_version: u16,
    pub reserved: u32,
    pub size_of_image: u32,
    pub size_of_headers: u32,
    pub checksum: u32,
    pub subsystem: u16,
    pub dll_characteristics: u16,
    pub size_of_stack_reserve: u32,
    pub size_of_stack_commit: u32,
    pub size_of_heap_reserve: u32,
    pub size_of_heap_commit: u32,
    pub loader_flags: u32,
    pub number_of_rva_and_sizes: u32,
}

impl SpecificFields32 {
    /// The number of bytes the record takes in a file.
    pub open spec fn spec_size() -> int {
        72
    }

    /// The record that the 72 bytes from `at` on encode.
    pub open spec fn spec_at(b: Seq<u8>, at: int) -> SpecificFields32 {
        SpecificFields32 {
            base_of_data: le_u32(b, at),
            image_base: le_u32(b, at + 4),
            section_alignment: le_u32(b, at + 8),
            file_alignment: le_u32(b, at + 12),
            major_os_version: le_u16(b, at + 16),
            minor_os_version: le_u16(b, at + 18),
            major_image_version: le_u16(b, at + 20),
            minor_image_version: le_u16(b, at + 22),
            major_subsystem_version: le_u16(b, at + 24),
            minor_subsystem_version: le_u16(b, at + 26),
            reserved: le_u32(b, at + 28),
            size_of_image: le_u32(b, at + 32),
            size_of_headers: le_u32(b, at + 36),
            checksum: le_u32(b, at + 40),
            subsystem: le_u16(b, at + 44),
            dll_characteristics: le_u16(b, at + 46),
            size_of_stack_reserve: le_u32(b, at + 48),
            size_of_stack_commit: le_u32(b, at + 52),
            size_of_heap_reserve: le_u32(b, at + 56),
            size_of_heap_commit: le_u32(b, at + 60),
            loader_flags: le_u32(b, at + 64),
            number_of_rva_and_sizes: le_u32(b, at + 68),
        }
    }

    /// Decodes the record at the cursor. The cursor moves past the record on
    /// success and stays where it was on failure.
    pub fn parse(bytes: &[u8], offset: &mut usize) -> (r: Result<Self>)
        ensures
            fits(bytes@.len(), *old(offset) as int, Self::spec_size()) ==> r == Ok::<Self, Error>(
                Self::spec_at(bytes@, *old(offset) as int),
            ) && *final(offset) == *old(offset) + Self::spec_size(),
            !fits(bytes@.len(), *old(offset) as int, Self::spec_size()) ==> r == Err::<Self, Error>(
                Error::OutOfBounds,
            ) && *final(offset) == *old(offset),
    {
        let mut cur: usize = *offset;
        let base_of_data = read_u32(bytes, &mut cur)?;
        let image_base = read_u32(bytes, &mut cur)?;
        let section_alignment = read_u32(bytes, &mut cur)?;
        let file_alignment = read_u32(bytes, &mut cur)?;
        let major_os_version = read_u16(bytes, &mut cur)?;
        let minor_os_version = read_u16(bytes, &mut cur)?;
        let major_image_version = read_u16(bytes, &mut cur)?;
        let minor_image_version = read_u16(bytes, &mut cur)?;
        let major_subsystem_version = read_u16(bytes, &mut cur)?;
        let minor_subsystem_version = read_u16(bytes, &mut cur)?;
        let reserved = read_u32(bytes, &mut cur)?;
        let size_of_image = read_u32(bytes, &mut cur)?;
        let size_of_headers = read_u32(bytes, &mut cur)?;
        let checksum = read_u32(bytes, &mut cur)?;
        let subsystem = read_u16(bytes, &mut cur)?;
        let dll_characteristics = read_u16(bytes, &mut cur)?;
        let size_of_stack_reserve = read_u32(bytes, &mut cur)?;
        let size_of_stack_commit = read_u32(bytes, &mut cur)?;
        let size_of_heap_reserve = read_u32(bytes, &mut cur)?;
        let size_of_heap_commit = read_u32(bytes, &mut cur)?;
        let loader_flags = read_u32(bytes, &mut cur)?;
        let number_of_rva_and_sizes = read_u32(bytes, &mut cur)?;
        *offset = cur;
        Ok(SpecificFields32 { base_of_data, image_base, section_alignment, file_alignment, major_os_version, minor_os_version, major_image_version, minor_image_version, major_subsystem_version, minor_subsystem_version, reserved, size_of_image, size_of_headers, checksum, subsystem, dll_characteristics, size_of_stack_reserve, size_of_stack_commit, size_of_heap_reserve, size_of_heap_commit, loader_flags, number_of_rva_and_sizes })
    }
}

/// The Windows-specific fields as a 64-bit image lays them out.
#[derive(Debug, PartialEq, Eq, Copy, Clone, Default)]
pub struct SpecificFields64 {
    pub image_base: u64,
    pub section_alignment: u32,
    pub file_alignment: u32,
    pub major_os_version: u16,
    pub minor_os_version: u16,
    pub major_image_version: u16,
    pub minor_image_version: u16,
    pub major_subsystem_version: u16,
    pub minor_subsystem_version: u16,
    pub reserved: u32,
    pub size_of_image: u32,
    pub size_of_headers: u32,
    pub checksum: u32,
    pub subsystem: u16,
    pub dll_characteristics: u16,
    pub size_of_stack_reserve: u64,
    pub size_of_stack_commit: u64,
    pub size_of_heap_reserve: u64,
    pub size_of_heap_commit: u64,
    pub loader_flags: u32,
    pub number_of_rva_and_sizes: u32,
}

impl SpecificFields64 {
    /// The number of bytes the record takes in a file.
    pub open spec fn spec_size() -> int {
        88
    }

    /// The record that the 88 bytes from `at` on encode.
    pub open spec fn spec_at(b: Seq<u8>, at: int) -> SpecificFields64 {
        SpecificFields64 {
            image_base: le_u64(b, at),
            section_alignment: le_u32(b, at + 8),
            file_alignment: le_u32(b, at + 12),
            major_os_version: le_u16(b, at + 16),
            minor_os_version: le_u16(b, at + 18),
            major_image_version: le_u16(b, at + 20),
            minor_image_version: le_u16(b, at + 22),
            major_subsystem_version: le_u16(b, at + 24),
            minor_subsystem_version: le_u16(b, at + 26),
            reserved: le_u32(b, at + 28),
            size_of_image: le_u32(b, at + 32),
            size_of_headers: le_u32(b, at + 36),
            checksum: le_u32(b, at + 40),
            subsystem: le_u16(b, at + 44),
            dll_characteristics: le_u16(b, at + 46),
            size_of_stack_reserve: le_u64(b, at + 48),
            size_of_stack_commit: le_u64(b, at + 56),
            size_of_heap_reserve: le_u64(b, at + 64),
            size_of_heap_commit: le_u64(b, at + 72),
            loader_flags: le_u32(b, at + 80),
            number_of_rva_and_sizes: le_u32(b, at + 84),
        }
    }

    /// Decodes the record at the cursor. The cursor moves past the record on
    /// success and stays where it was on failure.
    pub fn parse(bytes: &[u8], offset: &mut usize) -> (r: Result<Self>)
        ensures
            fits(bytes@.len(), *old(offset) as int, Self::spec_size()) ==> r == Ok::<Self, Error>(
                Self::spec_at(bytes@, *old(offset) as int),
            ) && *final(offset) == *old(offset) + Self::spec_size(),
            !fits(bytes@.len(), *old(offset) as int, Self::spec_size()) ==> r == Err::<Self, Error>(
                Error::OutOfBounds,
            ) && *final(offset) == *old(offset),
    {
        let mut cur: usize = *offset;
        let image_base = read_u64(bytes, &mut cur)?;
        let section_alignment = read_u32(bytes, &mut cur)?;
        let file_alignment = read_u32(bytes, &mut cur)?;
        let major_os_version = read_u16(bytes, &mut cur)?;
        let minor_os_version = read_u16(bytes, &mut cur)?;
        let major_image_version = read_u16(bytes, &mut cur)?;
        let minor_image_version = read_u16(bytes, &mut cur)?;
        let major_subsystem_version = read_u16(bytes, &mut cur)?;
        let minor_subsystem_version = read_u16(bytes, &mut cur)?;
        let reserved = read_u32(bytes, &mut cur)?;
        let size_of_image = read_u32(bytes, &mut cur)?;
        let size_of_headers = read_u32(bytes, &mut cur)?;
        let checksum = read_u32(bytes, &mut cur)?;
        let subsystem = read_u16(bytes, &mut cur)?;
        let dll_characteristics = read_u16(bytes, &mut cur)?;
        let size_of_stack_reserve = read_u64(bytes, &mut cur)?;
        let size_of_stack_commit = read_u64(bytes, &mut cur)?;
        let size_of_heap_reserve = read_u64(bytes, &mut cur)?;
        let size_of_heap_commit = read_u64(bytes, &mut cur)?;
        let loader_flags = read_u32(bytes, &mut cur)?;
        let number_of_rva_and_sizes = read_u32(bytes, &mut cur)?;
        *offset = cur;
        Ok(SpecificFields64 { image_base, section_alignment, file_alignment, major_os_version, minor_os_version, major_image_version, minor_image_version, major_subsystem_version, minor_subsystem_version, reserved, size_of_image, size_of_headers, checksum, subsystem, dll_characteristics, size_of_stack_reserve, size_of_stack_commit, size_of_heap_reserve, size_of_heap_commit, loader_flags, number_of_rva_and_sizes })
    }
}

/// The Windows-specific fields in one shape for both layouts.
#[derive(Debug, PartialEq, Eq, Copy, Clone, Default)]
pub struct SpecificFields {
    pub base_of_data: u32,
    pub image_base: u64,
    pub section_alignment: u32,
    pub file_alignment: u32,
    pub major_os_version: u16,
    pub minor_os_version: u16,
    pub major_image_version: u16,
    pub minor_image_version: u16,
    pub major_subsystem_version: u16,
    pub minor_subsystem_version: u16,
    pub reserved: u32,
    pub size_of_image: u32,
    pub size_of_headers: u32,
    pub checksum: u32,
    pub subsystem: u16,
    pub dll_characteristics: u16,
    pub size_of_stack_reserve: u64,
    pub size_of_stack_commit: u64,
    pub size_of_heap_reserve: u64,
    pub size_of_heap_commit: u64,
    pub loader_flags: u32,
    pub number_of_rva_and_sizes: u32,
}

impl SpecificFields {
    /// The common shape of a 32-bit record: `image_base` and the four stack and heap
    /// sizes are widened, every other field is kept.
    pub open spec fn spec_from_32(fields: SpecificFields32) -> SpecificFields {
        SpecificFields {
            base_of_data: fields.base_of_data,
            image_base: fields.image_base as u64,
            section_alignment: fields.section_alignment,
            file_alignment: fields.file_alignment,
            major_os_version: fields.major_os_version,
            minor_os_version: fields.minor_os_version,
            major_image_version: fields.major_image_version,
            minor_image_version: fields.minor_image_version,
            major_subsystem_version: fields.major_subsystem_version,
            minor_subsystem_version: fields.minor_subsystem_version,
            reserved: fields.reserved,
            size_of_image: fields.size_of_image,
            size_of_headers: fields.size_of_headers,
            checksum: fields.checksum,
            subsystem: fields.subsystem,
            dll_characteristics: fields.dll_characteristics,
            size_of_stack_reserve: fields.size_of_stack_reserve as u64,
            size_of_stack_commit: fields.size_of_stack_commit as u64,
            size_of_heap_reserve: fields.size_of_heap_reserve as u64,
            size_of_heap_commit: fields.size_of_heap_commit as u64,
            loader_flags: fields.loader_flags,
            number_of_rva_and_sizes: fields.number_of_rva_and_sizes,
        }
    }

    /// The common shape of a 64-bit record: `base_of_data`, which that layout lacks,
    /// is 0, every other field is kept.
    pub open spec fn spec_from_64(fields: SpecificFields64) -> SpecificFields {
        SpecificFields {
            base_of_data: 0,
            image_base: fields.image_base,
            section_alignment: fields.section_alignment,
            file_alignment: fields.file_alignment,
            major_os_version: fields.major_os_version,
            minor_os_version: fields.minor_os_version,
            major_image_version: fields.major_image_version,
            minor_image_version: fields.minor_image_version,
            major_subsystem_version: fields.major_subsystem_version,
            minor_subsystem_version: fields.minor_subsystem_version,
            reserved: fields.reserved,
            size_of_image: fields.size_of_image,
            size_of_headers: fields.size_of_headers,
            checksum: fields.checksum,
            subsystem: fields.subsystem,
            dll_characteristics: fields.dll_characteristics,
            size_of_stack_reserve: fields.size_of_stack_reserve,
            size_of_stack_commit: fields.size_of_stack_commit,
            size_of_heap_reserve: fields.size_of_heap_reserve,
            size_of_heap_commit: fields.size_of_heap_commit,
            loader_flags: fields.loader_flags,
            number_of_rva_and_sizes: fields.number_of_rva_and_sizes,
        }
    }
}

impl From<SpecificFields32> for SpecificFields {
    /// Lifts a 32-bit record into the common shape.
    fn from(fields: SpecificFields32) -> (r: SpecificFields) {
        SpecificFields {
            base_of_data: fields.base_of_data,
            image_base: fields.image_base as u64,
            section_alignment: fields.section_alignment,
            file_alignment: fields.file_alignment,
            major_os_version: fields.major_os_version,
            minor_os_version: fields.minor_os_version,
            major_image_version: fields.major_image_version,
            minor_image_version: fields.minor_image_version,
            major_subsystem_version: fields.major_subsystem_version,
            minor_subsystem_version: fields.minor_subsystem_version,
            reserved: fields.reserved,
            size_of_image: fields.size_of_image,
            size_of_headers: fields.size_of_headers,
            checksum: fields.checksum,
            subsystem: fields.subsystem,
            dll_characteristics: fields.dll_characteristics,
            size_of_stack_reserve: fields.size_of_stack_reserve as u64,
            size_of_stack_commit: fields.size_of_stack_commit as u64,
            size_of_heap_reserve: fields.size_of_heap_reserve as u64,
            size_of_heap_commit: fields.size_of_heap_commit as u64,
            loader_flags: fields.loader_flags,
            number_of_rva_and_sizes: fields.number_of_rva_and_sizes,
        }
    }
}

impl FromSpecImpl<SpecificFields32> for SpecificFields {
    open spec fn obeys_from_spec() -> bool {
        true
    }

    open spec fn from_spec(fields: SpecificFields32) -> SpecificFields {
        SpecificFields::spec_from_32(fields)
    }
}

impl From<SpecificFields64> for SpecificFields {
    /// Lifts a 64-bit record into the common shape.
    fn from(fields: SpecificFields64) -> (r: SpecificFields) {
        SpecificFields {
            base_of_data: 0,
            image_base: fields.image_base,
            section_alignment: fields.section_alignment,
            file_alignment: fields.file_alignment,
            major_os_version: fields.major_os_version,
            minor_os_version: fields.minor_os_version,
            major_image_version: fields.major_image_version,
            minor_image_version: fields.minor_image_version,
            major_subsystem_version: fields.major_subsystem_version,
            minor_subsystem_version: fields.minor_subsystem_version,
            reserved: fields.reserved,
            size_of_image: fields.size_of_image,
            size_of_headers: fields.size_of_headers,
            checksum: fields.checksum,
            subsystem: fields.subsystem,
            dll_characteristics: fields.dll_characteristics,
            size_of_stack_reserve: fields.size_of_stack_reserve,
            size_of_stack_commit: fields.size_of_stack_commit,
            size_of_heap_reserve: fields.size_of_heap_reserve,
            size_of_heap_commit: fields.size_of_heap_commit,
            loader_flags: fields.loader_flags,
            number_of_rva_and_sizes: fields.number_of_rva_and_sizes,
        }
    }
}

impl FromSpecImpl<SpecificFields64> for SpecificFields {
    open spec fn obeys_from_spec() -> bool {
        true
    }

    open spec fn from_spec(fields: SpecificFields64) -> SpecificFields {
        SpecificFields::spec_from_64(fields)
    }
}

/// One slot of the data directory array: where a well-known table is mapped and how long it is.
#[derive(Debug, PartialEq, Eq, Copy, Clone, Default)]
pub struct DataDirectory {
    pub virtual_address: u32,
    pub size: u32,
}

impl DataDirectory {
    /// The number of bytes the record takes in a file.
    pub open spec fn spec_size() -> int {
        8
    }

    /// The record that the 8 bytes from `at` on encode.
    pub open spec fn spec_at(b: Seq<u8>, at: int) -> DataDirectory {
        DataDirectory {
            virtual_address: le_u32(b, at),
            size: le_u32(b, at + 4),
        }
    }

    /// Decodes the record at the cursor. The cursor moves past the record on
    /// success and stays where it was on failure.
    pub fn parse(bytes: &[u8], offset: &mut usize) -> (r: Result<Self>)
        ensures
            fits(bytes@.len(), *old(offset) as int, Self::spec_size()) ==> r == Ok::<Self, Error>(
                Self::spec_at(bytes@, *old(offset) as int),
            ) && *final(offset) == *old(offset) + Self::spec_size(),
            !fits(bytes@.len(), *old(offset) as int, Self::spec_size()) ==> r == Err::<Self, Error>(
                Error::OutOfBounds,
            ) && *final(offset) == *old(offset),
    {
        let mut cur: usize = *offset;
        let virtual_address = read_u32(bytes, &mut cur)?;
        let size = read_u32(bytes, &mut cur)?;
        *offset = cur;
        Ok(DataDirectory { virtual_address, size })
    }
}

/// One record of the section table.
#[derive(Debug, PartialEq, Eq, Copy, Clone, Default)]
pub struct Section {
    /// The eight name bytes, NUL-padded, as one little-endian integer.
    pub name: u64,
    pub virtual_size: u32,
    pub virtual_address: u32,
    pub size_of_raw_data: u32,
    pub pointer_to_raw_data: u32,
    pub pointer_to_relocations: u32,
    pub pointer_to_linenumbers: u32,
    pub number_of_relocations: u16,
    pub number_of_linenumbers: u16,
    pub characteristics: u32,
}

impl Section {
    /// The number of bytes the record takes in a file.
    pub open spec fn spec_size() -> int {
        40
    }

    /// The record that the 40 bytes from `at` on encode.
    pub open spec fn spec_at(b: Seq<u8>, at: int) -> Section {
        Section {
            name: le_u64(b, at),
            virtual_size: le_u32(b, at + 8),
            virtual_address: le_u32(b, at + 12),
            size_of_raw_data: le_u32(b, at + 16),
            pointer_to_raw_data: le_u32(b, at + 20),
            pointer_to_relocations: le_u32(b, at + 24),
            pointer_to_linenumbers: le_u32(b, at + 28),
            number_of_relocations: le_u16(b, at + 32),
            number_of_linenumbers: le_u16(b, at + 34),
            characteristics: le_u32(b, at + 36),
        }
    }

    /// Decodes the record at the cursor. The cursor moves past the record on
    /// success and stays where it was on failure.
    pub fn parse(bytes: &[u8], offset: &mut usize) -> (r: Result<Self>)
        ensures
            fits(bytes@.len(), *old(offset) as int, Self::spec_size()) ==> r == Ok::<Self, Error>(
                Self::spec_at(bytes@, *old(offset) as int),
            ) && *final(offset) == *old(offset) + Self::spec_size(),
            !fits(bytes@.len(), *old(offset) as int, Self::spec_size()) ==> r == Err::<Self, Error>(
                Error::OutOfBounds,
            ) && *final(offset) == *old(offset),
    {
        let mut cur: usize = *offset;
        let name = read_u64(bytes, &mut cur)?;
        let virtual_size = read_u32(bytes, &mut cur)?;
        let virtual_address = read_u32(bytes, &mut cur)?;
        let size_of_raw_data = read_u32(bytes, &mut cur)?;
        let pointer_to_raw_data = read_u32(bytes, &mut cur)?;
        let pointer_to_relocations = read_u32(bytes, &mut cur)?;
        let pointer_to_linenumbers = read_u32(bytes, &mut cur)?;
        let number_of_relocations = read_u16(bytes, &mut cur)?;
        let number_of_linenumbers = read_u16(bytes, &mut cur)?;
        let characteristics = read_u32(bytes, &mut cur)?;
        *offset = cur;
        Ok(Section { name, virtual_size, virtual_address, size_of_raw_data, pointer_to_raw_data, pointer_to_relocations, pointer_to_linenumbers, number_of_relocations, number_of_linenumbers, characteristics })
    }
}

/// Whether `count` records of `size` bytes each, one after another from
/// `start` on, all lie inside a buffer of `len` bytes. No record, no demand.
pub open spec fn table_fits(len: nat, start: int, count: nat, size: int) -> bool {
    count == 0 || fits(len, start, size * count)
}

/// The data directory array of the optional header, in file order.
#[derive(Debug, PartialEq, Eq, Clone, Default)]
pub struct DataDirectories {
    pub items: Vec<DataDirectory>,
}

impl View for DataDirectories {
    type V = Seq<DataDirectory>;

    open spec fn view(&self) -> Seq<DataDirectory> {
        self.items@
    }
}

impl DataDirectories {
    /// The `count` records that stand one after another from `start` on.
    pub open spec fn spec_items(b: Seq<u8>, start: int, count: nat) -> Seq<DataDirectory> {
        Seq::new(count, |i: int| DataDirectory::spec_at(b, start + DataDirectory::spec_size() * i))
    }

    /// Decodes `count` records from `start` on, with a cursor of its own, and
    /// returns them with the number of bytes they took.
    pub fn parse(bytes: &[u8], start: usize, count: usize) -> (r: Result<(Self, usize)>)
        ensures
            table_fits(bytes@.len(), start as int, count as nat, DataDirectory::spec_size()) ==> r.is_ok()
                && r.unwrap().0@ == Self::spec_items(bytes@, start as int, count as nat)
                && r.unwrap().1 == DataDirectory::spec_size() * count,
            !table_fits(bytes@.len(), start as int, count as nat, DataDirectory::spec_size()) ==> r
                == Err::<(Self, usize), Error>(Error::OutOfBounds),
    {
        let mut items: Vec<DataDirectory> = Vec::new();
        let mut cur: usize = start;
        let mut i: usize = 0;
        while i < count
            invariant
                i <= count,
                cur == start + DataDirectory::spec_size() * i,
                i > 0 ==> cur <= bytes@.len(),
                items@ == Self::spec_items(bytes@, start as int, i as nat),
            decreases count - i,
        {
            let item = DataDirectory::parse(bytes, &mut cur)?;
            items.push(item);
            i += 1;
            assert(items@ =~= Self::spec_items(bytes@, start as int, i as nat));
        }
        Ok((DataDirectories { items }, cur - start))
    }
}

/// The optional header: the standard fields, the Windows-specific fields in
/// their common shape, and the data directories.
#[derive(Debug, PartialEq, Eq, Clone, Default)]
pub struct Optional {
    pub standard_fields: StandardFields,
    pub specific_fields: SpecificFields,
    pub data_directories: DataDirectories,
}

/// What an [`Optional`] holds, with the directories as a sequence.
pub struct OptionalView {
    pub standard_fields: StandardFields,
    pub specific_fields: SpecificFields,
    pub data_directories: Seq<DataDirectory>,
}

impl View for Optional {
    type V = OptionalView;

    open spec fn view(&self) -> OptionalView {
        OptionalView {
            standard_fields: self.standard_fields,
            specific_fields: self.specific_fields,
            data_directories: self.data_directories@,
        }
    }
}

impl Optional {
    /// Whether `signature` is one of the two recognised magics.
    pub open spec fn spec_known_signature(signature: u16) -> bool {
        signature == OPTIONAL_HEADER_SIGNATURE_32 || signature == OPTIONAL_HEADER_SIGNATURE_64
    }

    /// The Windows-specific fields that stand at `at` under the layout that
    /// `signature` selects, lifted into the common shape.
    pub open spec fn spec_specific_at(b: Seq<u8>, at: int, signature: u16) -> SpecificFields {
        if signature == OPTIONAL_HEADER_SIGNATURE_64 {
            SpecificFields::spec_from_64(SpecificFields64::spec_at(b, at))
        } else {
            SpecificFields::spec_from_32(SpecificFields32::spec_at(b, at))
        }
    }

    /// The number of bytes that the Windows-specific fields take under the
    /// layout that `signature` selects.
    pub open spec fn spec_specific_size(signature: u16) -> int {
        if signature == OPTIONAL_HEADER_SIGNATURE_64 {
            SpecificFields64::spec_size()
        } else {
            SpecificFields32::spec_size()
        }
    }

    /// What decoding an optional header at `at` yields: the header and the
    /// offset just past its data directories, or the first failure met.
    pub open spec fn spec_parse(b: Seq<u8>, at: int) -> core::result::Result<
        (OptionalView, int),
        Error,
    > {
        let standard_fields = StandardFields::spec_at(b, at);
        let signature = standard_fields.signature;
        let specific_at = at + StandardFields::spec_size();
        let specific_fields = Self::spec_specific_at(b, specific_at, signature);
        let directories_at = specific_at + Self::spec_specific_size(signature);
        let count = specific_fields.number_of_rva_and_sizes as nat;
        if !fits(b.len(), at, StandardFields::spec_size()) {
            Err(Error::OutOfBounds)
        } else if !Self::spec_known_signature(signature) {
            Err(Error::BadSignature(signature as u64))
        } else if !fits(b.len(), specific_at, Self::spec_specific_size(signature)) {
            Err(Error::OutOfBounds)
        } else if !table_fits(b.len(), directories_at, count, DataDirectory::spec_size()) {
            Err(Error::OutOfBounds)
        } else {
            Ok(
                (
                    OptionalView {
                        standard_fields,
                        specific_fields,
                        data_directories: DataDirectories::spec_items(b, directories_at, count),
                    },
                    directories_at + DataDirectory::spec_size() * count,
                ),
            )
        }
    }

    /// Decodes the optional header at the cursor: the standard fields, the
    /// Windows-specific fields under the layout that the magic selects, and
    /// as many data directories as those fields announce. The cursor moves
    /// past the last directory on success and stays where it was on failure.
    pub fn parse(bytes: &[u8], offset: &mut usize) -> (r: Result<Self>)
        ensures
            match Self::spec_parse(bytes@, *old(offset) as int) {
                Ok((header, end)) => r.is_ok() && r.unwrap()@ == header && *final(offset) == end,
                Err(e) => r == Err::<Self, Error>(e) && *final(offset) == *old(offset),
            },
    {
        let mut cur: usize = *offset;
        let standard_fields: StandardFields = StandardFields::parse(bytes, &mut cur)?;
        let specific_fields: SpecificFields = if standard_fields.signature
            == OPTIONAL_HEADER_SIGNATURE_32 {
            SpecificFields::from(SpecificFields32::parse(bytes, &mut cur)?)
        } else if standard_fields.signature == OPTIONAL_HEADER_SIGNATURE_64 {
            SpecificFields::from(SpecificFields64::parse(bytes, &mut cur)?)
        } else {
            return Err(Error::BadSignature(standard_fields.signature as u64));
        };
        let (data_directories, used) = DataDirectories::parse(
            bytes,
            cur,
            specific_fields.number_of_rva_and_sizes as usize,
        )?;
        assert(cur + used <= bytes.len());
        *offset = cur + used;
        Ok(Optional { standard_fields, specific_fields, data_directories })
    }
}

/// The section table, in file order.
#[derive(Debug, PartialEq, Eq, Clone, Default)]
pub struct Sections {
    pub items: Vec<Section>,
}

impl View for Sections {
    type V = Seq<Section>;

    open spec fn view(&self) -> Seq<Section> {
        self.items@
    }
}

impl Sections {
    /// The `count` records that stand one after another from `start` on.
    pub open spec fn spec_items(b: Seq<u8>, start: int, count: nat) -> Seq<Section> {
        Seq::new(count, |i: int| Section::spec_at(b, start + Section::spec_size() * i))
    }

    /// Decodes `count` records from `start` on, with a cursor of its own, and
    /// returns them with the number of bytes they took.
    pub fn parse(bytes: &[u8], start: usize, count: usize) -> (r: Result<(Self, usize)>)
        ensures
            table_fits(bytes@.len(), start as int, count as nat, Section::spec_size()) ==> r.is_ok()
                && r.unwrap().0@ == Self::spec_items(bytes@, start as int, count as nat)
                && r.unwrap().1 == Section::spec_size() * count,
            !table_fits(bytes@.len(), start as int, count as nat, Section::spec_size()) ==> r
                == Err::<(Self, usize), Error>(Error::OutOfBounds),
    {
        let mut items: Vec<Section> = Vec::new();
        let mut cur: usize = start;
        let mut i: usize = 0;
        while i < count
            invariant
                i <= count,
                cur == start + Section::spec_size() * i,
                i > 0 ==> cur <= bytes@.len(),
                items@ == Self::spec_items(bytes@, start as int, i as nat),
            decreases count - i,
        {
            let item = Section::parse(bytes, &mut cur)?;
            items.push(item);
            i += 1;
            assert(items@ =~= Self::spec_items(bytes@, start as int, i as nat));
        }
        Ok((Sections { items }, cur - start))
    }
}

impl Section {
    /// Whether the virtual address `va` lies in the section as it is mapped:
    /// from `virtual_address` up to `virtual_address + virtual_size`, both
    /// ends included.
    pub open spec fn spec_contains(self, va: u32) -> bool {
        self.virtual_address <= va && va <= self.virtual_address + self.virtual_size
    }

    /// The file offset of the virtual address `va`, taken as an address of
    /// this section.
    pub open spec fn spec_file_offset(self, va: u32) -> int {
        self.pointer_to_raw_data + (va - self.virtual_address)
    }

    /// Whether the virtual address `va` lies in the section as it is mapped.
    pub fn contains(&self, va: u32) -> (r: bool)
        ensures
            r == self.spec_contains(va),
    {
        self.virtual_address <= va && va as u64 <= self.virtual_address as u64
            + self.virtual_size as u64
    }

    /// The file offset of a virtual address that lies in the section.
    pub fn file_offset(&self, va: u32) -> (r: u64)
        requires
            self.spec_contains(va),
        ensures
            r == self.spec_file_offset(va),
    {
        self.pointer_to_raw_data as u64 + (va - self.virtual_address) as u64
    }
}

impl Sections {
    /// Whether `items[i]` contains `va` and no section before it does.
    pub open spec fn spec_is_first_containing(items: Seq<Section>, va: u32, i: int) -> bool {
        &&& 0 <= i < items.len()
        &&& items[i].spec_contains(va)
        &&& forall|j: int| 0 <= j < i ==> !(#[trigger] items[j]).spec_contains(va)
    }

    /// The first section, in file order, that contains `va`.
    pub open spec fn spec_section_of(items: Seq<Section>, va: u32) -> Option<Section> {
        if exists|i: int| Self::spec_is_first_containing(items, va, i) {
            Some(items[choose|i: int| Self::spec_is_first_containing(items, va, i)])
        } else {
            None
        }
    }

    /// The file offset of `va`: its distance from the start of the first
    /// section that contains it, counted from where that section's raw data
    /// stands in the file.
    pub open spec fn spec_file_offset(items: Seq<Section>, va: u32) -> Option<int> {
        match Self::spec_section_of(items, va) {
            Some(section) => Some(section.spec_file_offset(va)),
            None => None,
        }
    }

    /// At most one index is the first that contains `va`.
    pub proof fn lemma_first_containing_unique(items: Seq<Section>, va: u32, i: int, k: int)
        requires
            Self::spec_is_first_containing(items, va, i),
            Self::spec_is_first_containing(items, va, k),
        ensures
            i == k,
    {
        if i < k {
            assert(!items[i].spec_contains(va));
        } else if k < i {
            assert(!items[k].spec_contains(va));
        }
    }

    /// Finds the first section, in file order, that contains `va`.
    pub fn section_of(&self, va: u32) -> (r: Option<Section>)
        ensures
            r == Self::spec_section_of(self@, va),
    {
        let mut i: usize = 0;
        while i < self.items.len()
            invariant
                i <= self.items.len(),
                forall|j: int| 0 <= j < i ==> !(#[trigger] self@[j]).spec_contains(va),
            decreases self.items.len() - i,
        {
            let section = self.items[i];
            if section.contains(va) {
                proof {
                    assert(Self::spec_is_first_containing(self@, va, i as int));
                    let k = choose|k: int| Self::spec_is_first_containing(self@, va, k);
                    Self::lemma_first_containing_unique(self@, va, i as int, k);
                }
                return Some(section);
            }
            i += 1;
        }
        None
    }

    /// Maps the virtual address `va` to a file offset, where some
    /// section contains it.
    pub fn file_offset(&self, va: u32) -> (r: Option<u64>)
        ensures
            match Self::spec_file_offset(self@, va) {
                Some(at) => r == Some(at as u64) && at <= u64::MAX,
                None => r.is_none(),
            },
    {
        match self.section_of(va) {
            Some(section) => {
                proof {
                    let k = choose|k: int| Self::spec_is_first_containing(self@, va, k);
                    assert(self@[k].spec_contains(va));
                }
                Some(section.file_offset(va))
            },
            None => None,
        }
    }
}

/// Everything that stands before the section data: the MS-DOS stub, the PE
/// signature, the COFF header, the optional header and the section table.
#[derive(Debug, PartialEq, Eq, Clone, Default)]
pub struct Headers {
    pub dos: Dos,
    pub pe: PE,
    pub coff: COFF,
    pub optional: Optional,
    pub sections: Sections,
    /// The offset just past the data directories, where the section table
    /// starts.
    pub _offset: usize,
}

/// What a [`Headers`] holds, with its tables as sequences.
pub struct HeadersView {
    pub dos: Dos,
    pub pe: PE,
    pub coff: COFF,
    pub optional: OptionalView,
    pub sections: Seq<Section>,
    pub _offset: int,
}

impl View for Headers {
    type V = HeadersView;

    open spec fn view(&self) -> HeadersView {
        HeadersView {
            dos: self.dos,
            pe: self.pe,
            coff: self.coff,
            optional: self.optional@,
            sections: self.sections@,
            _offset: self._offset as int,
        }
    }
}

impl HeadersView {
    /// The three signatures hold the values that the format asks for.
    pub open spec fn wf(self) -> bool {
        &&& self.dos.signature == DOS_HEADER_SIGNATURE
        &&& self.pe.signature == PE_HEADER_SIGNATURE
        &&& Optional::spec_known_signature(self.optional.standard_fields.signature)
    }

    /// The number of bytes that the headers take in the file: up to the end
    /// of the section table, and no less than the MS-DOS stub.
    pub open spec fn spec_size(self) -> int {
        let end = self._offset + Section::spec_size() * self.sections.len();
        if end < Dos::spec_size() {
            Dos::spec_size()
        } else {
            end
        }
    }

    /// The import entry of the data directories: the second slot, where
    /// there is one.
    pub open spec fn spec_import_directory(self) -> Option<DataDirectory> {
        if self.optional.data_directories.len() >= 2 {
            Some(self.optional.data_directories[1])
        } else {
            None
        }
    }

    /// The first section that contains the address of the import entry.
    pub open spec fn spec_import_section(self) -> Option<Section> {
        match self.spec_import_directory() {
            Some(entry) => Sections::spec_section_of(self.sections, entry.virtual_address),
            None => None,
        }
    }

    /// The file offset of the import directory table.
    pub open spec fn spec_imports_offset(self) -> Option<int> {
        match self.spec_import_directory() {
            Some(entry) => Sections::spec_file_offset(self.sections, entry.virtual_address),
            None => None,
        }
    }
}

impl Headers {
    /// What decoding the headers of `b` yields, or the first failure met.
    ///
    /// The MS-DOS stub stands at offset 0 and names the offset of the PE
    /// signature; the COFF header, the optional header and the section table
    /// follow one another from there.
    pub open spec fn spec_parse(b: Seq<u8>) -> core::result::Result<HeadersView, Error> {
        let dos = Dos::spec_at(b, 0);
        let pe_at = dos.pe_header_offset as int;
        let pe = PE::spec_at(b, pe_at);
        let coff_at = pe_at + PE::spec_size();
        let coff = COFF::spec_at(b, coff_at);
        let optional_at = coff_at + COFF::spec_size();
        if !fits(b.len(), 0, Dos::spec_size()) {
            Err(Error::OutOfBounds)
        } else if dos.signature != DOS_HEADER_SIGNATURE {
            Err(Error::BadSignature(dos.signature as u64))
        } else if !fits(b.len(), pe_at, PE::spec_size()) {
            Err(Error::OutOfBounds)
        } else if pe.signature != PE_HEADER_SIGNATURE {
            Err(Error::BadSignature(pe.signature as u64))
        } else if !fits(b.len(), coff_at, COFF::spec_size()) {
            Err(Error::OutOfBounds)
        } else {
            match Optional::spec_parse(b, optional_at) {
                Err(e) => Err(e),
                Ok((optional, table_at)) => {
                    let count = coff.number_of_section as nat;
                    if !table_fits(b.len(), table_at, count, Section::spec_size()) {
                        Err(Error::OutOfBounds)
                    } else {
                        Ok(
                            HeadersView {
                                dos,
                                pe,
                                coff,
                                optional,
                                sections: Sections::spec_items(b, table_at, count),
                                _offset: table_at,
                            },
                        )
                    }
                },
            }
        }
    }

    /// The offset at which the magic of the optional header stands.
    pub open spec fn spec_magic_offset(b: Seq<u8>) -> int {
        Dos::spec_at(b, 0).pe_header_offset + PE::spec_size() + COFF::spec_size()
    }

    /// Whether `r` is what decoding the headers of `b` returns: the headers
    /// that [`Self::spec_parse`] describes, or its error.
    pub open spec fn spec_is_result(b: Seq<u8>, r: core::result::Result<Self, Error>) -> bool {
        match Self::spec_parse(b) {
            Ok(headers) => r.is_ok() && r.unwrap()@ == headers,
            Err(e) => r == Err::<Self, Error>(e),
        }
    }

    /// Decodes the headers of an image.
    pub fn parse(bytes: &[u8]) -> (r: Result<Self>)
        ensures
            Self::spec_is_result(bytes@, r),
            r.is_ok() ==> r.unwrap()@.wf(),
    {
        let mut offset_start: usize = 0;
        let dos: Dos = Dos::parse(bytes, &mut offset_start)?;
        if dos.signature != DOS_HEADER_SIGNATURE {
            return Err(Error::BadSignature(dos.signature as u64));
        }
        let mut offset: usize = dos.pe_header_offset as usize;
        let pe: PE = PE::parse(bytes, &mut offset)?;
        if pe.signature != PE_HEADER_SIGNATURE {
            return Err(Error::BadSignature(pe.signature as u64));
        }
        let coff: COFF = COFF::parse(bytes, &mut offset)?;
        let optional: Optional = Optional::parse(bytes, &mut offset)?;
        let (sections, _) = Sections::parse(bytes, offset, coff.number_of_section as usize)?;
        Ok(Headers { dos, pe, coff, optional, sections, _offset: offset })
    }

    /// The import entry of the data directories, where there is one.
    fn import_directory(&self) -> (r: Option<DataDirectory>)
        ensures
            r == self@.spec_import_directory(),
    {
        if self.optional.data_directories.items.len() >= 2 {
            Some(self.optional.data_directories.items[1])
        } else {
            None
        }
    }

    /// The file offset of the import directory table, in full width.
    pub fn imports_offset(&self) -> (r: Option<u64>)
        ensures
            match self@.spec_imports_offset() {
                Some(at) => r == Some(at as u64) && at <= u64::MAX,
                None => r.is_none(),
            },
    {
        match self.import_directory() {
            Some(entry) => self.sections.file_offset(entry.virtual_address),
            None => None,
        }
    }

    /// The first section, in file order, that contains the address of the
    /// import entry; `None` where the image has no import entry or no
    /// section contains its address.
    pub fn get_import_section(self) -> (r: Option<Section>)
        ensures
            r == self@.spec_import_section(),
    {
        match self.import_directory() {
            Some(entry) => self.sections.section_of(entry.virtual_address),
            None => None,
        }
    }

    /// The file offset of the import directory table; `None` where the image
    /// has no import entry, where no section contains its address, or where
    /// the offset is more than a `usize` holds.
    pub fn get_imports_offset(self) -> (r: Option<usize>)
        ensures
            r == match self@.spec_imports_offset() {
                Some(at) => if at <= usize::MAX {
                    Some(at as usize)
                } else {
                    None
                },
                None => None,
            },
    {
        match self.imports_offset() {
            Some(at) => if at <= usize::MAX as u64 {
                Some(at as usize)
            } else {
                None
            },
            None => None,
        }
    }
}

} // verus!
