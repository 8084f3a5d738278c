//! What holds of every buffer: facts about the decoders, proved from their
//! contracts.

use vstd::prelude::*;
use crate::error::Error;
use crate::pe::header::{
    table_fits, DataDirectory, Dos, Headers, HeadersView, Optional, Section, Sections,
    SpecificFields32, SpecificFields64, StandardFields, COFF, OPTIONAL_HEADER_SIGNATURE_64,
    PE as Signature,
};
use crate::reader::{fits, lemma_le_u16_written, with_le_u16};
use crate::pe::pe::{PEView, PE};
use crate::pe::section::{ImportDirectory, ImportDirectoryTable};

verus! {

/// The section table of a decoded image holds exactly as many records as the
/// COFF header announces, and they stand in file order: the record with
/// index `i` is the one encoded `i` record sizes past the start of the table.
pub proof fn lemma_section_count_honored(b: Seq<u8>)
    requires
        Headers::spec_parse(b).is_ok(),
    ensures
        ({
            let headers = Headers::spec_parse(b).unwrap();
            &&& headers.sections.len() == headers.coff.number_of_section
            &&& forall|i: int|
                0 <= i < headers.sections.len() ==> #[trigger] headers.sections[i]
                    == Section::spec_at(b, headers._offset + Section::spec_size() * i)
        }),
{
    let headers = Headers::spec_parse(b).unwrap();
    let optional_at = Dos::spec_at(b, 0).pe_header_offset + Signature::spec_size() + COFF::spec_size();
    let optional = Optional::spec_parse(b, optional_at);
    assert(optional.is_ok());
    let table_at = optional.unwrap().1;
    let count = headers.coff.number_of_section as nat;
    assert(headers.sections == Sections::spec_items(b, table_at, count));
    assert(table_at <= b.len());
    assert(headers._offset == table_at);
}

/// Parsing has no hidden state: whatever two calls of [`PE::new`] on the
/// same bytes return, both succeed with images that hold the same values, or
/// both fail with the same error.
pub proof fn lemma_new_idempotent(
    b: Seq<u8>,
    first: core::result::Result<PE, Error>,
    second: core::result::Result<PE, Error>,
)
    requires
        PE::spec_is_result(b, first),
        PE::spec_is_result(b, second),
    ensures
        match (first, second) {
            (Ok(p), Ok(q)) => p@ == q@,
            (Err(e), Err(f)) => e == f,
            _ => false,
        },
{
}

/// Decoding the headers has no hidden state either.
pub proof fn lemma_parse_idempotent(
    b: Seq<u8>,
    first: core::result::Result<Headers, Error>,
    second: core::result::Result<Headers, Error>,
)
    requires
        Headers::spec_is_result(b, first),
        Headers::spec_is_result(b, second),
    ensures
        match (first, second) {
            (Ok(p), Ok(q)) => p@ == q@,
            (Err(e), Err(f)) => e == f,
            _ => false,
        },
{
}

/// A record that lies inside the first `k` bytes of a buffer is the same in
/// the buffer cut down to those bytes.
proof fn lemma_prefix_dos(b: Seq<u8>, k: int, at: int)
    requires
        0 <= at,
        at + Dos::spec_size() <= k <= b.len(),
    ensures
        Dos::spec_at(b.take(k), at) == Dos::spec_at(b, at),
{
}

/// A record that lies inside the first `k` bytes of a buffer is the same in
/// the buffer cut down to those bytes.
proof fn lemma_prefix_signature(b: Seq<u8>, k: int, at: int)
    requires
        0 <= at,
        at + Signature::spec_size() <= k <= b.len(),
    ensures
        Signature::spec_at(b.take(k), at) == Signature::spec_at(b, at),
{
}

/// A record that lies inside the first `k` bytes of a buffer is the same in
/// the buffer cut down to those bytes.
proof fn lemma_prefix_coff(b: Seq<u8>, k: int, at: int)
    requires
        0 <= at,
        at + COFF::spec_size() <= k <= b.len(),
    ensures
        COFF::spec_at(b.take(k), at) == COFF::spec_at(b, at),
{
}

/// A record that lies inside the first `k` bytes of a buffer is the same in
/// the buffer cut down to those bytes.
proof fn lemma_prefix_standard_fields(b: Seq<u8>, k: int, at: int)
    requires
        0 <= at,
        at + StandardFields::spec_size() <= k <= b.len(),
    ensures
        StandardFields::spec_at(b.take(k), at) == StandardFields::spec_at(b, at),
{
}

/// A record that lies inside the first `k` bytes of a buffer is the same in
/// the buffer cut down to those bytes.
proof fn lemma_prefix_specific_32(b: Seq<u8>, k: int, at: int)
    requires
        0 <= at,
        at + SpecificFields32::spec_size() <= k <= b.len(),
    ensures
        SpecificFields32::spec_at(b.take(k), at) == SpecificFields32::spec_at(b, at),
{
}

/// A record that lies inside the first `k` bytes of a buffer is the same in
/// the buffer cut down to those bytes.
proof fn lemma_prefix_specific_64(b: Seq<u8>, k: int, at: int)
    requires
        0 <= at,
        at + SpecificFields64::spec_size() <= k <= b.len(),
    ensures
        SpecificFields64::spec_at(b.take(k), at) == SpecificFields64::spec_at(b, at),
{
}

/// A record that lies inside the first `k` bytes of a buffer is the same in
/// the buffer cut down to those bytes.
proof fn lemma_prefix_data_directory(b: Seq<u8>, k: int, at: int)
    requires
        0 <= at,
        at + DataDirectory::spec_size() <= k <= b.len(),
    ensures
        DataDirectory::spec_at(b.take(k), at) == DataDirectory::spec_at(b, at),
{
}

/// A record that lies inside the first `k` bytes of a buffer is the same in
/// the buffer cut down to those bytes.
proof fn lemma_prefix_section(b: Seq<u8>, k: int, at: int)
    requires
        0 <= at,
        at + Section::spec_size() <= k <= b.len(),
    ensures
        Section::spec_at(b.take(k), at) == Section::spec_at(b, at),
{
}

/// A buffer cut down to fewer bytes than its headers take is rejected for
/// its length: wherever the cut falls, some read runs past the end, and no
/// other failure comes first.
pub proof fn lemma_truncated_headers_rejected(b: Seq<u8>, k: int)
    requires
        Headers::spec_parse(b).is_ok(),
        0 <= k < Headers::spec_parse(b).unwrap().spec_size(),
    ensures
        k <= b.len(),
        Headers::spec_parse(b.take(k)) == Err::<HeadersView, Error>(Error::OutOfBounds),
        PE::spec_new(b.take(k)) == Err::<PEView, Error>(Error::OutOfBounds),
{
    let t = b.take(k);
    let headers = Headers::spec_parse(b).unwrap();
    let pe_at = Dos::spec_at(b, 0).pe_header_offset as int;
    let coff_at = pe_at + Signature::spec_size();
    let optional_at = coff_at + COFF::spec_size();
    let specific_at = optional_at + StandardFields::spec_size();
    let magic = StandardFields::spec_at(b, optional_at).signature;
    let directories_at = specific_at + Optional::spec_specific_size(magic);
    assert(Optional::spec_parse(b, optional_at).is_ok());
    let table_at = Optional::spec_parse(b, optional_at).unwrap().1;
    assert(headers._offset == table_at);
    assert(headers.sections.len() == headers.coff.number_of_section);
    if k >= Dos::spec_size() {
        lemma_prefix_dos(b, k, 0);
        if fits(t.len(), pe_at, Signature::spec_size()) {
            lemma_prefix_signature(b, k, pe_at);
            if fits(t.len(), coff_at, COFF::spec_size()) {
                lemma_prefix_coff(b, k, coff_at);
                if fits(t.len(), optional_at, StandardFields::spec_size()) {
                    lemma_prefix_standard_fields(b, k, optional_at);
                    if fits(t.len(), specific_at, Optional::spec_specific_size(magic)) {
                        if magic == OPTIONAL_HEADER_SIGNATURE_64 {
                            lemma_prefix_specific_64(b, k, specific_at);
                        } else {
                            lemma_prefix_specific_32(b, k, specific_at);
                        }
                        assert(Optional::spec_specific_at(t, specific_at, magic)
                            == Optional::spec_specific_at(b, specific_at, magic));
                        let count = Optional::spec_specific_at(
                            b,
                            specific_at,
                            magic,
                        ).number_of_rva_and_sizes as nat;
                        assert(table_at == directories_at + DataDirectory::spec_size() * count);
                        if table_fits(t.len(), directories_at, count, DataDirectory::spec_size()) {
                            assert(Optional::spec_parse(t, optional_at).is_ok());
                            assert(Optional::spec_parse(t, optional_at).unwrap().1 == table_at);
                            assert(!table_fits(
                                t.len(),
                                table_at,
                                headers.coff.number_of_section as nat,
                                Section::spec_size(),
                            ));
                        }
                    }
                }
            }
        }
    }
}

/// An image whose optional-header magic is overwritten with a value that is
/// neither of the two recognised ones is rejected with that value.
///
/// The magic must not share bytes with the field of the MS-DOS stub that
/// says where the PE header stands: to overwrite it there would move the
/// header.
pub proof fn lemma_unknown_magic_rejected(b: Seq<u8>, v: u16)
    requires
        Headers::spec_parse(b).is_ok(),
        !Optional::spec_known_signature(v),
        Headers::spec_magic_offset(b) + 2 <= 60 || Headers::spec_magic_offset(b) >= Dos::spec_size(),
    ensures
        Headers::spec_parse(with_le_u16(b, Headers::spec_magic_offset(b), v)) == Err::<
            HeadersView,
            Error,
        >(Error::BadSignature(v as u64)),
        PE::spec_new(with_le_u16(b, Headers::spec_magic_offset(b), v)) == Err::<PEView, Error>(
            Error::BadSignature(v as u64),
        ),
{
    let at = Headers::spec_magic_offset(b);
    let c = with_le_u16(b, at, v);
    let pe_at = Dos::spec_at(b, 0).pe_header_offset as int;
    assert(Optional::spec_parse(b, at).is_ok());
    lemma_le_u16_written(b, at, v);
    assert(Dos::spec_at(c, 0).signature == Dos::spec_at(b, 0).signature);
    assert(Dos::spec_at(c, 0).pe_header_offset == Dos::spec_at(b, 0).pe_header_offset);
    assert(Signature::spec_at(c, pe_at) == Signature::spec_at(b, pe_at));
    assert(StandardFields::spec_at(c, at).signature == v);
}

/// A decoded import directory table holds no all-zero record: every record
/// of it is one that stands in the buffer before the terminator, in file
/// order, and the terminator is counted in the bytes taken but left out.
pub proof fn lemma_table_excludes_terminator(b: Seq<u8>, start: int)
    requires
        ImportDirectoryTable::spec_parse(b, start).is_ok(),
    ensures
        ({
            let (items, used) = ImportDirectoryTable::spec_parse(b, start).unwrap();
            &&& used == ImportDirectory::spec_size() * (items.len() + 1)
            &&& start + used <= b.len()
            &&& ImportDirectoryTable::spec_entry(b, start, items.len() as int).spec_is_zero()
            &&& forall|i: int|
                0 <= i < items.len() ==> (#[trigger] items[i]) == ImportDirectoryTable::spec_entry(
                    b,
                    start,
                    i,
                ) && !items[i].spec_is_zero()
        }),
{
    let n = choose|n: int| ImportDirectoryTable::spec_ends_at(b, start, n);
    let (items, used) = ImportDirectoryTable::spec_parse(b, start).unwrap();
    assert(items.len() == n);
    assert forall|i: int| 0 <= i < items.len() implies (#[trigger] items[i])
        == ImportDirectoryTable::spec_entry(b, start, i) && !items[i].spec_is_zero() by {
        assert(!ImportDirectoryTable::spec_entry(b, start, i).spec_is_zero());
    }
}

/// The section that an address resolves to contains the address, and no
/// section before it in file order does; an address resolves to no section
/// only where none contains it.
pub proof fn lemma_first_match_wins(items: Seq<Section>, va: u32)
    ensures
        match Sections::spec_section_of(items, va) {
            Some(section) => exists|i: int|
                Sections::spec_is_first_containing(items, va, i) && items[i] == section,
            None => forall|i: int| 0 <= i < items.len() ==> !(#[trigger] items[i]).spec_contains(va),
        },
{
    if exists|i: int| Sections::spec_is_first_containing(items, va, i) {
    } else {
        assert forall|i: int| 0 <= i < items.len() implies !(#[trigger] items[i]).spec_contains(
            va,
        ) by {
            lemma_no_first_no_match(items, va, i);
        }
    }
}

/// Where no index is the first that contains `va`, no section up to `i`
/// contains it.
proof fn lemma_no_first_no_match(items: Seq<Section>, va: u32, i: int)
    requires
        0 <= i < items.len(),
        forall|k: int| !Sections::spec_is_first_containing(items, va, k),
    ensures
        forall|j: int| 0 <= j <= i ==> !(#[trigger] items[j]).spec_contains(va),
    decreases i,
{
    if i > 0 {
        lemma_no_first_no_match(items, va, i - 1);
    }
    assert(!Sections::spec_is_first_containing(items, va, i));
}

} // verus!
