//! The import directory table.

use vstd::prelude::*;
use crate::error::{Error, Result};
use crate::reader::{fits, le_u32, read_u32};

verus! {

/// One record of the import directory table.
#[derive(Debug, PartialEq, Eq, Copy, Clone, Default)]
pub struct ImportDirectory {
    pub import_lookup_table_rva: u32,
    pub time_date_stamp: u32,
    pub forwarder_chain: u32,
    pub name: u32,
    pub import_address_table_rva: u32,
}

impl ImportDirectory {
    /// The number of bytes the record takes in a file.
    pub open spec fn spec_size() -> int {
        20
    }

    /// The record that the 20 bytes from `at` on encode.
    pub open spec fn spec_at(b: Seq<u8>, at: int) -> ImportDirectory {
        ImportDirectory {
            import_lookup_table_rva: le_u32(b, at),
            time_date_stamp: le_u32(b, at + 4),
            forwarder_chain: le_u32(b, at + 8),
            name: le_u32(b, at + 12),
            import_address_table_rva: le_u32(b, at + 16),
        }
    }

    /// Decodes the record at the cursor. The cursor moves past the record on
    /// success and stays where it was on failure.
    pub fn parse(bytes: &[u8], offset: &mut usize) -> (r: Result<Self>)
        ensures
            fits(bytes@.len(), *old(offset) as int, Self::spec_size()) ==> r == Ok::<Self, Error>(
                Self::spec_at(bytes@, *old(offset) as int),
            ) && *final(offset) == *old(offset) + Self::spec_size(),
            !fits(bytes@.len(), *old(offset) as int, Self::spec_size()) ==> r == Err::<Self, Error>(
                Error::OutOfBounds,
            ) && *final(offset) == *old(offset),
    {
        let mut cur: usize = *offset;
        let import_lookup_table_rva = read_u32(bytes, &mut cur)?;
        let time_date_stamp = read_u32(bytes, &mut cur)?;
        let forwarder_chain = read_u32(bytes, &mut cur)?;
        let name = read_u32(bytes, &mut cur)?;
        let import_address_table_rva = read_u32(bytes, &mut cur)?;
        *offset = cur;
        Ok(ImportDirectory { import_lookup_table_rva, time_date_stamp, forwarder_chain, name, import_address_table_rva })
    }
}

impl ImportDirectory {
    /// Whether every field is zero, which marks the end of a table.
    pub open spec fn spec_is_zero(self) -> bool {
        &&& self.import_lookup_table_rva == 0
        &&& self.time_date_stamp == 0
        &&& self.forwarder_chain == 0
        &&& self.name == 0
        &&& self.import_address_table_rva == 0
    }

    /// Whether every field is zero, which marks the end of a table.
    pub fn is_zero(&self) -> (r: bool)
        ensures
            r == self.spec_is_zero(),
    {
        self.import_lookup_table_rva == 0 && self.time_date_stamp == 0 && self.forwarder_chain == 0
            && self.name == 0 && self.import_address_table_rva == 0
    }
}

/// The import directory table: one record for each module the image imports
/// from, in file order, without the all-zero record that ends it.
#[derive(Debug, PartialEq, Eq, Clone, Default)]
pub struct ImportDirectoryTable {
    pub imports: Vec<ImportDirectory>,
}

impl View for ImportDirectoryTable {
    type V = Seq<ImportDirectory>;

    open spec fn view(&self) -> Seq<ImportDirectory> {
        self.imports@
    }
}

impl ImportDirectoryTable {
    /// The record with index `i` of a table that starts at `start`.
    pub open spec fn spec_entry(b: Seq<u8>, start: int, i: int) -> ImportDirectory {
        ImportDirectory::spec_at(b, start + ImportDirectory::spec_size() * i)
    }

    /// Whether the table that starts at `start` holds exactly `n` records:
    /// the record with index `n` is the first all-zero one, and it lies
    /// inside the buffer.
    pub open spec fn spec_ends_at(b: Seq<u8>, start: int, n: int) -> bool {
        &&& 0 <= n
        &&& fits(b.len(), start, ImportDirectory::spec_size() * (n + 1))
        &&& Self::spec_entry(b, start, n).spec_is_zero()
        &&& forall|j: int| 0 <= j < n ==> !(#[trigger] Self::spec_entry(b, start, j)).spec_is_zero()
    }

    /// The first `n` records of the table that starts at `start`.
    pub open spec fn spec_items(b: Seq<u8>, start: int, n: nat) -> Seq<ImportDirectory> {
        Seq::new(n, |i: int| Self::spec_entry(b, start, i))
    }

    /// What decoding a table at `start` yields: the records before the first
    /// all-zero one, with the number of bytes taken, that record included;
    /// a failure where the buffer ends before such a record.
    pub open spec fn spec_parse(b: Seq<u8>, start: int) -> core::result::Result<
        (Seq<ImportDirectory>, int),
        Error,
    > {
        if exists|n: int| Self::spec_ends_at(b, start, n) {
            let n = choose|n: int| Self::spec_ends_at(b, start, n);
            Ok((Self::spec_items(b, start, n as nat), ImportDirectory::spec_size() * (n + 1)))
        } else {
            Err(Error::OutOfBounds)
        }
    }

    /// A table ends at one index at most.
    pub proof fn lemma_end_unique(b: Seq<u8>, start: int, n: int, m: int)
        requires
            Self::spec_ends_at(b, start, n),
            Self::spec_ends_at(b, start, m),
        ensures
            n == m,
    {
        if n < m {
            assert(!Self::spec_entry(b, start, n).spec_is_zero());
        } else if m < n {
            assert(!Self::spec_entry(b, start, m).spec_is_zero());
        }
    }

    /// Decodes records from `start` on, with a cursor of its own, until one
    /// is all zero. Returns the records before that one and the number of
    /// bytes taken. The walk ends at the latest where the buffer does.
    pub fn parse(bytes: &[u8], start: usize) -> (r: Result<(Self, usize)>)
        ensures
            match Self::spec_parse(bytes@, start as int) {
                Ok((items, used)) => r.is_ok() && r.unwrap().0@ == items && r.unwrap().1 == used,
                Err(e) => r == Err::<(Self, usize), Error>(e),
            },
    {
        let mut imports: Vec<ImportDirectory> = Vec::new();
        let mut cur: usize = start;
        loop
            invariant
                cur == start + ImportDirectory::spec_size() * imports@.len(),
                imports@.len() > 0 ==> cur <= bytes@.len(),
                imports@ == Self::spec_items(bytes@, start as int, imports@.len()),
                forall|j: int|
                    0 <= j < imports@.len() ==> !(#[trigger] Self::spec_entry(
                        bytes@,
                        start as int,
                        j,
                    )).spec_is_zero(),
            decreases bytes@.len() - cur,
        {
            let ghost n = imports@.len() as int;
            let entry = match ImportDirectory::parse(bytes, &mut cur) {
                Ok(entry) => entry,
                Err(e) => {
                    proof {
                        assert forall|m: int| !Self::spec_ends_at(bytes@, start as int, m) by {
                            if Self::spec_ends_at(bytes@, start as int, m) {
                                if m < n {
                                    assert(!Self::spec_entry(bytes@, start as int, m).spec_is_zero());
                                }
                            }
                        }
                    }
                    return Err(e);
                },
            };
            if entry.is_zero() {
                proof {
                    assert(Self::spec_ends_at(bytes@, start as int, n));
                    let m = choose|m: int| Self::spec_ends_at(bytes@, start as int, m);
                    Self::lemma_end_unique(bytes@, start as int, n, m);
                }
                return Ok((ImportDirectoryTable { imports }, cur - start));
            }
            imports.push(entry);
            assert(imports@ =~= Self::spec_items(bytes@, start as int, imports@.len()));
        }
    }
}

} // verus!
