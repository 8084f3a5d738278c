//! A parsed PE image.

use vstd::prelude::*;
use crate::error::{Error, Result};
use crate::pe::header::{Headers, HeadersView};
use crate::pe::section::{ImportDirectory, ImportDirectoryTable};

verus! {

/// A parsed image: its headers and its import directory table.
#[derive(Debug, PartialEq, Eq, Clone, Default)]
pub struct PE {
    pub headers: Headers,
    pub import_directory_table: ImportDirectoryTable,
}

/// What a [`PE`] holds, with its tables as sequences.
pub struct PEView {
    pub headers: HeadersView,
    pub import_directory_table: Seq<ImportDirectory>,
}

impl View for PE {
    type V = PEView;

    open spec fn view(&self) -> PEView {
        PEView { headers: self.headers@, import_directory_table: self.import_directory_table@ }
    }
}

impl PE {
    /// The import directory table of an image with the headers `headers`:
    /// the table that stands at the file offset of the import entry, and no
    /// record where that offset cannot be resolved.
    pub open spec fn spec_imports(b: Seq<u8>, headers: HeadersView) -> core::result::Result<
        Seq<ImportDirectory>,
        Error,
    > {
        match headers.spec_imports_offset() {
            None => Ok(Seq::empty()),
            Some(at) => match ImportDirectoryTable::spec_parse(b, at) {
                Ok((items, _)) => Ok(items),
                Err(e) => Err(e),
            },
        }
    }

    /// What parsing `b` yields: the image, or the first failure met.
    pub open spec fn spec_new(b: Seq<u8>) -> core::result::Result<PEView, Error> {
        match Headers::spec_parse(b) {
            Err(e) => Err(e),
            Ok(headers) => match Self::spec_imports(b, headers) {
                Err(e) => Err(e),
                Ok(import_directory_table) => Ok(PEView { headers, import_directory_table }),
            },
        }
    }

    /// Whether `r` is what parsing `b` returns: the image that
    /// [`Self::spec_new`] describes, or its error.
    pub open spec fn spec_is_result(b: Seq<u8>, r: core::result::Result<Self, Error>) -> bool {
        match Self::spec_new(b) {
            Ok(image) => r.is_ok() && r.unwrap()@ == image,
            Err(e) => r == Err::<Self, Error>(e),
        }
    }

    /// Decodes the import directory table of an image whose headers are
    /// already decoded.
    pub fn read_imports(bytes: &[u8], headers: &Headers) -> (r: Result<ImportDirectoryTable>)
        ensures
            match Self::spec_imports(bytes@, headers@) {
                Ok(items) => r.is_ok() && r.unwrap()@ == items,
                Err(e) => r == Err::<ImportDirectoryTable, Error>(e),
            },
    {
        match headers.imports_offset() {
            None => Ok(ImportDirectoryTable { imports: Vec::new() }),
            Some(at) => {
                if at > bytes.len() as u64 {
                    proof {
                        assert forall|n: int| !ImportDirectoryTable::spec_ends_at(bytes@, at as int, n) by {}
                    }
                    return Err(Error::OutOfBounds);
                }
                let (table, _) = ImportDirectoryTable::parse(bytes, at as usize)?;
                Ok(table)
            },
        }
    }

    /// Parses an image: the headers, then the import directory table that
    /// the import entry of the data directories points to.
    pub fn new(bytes: &[u8]) -> (r: Result<Self>)
        ensures
            Self::spec_is_result(bytes@, r),
            r.is_ok() ==> r.unwrap()@.headers.wf(),
    {
        let headers: Headers = Headers::parse(bytes)?;
        let import_directory_table: ImportDirectoryTable = Self::read_imports(bytes, &headers)?;
        Ok(PE { headers, import_directory_table })
    }
}

} // verus!
