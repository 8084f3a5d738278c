//! Parser for the Windows Portable Executable format.
//!
//! A byte buffer is decoded into the DOS stub, the PE signature, the COFF
//! header, the optional header with its data directories, the section table
//! and the import directory table. Every decoder carries a contract over the
//! bytes it reads.

pub mod error;
pub mod reader;
pub mod pe;
