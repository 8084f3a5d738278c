//! The Portable Executable format: headers, section table, import table.

pub mod header;
pub mod pe;
pub mod proofs;
pub mod section;
