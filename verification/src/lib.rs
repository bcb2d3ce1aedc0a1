//! Decoder for the metadata of a managed executable image (ECMA-335).
//!
//! The library turns a byte buffer holding a Portable Executable section
//! into a typed, queryable model of the CLI metadata: the four heaps
//! (`#Strings`, `#US`, `#GUID`, `#Blob`) and the `#~` table stream with its
//! dynamically sized rows, simple indices and tagged composite indices.

pub mod error;
pub mod reader;
pub mod math;
pub mod stream;
pub mod tables;
pub mod heap;
pub mod metadata;
pub mod code;
pub mod runtime;
pub mod pe;
pub mod clr;
pub mod laws;
