//! The single error type of the decoder.
//!
//! Every format violation is fatal: the decode either returns a complete
//! model or one of these errors, and nothing is recovered internally.

use vstd::prelude::*;
use crate::stream::TableId;

verus! {

/// Places in the image at which a magic number, a version or a piece of
/// text can be found wanting.
#[derive(Debug, Clone, Copy, PartialEq, Eq, Structural)]
pub enum Site {
    /// The two-byte DOS signature at the start of the file.
    DosMagic,
    /// The four-byte PE signature.
    PeMagic,
    /// The fixed size field of the CLI header.
    CliHeaderSize,
    /// The four-byte signature of the metadata root.
    MetadataSignature,
    /// The reserved leading word of the `#~` stream header.
    TablesHeader,
    /// The `#~` stream itself, when the metadata root does not name one.
    TablesStream,
    /// A run of the `#Strings` heap.
    StringsHeap,
    /// The name of a stream header.
    StreamName,
    /// The version string of the metadata root.
    VersionString,
    /// The name of a section header.
    SectionName,
}

/// The thirteen tagged composite index encodings.
#[derive(Debug, Clone, Copy, PartialEq, Eq, Structural)]
pub enum CompositeKind {
    TypeDefOrRef,
    HasConstant,
    HasCustomAttribute,
    HasFieldMarshall,
    HasDeclSecurity,
    MemberRefParent,
    HasSemantics,
    MethodDefOrRef,
    MemberForwarded,
    Implementation,
    CustomAttributeType,
    ResolutionScope,
    TypeOrMethodDef,
}

/// What an out-of-range index was pointing into.
#[derive(Debug, Clone, Copy, PartialEq, Eq, Structural)]
pub enum IndexKind {
    /// A simple index into the rows of a table.
    Table(TableId),
    /// A byte offset into the `#Strings` heap.
    StringHeap,
    /// A one-based entry number of the `#GUID` heap.
    GuidHeap,
    /// A byte offset into the `#Blob` heap.
    BlobHeap,
}

/// A fatal decode failure, with the category of the violation.
#[derive(Debug, Clone, Copy, PartialEq, Eq, Structural)]
pub enum DecodeError {
    /// The stream ended before a read could complete.
    UnexpectedEof,
    /// A signature or reserved field did not hold its required value.
    BadMagic(Site),
    /// A version field did not hold the value the format fixes.
    BadVersion,
    /// A bit of the `valid` mask names a table this decoder cannot size.
    UnknownTableId(u8),
    /// A composite index carried a tag with no defined target table.
    ReservedTag(CompositeKind, u8),
    /// The leading byte of a compressed unsigned integer fits no pattern.
    InvalidCompressedInt(u8),
    /// A stored index is neither null nor within its target's bounds.
    IndexOutOfRange(IndexKind, u32, u32),
    /// Text that had to be UTF-8 was not.
    BadUtf8(Site),
    /// A size or offset computation exceeded its integer type.
    SizeOverflow,
}

} // verus!
