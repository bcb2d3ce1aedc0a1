//! The CLI header, the metadata root with its stream headers, and the
//! assembly of a whole image from a section's bytes.

use vstd::prelude::*;
use crate::error::{DecodeError, Site};
use crate::heap::{spec_blob_heap, spec_string_heap, spec_user_string_heap, blobs_match,
    strings_match, user_strings_match, BlobHeap, GuidHeap, Heaps, StringHeap, UserStringHeap,
    UserStringView};
use crate::metadata::Metadata;
use crate::pe::{spec_data_directory, DataDirectory, Section, SectionView};
use crate::reader;
use crate::reader::res_pos_eq;
use crate::stream::{spec_check_tables, spec_stream_header, spec_tables_stream, HeapExtents,
    MetaDataTablesStream, StreamHeader};
use crate::tables::{tables_wf, TablesView};
use vstd::string::StringExecFns;
use std::collections::HashMap;

verus! {

/// The CLI header fields the decoder keeps: the entry point token and
/// the strong-name and metadata directories.
#[derive(Debug, Clone, Copy, PartialEq, Eq, Structural)]
pub struct CLIHeader {
    pub entry_point_token: u32,
    pub strong_name_rva: DataDirectory,
    pub metadata_rva: DataDirectory,
}

/// Placeholder for a method body located through the CLI header.
#[derive(Debug)]
pub struct MethodBody {}

/// The 72-byte CLI header: its size and version are fixed by the format,
/// and the image must be marked IL-only.
pub open spec fn spec_cli_header(d: Seq<u8>, pos: int) -> Result<(CLIHeader, int), DecodeError> {
    match reader::spec_read_u32(d, pos) {
        Err(e) => Err(e),
        Ok((header_size, p1)) => if header_size != 0x48 {
            Err(DecodeError::BadMagic(Site::CliHeaderSize))
        } else {
            match reader::spec_read_u16(d, p1) {
                Err(e) => Err(e),
                Ok((clr_major, p2)) => match reader::spec_read_u16(d, p2) {
                    Err(e) => Err(e),
                    Ok((clr_minor, p3)) => if clr_major != 2 || clr_minor != 5 {
                        Err(DecodeError::BadVersion)
                    } else {
                        match spec_data_directory(d, p3) {
                            Err(e) => Err(e),
                            Ok((metadata_rva, p4)) => match reader::spec_read_u32(d, p4) {
                                Err(e) => Err(e),
                                Ok((flags, p5)) => if flags & 1 != 1 {
                                    Err(DecodeError::BadVersion)
                                } else {
                                    match reader::spec_read_u32(d, p5) {
                                        Err(e) => Err(e),
                                        Ok((entry_point_token, p6)) => match spec_data_directory(
                                            d,
                                            p6,
                                        ) {
                                            Err(e) => Err(e),
                                            Ok((resources, p7)) => match spec_data_directory(
                                                d,
                                                p7,
                                            ) {
                                                Err(e) => Err(e),
                                                Ok((strong_name_rva, p8)) => match reader::spec_skip(
                                                    d,
                                                    p8,
                                                    32,
                                                ) {
                                                    Err(e) => Err(e),
                                                    Ok((u, p9)) => Ok(
                                                        (
                                                            CLIHeader {
                                                                entry_point_token,
                                                                strong_name_rva,
                                                                metadata_rva,
                                                            },
                                                            p9,
                                                        ),
                                                    ),
                                                },
                                            },
                                        },
                                    }
                                },
                            },
                        }
                    },
                },
            }
        },
    }
}

impl CLIHeader {
    /// Decode the CLI header; the four trailing data directories are
    /// consumed and discarded.
    pub fn read_from(d: &Vec<u8>, pos: usize) -> (r: Result<(CLIHeader, usize), DecodeError>)
        ensures
            res_pos_eq(r, spec_cli_header(d@, pos as int)),
    {
        let (header_size, p1) = reader::read_u32(d, pos)?;
        if header_size != 0x48 {
            return Err(DecodeError::BadMagic(Site::CliHeaderSize));
        }
        let (clr_major, p2) = reader::read_u16(d, p1)?;
        let (clr_minor, p3) = reader::read_u16(d, p2)?;
        if clr_major != 2 || clr_minor != 5 {
            return Err(DecodeError::BadVersion);
        }
        let (metadata_rva, p4) = DataDirectory::read_from(d, p3)?;
        let (flags, p5) = reader::read_u32(d, p4)?;
        if flags & 1 != 1 {
            return Err(DecodeError::BadVersion);
        }
        let (entry_point_token, p6) = reader::read_u32(d, p5)?;
        let (_resources, p7) = DataDirectory::read_from(d, p6)?;
        let (strong_name_rva, p8) = DataDirectory::read_from(d, p7)?;
        let (_rest, p9) = reader::skip(d, p8, 32)?;
        Ok((CLIHeader { entry_point_token, strong_name_rva, metadata_rva }, p9))
    }
}

/// Which of the required streams a stream header names.
#[derive(Debug, Clone, Copy, PartialEq, Eq, Structural)]
pub enum StreamKind {
    Strings,
    UserStrings,
    Guid,
    Blob,
    Tables,
    Other,
}

/// Classify a stream by its name.
pub open spec fn spec_classify(name: Seq<char>) -> StreamKind {
    if name == "#Strings"@ {
        StreamKind::Strings
    } else if name == "#US"@ {
        StreamKind::UserStrings
    } else if name == "#GUID"@ {
        StreamKind::Guid
    } else if name == "#Blob"@ {
        StreamKind::Blob
    } else if name == "#~"@ {
        StreamKind::Tables
    } else {
        StreamKind::Other
    }
}

/// Classify a stream by its name.
pub fn classify(name: &String) -> (r: StreamKind)
    ensures
        r == spec_classify(name@),
{
    if *name == String::from_str("#Strings") {
        StreamKind::Strings
    } else if *name == String::from_str("#US") {
        StreamKind::UserStrings
    } else if *name == String::from_str("#GUID") {
        StreamKind::Guid
    } else if *name == String::from_str("#Blob") {
        StreamKind::Blob
    } else if *name == String::from_str("#~") {
        StreamKind::Tables
    } else {
        StreamKind::Other
    }
}

/// The metadata root: the version string and the stream headers, each
/// with its classification.
#[derive(Debug)]
pub struct MetadataHeader {
    pub clr_version: String,
    pub stream_headers: Vec<(StreamKind, StreamHeader)>,
}

/// The mathematical content of a metadata root.
pub ghost struct MetadataHeaderView {
    pub clr_version: Seq<char>,
    pub stream_headers: Seq<(StreamKind, (u32, u32, Seq<char>))>,
}

impl View for MetadataHeader {
    type V = MetadataHeaderView;

    open spec fn view(&self) -> MetadataHeaderView {
        MetadataHeaderView {
            clr_version: self.clr_version@,
            stream_headers: self.stream_headers@.map_values(
                |p: (StreamKind, StreamHeader)| (p.0, p.1@),
            ),
        }
    }
}

/// `count` consecutive stream headers, each classified by name.
pub open spec fn spec_stream_headers(d: Seq<u8>, pos: int, n: int) -> Result<
    (Seq<(StreamKind, (u32, u32, Seq<char>))>, int),
    DecodeError,
>
    decreases n,
{
    if n <= 0 {
        Ok((Seq::empty(), pos))
    } else {
        match spec_stream_header(d, pos) {
            Err(e) => Err(e),
            Ok((h, p)) => match spec_stream_headers(d, p, n - 1) {
                Err(e) => Err(e),
                Ok((s, pe)) => Ok((seq![(spec_classify(h.2), h)] + s, pe)),
            },
        }
    }
}

/// The metadata root: signature, versions, the version string padded to
/// its declared length, and the stream headers.
pub open spec fn spec_metadata_header(d: Seq<u8>, pos: int) -> Result<
    (MetadataHeaderView, int),
    DecodeError,
> {
    match reader::spec_read_u32(d, pos) {
        Err(e) => Err(e),
        Ok((signature, p1)) => if signature != 0x424A5342 {
            Err(DecodeError::BadMagic(Site::MetadataSignature))
        } else {
            match reader::spec_skip(d, p1, 8) {
                Err(e) => Err(e),
                Ok((u1, p2)) => match reader::spec_read_u32(d, p2) {
                    Err(e) => Err(e),
                    Ok((version_length, p3)) => match reader::spec_read_c_str_padded(
                        d,
                        p3,
                        version_length as int,
                        Site::VersionString,
                    ) {
                        Err(e) => Err(e),
                        Ok((version, p4)) => match reader::spec_skip(d, p4, 2) {
                            Err(e) => Err(e),
                            Ok((u2, p5)) => match reader::spec_read_u16(d, p5) {
                                Err(e) => Err(e),
                                Ok((stream_count, p6)) => match spec_stream_headers(
                                    d,
                                    p6,
                                    stream_count as int,
                                ) {
                                    Err(e) => Err(e),
                                    Ok((headers, p7)) => Ok(
                                        (
                                            MetadataHeaderView {
                                                clr_version: version,
                                                stream_headers: headers,
                                            },
                                            p7,
                                        ),
                                    ),
                                },
                            },
                        },
                    },
                },
            }
        },
    }
}

/// Read `count` consecutive stream headers, classifying each.
fn read_stream_headers(d: &Vec<u8>, pos: usize, count: u16) -> (r: Result<
    (Vec<(StreamKind, StreamHeader)>, usize),
    DecodeError,
>)
    ensures
        match (r, spec_stream_headers(d@, pos as int, count as int)) {
            (Ok((v, p)), Ok((s, sp))) => v@.map_values(
                |q: (StreamKind, StreamHeader)| (q.0, q.1@),
            ) == s && p as int == sp,
            (Err(e), Err(se)) => e == se,
            _ => false,
        },
{
    let mut out: Vec<(StreamKind, StreamHeader)> = Vec::new();
    let mut i: u16 = 0;
    let mut p: usize = pos;
    while i < count
        invariant
            i <= count,
            spec_stream_headers(d@, pos as int, count as int) == (match spec_stream_headers(
                d@,
                p as int,
                count - i,
            ) {
                Ok((rest, pe)) => Ok::<(Seq<(StreamKind, (u32, u32, Seq<char>))>, int), DecodeError>(
                    (out@.map_values(|q: (StreamKind, StreamHeader)| (q.0, q.1@)) + rest, pe),
                ),
                Err(e) => Err::<(Seq<(StreamKind, (u32, u32, Seq<char>))>, int), DecodeError>(e),
            }),
        decreases count - i,
    {
        let ghost prev = out@.map_values(|q: (StreamKind, StreamHeader)| (q.0, q.1@));
        let ghost pp = p as int;
        let ghost ni = count - i;
        let (h, p2) = match StreamHeader::read_from(d, p) {
            Ok(x) => x,
            Err(e) => {
                proof {
                    assert(spec_stream_headers(d@, pp, ni as int) == Err::<
                        (Seq<(StreamKind, (u32, u32, Seq<char>))>, int),
                        DecodeError,
                    >(e));
                }
                return Err(e);
            },
        };
        let kind = classify(&h.name);
        let ghost hv = h@;
        out.push((kind, h));
        proof {
            let tail = spec_stream_headers(d@, p2 as int, ni - 1);
            assert(spec_stream_headers(d@, pp, ni as int) == (match tail {
                Ok((s, pe)) => Ok::<(Seq<(StreamKind, (u32, u32, Seq<char>))>, int), DecodeError>(
                    (seq![(spec_classify(hv.2), hv)] + s, pe),
                ),
                Err(e) => Err::<(Seq<(StreamKind, (u32, u32, Seq<char>))>, int), DecodeError>(e),
            }));
            assert(out@.map_values(|q: (StreamKind, StreamHeader)| (q.0, q.1@)) =~= prev.push(
                (kind, hv),
            ));
            if tail is Ok {
                assert(prev + (seq![(spec_classify(hv.2), hv)] + tail->Ok_0.0) =~= prev.push(
                    (kind, hv),
                ) + tail->Ok_0.0);
            }
        }
        p = p2;
        i = i + 1;
    }
    proof {
        assert(out@.map_values(|q: (StreamKind, StreamHeader)| (q.0, q.1@)) + Seq::<
            (StreamKind, (u32, u32, Seq<char>)),
        >::empty() =~= out@.map_values(|q: (StreamKind, StreamHeader)| (q.0, q.1@)));
    }
    Ok((out, p))
}

impl MetadataHeader {
    /// Decode the metadata root at `pos`.
    pub fn read_from(d: &Vec<u8>, pos: usize) -> (r: Result<(MetadataHeader, usize), DecodeError>)
        ensures
            match (r, spec_metadata_header(d@, pos as int)) {
                (Ok((h, p)), Ok((hv, sp))) => h@ == hv && p as int == sp,
                (Err(e), Err(se)) => e == se,
                _ => false,
            },
    {
        let (signature, p1) = reader::read_u32(d, pos)?;
        if signature != 0x424A5342 {
            return Err(DecodeError::BadMagic(Site::MetadataSignature));
        }
        let (_versions, p2) = reader::skip(d, p1, 8)?;
        let (version_length, p3) = reader::read_u32(d, p2)?;
        let (clr_version, p4) = reader::read_c_str_padded(
            d,
            p3,
            version_length as usize,
            Site::VersionString,
        )?;
        let (_reserved, p5) = reader::skip(d, p4, 2)?;
        let (stream_count, p6) = reader::read_u16(d, p5)?;
        let (stream_headers, p7) = read_stream_headers(d, p6, stream_count)?;
        Ok((MetadataHeader { clr_version, stream_headers }, p7))
    }
}

/// The extent of the first stream of the given kind, if one is named.
pub open spec fn spec_find_stream(
    s: Seq<(StreamKind, (u32, u32, Seq<char>))>,
    kind: StreamKind,
    i: int,
) -> Option<(u32, u32)>
    decreases s.len() - i,
{
    if i < 0 || i >= s.len() {
        None
    } else if s[i].0 == kind {
        Some((s[i].1.0, s[i].1.1))
    } else {
        spec_find_stream(s, kind, i + 1)
    }
}

impl MetadataHeader {
    /// The offset and size of the first stream of the given kind.
    pub fn find_stream(&self, kind: StreamKind) -> (r: Option<(u32, u32)>)
        ensures
            r == spec_find_stream(self@.stream_headers, kind, 0),
    {
        let ghost views = self@.stream_headers;
        let mut i: usize = 0;
        while i < self.stream_headers.len()
            invariant
                i <= self.stream_headers@.len(),
                views == self@.stream_headers,
                spec_find_stream(views, kind, 0) == spec_find_stream(views, kind, i as int),
            decreases self.stream_headers@.len() - i,
        {
            let entry = &self.stream_headers[i];
            if entry.0 == kind {
                return Some((entry.1.offset, entry.1.size));
            }
            i = i + 1;
        }
        None
    }
}

/// The mathematical content of a decoded image's metadata.
pub ghost struct MetadataView {
    pub tables: TablesView,
    pub row_counts: Seq<u32>,
    pub extents: HeapExtents,
    pub strings: Map<u32, Seq<char>>,
    pub user_strings: Map<u32, UserStringView>,
    pub blobs: Map<u32, Seq<u8>>,
    pub guids: Seq<u8>,
}

/// The mathematical content of the four heaps.
pub ghost struct HeapsView {
    pub strings: Map<u32, Seq<char>>,
    pub user_strings: Map<u32, UserStringView>,
    pub blobs: Map<u32, Seq<u8>>,
    pub guids: Seq<u8>,
    pub extents: HeapExtents,
}

/// The extent of a stream that may be absent: absent heaps are empty.
pub open spec fn spec_heap_extent(h: MetadataHeaderView, kind: StreamKind) -> (u32, u32) {
    match spec_find_stream(h.stream_headers, kind, 0) {
        Some(e) => e,
        None => (0u32, 0u32),
    }
}

/// The image prefix: the CLI header at offset 8, the optional strong-name
/// blob right after it, and the metadata root at the metadata RVA.
pub open spec fn spec_image_prefix(s: SectionView) -> Result<
    (CLIHeader, Option<Seq<u8>>, MetadataHeaderView, u32),
    DecodeError,
> {
    let d = s.data;
    match spec_cli_header(d, 8) {
        Err(e) => Err(e),
        Ok((cli, p1)) => {
            let sn_end = p1 + cli.strong_name_rva.size;
            if cli.strong_name_rva.size > 0 && sn_end > d.len() {
                Err(DecodeError::UnexpectedEof)
            } else {
                let sn = if cli.strong_name_rva.size > 0 {
                    Some(d.subrange(p1, sn_end))
                } else {
                    None
                };
                if cli.metadata_rva.virtual_address < s.header.virtual_address {
                    Err(DecodeError::SizeOverflow)
                } else {
                    let off = (cli.metadata_rva.virtual_address
                        - s.header.virtual_address) as u32;
                    match spec_metadata_header(d, off as int) {
                        Err(e) => Err(e),
                        Ok((mh, u1)) => Ok((cli, sn, mh, off)),
                    }
                }
            }
        },
    }
}

/// The four heaps of the metadata root; an absent heap is empty.
pub open spec fn spec_image_heaps(d: Seq<u8>, off: int, mh: MetadataHeaderView) -> Result<
    HeapsView,
    DecodeError,
> {
    let se = spec_heap_extent(mh, StreamKind::Strings);
    let ue = spec_heap_extent(mh, StreamKind::UserStrings);
    let ge = spec_heap_extent(mh, StreamKind::Guid);
    let be = spec_heap_extent(mh, StreamKind::Blob);
    match spec_string_heap(d, off + se.0, 0, se.1 as int, Map::empty()) {
        Err(e) => Err(e),
        Ok(sm) => match spec_user_string_heap(d, off + ue.0, 0, ue.1 as int, Map::empty()) {
            Err(e) => Err(e),
            Ok(um) => match spec_blob_heap(d, off + be.0, 0, be.1 as int, Map::empty()) {
                Err(e) => Err(e),
                Ok(bm) => if off + ge.0 + ge.1 > d.len() {
                    Err(DecodeError::UnexpectedEof)
                } else {
                    Ok(
                        HeapsView {
                            strings: sm,
                            user_strings: um,
                            blobs: bm,
                            guids: d.subrange(off + ge.0, off + ge.0 + ge.1),
                            extents: HeapExtents {
                                string_size: se.1,
                                guid_size: ge.1,
                                blob_size: be.1,
                            },
                        },
                    )
                },
            },
        },
    }
}

/// The whole decode of a CLI image from a section: the prefix, the four
/// heaps, and the `#~` stream. An absent `#~` stream is fatal.
pub open spec fn spec_clr_image(s: SectionView) -> Result<
    (CLIHeader, Option<Seq<u8>>, MetadataView),
    DecodeError,
> {
    match spec_image_prefix(s) {
        Err(e) => Err(e),
        Ok((cli, sn, mh, off)) => match spec_image_heaps(s.data, off as int, mh) {
            Err(e) => Err(e),
            Ok(hv) => match spec_find_stream(mh.stream_headers, StreamKind::Tables, 0) {
                None => Err(DecodeError::BadMagic(Site::TablesStream)),
                Some(te) => match spec_tables_stream(s.data, off + te.0) {
                    Err(e) => Err(e),
                    Ok(((hs, rc, tv), u2)) => Ok(
                        (
                            cli,
                            sn,
                            MetadataView {
                                tables: tv,
                                row_counts: rc,
                                extents: hv.extents,
                                strings: hv.strings,
                                user_strings: hv.user_strings,
                                blobs: hv.blobs,
                                guids: hv.guids,
                            },
                        ),
                    ),
                },
            },
        },
    }
}

/// The decoded image: its CLI header, strong-name blob and metadata.
#[derive(Debug)]
pub struct CLRImage {
    pub cli_header: CLIHeader,
    pub strong_name_signature: Option<Vec<u8>>,
    pub metadata: Metadata,
}

/// An optional byte vector matches an optional byte sequence.
pub open spec fn opt_bytes_match(v: Option<Vec<u8>>, s: Option<Seq<u8>>) -> bool {
    match (v, s) {
        (Some(b), Some(sb)) => b@ == sb,
        (None, None) => true,
        _ => false,
    }
}

/// The built heaps match their mathematical content field for field.
pub open spec fn heaps_match(h: Heaps, hv: HeapsView) -> bool {
    &&& strings_match(h.strings.strings@, hv.strings)
    &&& user_strings_match(h.user_strings.strings@, hv.user_strings)
    &&& blobs_match(h.blobs.blobs@, hv.blobs)
    &&& h.guids.data@ == hv.guids
    &&& h.strings.size == hv.extents.string_size
    &&& h.guids.size == hv.extents.guid_size
    &&& h.blobs.size == hv.extents.blob_size
}

/// The decoded image matches its mathematical content field for field,
/// and its table indices were validated against the decoded extents.
pub open spec fn image_matches(img: CLRImage, cli: CLIHeader, sn: Option<Seq<u8>>, mv: MetadataView)
    -> bool {
    &&& img.cli_header == cli
    &&& opt_bytes_match(img.strong_name_signature, sn)
    &&& img.metadata.tables@ == mv.tables
    &&& img.metadata.row_counts@ == mv.row_counts
    &&& img.metadata.extents() == mv.extents
    &&& strings_match(img.metadata.heaps.strings.strings@, mv.strings)
    &&& user_strings_match(img.metadata.heaps.user_strings.strings@, mv.user_strings)
    &&& blobs_match(img.metadata.heaps.blobs.blobs@, mv.blobs)
    &&& img.metadata.heaps.guids.data@ == mv.guids
    &&& img.metadata.wf()
}

/// Bound a stream position inside the section data; a position past the
/// end is representable but never readable.
fn stream_pos(d: &Vec<u8>, base: u32, offset: u32) -> (r: Option<usize>)
    ensures
        match r {
            Some(p) => p == base + offset && p <= d@.len(),
            None => base + offset > d@.len(),
        },
{
    let p64: u64 = base as u64 + offset as u64;
    let dlen = d.len();
    if p64 <= dlen as u64 {
        Some(p64 as usize)
    } else {
        None
    }
}

/// Decode the CLI header, the strong-name blob and the metadata root.
fn read_image_prefix(section: &Section) -> (r: Result<
    (CLIHeader, Option<Vec<u8>>, MetadataHeader, u32),
    DecodeError,
>)
    ensures
        match (r, spec_image_prefix(section@)) {
            (Ok((cli, sn, mh, off)), Ok((sc, ssn, smh, soff))) => cli == sc && opt_bytes_match(
                sn,
                ssn,
            ) && mh@ == smh && off == soff,
            (Err(e), Err(se)) => e == se,
            _ => false,
        },
{
    let d = &section.data;
    let (cli_header, p1) = CLIHeader::read_from(d, 8)?;
    let strong_name_signature: Option<Vec<u8>> = if cli_header.strong_name_rva.size > 0 {
        if !reader::has_bytes(d, p1, cli_header.strong_name_rva.size as usize) {
            return Err(DecodeError::UnexpectedEof);
        }
        let mut buffer: Vec<u8> = Vec::new();
        reader::append_range(&mut buffer, d, p1, p1 + cli_header.strong_name_rva.size as usize);
        Some(buffer)
    } else {
        None
    };
    if cli_header.metadata_rva.virtual_address < section.header.virtual_address {
        return Err(DecodeError::SizeOverflow);
    }
    let off = cli_header.metadata_rva.virtual_address - section.header.virtual_address;
    let (metadata_header, _hend) = match stream_pos(d, off, 0) {
        Some(p) => MetadataHeader::read_from(d, p)?,
        None => {
            return Err(DecodeError::UnexpectedEof);
        },
    };
    Ok((cli_header, strong_name_signature, metadata_header, off))
}

/// Build the `#Strings` heap from the stream the root names, or an
/// empty one when it is absent.
fn read_strings_heap(d: &Vec<u8>, off: u32, mh: &MetadataHeader) -> (r: Result<
    StringHeap,
    DecodeError,
>)
    ensures
        ({
            let se = spec_heap_extent(mh@, StreamKind::Strings);
            match (r, spec_string_heap(d@, off + se.0, 0, se.1 as int, Map::empty())) {
                (Ok(h), Ok(m)) => strings_match(h.strings@, m) && h.size == se.1,
                (Err(e), Err(se2)) => e == se2,
                _ => false,
            }
        }),
{
    match mh.find_stream(StreamKind::Strings) {
        Some((so, ss)) => match stream_pos(d, off, so) {
            Some(p) => StringHeap::read_from(d, p, ss),
            None => {
                if ss > 0 {
                    return Err(DecodeError::UnexpectedEof);
                }
                let h = StringHeap { strings: HashMap::new(), size: 0 };
                proof {
                    assert(h.strings@.dom() =~= Map::<u32, Seq<char>>::empty().dom());
                }
                Ok(h)
            },
        },
        None => {
            let h = StringHeap { strings: HashMap::new(), size: 0 };
            proof {
                assert(h.strings@.dom() =~= Map::<u32, Seq<char>>::empty().dom());
            }
            Ok(h)
        },
    }
}

/// Build the `#US` heap from the stream the root names, or an empty one
/// when it is absent.
fn read_user_strings_heap(d: &Vec<u8>, off: u32, mh: &MetadataHeader) -> (r: Result<
    UserStringHeap,
    DecodeError,
>)
    ensures
        ({
            let ue = spec_heap_extent(mh@, StreamKind::UserStrings);
            match (r, spec_user_string_heap(d@, off + ue.0, 0, ue.1 as int, Map::empty())) {
                (Ok(h), Ok(m)) => user_strings_match(h.strings@, m) && h.size == ue.1,
                (Err(e), Err(se2)) => e == se2,
                _ => false,
            }
        }),
{
    match mh.find_stream(StreamKind::UserStrings) {
        Some((uo, us)) => match stream_pos(d, off, uo) {
            Some(p) => UserStringHeap::read_from(d, p, us),
            None => {
                if us > 0 {
                    return Err(DecodeError::UnexpectedEof);
                }
                let h = UserStringHeap { strings: HashMap::new(), size: 0 };
                proof {
                    assert(h.strings@.dom() =~= Map::<u32, UserStringView>::empty().dom());
                }
                Ok(h)
            },
        },
        None => {
            let h = UserStringHeap { strings: HashMap::new(), size: 0 };
            proof {
                assert(h.strings@.dom() =~= Map::<u32, UserStringView>::empty().dom());
            }
            Ok(h)
        },
    }
}

/// Build the `#Blob` heap from the stream the root names, or an empty one
/// when it is absent.
fn read_blobs_heap(d: &Vec<u8>, off: u32, mh: &MetadataHeader) -> (r: Result<
    BlobHeap,
    DecodeError,
>)
    ensures
        ({
            let be = spec_heap_extent(mh@, StreamKind::Blob);
            match (r, spec_blob_heap(d@, off + be.0, 0, be.1 as int, Map::empty())) {
                (Ok(h), Ok(m)) => blobs_match(h.blobs@, m) && h.size == be.1,
                (Err(e), Err(se2)) => e == se2,
                _ => false,
            }
        }),
{
    match mh.find_stream(StreamKind::Blob) {
        Some((bo, bs)) => match stream_pos(d, off, bo) {
            Some(p) => BlobHeap::read_from(d, p, bs),
            None => {
                if bs > 0 {
                    return Err(DecodeError::UnexpectedEof);
                }
                let h = BlobHeap { blobs: HashMap::new(), size: 0 };
                proof {
                    assert(h.blobs@.dom() =~= Map::<u32, Seq<u8>>::empty().dom());
                }
                Ok(h)
            },
        },
        None => {
            let h = BlobHeap { blobs: HashMap::new(), size: 0 };
            proof {
                assert(h.blobs@.dom() =~= Map::<u32, Seq<u8>>::empty().dom());
            }
            Ok(h)
        },
    }
}

/// Copy the `#GUID` heap extent, or an empty one when it is absent.
fn read_guids_heap(d: &Vec<u8>, off: u32, mh: &MetadataHeader) -> (r: Result<
    GuidHeap,
    DecodeError,
>)
    ensures
        ({
            let ge = spec_heap_extent(mh@, StreamKind::Guid);
            match r {
                Ok(h) => off + ge.0 + ge.1 <= d@.len() && h.data@ == d@.subrange(
                    off + ge.0,
                    off + ge.0 + ge.1,
                ) && h.size == ge.1,
                Err(e) => off + ge.0 + ge.1 > d@.len() && e == DecodeError::UnexpectedEof,
            }
        }),
{
    match mh.find_stream(StreamKind::Guid) {
        Some((go, gs)) => match stream_pos(d, off, go) {
            Some(p) => GuidHeap::read_from(d, p, gs),
            None => Err(DecodeError::UnexpectedEof),
        },
        None => {
            if off as u64 > d.len() as u64 {
                return Err(DecodeError::UnexpectedEof);
            }
            let h = GuidHeap { data: Vec::new(), size: 0 };
            proof {
                assert(h.data@ =~= d@.subrange(off as int, off as int));
            }
            Ok(h)
        },
    }
}

/// Build the four heaps from the streams the metadata root names.
fn read_heaps(d: &Vec<u8>, off: u32, mh: &MetadataHeader) -> (r: Result<Heaps, DecodeError>)
    ensures
        match (r, spec_image_heaps(d@, off as int, mh@)) {
            (Ok(h), Ok(hv)) => heaps_match(h, hv),
            (Err(e), Err(se)) => e == se,
            _ => false,
        },
{
    let strings = read_strings_heap(d, off, mh)?;
    let user_strings = read_user_strings_heap(d, off, mh)?;
    let blobs = read_blobs_heap(d, off, mh)?;
    let guids = read_guids_heap(d, off, mh)?;
    Ok(Heaps { strings, user_strings, blobs, guids })
}

impl CLRImage {
    /// Decode a whole CLI image from the section holding it.
    pub fn from_section(section: &Section) -> (r: Result<CLRImage, DecodeError>)
        ensures
            match spec_clr_image(section@) {
                Ok((cli, sn, mv)) => if tables_wf(mv.tables, mv.row_counts, mv.extents) {
                    match r {
                        Ok(img) => image_matches(img, cli, sn, mv),
                        _ => false,
                    }
                } else {
                    match r {
                        Err(e) => e is IndexOutOfRange && spec_check_tables(
                            mv.tables,
                            mv.row_counts,
                            mv.extents,
                        ) == Err::<(), DecodeError>(e),
                        _ => false,
                    }
                },
                Err(e) => r == Err::<CLRImage, DecodeError>(e),
            },
    {
        let (cli_header, strong_name_signature, metadata_header, off) = read_image_prefix(
            section,
        )?;
        let d = &section.data;
        let heaps = read_heaps(d, off, &metadata_header)?;
        let extents = HeapExtents {
            string_size: heaps.strings.size,
            guid_size: heaps.guids.size,
            blob_size: heaps.blobs.size,
        };
        let (metadata_stream, _tend) = match metadata_header.find_stream(StreamKind::Tables) {
            Some((to, _ts)) => match stream_pos(d, off, to) {
                Some(p) => MetaDataTablesStream::read_from(d, p, &extents)?,
                None => {
                    return Err(DecodeError::UnexpectedEof);
                },
            },
            None => {
                return Err(DecodeError::BadMagic(Site::TablesStream));
            },
        };
        let heaps_final = heaps;
        let metadata = Metadata {
            tables: metadata_stream.tables,
            heaps: heaps_final,
            method_bodies: HashMap::new(),
            row_counts: metadata_stream.row_counts,
        };
        Ok(CLRImage { cli_header, strong_name_signature, metadata })
    }
}

} // verus!
