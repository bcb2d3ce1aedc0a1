//! The four heaps of the metadata root: `#Strings`, `#US`, `#GUID` and
//! `#Blob`, each an index-addressable store keyed by byte offset.

use vstd::prelude::*;
use vstd::utf8::{valid_utf8, decode_utf8};
use std::collections::HashMap;
use crate::error::{DecodeError, Site};
use crate::reader;
use crate::reader::{find_nul, lemma_find_nul_range, spec_compressed, StreamUtils};

verus! {

broadcast use vstd::std_specs::hash::group_hash_axioms;

/// A `#US` entry: a decoded UTF-16 string, or the record that its code
/// units were not valid UTF-16. Garbage is data, not an error.
#[derive(Debug, Clone, PartialEq, Eq)]
pub enum UserString {
    Valid(String),
    Garbage,
}

/// The mathematical content of a `UserString`.
pub ghost enum UserStringView {
    Valid(Seq<char>),
    Garbage,
}

impl View for UserString {
    type V = UserStringView;

    open spec fn view(&self) -> UserStringView {
        match self {
            UserString::Valid(s) => UserStringView::Valid(s@),
            UserString::Garbage => UserStringView::Garbage,
        }
    }
}

/// What `String::from_utf16` decodes a sequence of UTF-16 code units to,
/// when they are well formed; the result depends on the units alone.
pub uninterp spec fn utf16_decoded(units: Seq<u16>) -> Option<Seq<char>>;

/// Relies on `String::from_utf16`: it succeeds exactly on well-formed
/// UTF-16 and its result is a function of the code units alone; the
/// empty unit sequence decodes to the empty string.
#[verifier::external_body]
fn utf16_to_string(buffer: &Vec<u16>) -> (r: Option<String>)
    ensures
        match r {
            Some(s) => utf16_decoded(buffer@) == Some(s@),
            None => utf16_decoded(buffer@) is None,
        },
        buffer@.len() == 0 ==> (match r {
            Some(s) => s@ == Seq::<char>::empty(),
            None => false,
        }),
{
    String::from_utf16(buffer.as_slice()).ok()
}

impl UserString {
    /// Decode UTF-16 code units; ill-formed input yields `Garbage`, and
    /// an empty buffer the empty string.
    pub fn from_utf16(buffer: &Vec<u16>) -> (r: UserString)
        ensures
            match utf16_decoded(buffer@) {
                Some(s) => r@ == UserStringView::Valid(s),
                None => r@ == UserStringView::Garbage,
            },
            buffer@.len() == 0 ==> r@ == UserStringView::Valid(Seq::<char>::empty()),
    {
        match utf16_to_string(buffer) {
            Some(string) => UserString::Valid(string),
            None => UserString::Garbage,
        }
    }
}

/// The part of a heap extent not yet consumed, clamped at zero.
pub open spec fn heap_remaining(size: int, consumed: int) -> int {
    if consumed >= size {
        0
    } else {
        size - consumed
    }
}

/// The `#Strings` heap: NUL-terminated UTF-8 runs scanned from offset
/// zero, keyed by their starting offset. Offset zero holds the empty
/// string whenever the heap is not empty.
#[derive(Debug)]
pub struct StringHeap {
    pub strings: HashMap<u32, String>,
    pub size: u32,
}

/// The scan of the `#Strings` extent: at each boundary a NUL-terminated
/// run, recorded under its starting offset; a run that is not valid
/// UTF-8 is fatal, as is one that runs off the end of the data.
pub open spec fn spec_string_heap(
    d: Seq<u8>,
    pos: int,
    consumed: int,
    size: int,
    acc: Map<u32, Seq<char>>,
) -> Result<Map<u32, Seq<char>>, DecodeError>
    decreases heap_remaining(size, consumed),
{
    if consumed >= size {
        Ok(acc)
    } else {
        let e = find_nul(d, pos);
        if e < pos || e >= d.len() {
            Err(DecodeError::UnexpectedEof)
        } else {
            let b = d.subrange(pos, e);
            if !valid_utf8(b) {
                Err(DecodeError::BadUtf8(Site::StringsHeap))
            } else {
                spec_string_heap(
                    d,
                    e + 1,
                    consumed + (e - pos) + 1,
                    size,
                    acc.insert(consumed as u32, decode_utf8(b)),
                )
            }
        }
    }
}

/// A map of strings matches a map of character sequences key for key.
pub open spec fn strings_match(h: Map<u32, String>, m: Map<u32, Seq<char>>) -> bool {
    &&& h.dom() == m.dom()
    &&& forall|k: u32| m.contains_key(k) ==> (#[trigger] h[k])@ == m[k]
}

impl StringHeap {
    /// Scan the whole `#Strings` extent of `header.size` bytes at `pos`.
    pub fn read_from(d: &Vec<u8>, pos: usize, size: u32) -> (r: Result<StringHeap, DecodeError>)
        ensures
            match (r, spec_string_heap(d@, pos as int, 0, size as int, Map::empty())) {
                (Ok(h), Ok(m)) => strings_match(h.strings@, m) && h.size == size,
                (Err(e), Err(se)) => e == se,
                _ => false,
            },
    {
        let ghost full = spec_string_heap(d@, pos as int, 0, size as int, Map::empty());
        let mut strings: HashMap<u32, String> = HashMap::new();
        let ghost macc: Map<u32, Seq<char>> = Map::empty();
        let mut bytes_read: u64 = 0;
        let mut p: usize = pos;
        loop
            invariant
                pos <= p,
                bytes_read < size as u64 ==> full == spec_string_heap(
                    d@,
                    p as int,
                    bytes_read as int,
                    size as int,
                    macc,
                ),
                bytes_read >= size as u64 ==> full == Ok::<Map<u32, Seq<char>>, DecodeError>(macc),
                strings_match(strings@, macc),
                full == spec_string_heap(d@, pos as int, 0, size as int, Map::empty()),
            decreases heap_remaining(size as int, bytes_read as int),
        {
            if bytes_read >= size as u64 {
                return Ok(StringHeap { strings, size });
            }
            let ghost pp = p as int;
            let ghost consumed = bytes_read as int;
            let ghost before = macc;
            let (run, p2) = match reader::read_c_str_bytes(d, p) {
                Ok(x) => x,
                Err(e) => {
                    return Err(e);
                },
            };
            proof {
                assert(pp <= d@.len()) by {
                    if pp > d@.len() {
                        assert(find_nul(d@, pp) == pp);
                    }
                }
                lemma_find_nul_range(d@, pp);
            }
            let ghost e = find_nul(d@, pp);
            let run_len = run.len();
            let s = match reader::to_utf8_string(run, Site::StringsHeap) {
                Ok(s) => s,
                Err(err) => {
                    return Err(err);
                },
            };
            strings.insert(bytes_read as u32, s);
            proof {
                macc = macc.insert(consumed as u32, decode_utf8(d@.subrange(pp, e)));
                assert(strings@.dom() =~= macc.dom());
                assert(spec_string_heap(d@, pp, consumed, size as int, before)
                    == spec_string_heap(d@, e + 1, consumed + (e - pp) + 1, size as int, macc));
            }
            let remaining = size as u64 - bytes_read;
            if run_len as u64 >= remaining || run_len as u64 + 1 >= remaining {
                proof {
                    assert(spec_string_heap(d@, e + 1, consumed + (e - pp) + 1, size as int, macc)
                        == Ok::<Map<u32, Seq<char>>, DecodeError>(macc));
                }
                return Ok(StringHeap { strings, size });
            }
            bytes_read = bytes_read + run_len as u64 + 1;
            p = p2;
        }
    }

    /// The string at a heap offset, if one starts there.
    pub fn get_at_index(&self, index: u32) -> (r: Option<&String>)
        ensures
            match r {
                Some(s) => self.strings@.contains_key(index) && *s == self.strings@[index],
                None => !self.strings@.contains_key(index),
            },
    {
        self.strings.get(&index)
    }
}

/// The `#US` heap: length-prefixed UTF-16 entries, keyed by starting
/// offset.
#[derive(Debug)]
pub struct UserStringHeap {
    pub strings: HashMap<u32, UserString>,
    pub size: u32,
}

/// The scan of the `#US` extent: each entry is a compressed length `L`,
/// then `L/2` UTF-16 code units and one trailing flag byte; an entry with
/// `L == 0` is the empty string. The offset account advances by the
/// compressed size plus `L`.
pub open spec fn spec_user_string_heap(
    d: Seq<u8>,
    pos: int,
    consumed: int,
    size: int,
    acc: Map<u32, UserStringView>,
) -> Result<Map<u32, UserStringView>, DecodeError>
    decreases heap_remaining(size, consumed),
{
    if consumed >= size {
        Ok(acc)
    } else {
        match spec_compressed(d, pos) {
            Err(e) => Err(e),
            Ok((cu, p1)) => if cu.compressed_size <= 0 {
                Err(DecodeError::UnexpectedEof)
            } else if cu.value == 0 {
                spec_user_string_heap(
                    d,
                    p1,
                    consumed + cu.compressed_size,
                    size,
                    acc.insert(consumed as u32, UserStringView::Valid(Seq::empty())),
                )
            } else {
                match reader::spec_read_u16_seq(d, p1, cu.value as int / 2) {
                    Err(e) => Err(e),
                    Ok((units, p2)) => match reader::spec_read_u8(d, p2) {
                        Err(e) => Err(e),
                        Ok((flag, p3)) => spec_user_string_heap(
                            d,
                            p3,
                            consumed + cu.compressed_size + cu.value,
                            size,
                            acc.insert(
                                consumed as u32,
                                match utf16_decoded(units) {
                                    Some(s) => UserStringView::Valid(s),
                                    None => UserStringView::Garbage,
                                },
                            ),
                        ),
                    },
                }
            },
        }
    }
}

/// A map of user strings matches a map of their views key for key.
pub open spec fn user_strings_match(h: Map<u32, UserString>, m: Map<u32, UserStringView>) -> bool {
    &&& h.dom() == m.dom()
    &&& forall|k: u32| m.contains_key(k) ==> (#[trigger] h[k])@ == m[k]
}

impl UserStringHeap {
    /// Scan the whole `#US` extent of `size` bytes at `pos`.
    pub fn read_from(d: &Vec<u8>, pos: usize, size: u32) -> (r: Result<
        UserStringHeap,
        DecodeError,
    >)
        ensures
            match (r, spec_user_string_heap(d@, pos as int, 0, size as int, Map::empty())) {
                (Ok(h), Ok(m)) => user_strings_match(h.strings@, m) && h.size == size,
                (Err(e), Err(se)) => e == se,
                _ => false,
            },
    {
        let ghost full = spec_user_string_heap(d@, pos as int, 0, size as int, Map::empty());
        let mut strings: HashMap<u32, UserString> = HashMap::new();
        let ghost macc: Map<u32, UserStringView> = Map::empty();
        let mut bytes_read: u64 = 0;
        let mut p: usize = pos;
        loop
            invariant
                full == spec_user_string_heap(d@, p as int, bytes_read as int, size as int, macc),
                user_strings_match(strings@, macc),
                full == spec_user_string_heap(d@, pos as int, 0, size as int, Map::empty()),
            decreases heap_remaining(size as int, bytes_read as int),
        {
            if bytes_read >= size as u64 {
                return Ok(UserStringHeap { strings, size });
            }
            let (decoded, p1) = StreamUtils::decode_compressed_int(d, p)?;
            if decoded.value == 0 {
                strings.insert(bytes_read as u32, UserString::Valid(String::new()));
                proof {
                    macc = macc.insert(bytes_read as u32, UserStringView::Valid(Seq::empty()));
                }
                bytes_read = bytes_read + decoded.compressed_size as u64;
                p = p1;
                continue ;
            }
            let (buffer, p2) = reader::read_u16_seq(d, p1, decoded.value / 2)?;
            let (_is_ascii, p3) = reader::read_u8(d, p2)?;
            let us = UserString::from_utf16(&buffer);
            strings.insert(bytes_read as u32, us);
            proof {
                macc = macc.insert(bytes_read as u32, match utf16_decoded(buffer@) {
                    Some(s) => UserStringView::Valid(s),
                    None => UserStringView::Garbage,
                });
            }
            bytes_read = bytes_read + decoded.compressed_size as u64 + decoded.value as u64;
            p = p3;
        }
    }

    /// The user string at a heap offset, if an entry starts there.
    pub fn get_at_index(&self, index: u32) -> (r: Option<&UserString>)
        ensures
            match r {
                Some(s) => self.strings@.contains_key(index) && *s == self.strings@[index],
                None => !self.strings@.contains_key(index),
            },
    {
        self.strings.get(&index)
    }
}

/// The `#Blob` heap: length-prefixed byte runs, keyed by starting offset.
#[derive(Debug)]
pub struct BlobHeap {
    pub blobs: HashMap<u32, Vec<u8>>,
    pub size: u32,
}

/// The scan of the `#Blob` extent: each entry is a compressed length `L`
/// followed by `L` payload bytes, recorded under its starting offset.
pub open spec fn spec_blob_heap(
    d: Seq<u8>,
    pos: int,
    consumed: int,
    size: int,
    acc: Map<u32, Seq<u8>>,
) -> Result<Map<u32, Seq<u8>>, DecodeError>
    decreases heap_remaining(size, consumed),
{
    if consumed >= size {
        Ok(acc)
    } else {
        match spec_compressed(d, pos) {
            Err(e) => Err(e),
            Ok((cu, p1)) => if cu.compressed_size <= 0 {
                Err(DecodeError::UnexpectedEof)
            } else if p1 + cu.value > d.len() {
                Err(DecodeError::UnexpectedEof)
            } else {
                spec_blob_heap(
                    d,
                    p1 + cu.value,
                    consumed + cu.compressed_size + cu.value,
                    size,
                    acc.insert(consumed as u32, d.subrange(p1, p1 + cu.value)),
                )
            },
        }
    }
}

/// A map of byte vectors matches a map of byte sequences key for key.
pub open spec fn blobs_match(h: Map<u32, Vec<u8>>, m: Map<u32, Seq<u8>>) -> bool {
    &&& h.dom() == m.dom()
    &&& forall|k: u32| m.contains_key(k) ==> (#[trigger] h[k])@ == m[k]
}

impl BlobHeap {
    /// Scan the whole `#Blob` extent of `size` bytes at `pos`.
    pub fn read_from(d: &Vec<u8>, pos: usize, size: u32) -> (r: Result<BlobHeap, DecodeError>)
        ensures
            match (r, spec_blob_heap(d@, pos as int, 0, size as int, Map::empty())) {
                (Ok(h), Ok(m)) => blobs_match(h.blobs@, m) && h.size == size,
                (Err(e), Err(se)) => e == se,
                _ => false,
            },
    {
        let ghost full = spec_blob_heap(d@, pos as int, 0, size as int, Map::empty());
        let mut blobs: HashMap<u32, Vec<u8>> = HashMap::new();
        let ghost macc: Map<u32, Seq<u8>> = Map::empty();
        let mut bytes_read: u64 = 0;
        let mut p: usize = pos;
        loop
            invariant
                full == spec_blob_heap(d@, p as int, bytes_read as int, size as int, macc),
                blobs_match(blobs@, macc),
                full == spec_blob_heap(d@, pos as int, 0, size as int, Map::empty()),
            decreases heap_remaining(size as int, bytes_read as int),
        {
            if bytes_read >= size as u64 {
                return Ok(BlobHeap { blobs, size });
            }
            let (decoded, p1) = StreamUtils::decode_compressed_int(d, p)?;
            if !reader::has_bytes(d, p1, decoded.value as usize) {
                return Err(DecodeError::UnexpectedEof);
            }
            let mut payload: Vec<u8> = Vec::new();
            reader::append_range(&mut payload, d, p1, p1 + decoded.value as usize);
            blobs.insert(bytes_read as u32, payload);
            proof {
                macc = macc.insert(bytes_read as u32, d@.subrange(p1 as int, p1 + decoded.value));
            }
            bytes_read = bytes_read + decoded.compressed_size as u64 + decoded.value as u64;
            p = p1 + decoded.value as usize;
        }
    }

    /// The blob at a heap offset, if an entry starts there.
    pub fn get_at_index(&self, index: u32) -> (r: Option<&Vec<u8>>)
        ensures
            match r {
                Some(b) => self.blobs@.contains_key(index) && *b == self.blobs@[index],
                None => !self.blobs@.contains_key(index),
            },
    {
        self.blobs.get(&index)
    }
}

/// The `#GUID` heap: a dense array of sixteen-byte entries, addressed by
/// one-based index.
#[derive(Debug)]
pub struct GuidHeap {
    pub data: Vec<u8>,
    pub size: u32,
}

impl GuidHeap {
    /// Copy the whole `#GUID` extent of `size` bytes at `pos`.
    pub fn read_from(d: &Vec<u8>, pos: usize, size: u32) -> (r: Result<GuidHeap, DecodeError>)
        ensures
            match r {
                Ok(h) => pos + size <= d@.len() && h.data@ == d@.subrange(
                    pos as int,
                    pos + size,
                ) && h.size == size,
                Err(e) => pos + size > d@.len() && e == DecodeError::UnexpectedEof,
            },
    {
        if !reader::has_bytes(d, pos, size as usize) {
            return Err(DecodeError::UnexpectedEof);
        }
        let mut data: Vec<u8> = Vec::new();
        reader::append_range(&mut data, d, pos, pos + size as usize);
        Ok(GuidHeap { data, size })
    }

    /// The sixteen bytes of GUID entry `index` (one-based); `None` for the
    /// null index or one past the extent.
    pub fn get_at_index(&self, index: u32) -> (r: Option<Vec<u8>>)
        ensures
            match r {
                Some(g) => index >= 1 && 16 * index <= self.data@.len() && g@
                    == self.data@.subrange(16 * (index - 1), 16 * index as int),
                None => index == 0 || 16 * index > self.data@.len(),
            },
    {
        if index == 0 {
            return None;
        }
        let dlen = self.data.len();
        if dlen / 16 < index as usize {
            proof {
                assert(16 * (dlen as int / 16) <= dlen as int);
            }
            return None;
        }
        let start: usize = 16 * (index as usize - 1);
        let mut g: Vec<u8> = Vec::new();
        reader::append_range(&mut g, &self.data, start, start + 16);
        Some(g)
    }
}

/// An index-addressable store: lookup by offset over the store's map.
pub trait Heap<T> {
    /// The contents of the store, keyed by offset.
    spec fn heap_map(&self) -> Map<u32, T>;

    /// The entry at an offset, if one starts there.
    fn get_entry(&self, index: u32) -> (r: Option<&T>)
        ensures
            match r {
                Some(v) => self.heap_map().contains_key(index) && *v == self.heap_map()[index],
                None => !self.heap_map().contains_key(index),
            },
    ;
}

impl Heap<String> for StringHeap {
    open spec fn heap_map(&self) -> Map<u32, String> {
        self.strings@
    }

    fn get_entry(&self, index: u32) -> (r: Option<&String>) {
        self.get_at_index(index)
    }
}

/// The four heaps together.
#[derive(Debug)]
pub struct Heaps {
    pub strings: StringHeap,
    pub user_strings: UserStringHeap,
    pub blobs: BlobHeap,
    pub guids: GuidHeap,
}

} // verus!
