//! Byte-level reads over an in-memory buffer.
//!
//! Every function takes the whole buffer and a cursor position and returns
//! the decoded value together with the position after it, or a decode
//! error. A specification function mirrors each read exactly, so callers
//! can reason about the bytes a read consumed and the value it produced.

use vstd::prelude::*;
use vstd::utf8::{valid_utf8, decode_utf8};
use crate::error::{DecodeError, Site};

verus! {

/// The little-endian value of `n` bytes of `d` starting at `pos`.
pub open spec fn le_bytes(d: Seq<u8>, pos: int, n: nat) -> int
    decreases n,
{
    if n == 0 {
        0
    } else {
        d[pos] + 256 * le_bytes(d, pos + 1, (n - 1) as nat)
    }
}

/// Exec results carry a `usize` cursor; spec results carry an `int` one.
/// This relates the two forms.
pub open spec fn res_pos_eq<T>(
    r: Result<(T, usize), DecodeError>,
    s: Result<(T, int), DecodeError>,
) -> bool {
    match (r, s) {
        (Ok((v, p)), Ok((sv, sp))) => v == sv && p as int == sp,
        (Err(e), Err(se)) => e == se,
        _ => false,
    }
}

/// As `res_pos_eq`, for a decoded value compared through its view.
pub open spec fn res_pos_eq_view<T: View>(
    r: Result<(T, usize), DecodeError>,
    s: Result<(T::V, int), DecodeError>,
) -> bool {
    match (r, s) {
        (Ok((v, p)), Ok((sv, sp))) => v@ == sv && p as int == sp,
        (Err(e), Err(se)) => e == se,
        _ => false,
    }
}

/// True when `n` more bytes are available at `pos`.
pub fn has_bytes(d: &Vec<u8>, pos: usize, n: usize) -> (b: bool)
    ensures
        b == (pos + n <= d@.len()),
        b ==> pos + n <= usize::MAX,
{
    n <= d.len() && pos <= d.len() - n
}

pub open spec fn spec_read_u8(d: Seq<u8>, pos: int) -> Result<(u8, int), DecodeError> {
    if pos + 1 <= d.len() {
        Ok((d[pos], pos + 1))
    } else {
        Err(DecodeError::UnexpectedEof)
    }
}

pub fn read_u8(d: &Vec<u8>, pos: usize) -> (r: Result<(u8, usize), DecodeError>)
    ensures
        res_pos_eq(r, spec_read_u8(d@, pos as int)),
{
    if !has_bytes(d, pos, 1) {
        return Err(DecodeError::UnexpectedEof);
    }
    Ok((d[pos], pos + 1))
}

pub open spec fn spec_read_u16(d: Seq<u8>, pos: int) -> Result<(u16, int), DecodeError> {
    if pos + 2 <= d.len() {
        Ok((le_bytes(d, pos, 2) as u16, pos + 2))
    } else {
        Err(DecodeError::UnexpectedEof)
    }
}

pub fn read_u16(d: &Vec<u8>, pos: usize) -> (r: Result<(u16, usize), DecodeError>)
    ensures
        res_pos_eq(r, spec_read_u16(d@, pos as int)),
{
    if !has_bytes(d, pos, 2) {
        return Err(DecodeError::UnexpectedEof);
    }
    let v: u16 = d[pos] as u16 + 256 * (d[pos + 1] as u16);
    proof {
        let dd = d@;
        let p = pos as int;
        assert(le_bytes(dd, p + 2, 0) == 0);
        assert(le_bytes(dd, p + 1, 1) == dd[p + 1]);
        assert(le_bytes(dd, p, 2) == dd[p] + 256 * dd[p + 1]);
    }
    Ok((v, pos + 2))
}

pub open spec fn spec_read_u32(d: Seq<u8>, pos: int) -> Result<(u32, int), DecodeError> {
    if pos + 4 <= d.len() {
        Ok((le_bytes(d, pos, 4) as u32, pos + 4))
    } else {
        Err(DecodeError::UnexpectedEof)
    }
}

pub fn read_u32(d: &Vec<u8>, pos: usize) -> (r: Result<(u32, usize), DecodeError>)
    ensures
        res_pos_eq(r, spec_read_u32(d@, pos as int)),
{
    if !has_bytes(d, pos, 4) {
        return Err(DecodeError::UnexpectedEof);
    }
    let v: u32 = d[pos] as u32 + 256 * (d[pos + 1] as u32 + 256 * (d[pos + 2] as u32 + 256 * (d[pos
        + 3] as u32)));
    proof {
        let dd = d@;
        let p = pos as int;
        assert(le_bytes(dd, p + 4, 0) == 0);
        assert(le_bytes(dd, p + 3, 1) == dd[p + 3]);
        assert(le_bytes(dd, p + 2, 2) == dd[p + 2] + 256 * dd[p + 3]);
        assert(le_bytes(dd, p + 1, 3) == dd[p + 1] + 256 * le_bytes(dd, p + 2, 2));
        assert(le_bytes(dd, p, 4) == dd[p] + 256 * le_bytes(dd, p + 1, 3));
    }
    Ok((v, pos + 4))
}

pub open spec fn spec_read_u64(d: Seq<u8>, pos: int) -> Result<(u64, int), DecodeError> {
    if pos + 8 <= d.len() {
        Ok((le_bytes(d, pos, 8) as u64, pos + 8))
    } else {
        Err(DecodeError::UnexpectedEof)
    }
}

pub fn read_u64(d: &Vec<u8>, pos: usize) -> (r: Result<(u64, usize), DecodeError>)
    ensures
        res_pos_eq(r, spec_read_u64(d@, pos as int)),
{
    if !has_bytes(d, pos, 8) {
        return Err(DecodeError::UnexpectedEof);
    }
    let v: u64 = d[pos] as u64 + 256 * (d[pos + 1] as u64 + 256 * (d[pos + 2] as u64 + 256 * (d[pos
        + 3] as u64 + 256 * (d[pos + 4] as u64 + 256 * (d[pos + 5] as u64 + 256 * (d[pos
        + 6] as u64 + 256 * (d[pos + 7] as u64)))))));
    proof {
        let dd = d@;
        let p = pos as int;
        assert(le_bytes(dd, p + 8, 0) == 0);
        assert(le_bytes(dd, p + 7, 1) == dd[p + 7]);
        assert(le_bytes(dd, p + 6, 2) == dd[p + 6] + 256 * le_bytes(dd, p + 7, 1));
        assert(le_bytes(dd, p + 5, 3) == dd[p + 5] + 256 * le_bytes(dd, p + 6, 2));
        assert(le_bytes(dd, p + 4, 4) == dd[p + 4] + 256 * le_bytes(dd, p + 5, 3));
        assert(le_bytes(dd, p + 3, 5) == dd[p + 3] + 256 * le_bytes(dd, p + 4, 4));
        assert(le_bytes(dd, p + 2, 6) == dd[p + 2] + 256 * le_bytes(dd, p + 3, 5));
        assert(le_bytes(dd, p + 1, 7) == dd[p + 1] + 256 * le_bytes(dd, p + 2, 6));
        assert(le_bytes(dd, p, 8) == dd[p] + 256 * le_bytes(dd, p + 1, 7));
    }
    Ok((v, pos + 8))
}

/// Advance the cursor over `n` bytes without decoding them.
pub open spec fn spec_skip(d: Seq<u8>, pos: int, n: int) -> Result<((), int), DecodeError> {
    if pos + n <= d.len() {
        Ok(((), pos + n))
    } else {
        Err(DecodeError::UnexpectedEof)
    }
}

pub fn skip(d: &Vec<u8>, pos: usize, n: usize) -> (r: Result<((), usize), DecodeError>)
    ensures
        res_pos_eq(r, spec_skip(d@, pos as int, n as int)),
{
    if !has_bytes(d, pos, n) {
        return Err(DecodeError::UnexpectedEof);
    }
    Ok(((), pos + n))
}

/// Position of the first NUL byte at or after `i`, or `d.len()` when
/// there is none.
pub open spec fn find_nul(d: Seq<u8>, i: int) -> int
    decreases d.len() - i,
{
    if i < 0 || i >= d.len() {
        i
    } else if d[i] == 0 {
        i
    } else {
        find_nul(d, i + 1)
    }
}

pub proof fn lemma_find_nul_range(d: Seq<u8>, i: int)
    requires
        0 <= i <= d.len(),
    ensures
        i <= find_nul(d, i) <= d.len(),
        find_nul(d, i) < d.len() ==> d[find_nul(d, i)] == 0,
        forall|j: int| i <= j < find_nul(d, i) ==> d[j] != 0,
    decreases d.len() - i,
{
    if i < d.len() && d[i] != 0 {
        lemma_find_nul_range(d, i + 1);
    }
}

/// Skipping over NUL-free bytes does not move the first NUL.
pub proof fn lemma_find_nul_skip(d: Seq<u8>, i: int, j: int)
    requires
        0 <= i <= j <= d.len(),
        forall|k: int| i <= k < j ==> d[k] != 0,
    ensures
        find_nul(d, i) == find_nul(d, j),
    decreases j - i,
{
    if i < j {
        lemma_find_nul_skip(d, i + 1, j);
    }
}

pub open spec fn spec_read_c_str_bytes(d: Seq<u8>, pos: int) -> Result<
    (Seq<u8>, int),
    DecodeError,
> {
    let e = find_nul(d, pos);
    if e >= d.len() {
        Err(DecodeError::UnexpectedEof)
    } else {
        Ok((d.subrange(pos, e), e + 1))
    }
}

/// Read a NUL-terminated run of bytes; the NUL is consumed, not returned.
pub fn read_c_str_bytes(d: &Vec<u8>, pos: usize) -> (r: Result<(Vec<u8>, usize), DecodeError>)
    ensures
        res_pos_eq_view(r, spec_read_c_str_bytes(d@, pos as int)),
{
    if pos >= d.len() {
        return Err(DecodeError::UnexpectedEof);
    }
    let mut out: Vec<u8> = Vec::new();
    let mut i: usize = pos;
    loop
        invariant
            pos <= i <= d@.len(),
            find_nul(d@, pos as int) == find_nul(d@, i as int),
            out@ == d@.subrange(pos as int, i as int),
        decreases d@.len() - i,
    {
        if i >= d.len() {
            return Err(DecodeError::UnexpectedEof);
        }
        let b = d[i];
        if b == 0 {
            return Ok((out, i + 1));
        }
        out.push(b);
        proof {
            assert(d@.subrange(pos as int, i + 1) =~= d@.subrange(pos as int, i as int).push(
                d@[i as int],
            ));
        }
        i = i + 1;
    }
}

/// Relies on `String::from_utf8`: it succeeds exactly on valid UTF-8 and
/// decodes the bytes; the result depends on the bytes alone.
#[verifier::external_body]
fn string_from_utf8(bytes: Vec<u8>) -> (r: Option<String>)
    ensures
        match r {
            Some(s) => valid_utf8(bytes@) && s@ == decode_utf8(bytes@),
            None => !valid_utf8(bytes@),
        },
{
    String::from_utf8(bytes).ok()
}

pub open spec fn spec_read_c_str(d: Seq<u8>, pos: int, site: Site) -> Result<
    (Seq<char>, int),
    DecodeError,
> {
    match spec_read_c_str_bytes(d, pos) {
        Err(e) => Err(e),
        Ok((b, p)) => if valid_utf8(b) {
            Ok((decode_utf8(b), p))
        } else {
            Err(DecodeError::BadUtf8(site))
        },
    }
}

/// Read a NUL-terminated string of unspecified maximum size.
pub fn read_c_str(d: &Vec<u8>, pos: usize, site: Site) -> (r: Result<
    (String, usize),
    DecodeError,
>)
    ensures
        res_pos_eq_view(r, spec_read_c_str(d@, pos as int, site)),
{
    let (bytes, p) = read_c_str_bytes(d, pos)?;
    match string_from_utf8(bytes) {
        Some(s) => Ok((s, p)),
        None => Err(DecodeError::BadUtf8(site)),
    }
}

/// First NUL within the `len` bytes at `start`, if any.
fn first_nul_in(d: &Vec<u8>, start: usize, len: usize) -> (r: Option<usize>)
    requires
        start + len <= d.len(),
    ensures
        match r {
            Some(k) => k == find_nul(d@, start as int) && start <= k < start + len
                && d@[k as int] == 0,
            None => find_nul(d@, start as int) >= start + len,
        },
{
    let dlen = d.len();
    let end = start + len;
    let mut j: usize = start;
    loop
        invariant
            start <= j <= end,
            end == start + len <= dlen == d@.len(),
            find_nul(d@, start as int) == find_nul(d@, j as int),
        decreases end - j,
    {
        if j >= end {
            proof {
                lemma_find_nul_range(d@, j as int);
            }
            return None;
        }
        if d[j] == 0 {
            return Some(j);
        }
        j = j + 1;
    }
}

/// Turn a byte run into a string; bytes that are not valid UTF-8 are a
/// fatal error at the given site.
pub fn to_utf8_string(bytes: Vec<u8>, site: Site) -> (r: Result<String, DecodeError>)
    ensures
        match r {
            Ok(s) => valid_utf8(bytes@) && s@ == decode_utf8(bytes@),
            Err(e) => !valid_utf8(bytes@) && e == DecodeError::BadUtf8(site),
        },
{
    match string_from_utf8(bytes) {
        Some(s) => Ok(s),
        None => Err(DecodeError::BadUtf8(site)),
    }
}

/// Append `d[from .. to]` to `out`.
pub fn append_range(out: &mut Vec<u8>, d: &Vec<u8>, from: usize, to: usize)
    requires
        from <= to <= d.len(),
    ensures
        final(out)@ == old(out)@ + d@.subrange(from as int, to as int),
{
    let mut k: usize = from;
    while k < to
        invariant
            from <= k <= to <= d@.len(),
            out@ == old(out)@ + d@.subrange(from as int, k as int),
        decreases to - k,
    {
        out.push(d[k]);
        proof {
            assert(d@.subrange(from as int, k + 1) =~= d@.subrange(from as int, k as int).push(
                d@[k as int],
            ));
            assert(out@ =~= old(out)@ + d@.subrange(from as int, k + 1));
        }
        k = k + 1;
    }
    proof {
        assert(out@ =~= old(out)@ + d@.subrange(from as int, to as int));
    }
}

pub open spec fn spec_read_c_str_padded(d: Seq<u8>, pos: int, size: int, site: Site) -> Result<
    (Seq<char>, int),
    DecodeError,
> {
    if pos + size > d.len() {
        Err(DecodeError::UnexpectedEof)
    } else {
        let e = find_nul(d, pos);
        let stop = if e < pos + size {
            e
        } else {
            pos + size
        };
        let b = d.subrange(pos, stop);
        if valid_utf8(b) {
            Ok((decode_utf8(b), pos + size))
        } else {
            Err(DecodeError::BadUtf8(site))
        }
    }
}

/// Read a possibly NUL-padded string of exactly `size` bytes, truncated at
/// the first NUL.
pub fn read_c_str_padded(d: &Vec<u8>, pos: usize, size: usize, site: Site) -> (r: Result<
    (String, usize),
    DecodeError,
>)
    ensures
        res_pos_eq_view(r, spec_read_c_str_padded(d@, pos as int, size as int, site)),
{
    if !has_bytes(d, pos, size) {
        return Err(DecodeError::UnexpectedEof);
    }
    let stop: usize = match first_nul_in(d, pos, size) {
        Some(k) => k,
        None => pos + size,
    };
    let mut bytes: Vec<u8> = Vec::new();
    append_range(&mut bytes, d, pos, stop);
    match string_from_utf8(bytes) {
        Some(s) => Ok((s, pos + size)),
        None => Err(DecodeError::BadUtf8(site)),
    }
}

/// Cursor position just past the aligned chunk in which the string's
/// terminating NUL lies.
pub open spec fn spec_aligned_end(d: Seq<u8>, pos: int, a: int) -> Result<int, DecodeError>
    recommends
        a >= 1,
    decreases d.len() - pos,
{
    if a < 1 || pos + a > d.len() {
        Err(DecodeError::UnexpectedEof)
    } else if find_nul(d, pos) < pos + a {
        Ok(pos + a)
    } else {
        spec_aligned_end(d, pos + a, a)
    }
}

pub open spec fn spec_read_c_str_aligned(d: Seq<u8>, pos: int, a: int, site: Site) -> Result<
    (Seq<char>, int),
    DecodeError,
> {
    match spec_aligned_end(d, pos, a) {
        Err(e) => Err(e),
        Ok(end) => {
            let b = d.subrange(pos, find_nul(d, pos));
            if valid_utf8(b) {
                Ok((decode_utf8(b), end))
            } else {
                Err(DecodeError::BadUtf8(site))
            }
        },
    }
}

/// Read a NUL-terminated string whose total length, terminator and padding
/// included, is a multiple of `a`: whole chunks of `a` bytes are consumed
/// until one of them contains a NUL.
pub fn read_c_str_aligned(d: &Vec<u8>, pos: usize, a: usize, site: Site) -> (r: Result<
    (String, usize),
    DecodeError,
>)
    requires
        a >= 1,
    ensures
        res_pos_eq_view(r, spec_read_c_str_aligned(d@, pos as int, a as int, site)),
{
    if !has_bytes(d, pos, a) {
        return Err(DecodeError::UnexpectedEof);
    }
    proof {
        assert(d.len() == d@.len());
    }
    let mut i: usize = pos;
    let mut bytes: Vec<u8> = Vec::new();
    loop
        invariant
            a >= 1,
            pos <= i <= d@.len(),
            d@.len() <= usize::MAX,
            find_nul(d@, pos as int) == find_nul(d@, i as int),
            spec_aligned_end(d@, pos as int, a as int) == spec_aligned_end(
                d@,
                i as int,
                a as int,
            ),
            bytes@ == d@.subrange(pos as int, i as int),
        decreases d@.len() - i,
    {
        if !has_bytes(d, i, a) {
            return Err(DecodeError::UnexpectedEof);
        }
        match first_nul_in(d, i, a) {
            Some(k) => {
                append_range(&mut bytes, d, i, k);
                proof {
                    assert(bytes@ =~= d@.subrange(pos as int, k as int));
                }
                match string_from_utf8(bytes) {
                    Some(s) => {
                        return Ok((s, i + a));
                    },
                    None => {
                        return Err(DecodeError::BadUtf8(site));
                    },
                }
            },
            None => {
                append_range(&mut bytes, d, i, i + a);
                proof {
                    assert(bytes@ =~= d@.subrange(pos as int, i + a));
                    lemma_find_nul_range(d@, i as int);
                    lemma_find_nul_skip(d@, i as int, i + a);
                }
                i = i + a;
            },
        }
    }
}

/// The `count` little-endian 16-bit values at `pos`.
pub open spec fn spec_u16_seq(d: Seq<u8>, pos: int, count: int) -> Seq<u16> {
    Seq::new(count as nat, |k: int| le_bytes(d, pos + 2 * k, 2) as u16)
}

pub open spec fn spec_read_u16_seq(d: Seq<u8>, pos: int, count: int) -> Result<
    (Seq<u16>, int),
    DecodeError,
> {
    if pos + 2 * count <= d.len() {
        Ok((spec_u16_seq(d, pos, count), pos + 2 * count))
    } else {
        Err(DecodeError::UnexpectedEof)
    }
}

/// Read exactly `count` little-endian 16-bit integers.
pub fn read_u16_seq(d: &Vec<u8>, pos: usize, count: u32) -> (r: Result<
    (Vec<u16>, usize),
    DecodeError,
>)
    ensures
        res_pos_eq_view(r, spec_read_u16_seq(d@, pos as int, count as int)),
{
    if pos > d.len() {
        return Err(DecodeError::UnexpectedEof);
    }
    let rem = d.len() - pos;
    if count as usize > rem / 2 {
        proof {
            assert(2 * (rem / 2) <= rem);
        }
        return Err(DecodeError::UnexpectedEof);
    }
    proof {
        assert(2 * (count as int) <= rem);
        assert(d.len() == d@.len());
    }
    let mut out: Vec<u16> = Vec::new();
    let mut i: usize = 0;
    while i < count as usize
        invariant
            i <= count as usize,
            pos + 2 * (count as int) <= d@.len(),
            d@.len() <= usize::MAX,
            out@.len() == i,
            forall|k: int| 0 <= k < i ==> out@[k] == le_bytes(d@, pos + 2 * k, 2) as u16,
        decreases count as usize - i,
    {
        let (v, _p) = match read_u16(d, pos + 2 * i) {
            Ok(x) => x,
            Err(_) => {
                proof {
                    assert(false);
                }
                return Err(DecodeError::UnexpectedEof);
            },
        };
        out.push(v);
        i = i + 1;
    }
    proof {
        assert(out@ =~= spec_u16_seq(d@, pos as int, count as int));
    }
    Ok((out, pos + 2 * (count as usize)))
}

/// A compressed unsigned integer together with the number of bytes its
/// encoding occupied.
#[derive(Debug, Clone, Copy, PartialEq, Eq, Structural)]
pub struct CompressedUint {
    pub value: u32,
    pub compressed_size: u8,
}

/// Decode of a compressed unsigned integer (ECMA-335 §II.23.2): a leading
/// `0xxxxxxx` byte holds the value; `10xxxxxx` starts a two-byte
/// big-endian value; `110xxxxx` starts a four-byte big-endian value; any
/// other leading pattern is invalid.
pub open spec fn spec_compressed(d: Seq<u8>, pos: int) -> Result<
    (CompressedUint, int),
    DecodeError,
> {
    if pos + 1 > d.len() {
        Err(DecodeError::UnexpectedEof)
    } else {
        let b0 = d[pos];
        if b0 < 0x80 {
            Ok((CompressedUint { value: b0 as u32, compressed_size: 1 }, pos + 1))
        } else if b0 < 0xC0 {
            if pos + 2 > d.len() {
                Err(DecodeError::UnexpectedEof)
            } else {
                Ok(
                    (
                        CompressedUint {
                            value: ((b0 - 0x80) * 256 + d[pos + 1]) as u32,
                            compressed_size: 2,
                        },
                        pos + 2,
                    ),
                )
            }
        } else if b0 < 0xE0 {
            if pos + 4 > d.len() {
                Err(DecodeError::UnexpectedEof)
            } else {
                Ok(
                    (
                        CompressedUint {
                            value: ((b0 - 0xC0) * 0x1000000 + d[pos + 1] * 0x10000 + d[pos
                                + 2] * 0x100 + d[pos + 3]) as u32,
                            compressed_size: 4,
                        },
                        pos + 4,
                    ),
                )
            }
        } else {
            Err(DecodeError::InvalidCompressedInt(b0))
        }
    }
}

/// Holder for the compressed-integer utilities.
pub struct StreamUtils {}

impl StreamUtils {
    /// Decode a compressed unsigned integer per ECMA-335 §II.23.2.
    pub fn decode_compressed_int(d: &Vec<u8>, pos: usize) -> (r: Result<
        (CompressedUint, usize),
        DecodeError,
    >)
        ensures
            res_pos_eq(r, spec_compressed(d@, pos as int)),
    {
        if !has_bytes(d, pos, 1) {
            return Err(DecodeError::UnexpectedEof);
        }
        let b0 = d[pos];
        if b0 < 0x80 {
            Ok((CompressedUint { value: b0 as u32, compressed_size: 1 }, pos + 1))
        } else if b0 < 0xC0 {
            if !has_bytes(d, pos, 2) {
                return Err(DecodeError::UnexpectedEof);
            }
            let v: u32 = (b0 - 0x80) as u32 * 256 + d[pos + 1] as u32;
            Ok((CompressedUint { value: v, compressed_size: 2 }, pos + 2))
        } else if b0 < 0xE0 {
            if !has_bytes(d, pos, 4) {
                return Err(DecodeError::UnexpectedEof);
            }
            let v: u32 = (b0 - 0xC0) as u32 * 0x1000000 + d[pos + 1] as u32 * 0x10000 + d[pos
                + 2] as u32 * 0x100 + d[pos + 3] as u32;
            Ok((CompressedUint { value: v, compressed_size: 4 }, pos + 4))
        } else {
            Err(DecodeError::InvalidCompressedInt(b0))
        }
    }
}

/// The canonical compressed encoding of `v`: one byte up to 127, two up
/// to 16383, four up to `2^29 - 1`.
pub open spec fn spec_compressed_encode(v: u32) -> Seq<u8>
    recommends
        v < 0x20000000,
{
    if v < 0x80 {
        seq![v as u8]
    } else if v < 0x4000 {
        seq![(0x80 + v / 0x100) as u8, (v % 0x100) as u8]
    } else {
        seq![
            (0xC0 + v / 0x1000000) as u8,
            ((v / 0x10000) % 0x100) as u8,
            ((v / 0x100) % 0x100) as u8,
            (v % 0x100) as u8,
        ]
    }
}

/// Encode a compressed unsigned integer; values of `2^29` and above do
/// not fit any of the three patterns.
pub fn encode_compressed_int(v: u32) -> (r: Result<Vec<u8>, DecodeError>)
    ensures
        v < 0x20000000 ==> (r matches Ok(b) && b@ == spec_compressed_encode(v)),
        v >= 0x20000000 ==> r == Err::<Vec<u8>, DecodeError>(DecodeError::SizeOverflow),
{
    if v >= 0x20000000 {
        return Err(DecodeError::SizeOverflow);
    }
    let mut out: Vec<u8> = Vec::new();
    if v < 0x80 {
        out.push(v as u8);
    } else if v < 0x4000 {
        out.push((0x80 + v / 0x100) as u8);
        out.push((v % 0x100) as u8);
    } else {
        out.push((0xC0 + v / 0x1000000) as u8);
        out.push(((v / 0x10000) % 0x100) as u8);
        out.push(((v / 0x100) % 0x100) as u8);
        out.push((v % 0x100) as u8);
    }
    proof {
        assert(out@ =~= spec_compressed_encode(v));
    }
    Ok(out)
}

} // verus!
