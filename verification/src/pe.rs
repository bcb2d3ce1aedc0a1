//! The Portable Executable container: headers, sections and the mapping
//! from relative virtual addresses to section offsets.

use vstd::prelude::*;
use crate::error::{DecodeError, Site};
use crate::reader;
use crate::reader::res_pos_eq;

verus! {

/// One data directory of the optional header: an RVA and a size.
#[derive(Debug, Clone, Copy, PartialEq, Eq, Structural)]
pub struct DataDirectory {
    pub virtual_address: u32,
    pub size: u32,
}

/// A data directory: two little-endian words.
pub open spec fn spec_data_directory(d: Seq<u8>, pos: int) -> Result<
    (DataDirectory, int),
    DecodeError,
> {
    match reader::spec_read_u32(d, pos) {
        Err(e) => Err(e),
        Ok((virtual_address, p1)) => match reader::spec_read_u32(d, p1) {
            Err(e) => Err(e),
            Ok((size, p2)) => Ok((DataDirectory { virtual_address, size }, p2)),
        },
    }
}

impl DataDirectory {
    /// Decode one data directory.
    pub fn read_from(d: &Vec<u8>, pos: usize) -> (r: Result<(DataDirectory, usize), DecodeError>)
        ensures
            res_pos_eq(r, spec_data_directory(d@, pos as int)),
    {
        let (virtual_address, p1) = reader::read_u32(d, pos)?;
        let (size, p2) = reader::read_u32(d, p1)?;
        Ok((DataDirectory { virtual_address, size }, p2))
    }
}

/// One section header: name and the extents of the section.
#[derive(Debug)]
pub struct SectionHeader {
    pub name: String,
    pub virtual_address: u32,
    pub virtual_size: u32,
    pub real_size: u32,
    pub offset: u32,
}

impl Clone for SectionHeader {
    fn clone(&self) -> (r: Self)
        ensures
            r@ == self@,
    {
        SectionHeader {
            name: self.name.clone(),
            virtual_address: self.virtual_address,
            virtual_size: self.virtual_size,
            real_size: self.real_size,
            offset: self.offset,
        }
    }
}

/// The mathematical content of a section header.
pub ghost struct SectionHeaderView {
    pub name: Seq<char>,
    pub virtual_address: u32,
    pub virtual_size: u32,
    pub real_size: u32,
    pub offset: u32,
}

impl View for SectionHeader {
    type V = SectionHeaderView;

    open spec fn view(&self) -> SectionHeaderView {
        SectionHeaderView {
            name: self.name@,
            virtual_address: self.virtual_address,
            virtual_size: self.virtual_size,
            real_size: self.real_size,
            offset: self.offset,
        }
    }
}

/// A section header: an eight-byte NUL-padded name, virtual size and
/// address, raw size, file offset, and sixteen reserved bytes.
pub open spec fn spec_section_header(d: Seq<u8>, pos: int) -> Result<
    (SectionHeaderView, int),
    DecodeError,
> {
    match reader::spec_read_c_str_padded(d, pos, 8, Site::SectionName) {
        Err(e) => Err(e),
        Ok((name, p1)) => match reader::spec_read_u32(d, p1) {
            Err(e) => Err(e),
            Ok((virtual_size, p2)) => match reader::spec_read_u32(d, p2) {
                Err(e) => Err(e),
                Ok((virtual_address, p3)) => match reader::spec_read_u32(d, p3) {
                    Err(e) => Err(e),
                    Ok((real_size, p4)) => match reader::spec_read_u32(d, p4) {
                        Err(e) => Err(e),
                        Ok((offset, p5)) => match reader::spec_skip(d, p5, 16) {
                            Err(e) => Err(e),
                            Ok((u, p6)) => Ok(
                                (
                                    SectionHeaderView {
                                        name,
                                        virtual_address,
                                        virtual_size,
                                        real_size,
                                        offset,
                                    },
                                    p6,
                                ),
                            ),
                        },
                    },
                },
            },
        },
    }
}

impl SectionHeader {
    /// Decode one section header.
    pub fn read_from(d: &Vec<u8>, pos: usize) -> (r: Result<(SectionHeader, usize), DecodeError>)
        ensures
            match (r, spec_section_header(d@, pos as int)) {
                (Ok((h, p)), Ok((hv, sp))) => h@ == hv && p as int == sp,
                (Err(e), Err(se)) => e == se,
                _ => false,
            },
    {
        let (name, p1) = reader::read_c_str_padded(d, pos, 8, Site::SectionName)?;
        let (virtual_size, p2) = reader::read_u32(d, p1)?;
        let (virtual_address, p3) = reader::read_u32(d, p2)?;
        let (real_size, p4) = reader::read_u32(d, p3)?;
        let (offset, p5) = reader::read_u32(d, p4)?;
        let (_skipped, p6) = reader::skip(d, p5, 16)?;
        Ok((SectionHeader { name, virtual_address, virtual_size, real_size, offset }, p6))
    }
}

/// A section: its header and the bytes of its virtual extent.
#[derive(Debug)]
pub struct Section {
    pub header: SectionHeader,
    pub data: Vec<u8>,
}

/// The mathematical content of a section.
pub ghost struct SectionView {
    pub header: SectionHeaderView,
    pub data: Seq<u8>,
}

impl View for Section {
    type V = SectionView;

    open spec fn view(&self) -> SectionView {
        SectionView { header: self.header@, data: self.data@ }
    }
}

impl Section {
    /// Translate an RVA inside this section to a section offset.
    pub fn resolve_rva(&self, rva: u32) -> (r: u32)
        requires
            self.header.virtual_address <= rva,
        ensures
            r == rva - self.header.virtual_address,
    {
        rva - self.header.virtual_address
    }
}

/// An RVA lies inside a section when it falls between the section's
/// virtual address and the end of its raw extent, inclusive.
pub open spec fn section_contains(s: SectionView, rva: u32) -> bool {
    s.header.virtual_address <= rva && s.header.virtual_address + s.header.real_size >= rva
}

/// The first section containing the RVA, scanning from position `i`.
pub open spec fn first_containing(sections: Seq<SectionView>, rva: u32, i: int) -> Option<int>
    decreases sections.len() - i,
{
    if i < 0 || i >= sections.len() {
        None
    } else if section_contains(sections[i], rva) {
        Some(i)
    } else {
        first_containing(sections, rva, i + 1)
    }
}

/// The loaded image: its sections, in file order.
#[derive(Debug)]
pub struct PEFile {
    pub sections: Vec<Section>,
}

/// The mathematical content of a loaded image.
pub open spec fn pe_sections_view(sections: Seq<Section>) -> Seq<SectionView> {
    sections.map_values(|s: Section| s@)
}

/// `count` consecutive data directories.
pub open spec fn spec_data_dirs(d: Seq<u8>, pos: int, n: int) -> Result<
    (Seq<DataDirectory>, int),
    DecodeError,
>
    decreases n,
{
    if n <= 0 {
        Ok((Seq::empty(), pos))
    } else {
        match spec_data_directory(d, pos) {
            Err(e) => Err(e),
            Ok((v, p)) => match spec_data_dirs(d, p, n - 1) {
                Err(e) => Err(e),
                Ok((s, pe)) => Ok((seq![v] + s, pe)),
            },
        }
    }
}

/// `count` consecutive section headers.
pub open spec fn spec_section_headers(d: Seq<u8>, pos: int, n: int) -> Result<
    (Seq<SectionHeaderView>, int),
    DecodeError,
>
    decreases n,
{
    if n <= 0 {
        Ok((Seq::empty(), pos))
    } else {
        match spec_section_header(d, pos) {
            Err(e) => Err(e),
            Ok((v, p)) => match spec_section_headers(d, p, n - 1) {
                Err(e) => Err(e),
                Ok((s, pe)) => Ok((seq![v] + s, pe)),
            },
        }
    }
}

/// Each section's data is the `virtual_size` bytes at its file offset.
pub open spec fn spec_section_datas(d: Seq<u8>, headers: Seq<SectionHeaderView>) -> Result<
    Seq<SectionView>,
    DecodeError,
>
    decreases headers.len(),
{
    if headers.len() == 0 {
        Ok(Seq::empty())
    } else {
        let h = headers[0];
        if h.offset + h.virtual_size > d.len() {
            Err(DecodeError::UnexpectedEof)
        } else {
            match spec_section_datas(d, headers.drop_first()) {
                Err(e) => Err(e),
                Ok(s) => Ok(
                    seq![
                        SectionView {
                            header: h,
                            data: d.subrange(h.offset as int, h.offset + h.virtual_size),
                        },
                    ] + s,
                ),
            }
        }
    }
}

/// The full parse of a PE image: DOS and PE signatures, the counts of the
/// COFF headers, the data directories, the section headers, and each
/// section's data.
pub open spec fn spec_pe_file(d: Seq<u8>) -> Result<Seq<SectionView>, DecodeError> {
    if d.len() < 2 {
        Err(DecodeError::UnexpectedEof)
    } else if d[0] != 0x4D || d[1] != 0x5A {
        Err(DecodeError::BadMagic(Site::DosMagic))
    } else {
        match reader::spec_read_u32(d, 0x3C) {
            Err(e) => Err(e),
            Ok((pe_start, u1)) => if pe_start + 4 > d.len() {
                Err(DecodeError::UnexpectedEof)
            } else if d[pe_start as int] != 0x50 || d[pe_start + 1] != 0x45 || d[pe_start + 2] != 0
                || d[pe_start + 3] != 0 {
                Err(DecodeError::BadMagic(Site::PeMagic))
            } else {
                match reader::spec_read_u16(d, pe_start + 6) {
                    Err(e) => Err(e),
                    Ok((section_count, u2)) => match reader::spec_read_u32(d, pe_start + 60) {
                        Err(e) => Err(e),
                        Ok((alignment, u3)) => match reader::spec_read_u32(d, pe_start + 116) {
                            Err(e) => Err(e),
                            Ok((rva_count, p0)) => match spec_data_dirs(
                                d,
                                pe_start + 120,
                                rva_count as int,
                            ) {
                                Err(e) => Err(e),
                                Ok((dirs, p1)) => match spec_section_headers(
                                    d,
                                    p1,
                                    section_count as int,
                                ) {
                                    Err(e) => Err(e),
                                    Ok((headers, p2)) => spec_section_datas(d, headers),
                                },
                            },
                        },
                    },
                }
            },
        }
    }
}

/// Read `count` consecutive data directories.
fn read_data_dirs(d: &Vec<u8>, pos: usize, count: u32) -> (r: Result<
    (Vec<DataDirectory>, usize),
    DecodeError,
>)
    ensures
        match (r, spec_data_dirs(d@, pos as int, count as int)) {
            (Ok((v, p)), Ok((s, sp))) => v@ == s && p as int == sp,
            (Err(e), Err(se)) => e == se,
            _ => false,
        },
{
    let mut out: Vec<DataDirectory> = Vec::new();
    let mut i: u32 = 0;
    let mut p: usize = pos;
    while i < count
        invariant
            i <= count,
            spec_data_dirs(d@, pos as int, count as int) == (match spec_data_dirs(
                d@,
                p as int,
                count - i,
            ) {
                Ok((rest, pe)) => Ok::<(Seq<DataDirectory>, int), DecodeError>((out@ + rest, pe)),
                Err(e) => Err::<(Seq<DataDirectory>, int), DecodeError>(e),
            }),
        decreases count - i,
    {
        let ghost prev = out@;
        let ghost pp = p as int;
        let ghost ni = count - i;
        let (v, p2) = match DataDirectory::read_from(d, p) {
            Ok(x) => x,
            Err(e) => {
                proof {
                    assert(spec_data_dirs(d@, pp, ni as int) == Err::<
                        (Seq<DataDirectory>, int),
                        DecodeError,
                    >(e));
                }
                return Err(e);
            },
        };
        out.push(v);
        proof {
            let tail = spec_data_dirs(d@, p2 as int, ni - 1);
            assert(spec_data_dirs(d@, pp, ni as int) == (match tail {
                Ok((s, pe)) => Ok::<(Seq<DataDirectory>, int), DecodeError>((seq![v] + s, pe)),
                Err(e) => Err::<(Seq<DataDirectory>, int), DecodeError>(e),
            }));
            if tail is Ok {
                assert(prev + (seq![v] + tail->Ok_0.0) =~= out@ + tail->Ok_0.0);
            }
        }
        p = p2;
        i = i + 1;
    }
    proof {
        assert(out@ + Seq::<DataDirectory>::empty() =~= out@);
    }
    Ok((out, p))
}

/// Read `count` consecutive section headers.
fn read_section_headers(d: &Vec<u8>, pos: usize, count: u16) -> (r: Result<
    (Vec<SectionHeader>, usize),
    DecodeError,
>)
    ensures
        match (r, spec_section_headers(d@, pos as int, count as int)) {
            (Ok((v, p)), Ok((s, sp))) => v@.map_values(|h: SectionHeader| h@) == s && p as int
                == sp,
            (Err(e), Err(se)) => e == se,
            _ => false,
        },
{
    let mut out: Vec<SectionHeader> = Vec::new();
    let mut i: u16 = 0;
    let mut p: usize = pos;
    while i < count
        invariant
            i <= count,
            spec_section_headers(d@, pos as int, count as int) == (match spec_section_headers(
                d@,
                p as int,
                count - i,
            ) {
                Ok((rest, pe)) => Ok::<(Seq<SectionHeaderView>, int), DecodeError>(
                    (out@.map_values(|h: SectionHeader| h@) + rest, pe),
                ),
                Err(e) => Err::<(Seq<SectionHeaderView>, int), DecodeError>(e),
            }),
        decreases count - i,
    {
        let ghost prev = out@.map_values(|h: SectionHeader| h@);
        let ghost pp = p as int;
        let ghost ni = count - i;
        let (v, p2) = match SectionHeader::read_from(d, p) {
            Ok(x) => x,
            Err(e) => {
                proof {
                    assert(spec_section_headers(d@, pp, ni as int) == Err::<
                        (Seq<SectionHeaderView>, int),
                        DecodeError,
                    >(e));
                }
                return Err(e);
            },
        };
        out.push(v);
        proof {
            let tail = spec_section_headers(d@, p2 as int, ni - 1);
            assert(spec_section_headers(d@, pp, ni as int) == (match tail {
                Ok((s, pe)) => Ok::<(Seq<SectionHeaderView>, int), DecodeError>(
                    (seq![v@] + s, pe),
                ),
                Err(e) => Err::<(Seq<SectionHeaderView>, int), DecodeError>(e),
            }));
            assert(out@.map_values(|h: SectionHeader| h@) =~= prev.push(v@));
            if tail is Ok {
                assert(prev + (seq![v@] + tail->Ok_0.0) =~= prev.push(v@) + tail->Ok_0.0);
            }
        }
        p = p2;
        i = i + 1;
    }
    proof {
        assert(out@.map_values(|h: SectionHeader| h@) + Seq::<SectionHeaderView>::empty()
            =~= out@.map_values(|h: SectionHeader| h@));
    }
    Ok((out, p))
}

impl PEFile {
    /// The first section whose extent contains the RVA, with the RVA
    /// translated to an offset inside it.
    pub fn rva_to_section_offset(&self, rva: u32) -> (r: Option<(&Section, u32)>)
        ensures
            match r {
                Some((s, off)) => {
                    &&& first_containing(pe_sections_view(self.sections@), rva, 0) matches Some(i)
                        && s@ == pe_sections_view(self.sections@)[i]
                    &&& off == rva - s.header.virtual_address
                },
                None => first_containing(pe_sections_view(self.sections@), rva, 0) is None,
            },
    {
        let ghost views = pe_sections_view(self.sections@);
        let mut i: usize = 0;
        while i < self.sections.len()
            invariant
                i <= self.sections@.len(),
                views == pe_sections_view(self.sections@),
                first_containing(views, rva, 0) == first_containing(views, rva, i as int),
            decreases self.sections@.len() - i,
        {
            let s = &self.sections[i];
            if s.header.virtual_address <= rva && s.header.virtual_address as u64
                + s.header.real_size as u64 >= rva as u64 {
                return Some((s, s.resolve_rva(rva)));
            }
            i = i + 1;
        }
        None
    }

    /// Parse a whole PE image held in memory: signatures, headers, and
    /// the data of every section.
    pub fn read_from(d: &Vec<u8>) -> (r: Result<PEFile, DecodeError>)
        ensures
            match (r, spec_pe_file(d@)) {
                (Ok(f), Ok(s)) => pe_sections_view(f.sections@) == s,
                (Err(e), Err(se)) => e == se,
                _ => false,
            },
    {
        if d.len() < 2 {
            return Err(DecodeError::UnexpectedEof);
        }
        if d[0] != 0x4D || d[1] != 0x5A {
            return Err(DecodeError::BadMagic(Site::DosMagic));
        }
        let (pe_start, _u1) = reader::read_u32(d, 0x3C)?;
        if !reader::has_bytes(d, pe_start as usize, 4) {
            return Err(DecodeError::UnexpectedEof);
        }
        let ps = pe_start as usize;
        if d[ps] != 0x50 || d[ps + 1] != 0x45 || d[ps + 2] != 0 || d[ps + 3] != 0 {
            return Err(DecodeError::BadMagic(Site::PeMagic));
        }
        if !reader::has_bytes(d, ps, 8) {
            return Err(DecodeError::UnexpectedEof);
        }
        let (section_count, _u2) = reader::read_u16(d, ps + 6)?;
        if !reader::has_bytes(d, ps, 64) {
            return Err(DecodeError::UnexpectedEof);
        }
        let (_alignment, _u3) = reader::read_u32(d, ps + 60)?;
        if !reader::has_bytes(d, ps, 120) {
            return Err(DecodeError::UnexpectedEof);
        }
        let (rva_count, p0) = reader::read_u32(d, ps + 116)?;
        let (_rvas, p1) = read_data_dirs(d, p0, rva_count)?;
        let (headers, _p2) = read_section_headers(d, p1, section_count)?;
        let mut sections: Vec<Section> = Vec::new();
        let ghost hviews = headers@.map_values(|h: SectionHeader| h@);
        proof {
            assert(hviews.skip(0) =~= hviews);
            assert(pe_sections_view(sections@) =~= Seq::<SectionView>::empty());
            match spec_section_datas(d@, hviews) {
                Ok(s) => {
                    assert(pe_sections_view(sections@) + s =~= s);
                },
                Err(e) => {},
            }
        }
        let mut i: usize = 0;
        while i < headers.len()
            invariant
                i <= headers@.len(),
                hviews == headers@.map_values(|h: SectionHeader| h@),
                spec_pe_file(d@) == spec_section_datas(d@, hviews),
                spec_section_datas(d@, hviews) == (match spec_section_datas(
                    d@,
                    hviews.skip(i as int),
                ) {
                    Ok(rest) => Ok::<Seq<SectionView>, DecodeError>(
                        pe_sections_view(sections@) + rest,
                    ),
                    Err(e) => Err::<Seq<SectionView>, DecodeError>(e),
                }),
            decreases headers@.len() - i,
        {
            let ghost prev = pe_sections_view(sections@);
            let ghost rest = hviews.skip(i as int);
            let h = &headers[i];
            proof {
                assert(rest[0] == hviews[i as int]);
            }
            if !reader::has_bytes(d, h.offset as usize, h.virtual_size as usize) {
                proof {
                    assert(spec_section_datas(d@, rest) == Err::<Seq<SectionView>, DecodeError>(
                        DecodeError::UnexpectedEof,
                    ));
                }
                return Err(DecodeError::UnexpectedEof);
            }
            let mut buffer: Vec<u8> = Vec::new();
            reader::append_range(
                &mut buffer,
                d,
                h.offset as usize,
                h.offset as usize + h.virtual_size as usize,
            );
            let section = Section { header: headers[i].clone(), data: buffer };
            let ghost sv = section@;
            sections.push(section);
            proof {
                assert(rest.drop_first() =~= hviews.skip(i + 1));
                let tail = spec_section_datas(d@, hviews.skip(i + 1));
                assert(spec_section_datas(d@, rest) == (match tail {
                    Ok(s) => Ok::<Seq<SectionView>, DecodeError>(seq![sv] + s),
                    Err(e) => Err::<Seq<SectionView>, DecodeError>(e),
                }));
                assert(pe_sections_view(sections@) =~= prev.push(sv));
                if tail is Ok {
                    assert(prev + (seq![sv] + tail->Ok_0) =~= prev.push(sv) + tail->Ok_0);
                }
            }
            i = i + 1;
        }
        proof {
            assert(hviews.skip(headers@.len() as int) =~= Seq::<SectionHeaderView>::empty());
            assert(pe_sections_view(sections@) + Seq::<SectionView>::empty() =~= pe_sections_view(
                sections@,
            ));
        }
        Ok(PEFile { sections })
    }
}

} // verus!
