//! Method body headers and bodies (ECMA-335 §II.25.4).

use vstd::prelude::*;
use crate::error::DecodeError;
use crate::reader;
use crate::reader::res_pos_eq;

verus! {

/// Flag bits of a method header; the low two bits select the format.
pub const TINY_FORMAT: u16 = 0x02;

pub const FAT_FORMAT: u16 = 0x03;

pub const MORE_SECTIONS: u16 = 0x08;

pub const INIT_LOCALS: u16 = 0x10;

/// A decoded method header; the flags word is kept raw.
#[derive(Debug, Clone, Copy, PartialEq, Eq, Structural)]
pub struct MethodHeader {
    pub flags: u16,
    pub max_stack: u16,
    pub code_size: u32,
    pub local_var_signature_token: u32,
}

/// A method header: a tiny header packs the code size into the first
/// word's high six bits; a fat header spans twelve bytes.
pub open spec fn spec_method_header(d: Seq<u8>, pos: int) -> Result<
    (MethodHeader, int),
    DecodeError,
> {
    match reader::spec_read_u16(d, pos) {
        Err(e) => Err(e),
        Ok((first, p1)) => if first & 0b11 == TINY_FORMAT {
            Ok(
                (
                    MethodHeader {
                        flags: TINY_FORMAT,
                        max_stack: 8,
                        code_size: ((first & 0xFC) >> 2) as u32,
                        local_var_signature_token: 0,
                    },
                    p1,
                ),
            )
        } else {
            match reader::spec_read_u16(d, p1) {
                Err(e) => Err(e),
                Ok((max_stack, p2)) => match reader::spec_read_u32(d, p2) {
                    Err(e) => Err(e),
                    Ok((code_size, p3)) => match reader::spec_read_u32(d, p3) {
                        Err(e) => Err(e),
                        Ok((token, p4)) => Ok(
                            (
                                MethodHeader {
                                    flags: first & 0xFFF,
                                    max_stack,
                                    code_size,
                                    local_var_signature_token: token,
                                },
                                p4,
                            ),
                        ),
                    },
                },
            }
        },
    }
}

impl MethodHeader {
    /// Decode a method header, tiny or fat.
    pub fn read(d: &Vec<u8>, pos: usize) -> (r: Result<(MethodHeader, usize), DecodeError>)
        ensures
            res_pos_eq(r, spec_method_header(d@, pos as int)),
    {
        let (first, p1) = reader::read_u16(d, pos)?;
        if first & 0b11 == TINY_FORMAT {
            return Ok(
                (
                    MethodHeader {
                        flags: TINY_FORMAT,
                        max_stack: 8,
                        code_size: ((first & 0xFC) >> 2) as u32,
                        local_var_signature_token: 0,
                    },
                    p1,
                ),
            );
        }
        let (max_stack, p2) = reader::read_u16(d, p1)?;
        let (code_size, p3) = reader::read_u32(d, p2)?;
        let (token, p4) = reader::read_u32(d, p3)?;
        Ok(
            (
                MethodHeader {
                    flags: first & 0xFFF,
                    max_stack,
                    code_size,
                    local_var_signature_token: token,
                },
                p4,
            ),
        )
    }
}

/// A method body: its header and the raw bytes of its code.
#[derive(Debug, Clone)]
pub struct MethodBody {
    pub header: MethodHeader,
    pub code: Vec<u8>,
}

impl MethodBody {
    /// Decode a method header and the `code_size` bytes that follow it.
    pub fn read(d: &Vec<u8>, pos: usize) -> (r: Result<(MethodBody, usize), DecodeError>)
        ensures
            match (r, spec_method_header(d@, pos as int)) {
                (Ok((b, p)), Ok((h, hp))) => b.header == h && hp + h.code_size <= d@.len()
                    && b.code@ == d@.subrange(hp, hp + h.code_size) && p as int == hp
                    + h.code_size,
                (Err(e), Ok((h, hp))) => hp + h.code_size > d@.len() && e
                    == DecodeError::UnexpectedEof,
                (Err(e), Err(se)) => e == se,
                _ => false,
            },
    {
        let (header, p1) = MethodHeader::read(d, pos)?;
        if !reader::has_bytes(d, p1, header.code_size as usize) {
            return Err(DecodeError::UnexpectedEof);
        }
        let mut code: Vec<u8> = Vec::new();
        reader::append_range(&mut code, d, p1, p1 + header.code_size as usize);
        Ok((MethodBody { header, code }, p1 + header.code_size as usize))
    }
}

} // verus!
