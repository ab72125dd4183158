//! The record that describes one packed module inside a container.

use crate::bytes::{read_u32, read_u8, u32_at};
use crate::error::{Error, Field};
use vstd::prelude::*;
use vstd::slice::slice_subrange;

verus! {

/// Where one packed module lies in its container, and how large it is before
/// and after unpacking.
#[derive(Clone, Copy, Debug, PartialEq, Eq, Structural)]
pub struct Section {
    /// The width of a cell of the module, in bytes.
    pub cellsize: u8,
    /// The number of bytes that the packed module takes in the container.
    pub disksize: u32,
    /// The number of bytes of the unpacked module.
    pub imagesize: u32,
    /// The memory that the module asks for when it runs.
    pub memsize: u32,
    /// Where the packed module starts in the container.
    pub offset: u32,
}

/// What parsing the record at the front of `b` gives: the first field that
/// the bytes do not reach, or the five fields.
pub open spec fn parse_section(b: Seq<u8>) -> Result<Section, Error> {
    if b.len() < 1 {
        Err(Error::Truncated { field: Field::SectionCellSize })
    } else if b.len() < 5 {
        Err(Error::Truncated { field: Field::SectionDiskSize })
    } else if b.len() < 9 {
        Err(Error::Truncated { field: Field::SectionImageSize })
    } else if b.len() < 13 {
        Err(Error::Truncated { field: Field::SectionMemSize })
    } else if b.len() < 17 {
        Err(Error::Truncated { field: Field::SectionOffset })
    } else {
        Ok(
            Section {
                cellsize: b[0],
                disksize: u32_at(b, 1) as u32,
                imagesize: u32_at(b, 5) as u32,
                memsize: u32_at(b, 9) as u32,
                offset: u32_at(b, 13) as u32,
            },
        )
    }
}

impl Section {
    /// The number of bytes of one record.
    pub const SIZE: usize = 17;

    /// Parses the record at the front of `bin`: one byte of cell size, then
    /// four little-endian 32-bit values.
    pub fn from(bin: &[u8]) -> (r: Result<Section, Error>)
        ensures
            r == parse_section(bin@),
    {
        let cellsize = match read_u8(bin, 0) {
            Some(v) => v,
            None => return Err(Error::Truncated { field: Field::SectionCellSize }),
        };
        let disksize = match read_u32(bin, 1) {
            Some(v) => v,
            None => return Err(Error::Truncated { field: Field::SectionDiskSize }),
        };
        let imagesize = match read_u32(bin, 5) {
            Some(v) => v,
            None => return Err(Error::Truncated { field: Field::SectionImageSize }),
        };
        let memsize = match read_u32(bin, 9) {
            Some(v) => v,
            None => return Err(Error::Truncated { field: Field::SectionMemSize }),
        };
        let offset = match read_u32(bin, 13) {
            Some(v) => v,
            None => return Err(Error::Truncated { field: Field::SectionOffset }),
        };
        Ok(Section { cellsize, disksize, imagesize, memsize, offset })
    }

    /// The packed bytes of this section: `disksize` bytes of the container
    /// from `offset` on, or `MalformedSegment` where the container is too
    /// short to hold them.
    pub fn packed<'a>(&self, bin: &'a [u8]) -> (r: Result<&'a [u8], Error>)
        ensures
            r is Ok <==> self.offset + self.disksize <= bin@.len(),
            r matches Ok(s) ==> s@ == bin@.subrange(
                self.offset as int,
                self.offset + self.disksize,
            ),
            r matches Err(e) ==> e == Error::MalformedSegment,
    {
        let start = self.offset as usize;
        let size = self.disksize as usize;
        if start <= bin.len() && size <= bin.len() - start {
            Ok(slice_subrange(bin, start, start + size))
        } else {
            Err(Error::MalformedSegment)
        }
    }
}

} // verus!
