//! The header of a container and the list of its sections.

use super::section::{parse_section, Section};
use crate::bytes::{read_u16, read_u32, read_u8, u16_at, u32_at};
use crate::error::{Error, Field};
use vstd::prelude::*;
use vstd::slice::slice_subrange;

verus! {

/// A container whose header has been checked. It borrows the buffer it was
/// parsed from.
pub struct File<'a> {
    /// The whole container, header included.
    pub bin: &'a [u8],
    /// The magic number that the header holds.
    pub magic: u32,
    /// The format version that the header holds.
    pub version: u16,
    /// The number of sections that the header declares.
    pub sections: u8,
}

/// What parsing the header at the front of `b` gives. The checks come in the
/// order of the fields: each value is read, then compared, before the next.
pub open spec fn parse_header(b: Seq<u8>) -> Result<u8, Error> {
    if b.len() < 4 {
        Err(Error::Truncated { field: Field::ContainerMagic })
    } else if u32_at(b, 0) != File::MAGIC {
        Err(Error::InvalidMagic { expected: File::MAGIC, actual: u32_at(b, 0) as u32 })
    } else if b.len() < 6 {
        Err(Error::Truncated { field: Field::ContainerVersion })
    } else if u16_at(b, 4) != File::COMPATIBLE_VERSION {
        Err(
            Error::IncompatibleVersion {
                expected: File::COMPATIBLE_VERSION,
                actual: u16_at(b, 4) as u16,
            },
        )
    } else if b.len() < 7 {
        Err(Error::Truncated { field: Field::SectionCount })
    } else if b[6] < 1 {
        Err(Error::NoSections)
    } else if b[6] > 2 {
        Err(Error::TooManySections)
    } else {
        Ok(b[6])
    }
}

/// The magic number decides first. A buffer is accepted only if its first
/// four bytes hold the magic number, and four bytes that hold anything else
/// are refused with `InvalidMagic`, whatever follows them.
pub proof fn lemma_magic_decides(b: Seq<u8>)
    ensures
        parse_header(b) is Ok ==> b.len() >= 4 && u32_at(b, 0) == File::MAGIC,
        b.len() >= 4 ==> (u32_at(b, 0) != File::MAGIC <==> parse_header(b) == Err::<u8, Error>(
            Error::InvalidMagic { expected: File::MAGIC, actual: u32_at(b, 0) as u32 },
        )),
{
}

/// Where the record of section `index` starts in the container: after the
/// seven bytes of the header and the seventeen bytes of each record before it.
pub open spec fn section_start(index: int) -> int {
    7 + 17 * index
}

/// What parsing the record of section `index` of the container `b` gives.
pub open spec fn section_at(b: Seq<u8>, index: int) -> Result<Section, Error> {
    if section_start(index) <= b.len() {
        parse_section(b.subrange(section_start(index), b.len() as int))
    } else {
        Err(Error::Truncated { field: Field::SectionCellSize })
    }
}

/// The records of the first `count` sections of the container `b`, in their
/// order, or the error of the first that cannot be parsed.
pub open spec fn section_list(b: Seq<u8>, count: int) -> Result<Seq<Section>, Error>
    decreases count,
{
    if count <= 0 {
        Ok(Seq::empty())
    } else {
        match section_list(b, count - 1) {
            Err(e) => Err(e),
            Ok(sections) => match section_at(b, count - 1) {
                Err(e) => Err(e),
                Ok(section) => Ok(sections.push(section)),
            },
        }
    }
}

/// Once a record cannot be parsed, the records after it are not looked at.
pub proof fn lemma_section_error_persists(b: Seq<u8>, n: int, count: int)
    requires
        0 <= n <= count,
        section_list(b, n) is Err,
    ensures
        section_list(b, count) == section_list(b, n),
    decreases count - n,
{
    if n < count {
        lemma_section_error_persists(b, n + 1, count);
    }
}

impl<'a> File<'a> {
    /// The magic number of a container.
    pub const MAGIC: u32 = 0x414d5858;

    /// The one format version that is understood.
    pub const COMPATIBLE_VERSION: u16 = 768;

    /// The number of bytes of the header.
    pub const AMXX_HEADER_SIZE: usize = 7;

    /// Whether the fields are what the header of `bin` holds, and the header
    /// is one that `from` accepts.
    pub open spec fn wf(&self) -> bool {
        &&& parse_header(self.bin@) == Ok::<u8, Error>(self.sections)
        &&& self.magic == File::MAGIC
        &&& self.version == File::COMPATIBLE_VERSION
    }

    /// Checks the seven bytes of the header: the magic number, the version and
    /// the number of sections, which is one or two.
    pub fn from(bin: &'a [u8]) -> (r: Result<File<'a>, Error>)
        ensures
            r matches Ok(f) ==> f.bin == bin && f.wf(),
            r matches Err(e) ==> parse_header(bin@) == Err::<u8, Error>(e),
    {
        let magic = match read_u32(bin, 0) {
            Some(v) => v,
            None => return Err(Error::Truncated { field: Field::ContainerMagic }),
        };
        if magic != File::MAGIC {
            return Err(Error::InvalidMagic { expected: File::MAGIC, actual: magic });
        }
        let version = match read_u16(bin, 4) {
            Some(v) => v,
            None => return Err(Error::Truncated { field: Field::ContainerVersion }),
        };
        if version != File::COMPATIBLE_VERSION {
            return Err(
                Error::IncompatibleVersion {
                    expected: File::COMPATIBLE_VERSION,
                    actual: version,
                },
            );
        }
        let sections = match read_u8(bin, 6) {
            Some(v) => v,
            None => return Err(Error::Truncated { field: Field::SectionCount }),
        };
        if sections < 1 {
            return Err(Error::NoSections);
        }
        if sections > 2 {
            return Err(Error::TooManySections);
        }
        Ok(File { bin, magic, version, sections })
    }

    /// Parses the record of section `index`, which starts `index` records
    /// after the header.
    pub fn section(&self, index: u8) -> (r: Result<Section, Error>)
        ensures
            r == section_at(self.bin@, index as int),
    {
        let section_offset: usize = File::AMXX_HEADER_SIZE + Section::SIZE * (index as usize);
        if section_offset > self.bin.len() {
            return Err(Error::Truncated { field: Field::SectionCellSize });
        }
        let section_bin = slice_subrange(self.bin, section_offset, self.bin.len());
        Section::from(section_bin)
    }

    /// Parses the records of the declared sections, which follow the header
    /// one after the other. The first record that the buffer does not hold in
    /// full ends the call with its error.
    pub fn sections(&self) -> (r: Result<Vec<Section>, Error>)
        ensures
            match section_list(self.bin@, self.sections as int) {
                Ok(sections) => r matches Ok(v) && v@ == sections,
                Err(e) => r matches Err(found) && found == e,
            },
    {
        let mut sections: Vec<Section> = Vec::new();
        let mut i: u8 = 0;
        while i < self.sections
            invariant
                i <= self.sections,
                section_list(self.bin@, i as int) == Ok::<Seq<Section>, Error>(sections@),
            decreases self.sections - i,
        {
            let section = match self.section(i) {
                Ok(s) => s,
                Err(e) => {
                    proof {
                        lemma_section_error_persists(self.bin@, i + 1, self.sections as int);
                    }
                    return Err(e);
                },
            };
            sections.push(section);
            i = i + 1;
        }
        Ok(sections)
    }
}

} // verus!
