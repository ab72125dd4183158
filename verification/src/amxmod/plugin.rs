//! The header of a module and the segments it lays out.

use super::opcode::{decode, Opcode};
use super::symbol::{
    native_symbols, pair_symbol, pair_symbols, public_symbols, read_table, table, Native, Public,
};
use crate::bytes::{
    is_cell_string, is_cell_string_open, read_cell_string, read_u16, read_u32, read_u8, u16_at,
    u32_at,
};
use crate::error::{Error, Field};
use vstd::prelude::*;
use vstd::slice::slice_subrange;

verus! {

/// A module whose header has been checked, with the buffer it was parsed
/// from. Every offset counts bytes from the start of that buffer, and none of
/// them is trusted: each access checks it against the buffer again.
#[derive(Debug, PartialEq)]
pub struct Plugin {
    /// The flags of the module, as the header holds them.
    pub flags: u16,
    /// The size of one record of a symbol table.
    pub defsize: u16,
    /// Where the code segment starts.
    pub cod: usize,
    /// Where the data segment starts, and the code segment ends.
    pub dat: usize,
    /// Where the heap starts, and the data segment ends.
    pub hea: usize,
    /// The top of the stack.
    pub stp: usize,
    /// The entry point; `0xFFFFFFFF` where the module has none.
    pub cip: usize,
    /// Where the table of publics starts.
    pub publics: usize,
    /// Where the table of natives starts, and that of publics ends.
    pub natives: usize,
    /// Where the table of libraries starts, and that of natives ends.
    pub libraries: usize,
    /// Where the table of public variables starts.
    pub pubvars: usize,
    /// Where the table of tags starts.
    pub tags: usize,
    /// Where the name table starts.
    pub nametable: usize,
    /// The whole module, header included.
    pub bin: Vec<u8>,
}

/// The magic number of a module.
pub const AMXMOD_MAGIC: u16 = 0xF1E0;

/// The one file format version that is understood.
pub const FILE_VERSION: u8 = 8;

/// The one version of the machine that is understood.
pub const AMX_VERSION: u8 = 8;

/// The width of a cell, in bytes. String constants are read with this
/// width whatever the container says of the module.
pub const CELLSIZE: usize = 4;

/// Why the header at the front of `b` is refused, if it is. The checks come
/// in the order of the fields: each value is read, then compared, before the
/// next.
pub open spec fn header_error(b: Seq<u8>) -> Option<Error> {
    if b.len() < 4 {
        Some(Error::Truncated { field: Field::Size })
    } else if b.len() < 6 {
        Some(Error::Truncated { field: Field::Magic })
    } else if u16_at(b, 4) != AMXMOD_MAGIC {
        Some(Error::InvalidMagic { expected: AMXMOD_MAGIC as u32, actual: u16_at(b, 4) as u32 })
    } else if b.len() < 7 {
        Some(Error::Truncated { field: Field::FileVersion })
    } else if b[6] != FILE_VERSION {
        Some(Error::InvalidFileVersion { expected: FILE_VERSION, actual: b[6] })
    } else if b.len() < 8 {
        Some(Error::Truncated { field: Field::AmxVersion })
    } else if b[7] != AMX_VERSION {
        Some(Error::InvalidAmxVersion { expected: AMX_VERSION, actual: b[7] })
    } else if b.len() < 10 {
        Some(Error::Truncated { field: Field::Flags })
    } else if b.len() < 12 {
        Some(Error::Truncated { field: Field::DefSize })
    } else if b.len() < 16 {
        Some(Error::Truncated { field: Field::Cod })
    } else if b.len() < 20 {
        Some(Error::Truncated { field: Field::Dat })
    } else if b.len() < 24 {
        Some(Error::Truncated { field: Field::Hea })
    } else if b.len() < 28 {
        Some(Error::Truncated { field: Field::Stp })
    } else if b.len() < 32 {
        Some(Error::Truncated { field: Field::Cip })
    } else if b.len() < 36 {
        Some(Error::Truncated { field: Field::Publics })
    } else if b.len() < 40 {
        Some(Error::Truncated { field: Field::Natives })
    } else if b.len() < 44 {
        Some(Error::Truncated { field: Field::Libraries })
    } else if b.len() < 48 {
        Some(Error::Truncated { field: Field::PubVars })
    } else if b.len() < 52 {
        Some(Error::Truncated { field: Field::Tags })
    } else if b.len() < 56 {
        Some(Error::Truncated { field: Field::NameTable })
    } else {
        None
    }
}

impl Plugin {
    /// Whether each field holds the value that the header of `bin` gives it.
    pub open spec fn fields_match_header(&self) -> bool {
        let b = self.bin@;
        &&& self.flags == u16_at(b, 8)
        &&& self.defsize == u16_at(b, 10)
        &&& self.cod == u32_at(b, 12)
        &&& self.dat == u32_at(b, 16)
        &&& self.hea == u32_at(b, 20)
        &&& self.stp == u32_at(b, 24)
        &&& self.cip == u32_at(b, 28)
        &&& self.publics == u32_at(b, 32)
        &&& self.natives == u32_at(b, 36)
        &&& self.libraries == u32_at(b, 40)
        &&& self.pubvars == u32_at(b, 44)
        &&& self.tags == u32_at(b, 48)
        &&& self.nametable == u32_at(b, 52)
    }

    /// Whether this is what `from` returns for the buffer it holds.
    pub open spec fn wf(&self) -> bool {
        header_error(self.bin@) is None && self.fields_match_header()
    }

    /// Parses the header at the front of `bin` and keeps the buffer. The
    /// header is, in this order and little-endian throughout: the total size
    /// (32 bits, not checked), the magic number (16), the file version (8),
    /// the machine version (8), the flags (16), the size of a symbol record
    /// (16), and eleven 32-bit offsets.
    pub fn from(bin: Vec<u8>) -> (r: Result<Plugin, Error>)
        ensures
            r matches Ok(p) ==> p.bin@ == bin@ && p.wf(),
            r matches Err(e) ==> header_error(bin@) == Some(e),
    {
        let b = bin.as_slice();
        if read_u32(b, 0).is_none() {
            return Err(Error::Truncated { field: Field::Size });
        }
        let magic = match read_u16(b, 4) {
            Some(v) => v,
            None => return Err(Error::Truncated { field: Field::Magic }),
        };
        if magic != AMXMOD_MAGIC {
            return Err(Error::InvalidMagic { expected: AMXMOD_MAGIC as u32, actual: magic as u32 });
        }
        let file_version = match read_u8(b, 6) {
            Some(v) => v,
            None => return Err(Error::Truncated { field: Field::FileVersion }),
        };
        if file_version != FILE_VERSION {
            return Err(Error::InvalidFileVersion { expected: FILE_VERSION, actual: file_version });
        }
        let amx_version = match read_u8(b, 7) {
            Some(v) => v,
            None => return Err(Error::Truncated { field: Field::AmxVersion }),
        };
        if amx_version != AMX_VERSION {
            return Err(Error::InvalidAmxVersion { expected: AMX_VERSION, actual: amx_version });
        }
        let flags = match read_u16(b, 8) {
            Some(v) => v,
            None => return Err(Error::Truncated { field: Field::Flags }),
        };
        let defsize = match read_u16(b, 10) {
            Some(v) => v,
            None => return Err(Error::Truncated { field: Field::DefSize }),
        };
        let cod = match read_u32(b, 12) {
            Some(v) => v,
            None => return Err(Error::Truncated { field: Field::Cod }),
        };
        let dat = match read_u32(b, 16) {
            Some(v) => v,
            None => return Err(Error::Truncated { field: Field::Dat }),
        };
        let hea = match read_u32(b, 20) {
            Some(v) => v,
            None => return Err(Error::Truncated { field: Field::Hea }),
        };
        let stp = match read_u32(b, 24) {
            Some(v) => v,
            None => return Err(Error::Truncated { field: Field::Stp }),
        };
        let cip = match read_u32(b, 28) {
            Some(v) => v,
            None => return Err(Error::Truncated { field: Field::Cip }),
        };
        let publics = match read_u32(b, 32) {
            Some(v) => v,
            None => return Err(Error::Truncated { field: Field::Publics }),
        };
        let natives = match read_u32(b, 36) {
            Some(v) => v,
            None => return Err(Error::Truncated { field: Field::Natives }),
        };
        let libraries = match read_u32(b, 40) {
            Some(v) => v,
            None => return Err(Error::Truncated { field: Field::Libraries }),
        };
        let pubvars = match read_u32(b, 44) {
            Some(v) => v,
            None => return Err(Error::Truncated { field: Field::PubVars }),
        };
        let tags = match read_u32(b, 48) {
            Some(v) => v,
            None => return Err(Error::Truncated { field: Field::Tags }),
        };
        let nametable = match read_u32(b, 52) {
            Some(v) => v,
            None => return Err(Error::Truncated { field: Field::NameTable }),
        };
        Ok(
            Plugin {
                flags,
                defsize,
                cod: cod as usize,
                dat: dat as usize,
                hea: hea as usize,
                stp: stp as usize,
                cip: cip as usize,
                publics: publics as usize,
                natives: natives as usize,
                libraries: libraries as usize,
                pubvars: pubvars as usize,
                tags: tags as usize,
                nametable: nametable as usize,
                bin,
            },
        )
    }

    /// The same conversion as [`Plugin::from`], under the name that a
    /// fallible conversion has.
    pub fn try_from(bin: Vec<u8>) -> (r: Result<Plugin, Error>)
        ensures
            r matches Ok(p) ==> p.bin@ == bin@ && p.wf(),
            r matches Err(e) ==> header_error(bin@) == Some(e),
    {
        Plugin::from(bin)
    }

    /// The code segment: the bytes from `cod` up to `dat`.
    pub fn cod_slice(&self) -> (r: Result<&[u8], Error>)
        ensures
            r is Ok <==> self.cod <= self.dat <= self.bin@.len(),
            r matches Ok(s) ==> s@ == self.bin@.subrange(self.cod as int, self.dat as int),
            r matches Err(e) ==> e == Error::MalformedSegment,
    {
        if self.cod <= self.dat && self.dat <= self.bin.len() {
            let cod_size = self.dat - self.cod;
            Ok(slice_subrange(self.bin.as_slice(), self.cod, self.cod + cod_size))
        } else {
            Err(Error::MalformedSegment)
        }
    }

    /// The code segment in specifications: the bytes from `cod` up to `dat`.
    pub open spec fn cod_bytes(&self) -> Seq<u8> {
        self.bin@.subrange(self.cod as int, self.dat as int)
    }

    /// The instructions of the code segment, in the order of the segment.
    pub fn opcodes(&self) -> (r: Result<Vec<Opcode>, Error>)
        ensures
            !(self.cod <= self.dat <= self.bin@.len()) ==> r == Err::<Vec<Opcode>, Error>(
                Error::MalformedSegment,
            ),
            self.cod <= self.dat <= self.bin@.len() ==> match decode(self.cod_bytes()) {
                Ok(opcodes) => r matches Ok(v) && v@ == opcodes,
                Err(e) => r == Err::<Vec<Opcode>, Error>(e),
            },
    {
        let code = self.cod_slice()?;
        Opcode::read_all(code)
    }

    /// The table of natives: the records between `natives` and `libraries`,
    /// in the order of the file. Bounds out of order are a malformed
    /// segment. A record that the table or the buffer cuts short, or whose
    /// name starts past the end of the buffer, is truncated; a name without
    /// a zero byte after it is unterminated. The first record that cannot be
    /// read decides.
    pub fn natives(&self) -> (r: Result<Vec<Native>, Error>)
        ensures
            match table(self.bin@, self.natives as int, self.libraries as int) {
                Ok(symbols) => r matches Ok(v) && native_symbols(v@) == symbols,
                Err(e) => r matches Err(found) && found == e,
            },
    {
        let pairs = read_table(self.bin.as_slice(), self.natives, self.libraries)?;
        let mut natives: Vec<Native> = Vec::new();
        for pair in it: pairs.into_iter()
            invariant
                natives@.len() == it.index(),
                native_symbols(natives@) == pair_symbols(it.seq().take(it.index() as int)),
        {
            let ghost before = natives@;
            natives.push(Native { name: pair.0, address: pair.1 });
            assert(native_symbols(natives@) == native_symbols(before).push(pair_symbol(pair)));
            assert(it.seq().take(it.index() + 1) == it.seq().take(it.index() as int).push(pair));
        }
        assert(pairs@.take(pairs@.len() as int) == pairs@);
        Ok(natives)
    }

    /// The table of publics: the records between `publics` and `natives`, in
    /// the order of the file, read as the table of natives is.
    pub fn publics(&self) -> (r: Result<Vec<Public>, Error>)
        ensures
            match table(self.bin@, self.publics as int, self.natives as int) {
                Ok(symbols) => r matches Ok(v) && public_symbols(v@) == symbols,
                Err(e) => r matches Err(found) && found == e,
            },
    {
        let pairs = read_table(self.bin.as_slice(), self.publics, self.natives)?;
        let mut publics: Vec<Public> = Vec::new();
        for pair in it: pairs.into_iter()
            invariant
                publics@.len() == it.index(),
                public_symbols(publics@) == pair_symbols(it.seq().take(it.index() as int)),
        {
            let ghost before = publics@;
            publics.push(Public { name: pair.0, address: pair.1 });
            assert(public_symbols(publics@) == public_symbols(before).push(pair_symbol(pair)));
            assert(it.seq().take(it.index() + 1) == it.seq().take(it.index() as int).push(pair));
        }
        assert(pairs@.take(pairs@.len() as int) == pairs@);
        Ok(publics)
    }

    /// The size of the data segment, which ends where the heap starts.
    pub fn dat_size(&self) -> (r: Result<usize, Error>)
        ensures
            r is Ok <==> self.dat <= self.hea,
            r matches Ok(n) ==> n == self.hea - self.dat,
            r matches Err(e) ==> e == Error::MalformedSegment,
    {
        if self.dat <= self.hea {
            Ok(self.hea - self.dat)
        } else {
            Err(Error::MalformedSegment)
        }
    }

    /// The data segment: the bytes from `dat` up to `hea`.
    pub fn dat_slice(&self) -> (r: Result<&[u8], Error>)
        ensures
            r is Ok <==> self.dat <= self.hea <= self.bin@.len(),
            r matches Ok(s) ==> s@ == self.bin@.subrange(self.dat as int, self.hea as int),
            r matches Err(e) ==> e == Error::MalformedSegment,
    {
        let size = self.dat_size()?;
        if self.hea <= self.bin.len() {
            Ok(slice_subrange(self.bin.as_slice(), self.dat, self.dat + size))
        } else {
            Err(Error::MalformedSegment)
        }
    }

    /// Whether `addr` is the address of a byte of the data segment.
    pub fn is_addr_in_dat(&self, addr: usize) -> (r: bool)
        ensures
            r <==> self.dat <= self.hea && addr < self.hea - self.dat,
    {
        match self.dat_size() {
            Ok(size) => addr < size,
            Err(_) => false,
        }
    }

    /// The data segment in specifications: the bytes from `dat` up to `hea`.
    pub open spec fn dat_bytes(&self) -> Seq<u8> {
        self.bin@.subrange(self.dat as int, self.hea as int)
    }

    /// Reads the string constant at `addr` in the data segment. Such a
    /// constant takes one cell for each character and ends with a cell that
    /// starts with a zero byte; the cells are four bytes wide whatever the
    /// module declares. The result is the string without its terminator.
    pub fn read_constant_auto_type(&self, addr: usize) -> (r: Result<Vec<u8>, Error>)
        ensures
            !(self.dat <= self.hea <= self.bin@.len()) ==> r == Err::<Vec<u8>, Error>(
                Error::MalformedSegment,
            ),
            self.dat <= self.hea <= self.bin@.len() && addr >= self.hea - self.dat ==> r == Err::<
                Vec<u8>,
                Error,
            >(Error::InvalidAddress),
            self.dat <= self.hea <= self.bin@.len() && addr < self.hea - self.dat ==> {
                &&& r matches Ok(v) ==> is_cell_string(self.dat_bytes(), addr as int, v@)
                &&& r matches Err(e) ==> e == Error::UnterminatedString && is_cell_string_open(
                    self.dat_bytes(),
                    addr as int,
                )
            },
    {
        let dat = self.dat_slice()?;
        if !self.is_addr_in_dat(addr) {
            return Err(Error::InvalidAddress);
        }
        read_cell_string(dat, addr)
    }
}

} // verus!
