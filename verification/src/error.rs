//! The one error type that every stage of the pipeline reports.

use vstd::prelude::*;

verus! {

/// The value that was being read when the buffer ran out.
#[derive(Clone, Copy, Debug, PartialEq, Eq, Structural)]
pub enum Field {
    /// The container's magic number.
    ContainerMagic,
    /// The container's format version.
    ContainerVersion,
    /// The container's section count.
    SectionCount,
    /// A section record's cell size.
    SectionCellSize,
    /// A section record's packed size.
    SectionDiskSize,
    /// A section record's unpacked size.
    SectionImageSize,
    /// A section record's memory size.
    SectionMemSize,
    /// A section record's offset.
    SectionOffset,
    /// The module's total size.
    Size,
    /// The module's magic number.
    Magic,
    /// The module's file format version.
    FileVersion,
    /// The version of the machine that the module needs.
    AmxVersion,
    /// The module's flags.
    Flags,
    /// The size of one symbol record.
    DefSize,
    /// The start of the code segment.
    Cod,
    /// The start of the data segment.
    Dat,
    /// The start of the heap.
    Hea,
    /// The top of the stack.
    Stp,
    /// The entry point.
    Cip,
    /// The start of the table of publics.
    Publics,
    /// The start of the table of natives.
    Natives,
    /// The start of the table of libraries.
    Libraries,
    /// The start of the table of public variables.
    PubVars,
    /// The start of the table of tags.
    Tags,
    /// The start of the name table.
    NameTable,
    /// A symbol record's address.
    SymbolAddress,
    /// A symbol record's name offset.
    SymbolNameOffset,
    /// A symbol's name.
    SymbolName,
    /// The two reserved cells at the start of the code segment.
    Prolog,
    /// An instruction's mnemonic.
    Mnemonic,
    /// An instruction's operand.
    Operand,
}

/// Why a stage of the pipeline refused its input.
#[derive(Clone, Copy, Debug, PartialEq, Eq, Structural)]
#[allow(inconsistent_fields)]
pub enum Error {
    /// A read ran past the end of the buffer.
    Truncated { field: Field },
    /// The magic number is not the one that the format asks for.
    InvalidMagic { expected: u32, actual: u32 },
    /// The container's version is not the supported one.
    IncompatibleVersion { expected: u16, actual: u16 },
    /// The module's file format version is not the supported one.
    InvalidFileVersion { expected: u8, actual: u8 },
    /// The module asks for another version of the machine.
    InvalidAmxVersion { expected: u8, actual: u8 },
    /// The container declares more than two sections.
    TooManySections,
    /// The container declares no section.
    NoSections,
    /// A segment's bounds are out of order or reach past the buffer.
    MalformedSegment,
    /// A constant's address lies outside the data segment.
    InvalidAddress,
    /// A string runs to the end of the buffer without a terminator.
    UnterminatedString,
    /// The code segment holds a mnemonic that the machine does not know.
    UnknownOpcode { code: u32 },
    /// A function ends where none has started.
    MalformedBytecode,
    /// A name is not valid UTF-8 and cannot be rendered as text.
    InvalidName,
}

impl Field {
    /// The words that name this field in a message.
    pub fn description(&self) -> (s: &'static str)
        ensures
            s@ == self.spec_description(),
    {
        match self {
            Field::ContainerMagic => "Magic EOF",
            Field::ContainerVersion => "Version EOF",
            Field::SectionCount => "Sections EOF",
            Field::SectionCellSize => "Section cellsize EOF",
            Field::SectionDiskSize => "Section disksize EOF",
            Field::SectionImageSize => "Section imagesize EOF",
            Field::SectionMemSize => "Section memsize EOF",
            Field::SectionOffset => "Section offset EOF",
            Field::Size => "EOF on amx size",
            Field::Magic => "EOF on amx magic",
            Field::FileVersion => "EOF on amx file version",
            Field::AmxVersion => "EOF on amx version",
            Field::Flags => "EOF on amx flags",
            Field::DefSize => "EOF on amx defsize",
            Field::Cod => "EOF on amx cod",
            Field::Dat => "EOF on amx dat",
            Field::Hea => "EOF on amx hea",
            Field::Stp => "EOF on amx stp",
            Field::Cip => "EOF on amx cip",
            Field::Publics => "EOF on amx publics",
            Field::Natives => "EOF on amx natives",
            Field::Libraries => "EOF on amx libraries",
            Field::PubVars => "EOF on amx pubvars",
            Field::Tags => "EOF on amx tags",
            Field::NameTable => "EOF on amx nametable",
            Field::SymbolAddress => "EOF on symbol address",
            Field::SymbolNameOffset => "EOF on symbol name offset",
            Field::SymbolName => "EOF on symbol name",
            Field::Prolog => "EOF on code prolog",
            Field::Mnemonic => "EOF on opcode",
            Field::Operand => "EOF on opcode param",
        }
    }

    /// The text of [`Field::description`].
    pub open spec fn spec_description(&self) -> Seq<char> {
        match self {
            Field::ContainerMagic => "Magic EOF"@,
            Field::ContainerVersion => "Version EOF"@,
            Field::SectionCount => "Sections EOF"@,
            Field::SectionCellSize => "Section cellsize EOF"@,
            Field::SectionDiskSize => "Section disksize EOF"@,
            Field::SectionImageSize => "Section imagesize EOF"@,
            Field::SectionMemSize => "Section memsize EOF"@,
            Field::SectionOffset => "Section offset EOF"@,
            Field::Size => "EOF on amx size"@,
            Field::Magic => "EOF on amx magic"@,
            Field::FileVersion => "EOF on amx file version"@,
            Field::AmxVersion => "EOF on amx version"@,
            Field::Flags => "EOF on amx flags"@,
            Field::DefSize => "EOF on amx defsize"@,
            Field::Cod => "EOF on amx cod"@,
            Field::Dat => "EOF on amx dat"@,
            Field::Hea => "EOF on amx hea"@,
            Field::Stp => "EOF on amx stp"@,
            Field::Cip => "EOF on amx cip"@,
            Field::Publics => "EOF on amx publics"@,
            Field::Natives => "EOF on amx natives"@,
            Field::Libraries => "EOF on amx libraries"@,
            Field::PubVars => "EOF on amx pubvars"@,
            Field::Tags => "EOF on amx tags"@,
            Field::NameTable => "EOF on amx nametable"@,
            Field::SymbolAddress => "EOF on symbol address"@,
            Field::SymbolNameOffset => "EOF on symbol name offset"@,
            Field::SymbolName => "EOF on symbol name"@,
            Field::Prolog => "EOF on code prolog"@,
            Field::Mnemonic => "EOF on opcode"@,
            Field::Operand => "EOF on opcode param"@,
        }
    }
}

impl Error {
    /// A short message for this error, without the values it carries.
    pub fn message(&self) -> (s: &'static str)
        ensures
            s@ == self.spec_message(),
    {
        match self {
            Error::Truncated { field } => field.description(),
            Error::InvalidMagic { .. } => "Invalid file magic",
            Error::IncompatibleVersion { .. } => "Incompatible file version",
            Error::InvalidFileVersion { .. } => "Invalid file version",
            Error::InvalidAmxVersion { .. } => "Invalid amx version",
            Error::TooManySections => "More than two sections (malicious file?)",
            Error::NoSections => "Zero sections amount",
            Error::MalformedSegment => "Malformed segment",
            Error::InvalidAddress => "Invalid constant addr",
            Error::UnterminatedString => "Unterminated string",
            Error::UnknownOpcode { .. } => "Unknown opcode",
            Error::MalformedBytecode => "Function end outside of a function",
            Error::InvalidName => "Name is not valid UTF-8",
        }
    }

    /// The text of [`Error::message`].
    pub open spec fn spec_message(&self) -> Seq<char> {
        match self {
            Error::Truncated { field } => field.spec_description(),
            Error::InvalidMagic { .. } => "Invalid file magic"@,
            Error::IncompatibleVersion { .. } => "Incompatible file version"@,
            Error::InvalidFileVersion { .. } => "Invalid file version"@,
            Error::InvalidAmxVersion { .. } => "Invalid amx version"@,
            Error::TooManySections => "More than two sections (malicious file?)"@,
            Error::NoSections => "Zero sections amount"@,
            Error::MalformedSegment => "Malformed segment"@,
            Error::InvalidAddress => "Invalid constant addr"@,
            Error::UnterminatedString => "Unterminated string"@,
            Error::UnknownOpcode { .. } => "Unknown opcode"@,
            Error::MalformedBytecode => "Function end outside of a function"@,
            Error::InvalidName => "Name is not valid UTF-8"@,
        }
    }
}

} // verus!
