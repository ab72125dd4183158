use amx_decompiler::amxmod::opcode::{Layout, Opcode, OpcodeType, Operands};
use amx_decompiler::amxmod::{Native, Plugin, Public};
use amx_decompiler::bytes::{read_cell_string, read_string_zero, read_u16, read_u32, read_u8};
use amx_decompiler::error::{Error, Field};

/// The parts of a module image.
struct Image {
    publics: Vec<(u32, &'static str)>,
    natives: Vec<(u32, &'static str)>,
    tags: Vec<(u32, &'static str)>,
    code: Vec<u32>,
    data: Vec<u32>,
}

fn push_u16(bin: &mut Vec<u8>, value: u16) {
    bin.extend_from_slice(&value.to_le_bytes());
}

fn push_u32(bin: &mut Vec<u8>, value: u32) {
    bin.extend_from_slice(&value.to_le_bytes());
}

fn cells(text: &str) -> Vec<u32> {
    let mut cells: Vec<u32> = text.bytes().map(u32::from).collect();
    cells.push(0);
    cells
}

/// Lays the image out as the compiler does: header, the tables of publics,
/// natives and tags, the name table, the code, the data.
fn build(image: &Image) -> Vec<u8> {
    let publics = 56u32;
    let natives = publics + 8 * image.publics.len() as u32;
    let libraries = natives + 8 * image.natives.len() as u32;
    let pubvars = libraries;
    let tags = pubvars;
    let nametable = tags + 8 * image.tags.len() as u32;
    let mut names: Vec<u8> = Vec::new();
    push_u16(&mut names, 31);
    let mut records: Vec<(u32, u32)> = Vec::new();
    for (address, name) in image.publics.iter().chain(&image.natives).chain(&image.tags) {
        records.push((*address, nametable + names.len() as u32));
        names.extend_from_slice(name.as_bytes());
        names.push(0);
    }
    let cod = nametable + names.len() as u32;
    let dat = cod + 4 * image.code.len() as u32;
    let hea = dat + 4 * image.data.len() as u32;
    let stp = hea + 16384;

    let mut bin: Vec<u8> = Vec::new();
    push_u32(&mut bin, hea);
    push_u16(&mut bin, 0xF1E0);
    bin.push(8);
    bin.push(8);
    push_u16(&mut bin, 2);
    push_u16(&mut bin, 8);
    for offset in [cod, dat, hea, stp, 0xFFFF_FFFF, publics, natives, libraries, pubvars, tags, nametable] {
        push_u32(&mut bin, offset);
    }
    for (address, name_offset) in records {
        push_u32(&mut bin, address);
        push_u32(&mut bin, name_offset);
    }
    bin.extend_from_slice(&names);
    for cell in image.code.iter().chain(&image.data) {
        push_u32(&mut bin, *cell);
    }
    bin
}

/// A plugin that registers itself from its one public function.
fn simple_amx183() -> Vec<u8> {
    let mut data = cells("simple plugin");
    data.extend(cells("1.0"));
    data.extend(cells("author"));
    data.push(0);
    build(&Image {
        publics: vec![(8, "plugin_init")],
        natives: vec![(0, "register_plugin")],
        tags: vec![(0, "Float")],
        code: vec![
            120, 0, // reserved
            46, // proc
            137, // break
            39, 56, // push.c 56
            39, 72, // push.c 72
            39, 0, // push.c 0
            39, 12, // push.c 12
            123, 0, // sysreq.c 0
            44, 16, // stack 16
            137, // break
            89, // zero.pri
            48, // retn
        ],
        data,
    })
}

/// A plugin with two natives and one public function.
fn two_natives_amx183() -> Vec<u8> {
    build(&Image {
        publics: vec![(8, "func")],
        natives: vec![(0, "native_one"), (0, "native_two")],
        tags: vec![],
        code: vec![120, 0, 46, 137, 123, 0, 123, 1, 89, 48],
        data: vec![],
    })
}

/// A plugin whose data segment starts with a string constant.
fn cell_constants_amx183() -> Vec<u8> {
    build(&Image {
        publics: vec![(8, "plugin_init")],
        natives: vec![],
        tags: vec![],
        code: vec![120, 0, 46, 137, 11, 0, 48],
        data: cells("simple plugin"),
    })
}

fn plain(code: OpcodeType, address: usize) -> Opcode {
    Opcode { code, address, operands: Operands::Empty }
}

fn one(code: OpcodeType, address: usize, first: u32) -> Opcode {
    Opcode { code, address, operands: Operands::One(first) }
}

fn two(code: OpcodeType, address: usize, first: u32, second: u32) -> Opcode {
    Opcode { code, address, operands: Operands::Two(first, second) }
}

fn code_bytes(cells: &[u32]) -> Vec<u8> {
    let mut bin = Vec::new();
    for cell in cells {
        push_u32(&mut bin, *cell);
    }
    bin
}

#[test]
fn plugin_it_load_plugins_when_it_is_correct() {
    let amxmod_bin = simple_amx183();
    let extracted_plugin = Plugin::from(amxmod_bin.clone()).unwrap();
    let expected_plugin = Plugin {
        flags: 2,
        defsize: 8,
        cod: 116,
        dat: 192,
        hea: 296,
        stp: 16680,
        cip: 4294967295,
        publics: 56,
        natives: 64,
        libraries: 72,
        pubvars: 72,
        tags: 72,
        nametable: 80,
        bin: amxmod_bin.to_vec(),
    };
    assert_eq!(extracted_plugin, expected_plugin);
}

#[test]
fn try_from_vec_u8_it_load_plugins_when_it_is_correct() {
    let amxmod_bin = simple_amx183();
    let extracted_plugin = Plugin::try_from(amxmod_bin.clone()).unwrap();
    let expected_plugin = Plugin {
        flags: 2,
        defsize: 8,
        cod: 116,
        dat: 192,
        hea: 296,
        stp: 16680,
        cip: 4294967295,
        publics: 56,
        natives: 64,
        libraries: 72,
        pubvars: 72,
        tags: 72,
        nametable: 80,
        bin: amxmod_bin.to_vec(),
    };
    assert_eq!(extracted_plugin, expected_plugin);
}

#[test]
fn it_read_opcodes() {
    let amxmod_bin = simple_amx183();
    let amxmod_plugin = Plugin::from(amxmod_bin).unwrap();
    amxmod_plugin.opcodes().unwrap();
}

#[test]
fn it_read_natives() {
    let amxmod_bin = two_natives_amx183();
    let amxmod_plugin = Plugin::from(amxmod_bin).unwrap();
    let natives = amxmod_plugin.natives().unwrap();
    let expected_natives = [
        Native {
            name: b"native_one".to_vec(),
            address: 0,
        },
        Native {
            name: b"native_two".to_vec(),
            address: 0,
        },
    ];

    assert_eq!(natives, expected_natives);
}

#[test]
fn it_read_publics() {
    let amxmod_bin = two_natives_amx183();
    let amxmod_plugin = Plugin::from(amxmod_bin).unwrap();
    let publics = amxmod_plugin.publics().unwrap();
    let expected_publics = [Public {
        name: b"func".to_vec(),
        address: 8,
    }];

    assert_eq!(publics, expected_publics);
}

#[test]
fn it_read_constant_by_addr() {
    let amxmod_bin = cell_constants_amx183();
    let amx_plugin = Plugin::from(amxmod_bin).unwrap();
    let resp = amx_plugin.read_constant_auto_type(0);
    assert_eq!("simple plugin", String::from_utf8(resp.unwrap()).unwrap());
}

#[test]
fn little_endian_reads_put_the_first_byte_last() {
    let bytes = [0x01, 0x02, 0x03, 0x04, 0x05];
    assert_eq!(read_u8(&bytes, 4), Some(0x05));
    assert_eq!(read_u8(&bytes, 5), None);
    assert_eq!(read_u16(&bytes, 0), Some(0x0201));
    assert_eq!(read_u16(&bytes, 3), Some(0x0504));
    assert_eq!(read_u16(&bytes, 4), None);
    assert_eq!(read_u32(&bytes, 0), Some(0x04030201));
    assert_eq!(read_u32(&bytes, 1), Some(0x05040302));
    assert_eq!(read_u32(&bytes, 2), None);
    assert_eq!(read_u32(&bytes, usize::MAX), None);
    assert_eq!(read_u32(&[0xFF, 0xFF, 0xFF, 0xFF], 0), Some(4294967295));
}

#[test]
fn zero_terminated_strings_stop_at_the_first_zero() {
    let bytes = [b'a', b'b', 0, b'c', 0, b'd'];
    assert_eq!(read_string_zero(&bytes, 0), Ok(b"ab".to_vec()));
    assert_eq!(read_string_zero(&bytes, 1), Ok(b"b".to_vec()));
    assert_eq!(read_string_zero(&bytes, 2), Ok(vec![]));
    assert_eq!(read_string_zero(&bytes, 3), Ok(b"c".to_vec()));
    assert_eq!(read_string_zero(&bytes, 5), Err(Error::UnterminatedString));
    assert_eq!(read_string_zero(&bytes, 6), Err(Error::UnterminatedString));
    assert_eq!(read_string_zero(&bytes, 600), Err(Error::UnterminatedString));
}

#[test]
fn cell_strings_take_one_byte_of_every_four() {
    let bytes = [b'h', 1, 2, 3, b'i', 4, 5, 6, 0, 7, 8, 9, b'x', 0];
    assert_eq!(read_cell_string(&bytes, 0), Ok(b"hi".to_vec()));
    assert_eq!(read_cell_string(&bytes, 4), Ok(b"i".to_vec()));
    assert_eq!(read_cell_string(&bytes, 8), Ok(vec![]));
    assert_eq!(read_cell_string(&bytes, 1), Ok(vec![1, 4, 7]));
    assert_eq!(read_cell_string(&bytes, 2), Err(Error::UnterminatedString));
    assert_eq!(read_cell_string(&bytes, 12), Err(Error::UnterminatedString));
    assert_eq!(read_cell_string(&bytes, 14), Err(Error::UnterminatedString));
}

#[test]
fn a_module_header_is_fifty_six_bytes() {
    let bin = simple_amx183();
    let header = bin[..56].to_vec();
    let plugin = Plugin::from(header.clone()).unwrap();
    assert_eq!(plugin.cod, 116);
    assert_eq!(plugin.bin, header);
}

#[test]
fn a_short_header_names_the_field_that_is_cut() {
    let bin = simple_amx183();
    let cases = [
        (0, Field::Size),
        (3, Field::Size),
        (4, Field::Magic),
        (5, Field::Magic),
        (6, Field::FileVersion),
        (7, Field::AmxVersion),
        (8, Field::Flags),
        (9, Field::Flags),
        (10, Field::DefSize),
        (12, Field::Cod),
        (16, Field::Dat),
        (20, Field::Hea),
        (24, Field::Stp),
        (28, Field::Cip),
        (32, Field::Publics),
        (36, Field::Natives),
        (40, Field::Libraries),
        (44, Field::PubVars),
        (48, Field::Tags),
        (52, Field::NameTable),
        (55, Field::NameTable),
    ];
    for (length, field) in cases {
        assert_eq!(
            Plugin::from(bin[..length].to_vec()).err(),
            Some(Error::Truncated { field }),
            "a header of {} bytes",
            length
        );
    }
}

#[test]
fn a_header_is_refused_for_its_magic_and_versions() {
    let mut bin = simple_amx183();
    bin[4] = 0xE1;
    assert_eq!(
        Plugin::from(bin.clone()).err(),
        Some(Error::InvalidMagic { expected: 0xF1E0, actual: 0xF1E1 })
    );
    // The magic number is compared before the version is read.
    assert_eq!(
        Plugin::from(bin[..6].to_vec()).err(),
        Some(Error::InvalidMagic { expected: 0xF1E0, actual: 0xF1E1 })
    );

    let mut bin = simple_amx183();
    bin[6] = 7;
    assert_eq!(
        Plugin::from(bin).err(),
        Some(Error::InvalidFileVersion { expected: 8, actual: 7 })
    );

    let mut bin = simple_amx183();
    bin[7] = 9;
    assert_eq!(
        Plugin::try_from(bin).err(),
        Some(Error::InvalidAmxVersion { expected: 8, actual: 9 })
    );
}

#[test]
fn segments_are_the_bytes_between_their_bounds() {
    let bin = simple_amx183();
    let plugin = Plugin::from(bin.clone()).unwrap();
    assert_eq!(plugin.cod_slice().unwrap(), &bin[116..192]);
    assert_eq!(plugin.dat_slice().unwrap(), &bin[192..296]);
    assert_eq!(plugin.dat_size(), Ok(104));
    assert!(plugin.is_addr_in_dat(0));
    assert!(plugin.is_addr_in_dat(103));
    assert!(!plugin.is_addr_in_dat(104));
}

#[test]
fn segments_with_bounds_out_of_order_are_malformed() {
    let mut plugin = Plugin::from(simple_amx183()).unwrap();
    plugin.dat = 100;
    assert_eq!(plugin.cod_slice(), Err(Error::MalformedSegment));
    assert_eq!(plugin.opcodes(), Err(Error::MalformedSegment));
    plugin.dat = 297;
    assert_eq!(plugin.cod_slice(), Err(Error::MalformedSegment));
    assert_eq!(plugin.dat_size(), Err(Error::MalformedSegment));
    assert_eq!(plugin.dat_slice(), Err(Error::MalformedSegment));
    assert!(!plugin.is_addr_in_dat(0));
    assert_eq!(plugin.read_constant_auto_type(0), Err(Error::MalformedSegment));

    let mut plugin = Plugin::from(simple_amx183()).unwrap();
    plugin.hea = 300;
    assert_eq!(plugin.dat_size(), Ok(108));
    assert_eq!(plugin.dat_slice(), Err(Error::MalformedSegment));
    assert_eq!(plugin.read_constant_auto_type(0), Err(Error::MalformedSegment));
}

#[test]
fn constants_are_read_at_any_address_of_the_data_segment() {
    let plugin = Plugin::from(simple_amx183()).unwrap();
    assert_eq!(plugin.read_constant_auto_type(0), Ok(b"simple plugin".to_vec()));
    assert_eq!(plugin.read_constant_auto_type(28), Ok(b"plugin".to_vec()));
    assert_eq!(plugin.read_constant_auto_type(52), Ok(vec![]));
    assert_eq!(plugin.read_constant_auto_type(56), Ok(b"1.0".to_vec()));
    assert_eq!(plugin.read_constant_auto_type(72), Ok(b"author".to_vec()));
}

#[test]
fn constants_outside_the_data_segment_are_refused() {
    let plugin = Plugin::from(cell_constants_amx183()).unwrap();
    let size = plugin.dat_size().unwrap();
    assert_eq!(size, 56);
    assert_eq!(plugin.read_constant_auto_type(size), Err(Error::InvalidAddress));
    assert_eq!(plugin.read_constant_auto_type(size + 1), Err(Error::InvalidAddress));
    assert_eq!(plugin.read_constant_auto_type(usize::MAX), Err(Error::InvalidAddress));
    assert_eq!(plugin.read_constant_auto_type(size - 1), Ok(vec![]));
}

#[test]
fn a_constant_without_terminator_is_an_error() {
    let bin = build(&Image {
        publics: vec![],
        natives: vec![],
        tags: vec![],
        code: vec![120, 0],
        data: vec![u32::from(b'a'), u32::from(b'b')],
    });
    let plugin = Plugin::from(bin).unwrap();
    assert_eq!(plugin.read_constant_auto_type(0), Err(Error::UnterminatedString));
    // The second byte of a cell is no character, so the zero there ends nothing.
    assert_eq!(plugin.read_constant_auto_type(1), Ok(vec![]));
}

#[test]
fn symbols_come_in_the_order_of_their_records() {
    let plugin = Plugin::from(simple_amx183()).unwrap();
    assert_eq!(
        plugin.publics().unwrap(),
        vec![Public { name: b"plugin_init".to_vec(), address: 8 }]
    );
    assert_eq!(
        plugin.natives().unwrap(),
        vec![Native { name: b"register_plugin".to_vec(), address: 0 }]
    );
    let empty = Plugin::from(cell_constants_amx183()).unwrap();
    assert_eq!(empty.natives().unwrap(), vec![]);
}

#[test]
fn a_symbol_table_that_is_cut_short_names_the_field() {
    let mut plugin = Plugin::from(two_natives_amx183()).unwrap();
    // Two records and three bytes of a third.
    plugin.libraries = plugin.natives + 19;
    assert_eq!(
        plugin.natives(),
        Err(Error::Truncated { field: Field::SymbolAddress })
    );
    // Two records, and of a third the address only.
    plugin.libraries = plugin.natives + 20;
    assert_eq!(
        plugin.natives(),
        Err(Error::Truncated { field: Field::SymbolNameOffset })
    );
    plugin.libraries = plugin.natives + 23;
    assert_eq!(
        plugin.natives(),
        Err(Error::Truncated { field: Field::SymbolNameOffset })
    );
}

#[test]
fn a_symbol_table_that_ends_before_it_starts_is_malformed() {
    let mut plugin = Plugin::from(two_natives_amx183()).unwrap();
    plugin.libraries = plugin.natives - 1;
    assert_eq!(plugin.natives(), Err(Error::MalformedSegment));
    plugin.natives = plugin.publics - 8;
    assert_eq!(plugin.publics(), Err(Error::MalformedSegment));
    plugin.publics = usize::MAX;
    plugin.natives = 0;
    assert_eq!(plugin.publics(), Err(Error::MalformedSegment));
}

#[test]
fn a_symbol_table_that_runs_past_the_buffer_is_truncated() {
    // A header and the address of one public; its name offset lies past the end.
    let bin = two_natives_amx183()[..60].to_vec();
    let plugin = Plugin::from(bin).unwrap();
    assert_eq!((plugin.publics, plugin.natives, plugin.bin.len()), (56, 64, 60));
    assert_eq!(
        plugin.publics(),
        Err(Error::Truncated { field: Field::SymbolNameOffset })
    );
    // The table of natives starts past the end: not even an address is there.
    assert_eq!(
        plugin.natives(),
        Err(Error::Truncated { field: Field::SymbolAddress })
    );
    // The buffer ends inside the address of the public.
    let plugin = Plugin::from(two_natives_amx183()[..58].to_vec()).unwrap();
    assert_eq!(
        plugin.publics(),
        Err(Error::Truncated { field: Field::SymbolAddress })
    );

    // The records that the buffer holds are read, and the first that it cuts decides.
    let mut plugin = Plugin::from(two_natives_amx183()).unwrap();
    let length = plugin.bin.len();
    plugin.natives = length - 12;
    plugin.libraries = length + 100;
    plugin.bin[length - 8..length - 4].copy_from_slice(&((length - 1) as u32).to_le_bytes());
    assert_eq!(
        plugin.natives(),
        Err(Error::Truncated { field: Field::SymbolNameOffset })
    );
    plugin.natives = length - 8;
    plugin.bin[length - 4..].copy_from_slice(&((length - 1) as u32).to_le_bytes());
    assert_eq!(
        plugin.natives(),
        Err(Error::Truncated { field: Field::SymbolAddress })
    );
    plugin.libraries = usize::MAX;
    assert_eq!(
        plugin.natives(),
        Err(Error::Truncated { field: Field::SymbolAddress })
    );
}

#[test]
fn an_empty_symbol_table_has_no_record_to_read() {
    let mut plugin = Plugin::from(two_natives_amx183()).unwrap();
    let length = plugin.bin.len();
    plugin.natives = length;
    plugin.libraries = length;
    assert_eq!(plugin.natives(), Ok(vec![]));
    plugin.natives = length + 40;
    plugin.libraries = length + 40;
    assert_eq!(plugin.natives(), Ok(vec![]));
}

#[test]
fn a_symbol_name_without_terminator_is_an_error() {
    let mut bin = build(&Image {
        publics: vec![(8, "func")],
        natives: vec![(0, "native_one"), (0, "native_two")],
        tags: vec![],
        code: vec![120, 0, 46, 48],
        data: vec![0x01010101],
    });
    let length = bin.len() as u32;
    // The name of the second native now starts in the last cell, which holds no zero.
    bin[76..80].copy_from_slice(&(length - 4).to_le_bytes());
    let plugin = Plugin::from(bin.clone()).unwrap();
    assert_eq!(plugin.natives(), Err(Error::UnterminatedString));
    assert!(plugin.publics().is_ok());
    // A name that starts at the very end has no byte at all, and no terminator.
    bin[76..80].copy_from_slice(&length.to_le_bytes());
    let plugin = Plugin::from(bin).unwrap();
    assert_eq!(plugin.natives(), Err(Error::UnterminatedString));
}

#[test]
fn a_symbol_name_that_starts_past_the_buffer_is_truncated() {
    let mut bin = two_natives_amx183();
    let length = bin.len() as u32;
    bin[76..80].copy_from_slice(&(length + 1).to_le_bytes());
    let plugin = Plugin::from(bin.clone()).unwrap();
    assert_eq!(
        plugin.natives(),
        Err(Error::Truncated { field: Field::SymbolName })
    );
    assert!(plugin.publics().is_ok());
    bin[76..80].copy_from_slice(&u32::MAX.to_le_bytes());
    let plugin = Plugin::from(bin).unwrap();
    assert_eq!(
        plugin.natives(),
        Err(Error::Truncated { field: Field::SymbolName })
    );
}

#[test]
fn the_first_unreadable_symbol_decides() {
    let mut bin = build(&Image {
        publics: vec![(8, "func")],
        natives: vec![(0, "native_one"), (0, "native_two")],
        tags: vec![],
        code: vec![120, 0, 46, 48],
        data: vec![0x01010101],
    });
    let length = bin.len() as u32;
    // The first native has no terminator; the table is also cut in the second.
    bin[68..72].copy_from_slice(&(length - 2).to_le_bytes());
    let mut plugin = Plugin::from(bin).unwrap();
    plugin.libraries = plugin.natives + 12;
    assert_eq!(plugin.natives(), Err(Error::UnterminatedString));
    // It decides as well where the table runs past the buffer after it.
    plugin.libraries = plugin.bin.len() + 8;
    assert_eq!(plugin.natives(), Err(Error::UnterminatedString));
    // With the first native readable, the cut in the second shows.
    plugin.bin[68..72].copy_from_slice(&80u32.to_le_bytes());
    plugin.libraries = plugin.natives + 12;
    assert_eq!(
        plugin.natives(),
        Err(Error::Truncated { field: Field::SymbolNameOffset })
    );
}

#[test]
fn mnemonics_have_the_numbers_of_the_machine() {
    assert_eq!(OpcodeType::from_u32(0), Some(OpcodeType::OP_NONE));
    assert_eq!(OpcodeType::from_u32(1), Some(OpcodeType::OP_LOAD_PRI));
    assert_eq!(OpcodeType::from_u32(39), Some(OpcodeType::OP_PUSH_C));
    assert_eq!(OpcodeType::from_u32(46), Some(OpcodeType::OP_PROC));
    assert_eq!(OpcodeType::from_u32(48), Some(OpcodeType::OP_RETN));
    assert_eq!(OpcodeType::from_u32(49), Some(OpcodeType::OP_CALL));
    assert_eq!(OpcodeType::from_u32(120), Some(OpcodeType::OP_HALT));
    assert_eq!(OpcodeType::from_u32(123), Some(OpcodeType::OP_SYSREQ_C));
    assert_eq!(OpcodeType::from_u32(129), Some(OpcodeType::OP_SWITCH));
    assert_eq!(OpcodeType::from_u32(130), Some(OpcodeType::OP_CASETBL));
    assert_eq!(OpcodeType::from_u32(137), Some(OpcodeType::OP_BREAK));
    assert_eq!(OpcodeType::from_u32(138), None);
    assert_eq!(OpcodeType::from_u32(u32::MAX), None);
}

#[test]
fn every_number_below_the_count_is_a_mnemonic_of_its_own() {
    let mut seen: Vec<OpcodeType> = Vec::new();
    for number in 0..138 {
        let code = OpcodeType::from_u32(number).unwrap();
        assert!(!seen.contains(&code));
        assert_ne!(code, OpcodeType::OP_CASE);
        assert!(!code.mnemonic().is_empty());
        seen.push(code);
    }
}

#[test]
fn layouts_and_names_of_some_mnemonics() {
    assert_eq!(OpcodeType::OP_PROC.layout(), Layout::Plain);
    assert_eq!(OpcodeType::OP_LOAD_I.layout(), Layout::Plain);
    assert_eq!(OpcodeType::OP_PUSH_C.layout(), Layout::Cell);
    assert_eq!(OpcodeType::OP_LODB_I.layout(), Layout::Cell);
    assert_eq!(OpcodeType::OP_LINE.layout(), Layout::Pair);
    assert_eq!(OpcodeType::OP_SRANGE.layout(), Layout::Pair);
    assert_eq!(OpcodeType::OP_FILE.layout(), Layout::Blob);
    assert_eq!(OpcodeType::OP_SYMBOL.layout(), Layout::Blob);
    assert_eq!(OpcodeType::OP_CASETBL.layout(), Layout::CaseTable);
    assert_eq!(OpcodeType::OP_CASE.layout(), Layout::Plain);
    assert_eq!(OpcodeType::OP_PROC.mnemonic(), "proc");
    assert_eq!(OpcodeType::OP_LOAD_S_PRI.mnemonic(), "load.s.pri");
    assert_eq!(OpcodeType::OP_SYSREQ_C.mnemonic(), "sysreq.c");
    assert_eq!(OpcodeType::OP_CASE.mnemonic(), "case");
}

#[test]
fn the_instructions_of_the_simple_plugin() {
    let plugin = Plugin::from(simple_amx183()).unwrap();
    let expected = vec![
        plain(OpcodeType::OP_PROC, 8),
        plain(OpcodeType::OP_BREAK, 12),
        one(OpcodeType::OP_PUSH_C, 16, 56),
        one(OpcodeType::OP_PUSH_C, 24, 72),
        one(OpcodeType::OP_PUSH_C, 32, 0),
        one(OpcodeType::OP_PUSH_C, 40, 12),
        one(OpcodeType::OP_SYSREQ_C, 48, 0),
        one(OpcodeType::OP_STACK, 56, 16),
        plain(OpcodeType::OP_BREAK, 64),
        plain(OpcodeType::OP_ZERO_PRI, 68),
        plain(OpcodeType::OP_RETN, 72),
    ];
    assert_eq!(plugin.opcodes(), Ok(expected));
}

#[test]
fn decoding_one_instruction_gives_the_place_of_the_next() {
    let code = code_bytes(&[120, 0, 46, 39, 7, 125, 3, 4]);
    assert_eq!(
        Opcode::read_from(&code, 8),
        Ok(Some((vec![plain(OpcodeType::OP_PROC, 8)], 12)))
    );
    assert_eq!(
        Opcode::read_from(&code, 12),
        Ok(Some((vec![one(OpcodeType::OP_PUSH_C, 12, 7)], 20)))
    );
    assert_eq!(
        Opcode::read_from(&code, 20),
        Ok(Some((vec![two(OpcodeType::OP_LINE, 20, 3, 4)], 32)))
    );
    assert_eq!(Opcode::read_from(&code, 32), Ok(None));
    assert_eq!(Opcode::read_from(&code, 33), Ok(None));
    assert_eq!(Opcode::read_from(&code, usize::MAX), Ok(None));
}

#[test]
fn a_case_table_gives_one_instruction_for_each_entry() {
    let code = code_bytes(&[120, 0, 130, 2, 100, 10, 200, 20, 300, 48]);
    assert_eq!(
        Opcode::read_from(&code, 8),
        Ok(Some((
            vec![
                two(OpcodeType::OP_CASETBL, 8, 2, 100),
                two(OpcodeType::OP_CASE, 20, 10, 200),
                two(OpcodeType::OP_CASE, 28, 20, 300),
            ],
            36
        )))
    );
    assert_eq!(
        Opcode::read_all(&code),
        Ok(vec![
            two(OpcodeType::OP_CASETBL, 8, 2, 100),
            two(OpcodeType::OP_CASE, 20, 10, 200),
            two(OpcodeType::OP_CASE, 28, 20, 300),
            plain(OpcodeType::OP_RETN, 36),
        ])
    );
    let empty = code_bytes(&[120, 0, 130, 0, 100]);
    assert_eq!(
        Opcode::read_all(&empty),
        Ok(vec![two(OpcodeType::OP_CASETBL, 8, 0, 100)])
    );
}

#[test]
fn debugging_text_is_skipped() {
    let mut code = code_bytes(&[120, 0, 124, 8, 0x6C6C6568, 0x0000006F, 48]);
    assert_eq!(
        Opcode::read_all(&code),
        Ok(vec![one(OpcodeType::OP_FILE, 8, 8), plain(OpcodeType::OP_RETN, 24)])
    );
    // The text may end with the segment, but not after it.
    code.truncate(24);
    assert_eq!(Opcode::read_all(&code), Ok(vec![one(OpcodeType::OP_FILE, 8, 8)]));
    code.truncate(23);
    assert_eq!(
        Opcode::read_all(&code),
        Err(Error::Truncated { field: Field::Operand })
    );
}

#[test]
fn a_code_segment_needs_its_reserved_cells() {
    assert_eq!(
        Opcode::read_all(&[]),
        Err(Error::Truncated { field: Field::Prolog })
    );
    assert_eq!(
        Opcode::read_all(&code_bytes(&[120, 0])[..7]),
        Err(Error::Truncated { field: Field::Prolog })
    );
    assert_eq!(Opcode::read_all(&code_bytes(&[120, 0])), Ok(vec![]));
    // What the reserved cells hold is not looked at.
    assert_eq!(
        Opcode::read_all(&code_bytes(&[9999, 9999, 46])),
        Ok(vec![plain(OpcodeType::OP_PROC, 8)])
    );
}

#[test]
fn an_unknown_mnemonic_ends_the_decoding() {
    assert_eq!(
        Opcode::read_all(&code_bytes(&[120, 0, 46, 138, 48])),
        Err(Error::UnknownOpcode { code: 138 })
    );
    assert_eq!(
        Opcode::read_all(&code_bytes(&[120, 0, 46, 0xFFFF_FFFF])),
        Err(Error::UnknownOpcode { code: 0xFFFF_FFFF })
    );
}

#[test]
fn an_instruction_that_is_cut_short_ends_the_decoding() {
    let code = code_bytes(&[120, 0, 46, 39, 7]);
    assert_eq!(
        Opcode::read_all(&code[..13]),
        Err(Error::Truncated { field: Field::Mnemonic })
    );
    assert_eq!(
        Opcode::read_all(&code[..16]),
        Err(Error::Truncated { field: Field::Operand })
    );
    assert_eq!(
        Opcode::read_all(&code[..19]),
        Err(Error::Truncated { field: Field::Operand })
    );
    assert!(Opcode::read_all(&code).is_ok());
    // A pair needs both of its cells.
    assert_eq!(
        Opcode::read_all(&code_bytes(&[120, 0, 125, 3])),
        Err(Error::Truncated { field: Field::Operand })
    );
    // A case table needs its head and all of its entries.
    assert_eq!(
        Opcode::read_all(&code_bytes(&[120, 0, 130, 2])),
        Err(Error::Truncated { field: Field::Operand })
    );
    assert_eq!(
        Opcode::read_all(&code_bytes(&[120, 0, 130, 2, 100, 10, 200, 20])),
        Err(Error::Truncated { field: Field::Operand })
    );
    assert_eq!(
        Opcode::read_all(&code_bytes(&[120, 0, 130, 0xFFFF_FFFF, 100, 10, 200])),
        Err(Error::Truncated { field: Field::Operand })
    );
    assert_eq!(
        Opcode::read_all(&code_bytes(&[120, 0, 124, 0xFFFF_FFFF, 0])),
        Err(Error::Truncated { field: Field::Operand })
    );
}

#[test]
fn every_error_has_a_message() {
    let errors = [
        (Error::Truncated { field: Field::Size }, "EOF on amx size"),
        (Error::Truncated { field: Field::Magic }, "EOF on amx magic"),
        (Error::Truncated { field: Field::NameTable }, "EOF on amx nametable"),
        (Error::Truncated { field: Field::SectionOffset }, "Section offset EOF"),
        (Error::Truncated { field: Field::SymbolName }, "EOF on symbol name"),
        (Error::InvalidMagic { expected: 1, actual: 2 }, "Invalid file magic"),
        (Error::IncompatibleVersion { expected: 1, actual: 2 }, "Incompatible file version"),
        (Error::InvalidFileVersion { expected: 8, actual: 2 }, "Invalid file version"),
        (Error::InvalidAmxVersion { expected: 8, actual: 2 }, "Invalid amx version"),
        (Error::TooManySections, "More than two sections (malicious file?)"),
        (Error::NoSections, "Zero sections amount"),
        (Error::MalformedSegment, "Malformed segment"),
        (Error::InvalidAddress, "Invalid constant addr"),
        (Error::UnterminatedString, "Unterminated string"),
        (Error::UnknownOpcode { code: 200 }, "Unknown opcode"),
        (Error::MalformedBytecode, "Function end outside of a function"),
        (Error::InvalidName, "Name is not valid UTF-8"),
    ];
    for (error, message) in errors {
        assert_eq!(error.message(), message);
    }
}
