use amx_decompiler::amxmodx::{File as AmxmodxFile, Section};
use amx_decompiler::error::{Error, Field};

fn section_record(cellsize: u8, disksize: u32, imagesize: u32, memsize: u32, offset: u32) -> Vec<u8> {
    let mut record = vec![cellsize];
    record.extend_from_slice(&disksize.to_le_bytes());
    record.extend_from_slice(&imagesize.to_le_bytes());
    record.extend_from_slice(&memsize.to_le_bytes());
    record.extend_from_slice(&offset.to_le_bytes());
    record
}

/// A container of format 1.83 with one packed module of four-byte cells.
fn simple_amxx183() -> Vec<u8> {
    let mut bin = vec![88, 88, 77, 65, 0, 3, 1];
    bin.extend(section_record(4, 161, 288, 16672, 24));
    bin.extend(std::iter::repeat(0xAB).take(161));
    bin
}

/// A container of format 1.81 with two packed modules, of four-byte and of
/// eight-byte cells.
fn simple_amxx181() -> Vec<u8> {
    let mut bin = vec![88, 88, 77, 65, 0, 3, 2];
    bin.extend(section_record(4, 161, 288, 16672, 41));
    bin.extend(section_record(8, 177, 488, 33256, 202));
    bin.extend(std::iter::repeat(0xAB).take(161));
    bin.extend(std::iter::repeat(0xCD).take(177));
    bin
}

#[test]
fn it_load_file_when_binary_is_correct() {
    let amxmodx_bin = simple_amxx183();
    assert!(AmxmodxFile::from(&amxmodx_bin).is_ok());
}

#[test]
fn it_return_multiple_sections() {
    let amxmodx_bin = simple_amxx181();
    let amxmodx_file = AmxmodxFile::from(&amxmodx_bin).unwrap();
    let extracted_sections = amxmodx_file.sections().unwrap();
    let expected_sections = [
        Section {
            cellsize: 4,
            disksize: 161,
            imagesize: 288,
            memsize: 16672,
            offset: 41,
        },
        Section {
            cellsize: 8,
            disksize: 177,
            imagesize: 488,
            memsize: 33256,
            offset: 202,
        },
    ];
    assert_eq!(extracted_sections, expected_sections);
}

#[test]
fn it_err_on_empty_file() {
    let amxmodx_bin = vec![];
    let result = AmxmodxFile::from(&amxmodx_bin);
    assert_eq!(result.err().unwrap().message(), "Magic EOF");
}

#[test]
fn it_err_on_magic_eof() {
    let amxmodx_bin = vec![0, 0, 0];
    let result = AmxmodxFile::from(&amxmodx_bin);
    assert_eq!(result.err().unwrap().message(), "Magic EOF");
}

#[test]
fn it_err_on_invalid_magic() {
    let amxmodx_bin = vec![0, 0, 0, 0];
    let result = AmxmodxFile::from(&amxmodx_bin);
    assert_eq!(result.err().unwrap().message(), "Invalid file magic");
}

#[test]
fn it_err_on_version_eof() {
    // Correct magic, incorrect version
    let amxmodx_bin = vec![88, 88, 77, 65, 0];
    let result = AmxmodxFile::from(&amxmodx_bin);
    assert_eq!(result.err().unwrap().message(), "Version EOF");
}

#[test]
fn it_err_on_incompatible_version() {
    // Correct magic, incorrect version
    let amxmodx_bin = vec![88, 88, 77, 65, 0, 4];
    let result = AmxmodxFile::from(&amxmodx_bin);
    assert_eq!(result.err().unwrap().message(), "Incompatible file version");
}

#[test]
fn it_err_on_sections_eof() {
    // Correct magic, correct version, no section byte
    let amxmodx_bin = vec![88, 88, 77, 65, 0, 3];
    let result = AmxmodxFile::from(&amxmodx_bin);
    assert_eq!(result.err().unwrap().message(), "Sections EOF");
}

#[test]
fn it_err_on_zero_sections() {
    // Correct magic, correct version, zero sections
    let amxmodx_bin = vec![88, 88, 77, 65, 0, 3, 0];
    let result = AmxmodxFile::from(&amxmodx_bin);
    assert_eq!(result.err().unwrap().message(), "Zero sections amount");
}

#[test]
fn it_err_on_more_than_two_sections() {
    // Correct magic, correct version, 3 sections
    let amxmodx_bin = vec![88, 88, 77, 65, 0, 3, 3];
    let result = AmxmodxFile::from(&amxmodx_bin);
    assert_eq!(
        result.err().unwrap().message(),
        "More than two sections (malicious file?)"
    );
}

#[test]
fn it_err_on_sections_parsing_eof() {
    // Correct magic, correct version, 2 sections, zero section headers
    let amxmodx_bin = vec![88, 88, 77, 65, 0, 3, 2];
    let result = AmxmodxFile::from(&amxmodx_bin).unwrap().sections();
    assert!(result.is_err());
}

#[test]
fn container_errors_carry_what_was_read() {
    assert_eq!(
        AmxmodxFile::from(&[0, 0, 0, 0]).err(),
        Some(Error::InvalidMagic { expected: 0x414D5858, actual: 0 })
    );
    assert_eq!(
        AmxmodxFile::from(&[88, 88, 77, 65, 0, 4]).err(),
        Some(Error::IncompatibleVersion { expected: 768, actual: 1024 })
    );
    assert_eq!(
        AmxmodxFile::from(&[0]).err(),
        Some(Error::Truncated { field: Field::ContainerMagic })
    );
    assert_eq!(AmxmodxFile::from(&[88, 88, 77, 65, 0, 3, 3]).err(), Some(Error::TooManySections));
    assert_eq!(AmxmodxFile::from(&[88, 88, 77, 65, 0, 3, 0]).err(), Some(Error::NoSections));
}

#[test]
fn container_header_fields_are_kept() {
    let bin = [88, 88, 77, 65, 0, 3, 2];
    let file = AmxmodxFile::from(&bin).unwrap();
    assert_eq!(file.magic, 0x414D5858);
    assert_eq!(file.version, 768);
    assert_eq!(file.sections, 2);
    assert_eq!(file.bin, &bin[..]);
}

#[test]
fn a_section_record_is_seventeen_bytes() {
    let record = section_record(4, 161, 288, 16672, 41);
    assert_eq!(record.len(), Section::SIZE);
    assert_eq!(
        Section::from(&record),
        Ok(Section { cellsize: 4, disksize: 161, imagesize: 288, memsize: 16672, offset: 41 })
    );
    let cases = [
        (0, Field::SectionCellSize),
        (1, Field::SectionDiskSize),
        (4, Field::SectionDiskSize),
        (5, Field::SectionImageSize),
        (9, Field::SectionMemSize),
        (13, Field::SectionOffset),
        (16, Field::SectionOffset),
    ];
    for (length, field) in cases {
        assert_eq!(Section::from(&record[..length]), Err(Error::Truncated { field }));
    }
}

#[test]
fn sections_are_read_one_after_the_other() {
    let bin = simple_amxx181();
    let file = AmxmodxFile::from(&bin).unwrap();
    assert_eq!(file.section(0).unwrap().offset, 41);
    assert_eq!(file.section(1).unwrap().offset, 202);
    // The second record is cut short: the first is not returned either.
    let file = AmxmodxFile::from(&bin[..30]).unwrap();
    assert!(file.section(0).is_ok());
    assert_eq!(
        file.sections(),
        Err(Error::Truncated { field: Field::SectionImageSize })
    );
    let file = AmxmodxFile::from(&bin[..24]).unwrap();
    assert_eq!(
        file.sections(),
        Err(Error::Truncated { field: Field::SectionCellSize })
    );
    let single = simple_amxx183();
    assert_eq!(AmxmodxFile::from(&single).unwrap().sections().unwrap().len(), 1);
}

#[test]
fn the_packed_bytes_of_a_section_lie_inside_the_container() {
    let bin = simple_amxx181();
    let sections = AmxmodxFile::from(&bin).unwrap().sections().unwrap();
    assert_eq!(sections[0].packed(&bin).unwrap(), &bin[41..202]);
    assert_eq!(sections[1].packed(&bin).unwrap(), &bin[202..379]);
    assert_eq!(sections[1].packed(&bin[..378]), Err(Error::MalformedSegment));
    let far = Section { cellsize: 4, disksize: 1, imagesize: 0, memsize: 0, offset: 4294967295 };
    assert_eq!(far.packed(&bin), Err(Error::MalformedSegment));
    let wide = Section { cellsize: 4, disksize: 4294967295, imagesize: 0, memsize: 0, offset: 41 };
    assert_eq!(wide.packed(&bin), Err(Error::MalformedSegment));
    let empty = Section { cellsize: 4, disksize: 0, imagesize: 0, memsize: 0, offset: 379 };
    assert_eq!(empty.packed(&bin).unwrap().len(), 0);
}
