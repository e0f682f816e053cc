use jump_jet::leb::ReadError;
use jump_jet::parser::ParseError;
use jump_jet::parser::Violation;
use jump_jet::provider::parse_expression;
use jump_jet::provider::read_leb;
use jump_jet::provider::read_leb_signed;
use jump_jet::provider::BinaryProvider;
use jump_jet::provider::ProgramProvider;
use jump_jet::provider::Section;
use jump_jet::provider::SectionDump;
use jump_jet::provider::TableRecord;

fn provider(sections: &[u8]) -> BinaryProvider {
    let mut bytes = vec![0x00, 0x61, 0x73, 0x6d, 0x01, 0x00, 0x00, 0x00];
    bytes.extend_from_slice(sections);
    BinaryProvider::new(bytes)
}

#[test]
fn header_only() {
    let dump = provider(&[]).provide().unwrap();
    assert_eq!(dump.magic_number, 0x6d73_6100);
    assert_eq!(dump.version_number, 1);
    assert!(dump.sections.is_empty());
}

#[test]
fn header_is_not_checked_but_must_be_there() {
    let dump = BinaryProvider::new(vec![1, 2, 3, 4, 5, 6, 7, 8]).provide().unwrap();
    assert_eq!(dump.magic_number, 0x0403_0201);
    assert_eq!(dump.version_number, 0x0807_0605);
    assert_eq!(BinaryProvider::new(vec![1, 2, 3]).provide().err(), Some(ParseError::Io(ReadError::UnexpectedEof)));
}

#[test]
fn types_section_listing() {
    let dump = provider(&[1, 7, 1, 0x60, 2, 0x7f, 0x7e, 1, 0x7f]).provide().unwrap();
    match &dump.sections[0] {
        SectionDump::Types(t) => {
            assert_eq!(t.section, Section { id: 1, len: 7 });
            assert_eq!(t.count, 1);
            assert_eq!(t.entries[0].form, 0x60);
            assert_eq!(t.entries[0].param_count, 2);
            assert_eq!(t.entries[0].params, vec![0x7f, 0x7e]);
            assert_eq!(t.entries[0].return_count, 1);
            assert_eq!(t.entries[0].return_type, vec![0x7f]);
        },
        _ => panic!("expected a types section"),
    }
    assert_eq!(dump.sections.len(), 1);
}

#[test]
fn types_section_needs_func_form() {
    assert_eq!(provider(&[1, 3, 1, 0x61, 0]).provide().err(), Some(ParseError::InvalidTypeForm));
}

#[test]
fn functions_and_tables() {
    let dump = provider(&[3, 3, 2, 0, 1, 4, 5, 1, 0x70, 1, 1, 4]).provide().unwrap();
    assert_eq!(dump.sections[0], SectionDump::Functions(Section { id: 3, len: 3 }, vec![0, 1]));
    assert_eq!(
        dump.sections[1],
        SectionDump::Table(Section { id: 4, len: 5 }, vec![TableRecord { elem_type: 0x70, flag: 1, initial: 1, maximum: Some(4) }])
    );
    assert_eq!(
        provider(&[4, 4, 1, 0x6f, 0, 1]).provide().err(),
        Some(ParseError::CustomError(Violation::TableNotAnyfunc))
    );
}

#[test]
fn exports_listing() {
    let dump = provider(&[7, 7, 1, 3, b'a', b'd', b'd', 0, 2]).provide().unwrap();
    match &dump.sections[0] {
        SectionDump::Exports(h, records) => {
            assert_eq!(*h, Section { id: 7, len: 7 });
            assert_eq!(records[0].field, "add");
            assert_eq!(records[0].external_type, 0);
            assert_eq!(records[0].index, 2);
        },
        _ => panic!("expected an exports section"),
    }
    assert_eq!(provider(&[7, 5, 1, 1, 0xff, 0, 0]).provide().err(), Some(ParseError::Io(ReadError::InvalidData)));
}

#[test]
fn elements_and_code_listing() {
    let dump = provider(&[9, 7, 1, 0, 0x41, 0, 0x0b, 1, 3, 10, 6, 1, 4, 1, 1, 0x7f, 0x0b]).provide().unwrap();
    match &dump.sections[0] {
        SectionDump::Elements(_, records) => {
            assert_eq!(records[0].index, 0);
            assert_eq!(records[0].offset, vec![0x41, 0, 0x0b]);
            assert_eq!(records[0].function_indices, vec![3]);
        },
        _ => panic!("expected an elements section"),
    }
    match &dump.sections[1] {
        SectionDump::Code(_, records) => {
            assert_eq!(records[0].body_size, 4);
            assert_eq!(records[0].locals, vec![(1, 0x7f)]);
            assert_eq!(records[0].code, vec![0x0b]);
        },
        _ => panic!("expected a code section"),
    }
}

#[test]
fn sections_without_listing_read_nothing() {
    // The imports section's length is read, then the next byte is taken as the
    // next section's id.
    let dump = provider(&[2, 0, 5, 9, 11, 1]).provide().unwrap();
    assert_eq!(
        dump.sections,
        vec![
            SectionDump::Imports(Section { id: 2, len: 0 }),
            SectionDump::Memory(Section { id: 5, len: 9 }),
            SectionDump::Data(Section { id: 11, len: 1 }),
        ]
    );
}

#[test]
fn unknown_section_id_stops_the_listing() {
    assert_eq!(provider(&[12, 0]).provide().err(), Some(ParseError::UnknownSectionId(12)));
    assert_eq!(provider(&[2]).provide().err(), Some(ParseError::Io(ReadError::UnexpectedEof)));
}

#[test]
fn integers_without_budget() {
    assert_eq!(read_leb(&[0xE5, 0x8E, 0x26], 0), Ok((624485, 3)));
    assert_eq!(read_leb_signed(&[0x7f], 0), Ok((127, 1)));
    let long = [0x80u8, 0x80, 0x80, 0x80, 0x80, 0x80, 0x80, 0x80, 0x80, 0x80, 0x01];
    assert_eq!(read_leb(&long, 0), Err(ParseError::Io(ReadError::NumTooBig)));
    assert_eq!(read_leb(&long[..10], 0), Err(ParseError::Io(ReadError::UnexpectedEof)));
    assert_eq!(parse_expression(&[1, 0x0b, 2], 0), Ok((vec![1, 0x0b], 2)));
}
