use corpus_assembly::docx::read;
use corpus_assembly::docx::read_body;
use corpus_assembly::docx::read_xml;
use corpus_assembly::docx::ExtractionError;
use std::io::Cursor;
use std::io::Write;
use zip::write::FileOptions;
use zip::ZipWriter;

fn container(entries: &[(&str, &[u8])]) -> Vec<u8> {
    let mut writer = ZipWriter::new(Cursor::new(Vec::new()));
    for (name, content) in entries {
        writer.start_file(*name, FileOptions::default()).unwrap();
        writer.write_all(content).unwrap();
    }
    writer.finish().unwrap().into_inner()
}

fn word_document(body: &str) -> Vec<u8> {
    container(&[
        ("[Content_Types].xml", b"<Types/>"),
        ("word/document.xml", body.as_bytes()),
    ])
}

fn fixture(filename: &str) -> Vec<u8> {
    match filename {
        "test.docx" => word_document(
            "<?xml version=\"1.0\" encoding=\"UTF-8\"?>\
            <w:document><w:body><w:p>\
            <w:r><w:t>Hello</w:t></w:r><w:r><w:t>, world!</w:t></w:r>\
            </w:p></w:body></w:document>",
        ),
        other => panic!("no fixture named {}", other),
    }
}

#[test]
fn test_read_word() {
    let filename = "test.docx";
    let container = fixture(filename);
    let content = read(&container).unwrap();
    assert_eq!(content, "Hello, world!");
}

#[test]
fn adjacent_runs_are_joined_without_separator() {
    let bytes = word_document("<w:t>Hello</w:t><w:t>, world!</w:t>");
    assert_eq!(read(&bytes).unwrap(), "Hello, world!");
}

#[test]
fn full_width_spaces_become_ordinary_spaces() {
    let bytes = word_document("<doc><w:t>a\u{3000}b</w:t><w:t>\u{3000}\u{3000}c</w:t></doc>");
    assert_eq!(read(&bytes).unwrap(), "a b  c");
}

#[test]
fn missing_body_entry_is_entry_not_found() {
    let bytes = container(&[("word/styles.xml", b"<w:t>ignored</w:t>")]);
    assert!(matches!(read(&bytes), Err(ExtractionError::EntryNotFound)));
}

#[test]
fn bytes_that_are_no_archive_are_unreadable() {
    assert!(matches!(read(b"plain text, no archive"), Err(ExtractionError::ContainerUnreadable)));
    assert!(matches!(read(b""), Err(ExtractionError::ContainerUnreadable)));
}

#[test]
fn body_that_is_not_utf8_is_a_decode_error() {
    let bytes = container(&[("word/document.xml", &[0x3c, 0x61, 0x3e, 0xff, 0xfe])]);
    assert!(matches!(read(&bytes), Err(ExtractionError::Decode)));
    assert!(matches!(read_body(vec![0xc3, 0x28]), Err(ExtractionError::Decode)));
}

#[test]
fn mismatched_end_tag_is_a_parse_error_with_position() {
    match read_xml("<a><w:t>kept</w:t></b>") {
        Err(ExtractionError::Parse { byte_offset, detail }) => {
            assert_eq!(byte_offset, 20);
            assert!(detail.contains("EndEventMismatch"));
        }
        other => panic!("unexpected outcome: {:?}", other.is_ok()),
    }
}

#[test]
fn unclosed_run_is_a_parse_error_and_gives_no_partial_text() {
    let outcome = read_xml("<doc><w:t>first</w:t><w:t>second");
    assert!(matches!(outcome, Err(ExtractionError::Parse { .. })));
}

#[test]
fn run_without_text_gives_nothing_and_reading_goes_on() {
    assert_eq!(read_xml("<d><w:t><w:br/></w:t><w:t>x</w:t></d>").unwrap(), "x");
    assert_eq!(read_xml("<d><w:t></w:t><w:t>y</w:t></d>").unwrap(), "y");
}

#[test]
fn markup_and_other_elements_are_discarded() {
    let xml = "<w:p><w:pPr><w:jc w:val=\"left\"/></w:pPr>noise<w:r><w:t xml:space=\"preserve\">a &amp; b</w:t></w:r><!-- c --></w:p>";
    assert_eq!(read_xml(xml).unwrap(), "a & b");
}

#[test]
fn empty_body_has_empty_text() {
    assert_eq!(read_xml("").unwrap(), "");
    assert_eq!(read_body(Vec::new()).unwrap(), "");
}
