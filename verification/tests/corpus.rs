use corpus_assembly::corpus::assemble;
use corpus_assembly::corpus::Corpus;
use corpus_assembly::corpus::Failure;
use corpus_assembly::corpus::Reading;
use corpus_assembly::corpus::TextBlock;
use corpus_assembly::corpus::WalkItem;
use corpus_assembly::docx::ExtractionError;
use std::io::Cursor;
use std::io::Write;
use zip::write::FileOptions;
use zip::ZipWriter;

fn file(path: &str, content: &str) -> WalkItem {
    WalkItem::File { path: path.to_string(), content: Reading::Text(content.to_string()) }
}

fn unreadable(path: &str) -> WalkItem {
    WalkItem::File { path: path.to_string(), content: Reading::NotUtf8 }
}

fn assemble_all(items: Vec<WalkItem>) -> Corpus {
    assemble(items).unwrap()
}

fn archive(entries: &[(&str, &str)]) -> Vec<u8> {
    let mut writer = ZipWriter::new(Cursor::new(Vec::new()));
    for (name, content) in entries {
        writer.start_file(*name, FileOptions::default()).unwrap();
        writer.write_all(content.as_bytes()).unwrap();
    }
    writer.finish().unwrap().into_inner()
}

fn texts(corpus: &Corpus) -> Vec<(String, String, String)> {
    corpus
        .blocks()
        .iter()
        .map(|b| (b.path.clone(), b.tag.clone(), b.text.clone()))
        .collect()
}

#[test]
fn new_corpus_is_empty() {
    let corpus = Corpus::new();
    assert_eq!(corpus.block_count(), 0);
    assert_eq!(corpus.error_count(), 0);
    assert_eq!(corpus.total_bytes(), 0);
    assert!(corpus.blocks().is_empty());
    assert!(corpus.failures().is_empty());
}

#[test]
fn blocks_stand_in_walk_order_with_their_tags() {
    let corpus = assemble_all(vec![
        file("b/two.rs", "fn main() {}"),
        file("a/one.md", "# one"),
        file("c/three.toml", "[x]"),
    ]);
    assert_eq!(
        texts(&corpus),
        vec![
            ("b/two.rs".to_string(), "rs".to_string(), "fn main() {}".to_string()),
            ("a/one.md".to_string(), "md".to_string(), "# one".to_string()),
            ("c/three.toml".to_string(), "toml".to_string(), "[x]".to_string()),
        ]
    );
    assert_eq!(corpus.error_count(), 0);
}

#[test]
fn files_that_are_not_eligible_leave_no_trace() {
    let corpus = assemble_all(vec![
        file("photo.png", "not text"),
        unreadable("blob.bin"),
        file("Makefile", "all:"),
        file(".env", "A=1"),
        file("kept.txt", "kept"),
    ]);
    assert_eq!(corpus.block_count(), 1);
    assert_eq!(corpus.blocks()[0].path, "kept.txt");
    assert_eq!(corpus.error_count(), 0);
}

#[test]
fn one_unreadable_file_among_ten_gives_nine_blocks_and_one_error() {
    let mut items = Vec::new();
    for i in 0..10 {
        let path = format!("src/file{}.rs", i);
        if i == 4 {
            items.push(unreadable(&path));
        } else {
            items.push(file(&path, "x"));
        }
    }
    let corpus = assemble_all(items);
    assert_eq!(corpus.block_count(), 9);
    assert_eq!(corpus.error_count(), 1);
    assert!(matches!(&corpus.failures()[0], Failure::Decode { path } if path == "src/file4.rs"));
    let paths: Vec<String> = corpus.blocks().iter().map(|b| b.path.clone()).collect();
    let expected: Vec<String> =
        (0..10).filter(|i| *i != 4).map(|i| format!("src/file{}.rs", i)).collect();
    assert_eq!(paths, expected);
}

#[test]
fn walk_errors_are_recorded_and_do_not_stop_the_assembly() {
    let corpus = assemble_all(vec![
        file("a.md", "a"),
        WalkItem::Failed { detail: "permission denied".to_string() },
        file("b.md", "b"),
    ]);
    assert_eq!(corpus.block_count(), 2);
    assert_eq!(corpus.error_count(), 1);
    assert!(matches!(&corpus.failures()[0], Failure::Walk { detail } if detail == "permission denied"));
}

#[test]
fn document_without_body_entry_is_left_out_and_others_are_kept() {
    let good = archive(&[("word/document.xml", "<w:t>Hello</w:t><w:t>, world!</w:t>")]);
    let bad = archive(&[("word/other.xml", "<w:t>lost</w:t>")]);
    let corpus = assemble_all(vec![
        file("first.txt", "first"),
        WalkItem::Document { path: "bad.docx".to_string(), container: bad },
        WalkItem::Document { path: "good.docx".to_string(), container: good },
        file("last.txt", "last"),
    ]);
    assert_eq!(
        texts(&corpus),
        vec![
            ("first.txt".to_string(), "txt".to_string(), "first".to_string()),
            ("good.docx".to_string(), "docx".to_string(), "Hello, world!".to_string()),
            ("last.txt".to_string(), "txt".to_string(), "last".to_string()),
        ]
    );
    assert_eq!(corpus.error_count(), 1);
    assert!(matches!(
        &corpus.failures()[0],
        Failure::Extraction { path, error: ExtractionError::EntryNotFound } if path == "bad.docx"
    ));
}

#[test]
fn each_extraction_error_is_recorded_for_its_file() {
    let mut corpus = Corpus::new();
    corpus.add_document("a.docx".to_string(), b"no archive");
    corpus.add_document("b.docx".to_string(), &archive(&[("x", "y")]));
    corpus.add_extracted("c.docx".to_string(), Err(ExtractionError::Decode));
    corpus.add_document("d.docx".to_string(), &archive(&[("word/document.xml", "<a></b>")]));
    assert_eq!(corpus.block_count(), 0);
    assert_eq!(corpus.error_count(), 4);
    let failures = corpus.failures();
    assert!(matches!(&failures[0], Failure::Extraction { error: ExtractionError::ContainerUnreadable, .. }));
    assert!(matches!(&failures[1], Failure::Extraction { error: ExtractionError::EntryNotFound, .. }));
    assert!(matches!(&failures[2], Failure::Extraction { error: ExtractionError::Decode, .. }));
    assert!(matches!(&failures[3], Failure::Extraction { error: ExtractionError::Parse { .. }, .. }));
}

#[test]
fn assembling_the_same_items_twice_gives_the_same_corpus() {
    let items = || {
        vec![
            file("a.rs", "alpha"),
            unreadable("b.rs"),
            file("skip.bin", "zzz"),
            WalkItem::Failed { detail: "loop".to_string() },
            file("c.md", "gamma"),
        ]
    };
    let first = assemble_all(items());
    let second = assemble_all(items());
    assert_eq!(first.block_count(), second.block_count());
    assert_eq!(texts(&first), texts(&second));
    assert_eq!(first.error_count(), second.error_count());
    assert_eq!(first.total_bytes(), second.total_bytes());
}

#[test]
fn total_bytes_is_the_sum_of_the_utf8_lengths_of_the_texts() {
    let corpus = assemble_all(vec![
        file("a.txt", "abc"),
        file("long/path/that/does/not/count.txt", "é"),
        file("c.txt", "日本語"),
        file("d.txt", ""),
        unreadable("e.txt"),
    ]);
    assert_eq!(corpus.total_bytes(), 3 + 2 + 9);
    assert_eq!(corpus.block_count(), 4);
}

#[test]
fn items_added_one_by_one_give_what_assemble_gives() {
    let mut corpus = Corpus::new();
    corpus.add_file("a.rs".to_string(), Reading::Text("1".to_string()));
    corpus.add_walk_error("gone".to_string());
    assert!(corpus.add(file("b.rs", "2")).is_ok());
    corpus.add_file("c.exe".to_string(), Reading::Text("3".to_string()));
    corpus.add_extracted("d.docx".to_string(), Ok("4".to_string()));
    let whole = assemble_all(vec![
        file("a.rs", "1"),
        WalkItem::Failed { detail: "gone".to_string() },
        file("b.rs", "2"),
        file("c.exe", "3"),
    ]);
    assert_eq!(corpus.block_count(), whole.block_count() + 1);
    assert_eq!(texts(&corpus)[..2], texts(&whole)[..]);
    assert_eq!(corpus.error_count(), whole.error_count());
}

#[test]
fn tag_of_a_path_without_extension_is_empty() {
    let mut corpus = Corpus::new();
    corpus.add_extracted("report".to_string(), Ok("text".to_string()));
    assert_eq!(corpus.blocks()[0].tag, "");
}

#[test]
fn block_renders_as_path_fence_and_rule() {
    let block = TextBlock {
        path: "src/main.rs".to_string(),
        tag: "rs".to_string(),
        text: "fn main() {}".to_string(),
    };
    let expected = format!(
        "{}\n
                    ```{}
                    {}
                    ```
                    \n\n------------\n\n",
        "src/main.rs", "rs", "fn main() {}"
    );
    assert_eq!(block.render(), expected);
    assert_eq!(
        block.render(),
        "src/main.rs\n\n                    ```rs\n                    fn main() {}\n                    ```\n                    \n\n------------\n\n"
    );
}

#[test]
fn corpus_renders_its_blocks_each_followed_by_a_line_break() {
    let corpus = assemble_all(vec![file("a.md", "A"), file("b.png", "x"), file("b.rs", "B")]);
    let mut expected = String::new();
    for block in corpus.blocks() {
        expected.push_str(&block.render());
        expected.push('\n');
    }
    assert_eq!(corpus.render(), expected);
    assert!(corpus.render().starts_with("a.md\n\n                    ```md\n                    A\n"));
    assert!(corpus.render().ends_with("------------\n\n\n"));
    assert_eq!(Corpus::new().render(), "");
}

#[test]
fn environment_file_is_taken_with_its_last_suffix_as_tag() {
    let corpus = assemble_all(vec![file("conf/.env.production", "KEY=1")]);
    assert_eq!(
        texts(&corpus),
        vec![("conf/.env.production".to_string(), "production".to_string(), "KEY=1".to_string())]
    );
}

#[test]
fn file_that_cannot_be_read_is_told_from_one_that_is_not_text() {
    let corpus = assemble_all(vec![
        WalkItem::File {
            path: "locked.rs".to_string(),
            content: Reading::Unreadable { detail: "permission denied".to_string() },
        },
        unreadable("binary.rs"),
        WalkItem::File {
            path: "locked.bin".to_string(),
            content: Reading::Unreadable { detail: "permission denied".to_string() },
        },
    ]);
    assert_eq!(corpus.block_count(), 0);
    assert_eq!(corpus.error_count(), 2);
    assert!(matches!(
        &corpus.failures()[0],
        Failure::Read { path, detail } if path == "locked.rs" && detail == "permission denied"
    ));
    assert!(matches!(&corpus.failures()[1], Failure::Decode { path } if path == "binary.rs"));
}

#[test]
fn failure_of_the_root_ends_the_assembly() {
    let outcome = assemble(vec![
        file("a.rs", "a"),
        WalkItem::RootFailed { detail: "no such directory".to_string() },
        WalkItem::RootFailed { detail: "second".to_string() },
        file("b.rs", "b"),
    ]);
    assert_eq!(outcome.unwrap_err().detail, "no such directory");
    let mut corpus = Corpus::new();
    corpus.add_file("a.rs".to_string(), Reading::Text("a".to_string()));
    let taken = corpus.add(WalkItem::RootFailed { detail: "gone".to_string() });
    assert_eq!(taken.unwrap_err().detail, "gone");
    assert_eq!(corpus.block_count(), 1);
    assert_eq!(corpus.error_count(), 0);
    assert!(assemble(Vec::new()).is_ok());
}
