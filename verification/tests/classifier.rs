use corpus_assembly::classify::has_dotted_suffix;
use corpus_assembly::classify::is_allowed_extension;
use corpus_assembly::classify::is_document_or_source_code;
use corpus_assembly::classify::is_eligible;
use corpus_assembly::classify::is_eligible_extension;
use corpus_assembly::classify::is_environment_file_name;

#[test]
fn source_and_document_extensions_are_eligible() {
    for path in [
        "README.md", "notes.txt", "src/main.rs", "tool.py", "app.js", "app.ts", "view.jsx",
        "view.tsx", "index.html", "site.css", "prog.c", "prog.cpp", "Main.java", "index.php",
        "main.go", "script.rb", "run.sh", "run.bat", "run.ps1", "mod.psm1", "data.json",
        "conf.yaml", "conf.yml", "Cargo.toml", "doc.xml", "table.csv", "table.tsv", "query.sql",
        "store.sqlite", "store.db", "out.log", "setup.ini", "setup.cfg", "nginx.conf",
        "app.properties", "prod.env", "dir.envrc",
    ] {
        assert!(is_document_or_source_code(path), "{}", path);
    }
}

#[test]
fn other_extensions_are_not_eligible() {
    for path in ["photo.png", "archive.zip", "report.docx", "lib.so", "a.out", "x.tar.gz", "Cargo.lock"] {
        assert!(!is_document_or_source_code(path), "{}", path);
    }
}

#[test]
fn path_without_extension_is_not_eligible() {
    assert!(!is_document_or_source_code("Makefile"));
    assert!(!is_document_or_source_code("src/bin/tool"));
    assert!(!is_document_or_source_code(""));
    assert!(!is_document_or_source_code(".."));
    assert!(!is_eligible_extension(None));
}

#[test]
fn hidden_file_name_is_no_extension() {
    assert!(!is_document_or_source_code(".env"));
    assert!(!is_document_or_source_code(".envrc"));
    assert!(!is_document_or_source_code("project/.gitignore"));
}

#[test]
fn matching_is_case_sensitive() {
    assert!(is_document_or_source_code("a.md"));
    assert!(!is_document_or_source_code("a.MD"));
    assert!(!is_document_or_source_code("a.Rs"));
    assert!(!is_allowed_extension("JSON"));
}

#[test]
fn only_the_last_suffix_of_a_path_is_its_extension() {
    assert!(is_document_or_source_code("bundle.min.js"));
    assert!(!is_document_or_source_code("notes.md.bak"));
    assert!(!is_document_or_source_code("main.rs.orig"));
    assert!(is_document_or_source_code("app.local.env"));
}

#[test]
fn environment_files_are_eligible_by_their_whole_suffix() {
    for path in [
        ".env.sample", ".env.example", ".env.local", ".env.development", ".env.test",
        ".env.staging", ".env.production", ".env.ci", ".env.dev", ".env.prod", ".env.stage",
        ".env.stg", "config/.env.local", "app.env.production", "deploy/x.env.test",
    ] {
        assert!(is_document_or_source_code(path), "{}", path);
    }
}

#[test]
fn names_that_only_resemble_an_environment_suffix_are_not_eligible() {
    for path in [
        "env.production", "myenv.production", ".env.productions", ".env.Production",
        ".ENV.production", ".env.qa", "a.production", ".env.production/", ".env.local.bak",
        "x.env-local",
    ] {
        let expected = path == ".env.production/";
        assert_eq!(is_document_or_source_code(path), expected, "{}", path);
    }
}

#[test]
fn eligibility_is_decided_from_extension_and_file_name() {
    assert!(is_eligible(Some("production"), Some(".env.production")));
    assert!(is_eligible(Some("rs"), None));
    assert!(is_eligible(Some("rs"), Some("main.rs")));
    assert!(!is_eligible(Some("production"), Some("notes.production")));
    assert!(!is_eligible(None, Some("Makefile")));
    assert!(!is_eligible(None, None));
    assert!(is_environment_file_name("a.env.ci"));
    assert!(!is_environment_file_name("env.ci"));
    assert!(!is_environment_file_name(""));
}

#[test]
fn dotted_suffix_needs_the_dot_and_the_whole_tail() {
    assert!(has_dotted_suffix(".env.stg", "env.stg"));
    assert!(has_dotted_suffix("日本.env.stg", "env.stg"));
    assert!(has_dotted_suffix("a.b", "b"));
    assert!(has_dotted_suffix(".", ""));
    assert!(!has_dotted_suffix("env.stg", "env.stg"));
    assert!(!has_dotted_suffix("xenv.stg", "env.stg"));
    assert!(!has_dotted_suffix(".env.st", "env.stg"));
    assert!(!has_dotted_suffix("", ""));
}

#[test]
fn environment_variants_match_only_as_whole_suffixes() {
    for ext in [
        "env.sample", "env.example", "env.local", "env.development", "env.test", "env.staging",
        "env.production", "env.ci", "env.dev", "env.prod", "env.stage", "env.stg",
    ] {
        assert!(is_allowed_extension(ext), "{}", ext);
        assert!(is_eligible_extension(Some(ext)), "{}", ext);
    }
    assert!(!is_allowed_extension("production"));
    assert!(!is_allowed_extension("env.production.bak"));
    assert!(!is_allowed_extension("env."));
    assert!(!is_allowed_extension(".env"));
    assert!(!is_allowed_extension(""));
}

#[test]
fn extension_is_taken_from_the_file_name_only() {
    assert!(!is_document_or_source_code("site.html/index"));
    assert!(is_document_or_source_code("v1.2/readme.txt"));
    assert!(is_document_or_source_code("./a/../b/c.toml"));
    assert!(is_document_or_source_code("dir.rs/"));
}
