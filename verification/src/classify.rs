//! The content classifier: a path is eligible when its extension is on a
//! fixed allow-list of source, markup, data and configuration extensions, or
//! when its file name ends in one of the listed environment-file suffixes.

use crate::strings::str_eq;
use vstd::prelude::*;
use vstd::string::StrSliceExecFns;

verus! {

/// The extension of a path given as text: the part of its file name after the
/// final dot, or `None` where the path has no file name, the name holds no
/// dot, or its only dot is its first character.
pub uninterp spec fn path_extension(path: Seq<char>) -> Option<Seq<char>>;

/// The file name of a path given as text: its final component, or `None`
/// where the path ends in `..` or has no component.
pub uninterp spec fn path_file_name(path: Seq<char>) -> Option<Seq<char>>;

/// Extensions without a dot in them that mark a file as text.
pub open spec fn plain_extension(ext: Seq<char>) -> bool {
    ||| ext == "md"@
    ||| ext == "txt"@
    ||| ext == "rs"@
    ||| ext == "py"@
    ||| ext == "js"@
    ||| ext == "ts"@
    ||| ext == "jsx"@
    ||| ext == "tsx"@
    ||| ext == "html"@
    ||| ext == "css"@
    ||| ext == "c"@
    ||| ext == "cpp"@
    ||| ext == "java"@
    ||| ext == "php"@
    ||| ext == "go"@
    ||| ext == "rb"@
    ||| ext == "sh"@
    ||| ext == "bat"@
    ||| ext == "ps1"@
    ||| ext == "psm1"@
    ||| ext == "json"@
    ||| ext == "yaml"@
    ||| ext == "yml"@
    ||| ext == "toml"@
    ||| ext == "xml"@
    ||| ext == "csv"@
    ||| ext == "tsv"@
    ||| ext == "sql"@
    ||| ext == "sqlite"@
    ||| ext == "db"@
    ||| ext == "log"@
    ||| ext == "ini"@
    ||| ext == "cfg"@
    ||| ext == "conf"@
    ||| ext == "properties"@
    ||| ext == "env"@
    ||| ext == "envrc"@
}

/// The environment-file variants, each listed with its whole suffix.
pub open spec fn environment_suffix(ext: Seq<char>) -> bool {
    ||| ext == "env.sample"@
    ||| ext == "env.example"@
    ||| ext == "env.local"@
    ||| ext == "env.development"@
    ||| ext == "env.test"@
    ||| ext == "env.staging"@
    ||| ext == "env.production"@
    ||| ext == "env.ci"@
    ||| ext == "env.dev"@
    ||| ext == "env.prod"@
    ||| ext == "env.stage"@
    ||| ext == "env.stg"@
}

/// The allow-list. Matching is exact and case-sensitive.
pub open spec fn allowed_extension(ext: Seq<char>) -> bool {
    plain_extension(ext) || environment_suffix(ext)
}

/// Whether an extension, where there is one, is on the allow-list.
pub open spec fn eligible(ext: Option<Seq<char>>) -> bool {
    match ext {
        Some(e) => allowed_extension(e),
        None => false,
    }
}

fn is_plain_extension(ext: &str) -> (found: bool)
    ensures
        found == plain_extension(ext@),
{
    str_eq(ext, "md") || str_eq(ext, "txt") || str_eq(ext, "rs") || str_eq(ext, "py") || str_eq(
        ext,
        "js",
    ) || str_eq(ext, "ts") || str_eq(ext, "jsx") || str_eq(ext, "tsx") || str_eq(ext, "html")
        || str_eq(ext, "css") || str_eq(ext, "c") || str_eq(ext, "cpp") || str_eq(ext, "java")
        || str_eq(ext, "php") || str_eq(ext, "go") || str_eq(ext, "rb") || str_eq(ext, "sh")
        || str_eq(ext, "bat") || str_eq(ext, "ps1") || str_eq(ext, "psm1") || str_eq(ext, "json")
        || str_eq(ext, "yaml") || str_eq(ext, "yml") || str_eq(ext, "toml") || str_eq(ext, "xml")
        || str_eq(ext, "csv") || str_eq(ext, "tsv") || str_eq(ext, "sql") || str_eq(ext, "sqlite")
        || str_eq(ext, "db") || str_eq(ext, "log") || str_eq(ext, "ini") || str_eq(ext, "cfg")
        || str_eq(ext, "conf") || str_eq(ext, "properties") || str_eq(ext, "env") || str_eq(
        ext,
        "envrc",
    )
}

fn is_environment_suffix(ext: &str) -> (found: bool)
    ensures
        found == environment_suffix(ext@),
{
    str_eq(ext, "env.sample") || str_eq(ext, "env.example") || str_eq(ext, "env.local") || str_eq(
        ext,
        "env.development",
    ) || str_eq(ext, "env.test") || str_eq(ext, "env.staging") || str_eq(ext, "env.production")
        || str_eq(ext, "env.ci") || str_eq(ext, "env.dev") || str_eq(ext, "env.prod") || str_eq(
        ext,
        "env.stage",
    ) || str_eq(ext, "env.stg")
}

/// Whether an extension is on the allow-list.
pub fn is_allowed_extension(ext: &str) -> (found: bool)
    ensures
        found == allowed_extension(ext@),
{
    is_plain_extension(ext) || is_environment_suffix(ext)
}

/// Decides eligibility from an extension that has already been taken from a
/// path.
pub fn is_eligible_extension(ext: Option<&str>) -> (found: bool)
    ensures
        found == eligible(
            match ext {
                Some(e) => Some(e@),
                None => None,
            },
        ),
{
    match ext {
        Some(e) => is_allowed_extension(e),
        None => false,
    }
}

/// Whether `name` ends in a dot followed by `tail`.
pub open spec fn ends_with_dot_and(name: Seq<char>, tail: Seq<char>) -> bool {
    &&& name.len() > tail.len()
    &&& name[name.len() - tail.len() - 1] == '.'
    &&& name.subrange(name.len() - tail.len(), name.len() as int) == tail
}

/// Whether a file name ends in a dot followed by one of the environment-file
/// variants: `.env.production`, `app.env.local` and the like.
pub open spec fn environment_file_name(name: Seq<char>) -> bool {
    ||| ends_with_dot_and(name, "env.sample"@)
    ||| ends_with_dot_and(name, "env.example"@)
    ||| ends_with_dot_and(name, "env.local"@)
    ||| ends_with_dot_and(name, "env.development"@)
    ||| ends_with_dot_and(name, "env.test"@)
    ||| ends_with_dot_and(name, "env.staging"@)
    ||| ends_with_dot_and(name, "env.production"@)
    ||| ends_with_dot_and(name, "env.ci"@)
    ||| ends_with_dot_and(name, "env.dev"@)
    ||| ends_with_dot_and(name, "env.prod"@)
    ||| ends_with_dot_and(name, "env.stage"@)
    ||| ends_with_dot_and(name, "env.stg"@)
}

/// Eligibility from a path's extension and file name: the extension is on
/// the allow-list, or the file name ends in an environment-file suffix.
pub open spec fn eligible_by(ext: Option<Seq<char>>, name: Option<Seq<char>>) -> bool {
    eligible(ext) || match name {
        Some(n) => environment_file_name(n),
        None => false,
    }
}

/// Whether a path is eligible.
pub open spec fn path_eligible(path: Seq<char>) -> bool {
    eligible_by(path_extension(path), path_file_name(path))
}

/// Whether a name holds no dot behind its first character.
pub open spec fn no_inner_dot(name: Seq<char>) -> bool {
    forall|i: int| 1 <= i < name.len() ==> name[i] != '.'
}

/// The characters of a string slice that may be absent.
pub open spec fn text_of(found: Option<&str>) -> Option<Seq<char>> {
    match found {
        Some(text) => Some(text@),
        None => None,
    }
}

/// Calls `std::path::Path::extension` on the path and hands the extension
/// back as text. Trusted: the result is the extension that the standard
/// library finds in this path; and where it finds none, the path's file
/// name, if it has one, holds no dot behind its first character.
#[verifier::external_body]
pub(crate) fn extension_of(path: &str) -> (ext: Option<&str>)
    ensures
        text_of(ext) == path_extension(path@),
        ext is None ==> match path_file_name(path@) {
            Some(name) => no_inner_dot(name),
            None => true,
        },
{
    match std::path::Path::new(path).extension() {
        Some(ext) => ext.to_str(),
        None => None,
    }
}

/// Calls `std::path::Path::file_name` on the path and hands the name back as
/// text. Trusted: the result is the file name that the standard library
/// finds in this path.
#[verifier::external_body]
fn file_name_of(path: &str) -> (name: Option<&str>)
    ensures
        text_of(name) == path_file_name(path@),
{
    match std::path::Path::new(path).file_name() {
        Some(name) => name.to_str(),
        None => None,
    }
}

/// Whether `name` ends in a dot followed by `tail`.
pub fn has_dotted_suffix(name: &str, tail: &str) -> (found: bool)
    ensures
        found == ends_with_dot_and(name@, tail@),
{
    let whole = name.unicode_len();
    let part = tail.unicode_len();
    if whole <= part {
        return false;
    }
    let start = whole - part;
    if name.get_char(start - 1) != '.' {
        return false;
    }
    str_eq(name.substring_char(start, whole), tail)
}

/// Whether a file name ends in one of the environment-file suffixes.
pub fn is_environment_file_name(name: &str) -> (found: bool)
    ensures
        found == environment_file_name(name@),
{
    has_dotted_suffix(name, "env.sample") || has_dotted_suffix(name, "env.example")
        || has_dotted_suffix(name, "env.local") || has_dotted_suffix(name, "env.development")
        || has_dotted_suffix(name, "env.test") || has_dotted_suffix(name, "env.staging")
        || has_dotted_suffix(name, "env.production") || has_dotted_suffix(name, "env.ci")
        || has_dotted_suffix(name, "env.dev") || has_dotted_suffix(name, "env.prod")
        || has_dotted_suffix(name, "env.stage") || has_dotted_suffix(name, "env.stg")
}

/// Decides eligibility from the extension and the file name that have
/// already been taken from a path.
pub fn is_eligible(ext: Option<&str>, name: Option<&str>) -> (found: bool)
    ensures
        found == eligible_by(text_of(ext), text_of(name)),
{
    if is_eligible_extension(ext) {
        return true;
    }
    match name {
        Some(n) => is_environment_file_name(n),
        None => false,
    }
}

/// A file name ends in an environment-file suffix exactly when it ends in a
/// dot followed by an environment-file variant of the allow-list: the
/// variants match as whole suffixes.
pub proof fn lemma_environment_file_name(name: Seq<char>)
    ensures
        environment_file_name(name) <==> exists|variant: Seq<char>|
            environment_suffix(variant) && #[trigger] ends_with_dot_and(name, variant),
{
    if environment_file_name(name) {
        let variant = if ends_with_dot_and(name, "env.sample"@) {
            "env.sample"@
        } else if ends_with_dot_and(name, "env.example"@) {
            "env.example"@
        } else if ends_with_dot_and(name, "env.local"@) {
            "env.local"@
        } else if ends_with_dot_and(name, "env.development"@) {
            "env.development"@
        } else if ends_with_dot_and(name, "env.test"@) {
            "env.test"@
        } else if ends_with_dot_and(name, "env.staging"@) {
            "env.staging"@
        } else if ends_with_dot_and(name, "env.production"@) {
            "env.production"@
        } else if ends_with_dot_and(name, "env.ci"@) {
            "env.ci"@
        } else if ends_with_dot_and(name, "env.dev"@) {
            "env.dev"@
        } else if ends_with_dot_and(name, "env.prod"@) {
            "env.prod"@
        } else if ends_with_dot_and(name, "env.stage"@) {
            "env.stage"@
        } else {
            "env.stg"@
        };
        assert(environment_suffix(variant) && ends_with_dot_and(name, variant));
    }
}

/// A name without a dot behind its first character ends in no
/// environment-file suffix.
pub proof fn lemma_no_inner_dot_no_suffix(name: Seq<char>)
    requires
        no_inner_dot(name),
    ensures
        !environment_file_name(name),
{
    if environment_file_name(name) {
        lemma_environment_file_name(name);
        let variant = choose|variant: Seq<char>|
            environment_suffix(variant) && #[trigger] ends_with_dot_and(name, variant);
        lemma_environment_suffix_has_dot(variant);
        let at = name.len() - variant.len() + 3;
        assert(name.subrange(name.len() - variant.len(), name.len() as int)[3] == name[at]);
        assert(name[at] == '.');
    }
}

/// Every environment-file variant on the allow-list holds a dot as its
/// fourth character.
pub proof fn lemma_environment_suffix_has_dot(ext: Seq<char>)
    requires
        environment_suffix(ext),
    ensures
        ext.len() > 3,
        ext[3] == '.',
{
    reveal_strlit("env.sample");
    reveal_strlit("env.example");
    reveal_strlit("env.local");
    reveal_strlit("env.development");
    reveal_strlit("env.test");
    reveal_strlit("env.staging");
    reveal_strlit("env.production");
    reveal_strlit("env.ci");
    reveal_strlit("env.dev");
    reveal_strlit("env.prod");
    reveal_strlit("env.stage");
    reveal_strlit("env.stg");
}

/// Whether the file at `file_path` is a document or source file: its
/// extension is on the allow-list, or its file name ends in one of the
/// environment-file suffixes. Total: every path gets an answer, and a path
/// without an extension gets `false`.
pub fn is_document_or_source_code(file_path: &str) -> (found: bool)
    ensures
        found == path_eligible(file_path@),
        path_extension(file_path@) is None ==> !found,
{
    let ext = extension_of(file_path);
    let name = file_name_of(file_path);
    proof {
        if ext is None {
            if let Some(n) = name {
                lemma_no_inner_dot_no_suffix(n@);
            }
        }
    }
    is_eligible(ext, name)
}

} // verus!
