//! Plain text out of a word-processor document: a zip container whose entry
//! `word/document.xml` holds the body as UTF-8 XML, with the text in `w:t`
//! elements.

use crate::archive::find_entry;
use crate::archive::lookup;
use crate::archive::Entry;
use crate::archive::EntryView;
use crate::text::assemble_text;
use crate::text::document_text;
use crate::xml::runs_of;
use crate::xml::text_runs;
use std::string::FromUtf8Error;
use vstd::prelude::*;
use vstd::utf8::decode_utf8;
use vstd::utf8::valid_utf8;

verus! {

/// Why no text could be had from a container.
#[derive(Debug)]
pub enum ExtractionError {
    /// The file is no zip archive, or the entry's content cannot be read.
    ContainerUnreadable,
    /// The archive has no entry for the document body.
    EntryNotFound,
    /// The document body is not UTF-8.
    Decode,
    /// The document body is malformed.
    Parse { byte_offset: usize, detail: String },
}

/// An extraction error as a value.
pub enum ExtractionErrorView {
    ContainerUnreadable,
    EntryNotFound,
    Decode,
    Parse { byte_offset: nat, detail: Seq<char> },
}

impl View for ExtractionError {
    type V = ExtractionErrorView;

    open spec fn view(&self) -> ExtractionErrorView {
        match self {
            ExtractionError::ContainerUnreadable => ExtractionErrorView::ContainerUnreadable,
            ExtractionError::EntryNotFound => ExtractionErrorView::EntryNotFound,
            ExtractionError::Decode => ExtractionErrorView::Decode,
            ExtractionError::Parse { byte_offset, detail } => ExtractionErrorView::Parse {
                byte_offset: *byte_offset as nat,
                detail: detail@,
            },
        }
    }
}

/// An extraction's outcome, as plain values.
pub open spec fn outcome_view(outcome: Result<String, ExtractionError>) -> Result<
    Seq<char>,
    ExtractionErrorView,
> {
    match outcome {
        Ok(text) => Ok(text@),
        Err(error) => Err(error@),
    }
}

/// The name of the entry that holds the document body.
pub open spec fn body_entry() -> Seq<char> {
    "word/document.xml"@
}

/// The text of a document body given as XML text: its runs, joined and
/// normalised, or the parser's failure.
pub open spec fn text_of_xml(xml: Seq<char>) -> Result<Seq<char>, ExtractionErrorView> {
    match runs_of(xml) {
        Ok(runs) => Ok(document_text(runs)),
        Err(failure) => Err(
            ExtractionErrorView::Parse {
                byte_offset: failure.byte_offset,
                detail: failure.detail,
            },
        ),
    }
}

/// The text of a document body given as bytes.
pub open spec fn text_of_bytes(body: Seq<u8>) -> Result<Seq<char>, ExtractionErrorView> {
    if valid_utf8(body) {
        text_of_xml(decode_utf8(body))
    } else {
        Err(ExtractionErrorView::Decode)
    }
}

/// The text for what the lookup of the body entry gave.
pub open spec fn text_of_lookup(found: Option<EntryView>) -> Result<
    Seq<char>,
    ExtractionErrorView,
> {
    match found {
        None => Err(ExtractionErrorView::ContainerUnreadable),
        Some(EntryView::Unreadable) => Err(ExtractionErrorView::ContainerUnreadable),
        Some(EntryView::Missing) => Err(ExtractionErrorView::EntryNotFound),
        Some(EntryView::Content(body)) => text_of_bytes(body),
    }
}

/// The text of a container.
pub open spec fn extracted(container: Seq<u8>) -> Result<Seq<char>, ExtractionErrorView> {
    text_of_lookup(lookup(container, body_entry()))
}

#[verifier::external_type_specification]
#[verifier::external_body]
pub struct ExFromUtf8Error(FromUtf8Error);

/// `String::from_utf8` succeeds exactly on valid UTF-8, and then gives the
/// characters that the bytes encode.
pub assume_specification[ String::from_utf8 ](vec: Vec<u8>) -> (decoded: Result<
    String,
    FromUtf8Error,
>)
    ensures
        decoded is Ok == valid_utf8(vec@),
        decoded matches Ok(text) ==> text@ == decode_utf8(vec@),
;

/// Extracts the text of a document body given as XML text.
pub fn read_xml(xml: &str) -> (outcome: Result<String, ExtractionError>)
    ensures
        outcome_view(outcome) == text_of_xml(xml@),
{
    match text_runs(xml) {
        Ok(runs) => Ok(assemble_text(&runs)),
        Err(failure) => Err(
            ExtractionError::Parse { byte_offset: failure.byte_offset, detail: failure.detail },
        ),
    }
}

/// Extracts the text of a document body given as the bytes of its entry.
pub fn read_body(body: Vec<u8>) -> (outcome: Result<String, ExtractionError>)
    ensures
        outcome_view(outcome) == text_of_bytes(body@),
{
    match String::from_utf8(body) {
        Ok(xml) => read_xml(xml.as_str()),
        Err(_) => Err(ExtractionError::Decode),
    }
}

/// Extracts the text for what the lookup of the body entry gave.
pub fn read_entry(found: Option<Entry>) -> (outcome: Result<String, ExtractionError>)
    ensures
        outcome_view(outcome) == text_of_lookup(
            match found {
                Some(entry) => Some(entry@),
                None => None,
            },
        ),
{
    match found {
        None => Err(ExtractionError::ContainerUnreadable),
        Some(Entry::Unreadable) => Err(ExtractionError::ContainerUnreadable),
        Some(Entry::Missing) => Err(ExtractionError::EntryNotFound),
        Some(Entry::Content(body)) => read_body(body),
    }
}

/// Extracts the text of a document from the bytes of its container: the text
/// runs of the body in document order, joined with nothing between them, with
/// full-width spaces made ordinary ones. On any failure there is no text.
pub fn read(container: &[u8]) -> (outcome: Result<String, ExtractionError>)
    ensures
        outcome_view(outcome) == extracted(container@),
{
    read_entry(find_entry(container, "word/document.xml"))
}

} // verus!
