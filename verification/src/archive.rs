//! Looking an entry up in a zip archive held in memory.
//!
//! The archive is read by the `zip` crate. What it finds is named as a
//! function of the archive's bytes; nothing of the format is verified here.

use std::io::Cursor;
use std::io::Read;
use vstd::prelude::*;
use zip::read::ZipArchive;
use zip::result::ZipError;

verus! {

#[verifier::external_type_specification]
#[verifier::external_body]
#[verifier::reject_recursive_types(T)]
pub struct ExCursor<T>(Cursor<T>);

#[verifier::external_type_specification]
#[verifier::external_body]
#[verifier::reject_recursive_types(R)]
pub struct ExZipArchive<R>(ZipArchive<R>);

#[verifier::external_type_specification]
#[verifier::external_body]
pub struct ExZipError(ZipError);

/// What a lookup by name finds in an archive.
pub enum EntryView {
    /// The entry's content, decompressed.
    Content(Seq<u8>),
    /// The archive has no entry of that name.
    Missing,
    /// The entry is there, but its content cannot be had.
    Unreadable,
}

/// What a lookup by name gives, as the library reads it.
#[derive(Debug)]
pub enum Entry {
    Content(Vec<u8>),
    Missing,
    Unreadable,
}

impl View for Entry {
    type V = EntryView;

    open spec fn view(&self) -> EntryView {
        match self {
            Entry::Content(bytes) => EntryView::Content(bytes@),
            Entry::Missing => EntryView::Missing,
            Entry::Unreadable => EntryView::Unreadable,
        }
    }
}

/// Whether `ZipArchive::new` accepts these bytes as an archive.
pub uninterp spec fn is_archive(bytes: Seq<u8>) -> bool;

/// What `ZipArchive::by_name_decrypt` with an empty password, read to the
/// end, finds under `name` in the archive made of `bytes`.
pub uninterp spec fn archive_entry(bytes: Seq<u8>, name: Seq<char>) -> EntryView;

/// The bytes that an archive was opened on.
pub uninterp spec fn archive_bytes(archive: ZipArchive<Cursor<&[u8]>>) -> Seq<u8>;

/// Opens the bytes with `ZipArchive::new`. Trusted: it succeeds exactly on
/// the byte strings named archives, and the archive it gives is one on
/// these bytes.
#[verifier::external_body]
fn open_archive<'a>(bytes: &'a [u8]) -> (opened: Result<ZipArchive<Cursor<&'a [u8]>>, ZipError>)
    ensures
        opened is Ok == is_archive(bytes@),
        opened matches Ok(archive) ==> archive_bytes(archive) == bytes@,
{
    ZipArchive::new(Cursor::new(bytes))
}

/// Looks `name` up with `ZipArchive::by_name_decrypt`, given an empty
/// password, and reads the entry to its end. That call hands back the inner
/// result where `by_name` would unwrap it. Trusted: what is found is what is
/// named for the archive's bytes and the name, and the archive stays one on
/// the same bytes. `FileNotFound` is `Missing`; a refused password and any
/// other error, of the lookup or of the reading, is `Unreadable`.
#[verifier::external_body]
fn entry_of(archive: &mut ZipArchive<Cursor<&[u8]>>, name: &str) -> (entry: Entry)
    ensures
        entry@ == archive_entry(archive_bytes(*old(archive)), name@),
        archive_bytes(*final(archive)) == archive_bytes(*old(archive)),
{
    match archive.by_name_decrypt(name, &[]) {
        Ok(Ok(mut file)) => {
            let mut content = Vec::new();
            match file.read_to_end(&mut content) {
                Ok(_) => Entry::Content(content),
                Err(_) => Entry::Unreadable,
            }
        },
        Ok(Err(_)) => Entry::Unreadable,
        Err(ZipError::FileNotFound) => Entry::Missing,
        Err(_) => Entry::Unreadable,
    }
}

/// What looking `name` up in `container` gives, where the container may be
/// no archive at all.
pub open spec fn lookup(container: Seq<u8>, name: Seq<char>) -> Option<EntryView> {
    if is_archive(container) {
        Some(archive_entry(container, name))
    } else {
        None
    }
}

/// Opens `container` as a zip archive and looks `name` up in it. `None`
/// where the container is no archive.
pub fn find_entry(container: &[u8], name: &str) -> (found: Option<Entry>)
    ensures
        lookup(container@, name@) == match found {
            Some(entry) => Some(entry@),
            None => None,
        },
{
    match open_archive(container) {
        Ok(mut archive) => Some(entry_of(&mut archive, name)),
        Err(_) => None,
    }
}

} // verus!
