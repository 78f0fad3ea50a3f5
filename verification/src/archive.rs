//! Reading a downloaded zip archive held in memory.
//!
//! The archive is parsed and decompressed by the `zip` crate. What that
//! crate returns, the text of its errors included, is a function of the
//! archive's bytes alone; the functions without body below give those
//! results a name, and the wrappers state that the calls return them.

use crate::error::{ManagerError, ManagerErrorView};
use std::io::Cursor;
use std::io::Read;
use vstd::prelude::*;
use zip::ZipArchive;

verus! {

/// `zip::ZipArchive`, a reader of the zip format over `R`.
#[verifier::external_type_specification]
#[verifier::external_body]
#[verifier::reject_recursive_types(R)]
pub struct ExZipArchive<R>(ZipArchive<R>);

/// `std::io::Cursor`, which reads an in-memory buffer as a stream.
#[verifier::external_type_specification]
#[verifier::external_body]
#[verifier::reject_recursive_types(T)]
pub struct ExCursor<T>(Cursor<T>);

/// What the reader gives for a count of entries: the count, or what it says
/// in its place.
pub type Counted = Result<nat, Seq<char>>;

/// What the reader gives for a name: the name, or what it says in its place.
pub type Named = Result<Seq<char>, Seq<char>>;

/// What the reader gives for a content: the bytes, or what it says in their
/// place.
pub type Content = Result<Seq<u8>, Seq<char>>;

/// The bytes that an open archive reads from.
pub uninterp spec fn archive_source(archive: ZipArchive<Cursor<Vec<u8>>>) -> Seq<u8>;

/// How many entries the zip archive `bytes` holds once it is opened; or,
/// where `bytes` cannot be opened as a zip archive, what the reader says of
/// them.
pub uninterp spec fn zip_entry_count(bytes: Seq<u8>) -> Result<nat, Seq<char>>;

/// The name of the entry at `index` of the zip archive `bytes`; or, where
/// that entry cannot be opened or its name cannot be decoded, what the
/// reader says of it.
pub uninterp spec fn zip_entry_name(bytes: Seq<u8>, index: nat) -> Result<Seq<char>, Seq<char>>;

/// The decompressed content of the entry at `index` of the zip archive
/// `bytes`; or, where that entry cannot be opened or read to its end, what
/// the reader says of it.
pub uninterp spec fn zip_entry_data(bytes: Seq<u8>, index: nat) -> Result<Seq<u8>, Seq<char>>;

/// Calls `zip::ZipArchive::new` on a cursor over `bytes`. The archive that
/// it returns reads from these bytes; an error is handed out as the text
/// that its `Display` writes.
#[verifier::external_body]
pub(crate) fn open_archive(bytes: Vec<u8>) -> (opened: Result<ZipArchive<Cursor<Vec<u8>>>, String>)
    ensures
        opened matches Ok(archive) ==> zip_entry_count(bytes@) is Ok && archive_source(archive)
            == bytes@,
        opened matches Err(text) ==> zip_entry_count(bytes@) == Counted::Err(text@),
{
    match ZipArchive::new(Cursor::new(bytes)) {
        Ok(archive) => Ok(archive),
        Err(error) => Err(error.to_string()),
    }
}

/// Calls `zip::ZipArchive::len`: the number of entries of the archive, which
/// is the entry count of the bytes that it was opened from.
#[verifier::external_body]
pub(crate) fn archive_len(archive: &ZipArchive<Cursor<Vec<u8>>>) -> (count: usize)
    ensures
        zip_entry_count(archive_source(*archive)) == Counted::Ok(count as nat),
{
    archive.len()
}

/// Calls `zip::ZipArchive::by_index` and hands out the entry's name as
/// `zip::read::ZipFile::name` decodes it, or the text of the error of either
/// call. The archive still reads from the same bytes afterwards.
#[verifier::external_body]
pub(crate) fn entry_name(archive: &mut ZipArchive<Cursor<Vec<u8>>>, index: usize) -> (name: Result<
    String,
    String,
>)
    ensures
        archive_source(*final(archive)) == archive_source(*old(archive)),
        name matches Ok(text) ==> zip_entry_name(archive_source(*old(archive)), index as nat)
            == Named::Ok(text@),
        name matches Err(text) ==> zip_entry_name(archive_source(*old(archive)), index as nat)
            == Named::Err(text@),
{
    match archive.by_index(index) {
        Ok(file) => match file.name() {
            Ok(name) => Ok(name.into_owned()),
            Err(error) => Err(error.to_string()),
        },
        Err(error) => Err(error.to_string()),
    }
}

/// Calls `zip::ZipArchive::by_index` and hands out the entry's content, read
/// to its end through the entry's `std::io::Read`, or the text of the error
/// of either call. The archive still reads from the same bytes afterwards.
#[verifier::external_body]
pub(crate) fn entry_data(archive: &mut ZipArchive<Cursor<Vec<u8>>>, index: usize) -> (data: Result<
    Vec<u8>,
    String,
>)
    ensures
        archive_source(*final(archive)) == archive_source(*old(archive)),
        data matches Ok(content) ==> zip_entry_data(archive_source(*old(archive)), index as nat)
            == Content::Ok(content@),
        data matches Err(text) ==> zip_entry_data(archive_source(*old(archive)), index as nat)
            == Content::Err(text@),
{
    let mut content = Vec::new();
    match archive.by_index(index) {
        Ok(mut file) => match file.read_to_end(&mut content) {
            Ok(_) => Ok(content),
            Err(error) => Err(error.to_string()),
        },
        Err(error) => Err(error.to_string()),
    }
}

/// The `Archive` error with `message`: what the reader said of an archive it cannot read.
pub(crate) fn archive_error(message: String) -> (failure: ManagerError)
    ensures
        failure@ == (ManagerErrorView::Archive { message: message@ }),
{
    ManagerError::Archive { message }
}

/// The `Extraction` error with `message`: what the reader said of content it cannot read.
pub(crate) fn entry_error(message: String) -> (failure: ManagerError)
    ensures
        failure@ == (ManagerErrorView::Extraction { message: message@ }),
{
    ManagerError::Extraction { message }
}

} // verus!
