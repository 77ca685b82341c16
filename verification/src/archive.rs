//! Trusted surface over the `zip` crate.
//!
//! An archive is held as plain bytes and opened over an in-memory cursor, so
//! everything the codec reports — whether the bytes parse, how many entries
//! there are, each entry's name, directory flag and decompressed bytes,
//! which error refuses a malformed archive, and whether reading an entry
//! out succeeds — is a function of those bytes alone.  Names stand for what
//! the codec computes: `zip_parse` and `zip_open_err` for the outcome of
//! opening the bytes, `entry_read_err` for the outcome of reading one entry
//! out of them, and `archive_entries` / `handle_read_err` for the same
//! things seen through an opened handle; the wrappers below connect them.
//! Everything else in the library is verified against the contracts stated
//! here.

use std::io::Cursor;
use vstd::prelude::*;

verus! {

#[verifier::external_type_specification]
#[verifier::external_body]
#[verifier::reject_recursive_types(R)]
pub struct ExZipArchive<R>(zip::ZipArchive<R>);

#[verifier::external_type_specification]
#[verifier::external_body]
#[verifier::reject_recursive_types(T)]
pub struct ExCursor<T>(Cursor<T>);

/// What `zip::ZipArchive::new` makes of the given bytes: `None` when they do
/// not parse as an archive, otherwise the entries in index order, each with
/// its recorded name, its directory flag and its decompressed bytes.
pub uninterp spec fn zip_parse(bytes: Seq<u8>) -> Option<Seq<(Seq<char>, bool, Seq<u8>)>>;

/// The error with which `zip::ZipArchive::new` refuses the given bytes,
/// meaningful only when `zip_parse` is `None`.  Opening an in-memory cursor
/// with the default configuration is deterministic, so the refusal is a
/// function of the bytes alone.
pub uninterp spec fn zip_open_err(bytes: Seq<u8>) -> ArchiveErrorModel;

/// The outcome of reading the entry at index `i` out of an archive opened
/// from the given bytes: `None` when the read succeeds, otherwise the
/// codec's message.  Decompression over in-memory bytes is deterministic,
/// so this too is a function of the bytes and the index alone; an index
/// outside the archive is always a failure.
pub uninterp spec fn entry_read_err(bytes: Seq<u8>, i: int) -> Option<Seq<char>>;

/// The entries held by an opened archive handle, in index order.
pub uninterp spec fn archive_entries(a: zip::ZipArchive<Cursor<Vec<u8>>>) -> Seq<
    (Seq<char>, bool, Seq<u8>),
>;

/// The outcome of reading the entry at index `i` out of an opened handle,
/// as `entry_read_err` for the bytes the handle was opened from.
pub uninterp spec fn handle_read_err(a: zip::ZipArchive<Cursor<Vec<u8>>>, i: int) -> Option<
    Seq<char>,
>;

/// The codec's failure to open an archive, by category, each carrying the
/// codec's own message.
pub enum ArchiveError {
    Invalid(String),
    Unsupported(String),
    Io(String),
    Other(String),
}

/// The mathematical model of `ArchiveError`.
pub enum ArchiveErrorModel {
    Invalid(Seq<char>),
    Unsupported(Seq<char>),
    Io(Seq<char>),
    Other(Seq<char>),
}

impl View for ArchiveError {
    type V = ArchiveErrorModel;

    open spec fn view(&self) -> ArchiveErrorModel {
        match self {
            ArchiveError::Invalid(m) => ArchiveErrorModel::Invalid(m@),
            ArchiveError::Unsupported(m) => ArchiveErrorModel::Unsupported(m@),
            ArchiveError::Io(m) => ArchiveErrorModel::Io(m@),
            ArchiveError::Other(m) => ArchiveErrorModel::Other(m@),
        }
    }
}

/// Relies on `zip::ZipArchive::new` over an in-memory cursor: it succeeds
/// exactly when the bytes parse as an archive; the handle it returns holds
/// that archive's entries and answers entry reads as the bytes determine;
/// a refusal is the codec's own error.  The error arms mirror the variants
/// of `zip::result::ZipError`, moving only the codec's message.
#[verifier::external_body]
pub fn open_archive(bytes: &Vec<u8>) -> (r: Result<zip::ZipArchive<Cursor<Vec<u8>>>, ArchiveError>)
    ensures
        r is Ok <==> zip_parse(bytes@) is Some,
        (r matches Ok(a) ==> zip_parse(bytes@) == Some(archive_entries(a))),
        (r matches Ok(a) ==> forall|i: int| #[trigger] handle_read_err(a, i) == entry_read_err(
            bytes@,
            i,
        )),
        (r matches Err(e) ==> e@ == zip_open_err(bytes@)),
{
    match zip::ZipArchive::new(Cursor::new(bytes.clone())) {
        Ok(a) => Ok(a),
        Err(zip::result::ZipError::InvalidArchive(m)) => Err(ArchiveError::Invalid(format!("{}", m))),
        Err(zip::result::ZipError::Io(e)) => Err(ArchiveError::Io(format!("{}", e))),
        Err(zip::result::ZipError::UnsupportedArchive(m)) => Err(ArchiveError::Unsupported(format!("{}", m))),
        Err(e) => Err(ArchiveError::Other(format!("{}", e))),
    }
}

/// Relies on `zip::ZipArchive::len`: the number of entries.
#[verifier::external_body]
pub fn archive_len(a: &zip::ZipArchive<Cursor<Vec<u8>>>) -> (n: usize)
    ensures
        n == archive_entries(*a).len(),
{
    a.len()
}

/// Relies on `zip::ZipArchive::by_index` together with `ZipFile::name`,
/// `ZipFile::is_dir` and `std::io::Read::read_to_end`: the entry at a given
/// index, with its recorded name, its directory flag and its decompressed
/// bytes.  The `ZipFile` the codec hands out borrows the archive and cannot
/// outlive this call, so the four reads stand in one place.  The read
/// succeeds exactly when the handle's read outcome for that index says so —
/// an out-of-range index is refused, entry metadata lives in shared
/// immutable state, and decompression of in-memory bytes is deterministic —
/// and any failure returns the codec's message.  Only the handle's cursor
/// position changes: the contents and the read outcomes do not.
#[verifier::external_body]
pub fn read_entry(a: &mut zip::ZipArchive<Cursor<Vec<u8>>>, i: usize) -> (r: Result<
    (String, bool, Vec<u8>),
    String,
>)
    ensures
        archive_entries(*final(a)) == archive_entries(*old(a)),
        (forall|j: int| #[trigger] handle_read_err(*final(a), j) == handle_read_err(*old(a), j)),
        r is Ok <==> (i < archive_entries(*old(a)).len() && handle_read_err(*old(a), i as int)
            is None),
        (r matches Ok(e) ==> archive_entries(*old(a))[i as int] == (e.0@, e.1, e.2@)),
        (r matches Err(d) ==> handle_read_err(*old(a), i as int) == Some(d@)),
{
    match a.by_index(i) {
        Ok(mut f) => {
            let name = f.name().to_string();
            let is_dir = f.is_dir();
            let mut data: Vec<u8> = Vec::new();
            match std::io::Read::read_to_end(&mut f, &mut data) {
                Ok(_) => Ok((name, is_dir, data)),
                Err(e) => Err(format!("{}", e)),
            }
        }
        Err(e) => Err(format!("{}", e)),
    }
}

} // verus!
