//! The four operations: extraction planning, validation, summary, and the
//! error strings they owe their caller.
//!
//! Each operation takes what the caller observed of the outside world — does
//! a path exist, is it a regular file, what did reading it yield — as plain
//! values, decides in the order the interface fixes, and returns either the
//! operation's result or the exact error string.  Extraction does not touch
//! the filesystem itself: it returns the ordered plan of filesystem actions,
//! one `MakeDir` per directory entry and a `MakeParentDir` followed by a
//! `WriteFile` per file entry, for the caller to carry out.

use vstd::prelude::*;

use crate::archive::ArchiveError;
use crate::archive::ArchiveErrorModel;
use crate::archive::archive_entries;
use crate::archive::entry_read_err;
use crate::archive::handle_read_err;
use crate::archive::zip_open_err;
use crate::archive::archive_len;
use crate::archive::open_archive;
use crate::archive::read_entry;
use crate::archive::zip_parse;
use crate::numfmt::dec_rep;
use crate::numfmt::u64_to_string;
use crate::paths::join_path;
use crate::paths::join_spec;
use crate::paths::parent_path;
use crate::paths::parent_spec;

verus! {

/// One filesystem action of an extraction plan.
#[derive(Debug, PartialEq, Eq)]
pub enum FsAction {
    /// Create a directory (and any missing ancestors) for a directory entry.
    MakeDir { path: String },
    /// Create the parent directory (and any missing ancestors) of a file
    /// about to be written.
    MakeParentDir { path: String },
    /// Create or replace the file at `path` with `data`.
    WriteFile { path: String, data: Vec<u8> },
}

/// The mathematical model of one filesystem action.
pub enum ActionModel {
    MakeDir { path: Seq<char> },
    MakeParentDir { path: Seq<char> },
    WriteFile { path: Seq<char>, data: Seq<u8> },
}

impl View for FsAction {
    type V = ActionModel;

    open spec fn view(&self) -> ActionModel {
        match self {
            FsAction::MakeDir { path } => ActionModel::MakeDir { path: path@ },
            FsAction::MakeParentDir { path } => ActionModel::MakeParentDir { path: path@ },
            FsAction::WriteFile { path, data } => ActionModel::WriteFile {
                path: path@,
                data: data@,
            },
        }
    }
}

/// The models of a sequence of actions.
pub open spec fn views_of(s: Seq<FsAction>) -> Seq<ActionModel> {
    s.map_values(|a: FsAction| a@)
}

/// The actions one archive entry `(name, is_dir, data)` contributes: a
/// directory entry becomes its directory; a file entry becomes its parent
/// directory followed by the file write.
pub open spec fn entry_plan(dest: Seq<char>, e: (Seq<char>, bool, Seq<u8>)) -> Seq<ActionModel> {
    if e.1 {
        seq![ActionModel::MakeDir { path: join_spec(dest, e.0) }]
    } else {
        seq![
            ActionModel::MakeParentDir { path: parent_spec(join_spec(dest, e.0)) },
            ActionModel::WriteFile { path: join_spec(dest, e.0), data: e.2 },
        ]
    }
}

/// The whole extraction plan: the entries' actions in index order.
pub open spec fn plan_spec(dest: Seq<char>, entries: Seq<(Seq<char>, bool, Seq<u8>)>) -> Seq<
    ActionModel,
>
    decreases entries.len(),
{
    if entries.len() == 0 {
        Seq::empty()
    } else {
        plan_spec(dest, entries.drop_last()) + entry_plan(dest, entries.last())
    }
}

/// `m` starts with `prefix`.
pub open spec fn has_prefix(m: Seq<char>, prefix: Seq<char>) -> bool {
    prefix.len() <= m.len() && m.subrange(0, prefix.len() as int) == prefix
}

/// A concatenation starts with its first part.
pub proof fn lemma_has_prefix_concat(p: Seq<char>, rest: Seq<char>)
    ensures
        has_prefix(p + rest, p),
{
    assert((p + rest).subrange(0, p.len() as int) =~= p);
}

/// A double concatenation starts with its first part.
pub proof fn lemma_has_prefix_concat2(p: Seq<char>, a: Seq<char>, b: Seq<char>)
    ensures
        has_prefix(p + a + b, p),
{
    assert((p + a + b).subrange(0, p.len() as int) =~= p);
}

/// The message shapes with which `extract_zip` reports an archive that
/// would not open.
pub open spec fn extract_open_failure(m: Seq<char>) -> bool {
    ||| has_prefix(m, "Invalid ZIP file: "@)
    ||| has_prefix(m, "I/O error reading ZIP file: "@)
    ||| has_prefix(m, "Unsupported ZIP format: "@)
    ||| has_prefix(m, "ZIP file error: "@)
}

/// The message shapes with which `validate_zip` reports an archive that
/// would not open.
pub open spec fn validate_open_failure(m: Seq<char>) -> bool {
    ||| has_prefix(m, "Invalid ZIP file: "@)
    ||| has_prefix(m, "I/O error reading file: "@)
    ||| has_prefix(m, "Unsupported ZIP format: "@)
    ||| has_prefix(m, "ZIP validation error: "@)
}

/// The message shapes with which `get_zip_info` reports an archive that
/// would not open.
pub open spec fn info_open_failure(m: Seq<char>) -> bool {
    ||| has_prefix(m, "Invalid ZIP file: "@)
    ||| has_prefix(m, "I/O error reading file: "@)
    ||| has_prefix(m, "Unsupported ZIP format: "@)
    ||| has_prefix(m, "ZIP error: "@)
}

/// The exact message `extract_zip` owes for each way the codec refuses an
/// archive.
pub open spec fn extract_open_message(e: ArchiveErrorModel) -> Seq<char> {
    match e {
        ArchiveErrorModel::Invalid(d) => "Invalid ZIP file: "@ + d,
        ArchiveErrorModel::Io(d) => "I/O error reading ZIP file: "@ + d,
        ArchiveErrorModel::Unsupported(d) => "Unsupported ZIP format: "@ + d,
        ArchiveErrorModel::Other(d) => "ZIP file error: "@ + d,
    }
}

/// The exact message `validate_zip` owes for each way the codec refuses an
/// archive.
pub open spec fn validate_open_message(e: ArchiveErrorModel) -> Seq<char> {
    match e {
        ArchiveErrorModel::Invalid(d) => "Invalid ZIP file: "@ + d,
        ArchiveErrorModel::Io(d) => "I/O error reading file: "@ + d,
        ArchiveErrorModel::Unsupported(d) => "Unsupported ZIP format: "@ + d,
        ArchiveErrorModel::Other(d) => "ZIP validation error: "@ + d,
    }
}

/// The exact message `get_zip_info` owes for each way the codec refuses an
/// archive, with a short piece of guidance after the codec's own words.
pub open spec fn info_open_message(e: ArchiveErrorModel) -> Seq<char> {
    match e {
        ArchiveErrorModel::Invalid(d) => "Invalid ZIP file: "@ + d
            + ". This usually means the file is corrupted or incomplete. Try downloading it again."@,
        ArchiveErrorModel::Io(d) => "I/O error reading file: "@ + d
            + ". Check if the file is accessible and not locked by another process."@,
        ArchiveErrorModel::Unsupported(d) => "Unsupported ZIP format: "@ + d
            + ". The file might be using an unsupported compression method."@,
        ArchiveErrorModel::Other(d) => "ZIP error: "@ + d
            + ". This could indicate file corruption."@,
    }
}

/// The message `extract_zip` reports for each way the codec refuses an
/// archive.
pub fn extract_open_error_message(e: &ArchiveError) -> (r: String)
    ensures
        r@ == extract_open_message(e@),
        extract_open_failure(r@),
{
    let r = match e {
        ArchiveError::Invalid(m) => {
            let mut s = String::from_str("Invalid ZIP file: ");
            s.append(m.as_str());
            s
        },
        ArchiveError::Io(m) => {
            let mut s = String::from_str("I/O error reading ZIP file: ");
            s.append(m.as_str());
            s
        },
        ArchiveError::Unsupported(m) => {
            let mut s = String::from_str("Unsupported ZIP format: ");
            s.append(m.as_str());
            s
        },
        ArchiveError::Other(m) => {
            let mut s = String::from_str("ZIP file error: ");
            s.append(m.as_str());
            s
        },
    };
    proof {
        match e {
            ArchiveError::Invalid(m) => lemma_has_prefix_concat("Invalid ZIP file: "@, m@),
            ArchiveError::Io(m) => lemma_has_prefix_concat("I/O error reading ZIP file: "@, m@),
            ArchiveError::Unsupported(m) => lemma_has_prefix_concat(
                "Unsupported ZIP format: "@,
                m@,
            ),
            ArchiveError::Other(m) => lemma_has_prefix_concat("ZIP file error: "@, m@),
        }
    }
    r
}

/// The message `validate_zip` reports for each way the codec refuses an
/// archive.
pub fn validate_open_error_message(e: &ArchiveError) -> (r: String)
    ensures
        r@ == validate_open_message(e@),
        validate_open_failure(r@),
{
    let r = match e {
        ArchiveError::Invalid(m) => {
            let mut s = String::from_str("Invalid ZIP file: ");
            s.append(m.as_str());
            s
        },
        ArchiveError::Io(m) => {
            let mut s = String::from_str("I/O error reading file: ");
            s.append(m.as_str());
            s
        },
        ArchiveError::Unsupported(m) => {
            let mut s = String::from_str("Unsupported ZIP format: ");
            s.append(m.as_str());
            s
        },
        ArchiveError::Other(m) => {
            let mut s = String::from_str("ZIP validation error: ");
            s.append(m.as_str());
            s
        },
    };
    proof {
        match e {
            ArchiveError::Invalid(m) => lemma_has_prefix_concat("Invalid ZIP file: "@, m@),
            ArchiveError::Io(m) => lemma_has_prefix_concat("I/O error reading file: "@, m@),
            ArchiveError::Unsupported(m) => lemma_has_prefix_concat(
                "Unsupported ZIP format: "@,
                m@,
            ),
            ArchiveError::Other(m) => lemma_has_prefix_concat("ZIP validation error: "@, m@),
        }
    }
    r
}

/// The message `get_zip_info` reports for each way the codec refuses an
/// archive, with a short piece of guidance after the codec's own words.
pub fn info_open_error_message(e: &ArchiveError) -> (r: String)
    ensures
        r@ == info_open_message(e@),
        info_open_failure(r@),
{
    let r = match e {
        ArchiveError::Invalid(m) => {
            let mut s = String::from_str("Invalid ZIP file: ");
            s.append(m.as_str());
            s.append(
                ". This usually means the file is corrupted or incomplete. Try downloading it again.",
            );
            s
        },
        ArchiveError::Io(m) => {
            let mut s = String::from_str("I/O error reading file: ");
            s.append(m.as_str());
            s.append(". Check if the file is accessible and not locked by another process.");
            s
        },
        ArchiveError::Unsupported(m) => {
            let mut s = String::from_str("Unsupported ZIP format: ");
            s.append(m.as_str());
            s.append(". The file might be using an unsupported compression method.");
            s
        },
        ArchiveError::Other(m) => {
            let mut s = String::from_str("ZIP error: ");
            s.append(m.as_str());
            s.append(". This could indicate file corruption.");
            s
        },
    };
    proof {
        match e {
            ArchiveError::Invalid(m) => lemma_has_prefix_concat2(
                "Invalid ZIP file: "@,
                m@,
                ". This usually means the file is corrupted or incomplete. Try downloading it again."@,
            ),
            ArchiveError::Io(m) => lemma_has_prefix_concat2(
                "I/O error reading file: "@,
                m@,
                ". Check if the file is accessible and not locked by another process."@,
            ),
            ArchiveError::Unsupported(m) => lemma_has_prefix_concat2(
                "Unsupported ZIP format: "@,
                m@,
                ". The file might be using an unsupported compression method."@,
            ),
            ArchiveError::Other(m) => lemma_has_prefix_concat2(
                "ZIP error: "@,
                m@,
                ". This could indicate file corruption."@,
            ),
        }
    }
    r
}

/// The message `extract_zip` reports when the entry at index `i` cannot be
/// read out of the archive.
pub open spec fn entry_failure_message(i: nat, detail: Seq<char>) -> Seq<char> {
    "Failed to read file "@ + dec_rep(i) + " from ZIP: "@ + detail
}

/// The actions one decoded entry contributes to the plan, in order.
pub fn plan_entry_actions(destination: &str, name: &str, is_dir: bool, data: Vec<u8>) -> (v: Vec<
    FsAction,
>)
    ensures
        views_of(v@) == entry_plan(destination@, (name@, is_dir, data@)),
{
    let out_path = join_path(destination, name);
    let mut v: Vec<FsAction> = Vec::new();
    if is_dir {
        v.push(FsAction::MakeDir { path: out_path });
    } else {
        let parent = parent_path(out_path.as_str());
        v.push(FsAction::MakeParentDir { path: parent });
        v.push(FsAction::WriteFile { path: out_path, data });
    }
    proof {
        assert(views_of(v@) =~= entry_plan(destination@, (name@, is_dir, data@)));
    }
    v
}

/// Taking one more entry appends that entry's actions to the plan.
proof fn lemma_plan_spec_take_succ(
    dest: Seq<char>,
    es: Seq<(Seq<char>, bool, Seq<u8>)>,
    i: int,
)
    requires
        0 <= i < es.len(),
    ensures
        plan_spec(dest, es.take(i + 1)) == plan_spec(dest, es.take(i)) + entry_plan(dest, es[i]),
{
    assert(es.take(i + 1).drop_last() =~= es.take(i));
    assert(es.take(i + 1).last() == es[i]);
}

/// The models of concatenated actions are the concatenated models.
proof fn lemma_views_of_concat(s1: Seq<FsAction>, s2: Seq<FsAction>)
    ensures
        views_of(s1 + s2) == views_of(s1) + views_of(s2),
{
    assert(views_of(s1 + s2) =~= views_of(s1) + views_of(s2));
}

/// Plans the extraction of an archive into a pre-existing destination
/// directory.  The caller reports what it observed of the world — whether
/// the destination and the archive path exist, the archive's metadata size,
/// and the archive's bytes — and receives either the ordered plan of
/// filesystem actions or the exact error string the interface owes.
#[verifier::loop_isolation(false)]
pub fn extract_zip(
    destination: &str,
    dest_exists: bool,
    zip_exists: bool,
    size_result: &Result<u64, String>,
    read_result: &Result<Vec<u8>, String>,
) -> (r: Result<Vec<FsAction>, String>)
    ensures
        (!dest_exists ==> (r matches Err(m) && m@ == "Addon Folder does not exist"@)),
        (dest_exists && !zip_exists ==> (r matches Err(m) && m@ == "ZIP file does not exist"@)),
        (dest_exists && zip_exists ==> match size_result {
            Err(e) => r matches Err(m) && m@ == "Failed to read file metadata: "@ + e@,
            Ok(size) => {
                &&& (*size == 0 ==> (r matches Err(m) && m@ == "ZIP file is empty"@))
                &&& (*size > 0 ==> match read_result {
                    Err(e) => r matches Err(m) && m@ == "Failed to open ZIP file: "@ + e@,
                    Ok(b) => {
                        &&& (zip_parse(b@) is None ==> (r matches Err(m) && m@
                            == extract_open_message(zip_open_err(b@)) && extract_open_failure(
                            m@,
                        )))
                        &&& (zip_parse(b@) matches Some(es) ==> {
                            &&& (es.len() == 0 ==> (r matches Err(m) && m@
                                == "ZIP file contains no entries"@))
                            &&& (es.len() > 0 ==> {
                                &&& (r is Ok <==> (forall|i: int|
                                    0 <= i < es.len() ==> (#[trigger] entry_read_err(b@, i))
                                        is None))
                                &&& (r matches Ok(v) ==> views_of(v@) == plan_spec(
                                    destination@,
                                    es,
                                ))
                                &&& (r matches Err(m) ==> (exists|i: int|
                                    #![trigger entry_read_err(b@, i)]
                                    {
                                        &&& 0 <= i < es.len()
                                        &&& (forall|j: int|
                                            0 <= j < i ==> (#[trigger] entry_read_err(b@, j))
                                                is None)
                                        &&& (entry_read_err(b@, i) matches Some(d) && m@
                                            == entry_failure_message(i as nat, d))
                                    }))
                            })
                        })
                    },
                })
            },
        }),
{
    if !dest_exists {
        return Err(String::from_str("Addon Folder does not exist"));
    }
    if !zip_exists {
        return Err(String::from_str("ZIP file does not exist"));
    }
    let size: u64 = match size_result {
        Err(e) => {
            let mut m = String::from_str("Failed to read file metadata: ");
            m.append(e.as_str());
            return Err(m);
        },
        Ok(s) => *s,
    };
    if size == 0 {
        return Err(String::from_str("ZIP file is empty"));
    }
    let bytes: &Vec<u8> = match read_result {
        Err(e) => {
            let mut m = String::from_str("Failed to open ZIP file: ");
            m.append(e.as_str());
            return Err(m);
        },
        Ok(b) => b,
    };
    let mut a = match open_archive(bytes) {
        Err(err) => {
            return Err(extract_open_error_message(&err));
        },
        Ok(a) => a,
    };
    let count: usize = archive_len(&a);
    if count == 0 {
        return Err(String::from_str("ZIP file contains no entries"));
    }
    let ghost es = archive_entries(a);
    let mut plan: Vec<FsAction> = Vec::new();
    let mut i: usize = 0;
    while i < count
        invariant
            i <= count,
            archive_entries(a) == es,
            forall|j: int| (#[trigger] handle_read_err(a, j)) == entry_read_err(bytes@, j),
            forall|j: int| 0 <= j < i ==> (#[trigger] entry_read_err(bytes@, j)) is None,
            views_of(plan@) == plan_spec(destination@, es.take(i as int)),
        decreases count - i,
    {
        match read_entry(&mut a, i) {
            Err(d) => {
                let digits = u64_to_string(i as u64);
                let mut m = String::from_str("Failed to read file ");
                m.append(digits.as_str());
                m.append(" from ZIP: ");
                m.append(d.as_str());
                proof {
                    assert(entry_read_err(bytes@, i as int) == Some(d@));
                    assert(m@ == entry_failure_message(i as nat, d@));
                    assert((i as nat) < es.len());
                }
                return Err(m);
            },
            Ok((name, is_dir, data)) => {
                let mut acts = plan_entry_actions(destination, name.as_str(), is_dir, data);
                proof {
                    lemma_views_of_concat(plan@, acts@);
                    lemma_plan_spec_take_succ(destination@, es, i as int);
                }
                plan.append(&mut acts);
                i = i + 1;
            },
        }
    }
    proof {
        assert(es.take(count as int) =~= es);
    }
    Ok(plan)
}

/// Validates that the given path holds a well-formed archive.  Returns
/// `true` exactly when the bytes open as an archive; every other outcome is
/// the exact error string the interface owes.
pub fn validate_zip(zip_exists: bool, is_file: bool, read_result: &Result<Vec<u8>, String>) -> (r:
    Result<bool, String>)
    ensures
        (!zip_exists ==> (r matches Err(m) && m@ == "ZIP file does not exist"@)),
        (zip_exists && !is_file ==> (r matches Err(m) && m@ == "Path is not a file"@)),
        (zip_exists && is_file ==> match read_result {
            Err(e) => r matches Err(m) && m@ == "Failed to open file: "@ + e@,
            Ok(b) => {
                &&& (r is Ok <==> zip_parse(b@) is Some)
                &&& (r matches Ok(v) ==> v == true)
                &&& (r matches Err(m) ==> m@ == validate_open_message(zip_open_err(b@))
                    && validate_open_failure(m@))
            },
        }),
{
    if !zip_exists {
        return Err(String::from_str("ZIP file does not exist"));
    }
    if !is_file {
        return Err(String::from_str("Path is not a file"));
    }
    match read_result {
        Err(e) => {
            let mut m = String::from_str("Failed to open file: ");
            m.append(e.as_str());
            Err(m)
        },
        Ok(bytes) => match open_archive(bytes) {
            Ok(_archive) => Ok(true),
            Err(err) => Err(validate_open_error_message(&err)),
        },
    }
}

/// Summarises an archive: on success, exactly
/// `"Valid ZIP file: <entries> entries, <bytes> bytes"`; every other
/// outcome is the exact error string the interface owes.
pub fn get_zip_info(
    zip_exists: bool,
    is_file: bool,
    size_result: &Result<u64, String>,
    read_result: &Result<Vec<u8>, String>,
) -> (r: Result<String, String>)
    ensures
        (!zip_exists ==> (r matches Err(m) && m@ == "File does not exist"@)),
        (zip_exists && !is_file ==> (r matches Err(m) && m@ == "Path is not a file"@)),
        (zip_exists && is_file ==> match size_result {
            Err(e) => r matches Err(m) && m@ == "Failed to read metadata: "@ + e@,
            Ok(size) => {
                &&& (*size == 0 ==> (r matches Err(m) && m@ == "File is empty (0 bytes)"@))
                &&& (*size > 0 ==> match read_result {
                    Err(e) => r matches Err(m) && m@ == "Failed to open file: "@ + e@,
                    Ok(b) => {
                        &&& (zip_parse(b@) is None ==> (r matches Err(m) && m@
                            == info_open_message(zip_open_err(b@)) && info_open_failure(m@)))
                        &&& (zip_parse(b@) matches Some(es) ==> {
                            &&& (es.len() == 0 ==> (r matches Err(m) && m@
                                == "ZIP file contains no entries"@))
                            &&& (es.len() > 0 ==> (r matches Ok(s) && s@ == "Valid ZIP file: "@
                                + dec_rep(es.len()) + " entries, "@ + dec_rep(*size as nat)
                                + " bytes"@))
                        })
                    },
                })
            },
        }),
{
    if !zip_exists {
        return Err(String::from_str("File does not exist"));
    }
    if !is_file {
        return Err(String::from_str("Path is not a file"));
    }
    let size: u64 = match size_result {
        Err(e) => {
            let mut m = String::from_str("Failed to read metadata: ");
            m.append(e.as_str());
            return Err(m);
        },
        Ok(s) => *s,
    };
    if size == 0 {
        return Err(String::from_str("File is empty (0 bytes)"));
    }
    let bytes: &Vec<u8> = match read_result {
        Err(e) => {
            let mut m = String::from_str("Failed to open file: ");
            m.append(e.as_str());
            return Err(m);
        },
        Ok(b) => b,
    };
    let a = match open_archive(bytes) {
        Err(err) => {
            return Err(info_open_error_message(&err));
        },
        Ok(a) => a,
    };
    let count: usize = archive_len(&a);
    if count == 0 {
        return Err(String::from_str("ZIP file contains no entries"));
    }
    let count_digits = u64_to_string(count as u64);
    let size_digits = u64_to_string(size);
    let mut s = String::from_str("Valid ZIP file: ");
    s.append(count_digits.as_str());
    s.append(" entries, ");
    s.append(size_digits.as_str());
    s.append(" bytes");
    Ok(s)
}

/// The message the caller owes when a `MakeDir` action fails.
pub fn dir_create_failure_message(path: &str, detail: &str) -> (r: String)
    ensures
        r@ == "Failed to create directory "@ + path@ + ": "@ + detail@,
{
    let mut s = String::from_str("Failed to create directory ");
    s.append(path);
    s.append(": ");
    s.append(detail);
    s
}

/// The message the caller owes when a `MakeParentDir` action fails.
pub fn parent_create_failure_message(path: &str, detail: &str) -> (r: String)
    ensures
        r@ == "Failed to create parent directory "@ + path@ + ": "@ + detail@,
{
    let mut s = String::from_str("Failed to create parent directory ");
    s.append(path);
    s.append(": ");
    s.append(detail);
    s
}

/// The message the caller owes when creating the file of a `WriteFile`
/// action fails.
pub fn file_create_failure_message(path: &str, detail: &str) -> (r: String)
    ensures
        r@ == "Failed to create file "@ + path@ + ": "@ + detail@,
{
    let mut s = String::from_str("Failed to create file ");
    s.append(path);
    s.append(": ");
    s.append(detail);
    s
}

/// The message the caller owes when writing the bytes of a `WriteFile`
/// action fails.
pub fn file_write_failure_message(path: &str, detail: &str) -> (r: String)
    ensures
        r@ == "Failed to extract file "@ + path@ + ": "@ + detail@,
{
    let mut s = String::from_str("Failed to extract file ");
    s.append(path);
    s.append(": ");
    s.append(detail);
    s
}

} // verus!
