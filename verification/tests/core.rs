use std::io::Write;

use zipcore::greet;
use zipcore::numfmt::u64_to_string;
use zipcore::ops::FsAction;
use zipcore::ops::extract_zip;
use zipcore::ops::get_zip_info;
use zipcore::ops::validate_zip;
use zipcore::paths::join_path;
use zipcore::paths::parent_path;
use zipcore::text::read_file;

/// Builds archive bytes in memory: `Some(data)` adds a file entry, `None`
/// adds a directory entry.
fn build_zip(entries: &[(&str, Option<&[u8]>)]) -> Vec<u8> {
    let mut w = zip::ZipWriter::new(std::io::Cursor::new(Vec::new()));
    for (name, data) in entries {
        let opts = zip::write::SimpleFileOptions::default();
        match data {
            Some(d) => {
                w.start_file(*name, opts).unwrap();
                w.write_all(d).unwrap();
            }
            None => {
                w.add_directory(*name, opts).unwrap();
            }
        }
    }
    w.finish().unwrap().into_inner()
}

fn good_zip() -> Vec<u8> {
    build_zip(&[("a.txt", Some(b"hi")), ("sub/b.txt", Some(b"yo")), ("sub", None)])
}

#[test]
fn greet_says_hello() {
    assert_eq!(greet("Rust"), "Hello, Rust! You've been greeted from Rust!");
}

#[test]
fn u64_renders_decimal() {
    assert_eq!(u64_to_string(0), "0");
    assert_eq!(u64_to_string(7), "7");
    assert_eq!(u64_to_string(10239), "10239");
    assert_eq!(u64_to_string(u64::MAX), "18446744073709551615");
}

#[test]
fn join_appends_separator() {
    assert_eq!(join_path("a", "b/c"), "a/b/c");
    assert_eq!(join_path("/tmp/out", "a.txt"), "/tmp/out/a.txt");
}

#[test]
fn parent_stops_at_last_separator() {
    assert_eq!(parent_path("a/b/c"), "a/b");
    assert_eq!(parent_path("/tmp/out/a.txt"), "/tmp/out");
    assert_eq!(parent_path("abc"), "");
}

#[test]
fn extract_plans_all_entries() {
    let bytes = good_zip();
    let size = bytes.len() as u64;
    let r = extract_zip("/tmp/out", true, true, &Ok(size), &Ok(bytes));
    let plan = r.unwrap();
    assert_eq!(
        plan,
        vec![
            FsAction::MakeParentDir { path: "/tmp/out".to_string() },
            FsAction::WriteFile { path: "/tmp/out/a.txt".to_string(), data: b"hi".to_vec() },
            FsAction::MakeParentDir { path: "/tmp/out/sub".to_string() },
            FsAction::WriteFile { path: "/tmp/out/sub/b.txt".to_string(), data: b"yo".to_vec() },
            FsAction::MakeDir { path: "/tmp/out/sub/".to_string() },
        ]
    );
}

#[test]
fn extract_missing_destination() {
    let bytes = good_zip();
    let size = bytes.len() as u64;
    let r = extract_zip("/tmp/nope", false, true, &Ok(size), &Ok(bytes));
    assert_eq!(r.unwrap_err(), "Addon Folder does not exist");
}

#[test]
fn extract_missing_zip() {
    let r = extract_zip("/tmp/out", true, false, &Ok(1), &Err("unused".to_string()));
    assert_eq!(r.unwrap_err(), "ZIP file does not exist");
}

#[test]
fn extract_metadata_failure() {
    let r = extract_zip(
        "/tmp/out",
        true,
        true,
        &Err("denied".to_string()),
        &Err("unused".to_string()),
    );
    assert_eq!(r.unwrap_err(), "Failed to read file metadata: denied");
}

#[test]
fn extract_empty_zip_file() {
    let r = extract_zip("/tmp/out", true, true, &Ok(0), &Ok(Vec::new()));
    assert_eq!(r.unwrap_err(), "ZIP file is empty");
}

#[test]
fn extract_read_failure() {
    let r = extract_zip("/tmp/out", true, true, &Ok(9), &Err("locked".to_string()));
    assert_eq!(r.unwrap_err(), "Failed to open ZIP file: locked");
}

#[test]
fn extract_rejects_garbage() {
    let r = extract_zip("/tmp/out", true, true, &Ok(3), &Ok(vec![1, 2, 3]));
    let m = r.unwrap_err();
    assert!(
        m.starts_with("Invalid ZIP file: ")
            || m.starts_with("I/O error reading ZIP file: ")
            || m.starts_with("Unsupported ZIP format: ")
            || m.starts_with("ZIP file error: "),
        "unexpected message: {}",
        m
    );
}

#[test]
fn extract_rejects_archive_without_entries() {
    let bytes = build_zip(&[]);
    let size = bytes.len() as u64;
    let r = extract_zip("/tmp/out", true, true, &Ok(size), &Ok(bytes));
    assert_eq!(r.unwrap_err(), "ZIP file contains no entries");
}

#[test]
fn validate_accepts_good_archive() {
    let r = validate_zip(true, true, &Ok(good_zip()));
    assert_eq!(r.unwrap(), true);
}

#[test]
fn validate_missing_zip() {
    let r = validate_zip(false, false, &Err("unused".to_string()));
    assert_eq!(r.unwrap_err(), "ZIP file does not exist");
}

#[test]
fn validate_rejects_directory() {
    let r = validate_zip(true, false, &Err("unused".to_string()));
    assert_eq!(r.unwrap_err(), "Path is not a file");
}

#[test]
fn validate_read_failure() {
    let r = validate_zip(true, true, &Err("locked".to_string()));
    assert_eq!(r.unwrap_err(), "Failed to open file: locked");
}

#[test]
fn validate_rejects_zero_bytes() {
    let r = validate_zip(true, true, &Ok(Vec::new()));
    let m = r.unwrap_err();
    assert!(
        m.starts_with("Invalid ZIP file:") || m.starts_with("I/O error reading file:"),
        "unexpected message: {}",
        m
    );
}

#[test]
fn info_reports_entries_and_bytes() {
    let bytes = good_zip();
    let r = get_zip_info(true, true, &Ok(512), &Ok(bytes));
    assert_eq!(r.unwrap(), "Valid ZIP file: 3 entries, 512 bytes");
}

#[test]
fn info_missing_file() {
    let r = get_zip_info(false, false, &Ok(1), &Err("unused".to_string()));
    assert_eq!(r.unwrap_err(), "File does not exist");
}

#[test]
fn info_rejects_directory() {
    let r = get_zip_info(true, false, &Ok(1), &Err("unused".to_string()));
    assert_eq!(r.unwrap_err(), "Path is not a file");
}

#[test]
fn info_metadata_failure() {
    let r = get_zip_info(true, true, &Err("denied".to_string()), &Err("unused".to_string()));
    assert_eq!(r.unwrap_err(), "Failed to read metadata: denied");
}

#[test]
fn info_rejects_empty_file() {
    let r = get_zip_info(true, true, &Ok(0), &Ok(Vec::new()));
    assert_eq!(r.unwrap_err(), "File is empty (0 bytes)");
}

#[test]
fn info_rejects_archive_without_entries() {
    let bytes = build_zip(&[]);
    let size = bytes.len() as u64;
    let r = get_zip_info(true, true, &Ok(size), &Ok(bytes));
    assert_eq!(r.unwrap_err(), "ZIP file contains no entries");
}

#[test]
fn info_garbage_carries_guidance() {
    let r = get_zip_info(true, true, &Ok(4), &Ok(vec![9, 9, 9, 9]));
    let m = r.unwrap_err();
    if m.starts_with("Invalid ZIP file: ") {
        assert!(m.ends_with(
            ". This usually means the file is corrupted or incomplete. Try downloading it again."
        ));
    } else {
        assert!(
            m.starts_with("I/O error reading file: ")
                || m.starts_with("Unsupported ZIP format: ")
                || m.starts_with("ZIP error: "),
            "unexpected message: {}",
            m
        );
    }
}

#[test]
fn read_file_returns_contents() {
    let r = read_file(Ok(b"hello\n".to_vec()));
    assert_eq!(r.unwrap(), "hello\n");
}

#[test]
fn read_file_rejects_invalid_utf8() {
    let r = read_file(Ok(vec![0xff, 0xfe]));
    assert_eq!(r.unwrap_err(), "stream did not contain valid UTF-8");
}

#[test]
fn read_file_passes_read_error_verbatim() {
    let r = read_file(Err("No such file or directory (os error 2)".to_string()));
    assert_eq!(r.unwrap_err(), "No such file or directory (os error 2)");
}

#[test]
fn join_absolute_name_replaces_root() {
    assert_eq!(join_path("/tmp/out", "/etc/x"), "/etc/x");
    assert_eq!(join_path("/tmp/out", "etc/x"), "/tmp/out/etc/x");
}
