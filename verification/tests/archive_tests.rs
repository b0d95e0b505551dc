use std::io::Write;

use sopush::archive::extract_so;
use sopush::archive::select_so_entry;
use sopush::archive::ArchiveEntry;
use sopush::error::Error;

fn b(s: &str) -> Vec<u8> {
    s.as_bytes().to_vec()
}

fn entry(name: &str, is_file: bool, data: &str) -> ArchiveEntry {
    ArchiveEntry { name: b(name), is_file, data: b(data) }
}

fn sample_zip() -> Vec<u8> {
    let cursor = std::io::Cursor::new(Vec::new());
    let mut w = zip::ZipWriter::new(cursor);
    let opts = zip::write::SimpleFileOptions::default().compression_method(
        zip::CompressionMethod::Stored,
    );
    w.start_file("lib/armeabi-v7a/x.so", opts).unwrap();
    w.write_all(b"arm32 bits").unwrap();
    w.start_file("lib/arm64-v8a/x.so", opts).unwrap();
    w.write_all(b"arm64 bits").unwrap();
    w.finish().unwrap().into_inner()
}

#[test]
fn selects_first_matching_entry() {
    let entries = vec![
        entry("lib/armeabi-v7a/x.so", true, ""),
        entry("lib/arm64-v8a/x.so", true, ""),
    ];
    assert_eq!(select_so_entry(&entries, &b("arm64-v8a")), Some(1));
    assert_eq!(select_so_entry(&entries, &b("armeabi-v7a")), Some(0));
    assert_eq!(select_so_entry(&entries, &b("x86")), None);
}

#[test]
fn directories_and_other_files_are_skipped() {
    let entries = vec![
        entry("lib/arm64-v8a/", false, ""),
        entry("lib/arm64-v8a/readme.txt", true, ""),
        entry("lib/arm64-v8a/x.so", true, ""),
    ];
    assert_eq!(select_so_entry(&entries, &b("arm64-v8a")), Some(2));
}

#[test]
fn extracts_matching_architecture() {
    let data = sample_zip();
    let (name, content) = extract_so(data, &b("arm64-v8a"), &b("x.aar")).unwrap();
    assert_eq!(name, b("x.so"));
    assert_eq!(content, b("arm64 bits"));
}

#[test]
fn extracts_other_architecture() {
    let data = sample_zip();
    let (name, content) = extract_so(data, &b("armeabi-v7a"), &b("x.aar")).unwrap();
    assert_eq!(name, b("x.so"));
    assert_eq!(content, b("arm32 bits"));
}

#[test]
fn missing_architecture_reports_not_found() {
    let data = sample_zip();
    let e = extract_so(data, &b("x86"), &b("x.aar")).unwrap_err();
    assert_eq!(e, Error::LibraryNotFoundInArchive { arch: b("x86"), archive_path: b("x.aar") });
}

#[test]
fn unreadable_archive_reports_archive_error() {
    let e = extract_so(b("this is not a zip"), &b("arm64-v8a"), &b("x.aar")).unwrap_err();
    assert_eq!(e, Error::ArchiveError);
}
