use lapce_powershell::archive::{
    check_enclosed, classify_entry, plan_extraction, ArchiveError, EntryKind, ExtractStep,
};
use std::io::Write;

fn zip_of(entries: &[(&str, Option<&[u8]>)]) -> Vec<u8> {
    let mut w = zip::ZipWriter::new(std::io::Cursor::new(Vec::new()));
    let opts = zip::write::FileOptions::default();
    for (name, body) in entries {
        match body {
            None => w.add_directory(*name, opts).unwrap(),
            Some(b) => {
                w.start_file(*name, opts).unwrap();
                w.write_all(b).unwrap();
            }
        }
    }
    w.finish().unwrap().into_inner()
}

#[test]
fn enclosed_paths() {
    assert!(check_enclosed("a/b.ps1"));
    assert!(check_enclosed("a/..b/c"));
    assert!(check_enclosed("..."));
    assert!(!check_enclosed(""));
    assert!(!check_enclosed("/etc/passwd"));
    assert!(!check_enclosed("\\share"));
    assert!(!check_enclosed("../../evil.ps1"));
    assert!(!check_enclosed("a/../b"));
    assert!(!check_enclosed("a/.."));
    assert!(!check_enclosed("a\\..\\b"));
    assert!(!check_enclosed("C:evil"));
    assert!(!check_enclosed("a\0b"));
}

#[test]
fn traversal_entry_is_skipped() {
    let enclosed = Some("../../evil.ps1".to_string());
    assert_eq!(classify_entry("../../evil.ps1", &enclosed), EntryKind::Skip);
    assert_eq!(classify_entry("../../evil.ps1", &None), EntryKind::Skip);
}

#[test]
fn entries_are_classified_by_name() {
    assert_eq!(classify_entry("m/", &Some("m/".to_string())), EntryKind::Dir);
    assert_eq!(classify_entry("m/a.ps1", &Some("m/a.ps1".to_string())), EntryKind::File);
}

#[test]
fn extraction_skips_traversal_and_keeps_order() {
    let bytes = zip_of(&[
        ("PowerShellEditorServices/", None),
        ("../../evil.ps1", Some(b"bad")),
        ("PowerShellEditorServices/Start-EditorServices.ps1", Some(b"script")),
        ("/abs.ps1", Some(b"bad")),
    ]);
    let steps = plan_extraction(bytes, "/work/PSES").unwrap();
    assert_eq!(
        steps,
        vec![
            ExtractStep::CreateDir { path: "/work/PSES/PowerShellEditorServices/".to_string() },
            ExtractStep::WriteFile {
                path: "/work/PSES/PowerShellEditorServices/Start-EditorServices.ps1".to_string(),
                contents: b"script".to_vec(),
            },
        ]
    );
    for step in &steps {
        let path = match step {
            ExtractStep::CreateDir { path } => path,
            ExtractStep::WriteFile { path, .. } => path,
        };
        assert!(path.starts_with("/work/PSES/"));
        assert!(!path.contains(".."));
    }
}

#[test]
fn extraction_of_empty_archive_plans_nothing() {
    let bytes = zip_of(&[]);
    assert_eq!(plan_extraction(bytes, "/work/PSES").unwrap(), vec![]);
}

#[test]
fn unreadable_archive_is_an_error() {
    assert_eq!(plan_extraction(vec![1, 2, 3], "/work/PSES"), Err(ArchiveError::Unreadable));
    assert_eq!(plan_extraction(vec![], "/work/PSES"), Err(ArchiveError::Unreadable));
}

#[test]
fn corrupt_entry_is_bad_entry() {
    let opts = zip::write::FileOptions::default()
        .compression_method(zip::CompressionMethod::Stored);
    let mut w = zip::ZipWriter::new(std::io::Cursor::new(Vec::new()));
    w.add_directory("m/", opts).unwrap();
    w.start_file("m/a.ps1", opts).unwrap();
    w.write_all(b"unique-script-body").unwrap();
    let mut bytes = w.finish().unwrap().into_inner();
    let at = bytes
        .windows(b"unique-script-body".len())
        .position(|x| x == b"unique-script-body")
        .unwrap();
    bytes[at] ^= 0xff;
    assert_eq!(plan_extraction(bytes, "/r"), Err(ArchiveError::BadEntry { index: 1 }));
}

#[test]
fn stored_and_deflated_entries_are_read() {
    let stored = zip::write::FileOptions::default()
        .compression_method(zip::CompressionMethod::Stored);
    let deflated = zip::write::FileOptions::default()
        .compression_method(zip::CompressionMethod::Deflated);
    let mut w = zip::ZipWriter::new(std::io::Cursor::new(Vec::new()));
    w.start_file("s.txt", stored).unwrap();
    w.write_all(b"stored").unwrap();
    w.start_file("d.txt", deflated).unwrap();
    w.write_all(&[b'x'; 300]).unwrap();
    let bytes = w.finish().unwrap().into_inner();
    assert_eq!(
        plan_extraction(bytes, "/r").unwrap(),
        vec![
            ExtractStep::WriteFile { path: "/r/s.txt".to_string(), contents: b"stored".to_vec() },
            ExtractStep::WriteFile { path: "/r/d.txt".to_string(), contents: vec![b'x'; 300] },
        ]
    );
}
