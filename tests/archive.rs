use sonar_backend::archive::{
    entry_step, is_confined, is_dir_name, plan_extraction, unzip_file, ArchiveEntry, ExtractStep,
};
use sonar_backend::error::AppError;
use std::io::{Cursor, Write};
use zip::write::SimpleFileOptions;
use zip::{CompressionMethod, ZipWriter};

fn zip_of(entries: &[(&str, &[u8])]) -> Vec<u8> {
    let mut w = ZipWriter::new(Cursor::new(Vec::new()));
    let opts = SimpleFileOptions::default()
        .compression_method(CompressionMethod::Stored)
        .unix_permissions(0o644);
    for (name, data) in entries {
        if name.ends_with('/') {
            w.add_directory(name.to_string(), opts).unwrap();
        } else {
            w.start_file(name.to_string(), opts).unwrap();
            w.write_all(data).unwrap();
        }
    }
    w.finish().unwrap().into_inner()
}

fn path_of(s: &ExtractStep) -> &str {
    match s {
        ExtractStep::Dir(p, _) => p,
        ExtractStep::File(p, _, _) => p,
    }
}

#[test]
fn one_source_file_is_unpacked() {
    let bytes = zip_of(&[("src/main.rs", b"fn main() {}")]);
    let steps = unzip_file(bytes).unwrap();
    assert_eq!(steps.len(), 1);
    match &steps[0] {
        ExtractStep::File(p, data, mode) => {
            assert_eq!(p, "src/main.rs");
            assert_eq!(data.as_slice(), b"fn main() {}");
            assert_eq!(mode.map(|m| m & 0o777), Some(0o644));
        }
        other => panic!("unexpected {:?}", other),
    }
}

#[test]
fn directories_become_directory_steps() {
    let bytes = zip_of(&[("src/", b""), ("src/a.rs", b"x")]);
    let steps = unzip_file(bytes).unwrap();
    assert_eq!(steps.len(), 2);
    assert!(matches!(&steps[0], ExtractStep::Dir(p, _) if p.trim_end_matches('/') == "src"));
    assert!(matches!(&steps[1], ExtractStep::File(p, _, _) if p == "src/a.rs"));
}

#[test]
fn escaping_entries_are_never_written() {
    let bytes = zip_of(&[
        ("../evil.txt", b"x"),
        ("ok/../../evil2.txt", b"x"),
        ("/etc/passwd", b"x"),
        ("good.txt", b"y"),
    ]);
    let steps = unzip_file(bytes).unwrap();
    for s in &steps {
        let p = path_of(s);
        assert!(!p.starts_with('/'));
        assert!(!p.split('/').any(|seg| seg == ".."));
    }
    assert!(steps.iter().any(|s| path_of(s) == "good.txt"));
    assert!(!steps.iter().any(|s| path_of(s).contains("evil")));
}

#[test]
fn corrupt_archive_is_an_archive_error() {
    let e = unzip_file(b"definitely not a zip".to_vec()).unwrap_err();
    assert!(matches!(e, AppError::ZipError(_)));
    assert_eq!(e.status_code(), 400);
    assert!(e.message().starts_with("Zip Error: Failed to read zip archive: "));
}

#[test]
fn empty_archive_has_no_steps() {
    let steps = unzip_file(zip_of(&[])).unwrap();
    assert!(steps.is_empty());
}

#[test]
fn confinement_rule() {
    assert!(is_confined("a/b.txt"));
    assert!(is_confined("a..b/c"));
    assert!(is_confined("..a"));
    assert!(is_confined(""));
    assert!(!is_confined(".."));
    assert!(!is_confined("../a"));
    assert!(!is_confined("a/.."));
    assert!(!is_confined("a/../b"));
    assert!(!is_confined("/a"));
}

#[test]
fn directory_names() {
    assert!(is_dir_name("a/"));
    assert!(!is_dir_name("a"));
    assert!(!is_dir_name(""));
}

#[test]
fn entry_steps() {
    let e = ArchiveEntry {
        name: "../x".to_string(),
        enclosed: None,
        unix_mode: None,
        data: vec![1],
    };
    assert!(entry_step(e).is_none());
    let e = ArchiveEntry {
        name: "d/".to_string(),
        enclosed: Some("d".to_string()),
        unix_mode: Some(0o755),
        data: vec![],
    };
    assert!(matches!(entry_step(e), Some(ExtractStep::Dir(p, Some(0o755))) if p == "d"));
    let e = ArchiveEntry {
        name: "a/../../b".to_string(),
        enclosed: Some("a/../../b".to_string()),
        unix_mode: None,
        data: vec![],
    };
    assert!(entry_step(e).is_none());
}

fn entry(name: &str, enclosed: Option<&str>) -> ArchiveEntry {
    ArchiveEntry {
        name: name.to_string(),
        enclosed: enclosed.map(|s| s.to_string()),
        unix_mode: None,
        data: name.as_bytes().to_vec(),
    }
}

#[test]
fn plan_keeps_order_and_drops_escapes() {
    let steps = plan_extraction(vec![
        entry("b.txt", Some("b.txt")),
        entry("/abs", None),
        entry("x/../../y", Some("x/../../y")),
        entry("d/", Some("d")),
        entry("a.txt", Some("a.txt")),
    ]);
    let paths: Vec<&str> = steps.iter().map(path_of).collect();
    assert_eq!(paths, vec!["b.txt", "d", "a.txt"]);
    assert!(matches!(&steps[1], ExtractStep::Dir(_, None)));
    assert!(matches!(&steps[2], ExtractStep::File(_, d, None) if d == b"a.txt"));
}
