use std::io::Write;
use zxp::error::ErrorKind;
use zxp::extract::{
    entry_decision, extraction_plan, is_confined, is_directory_name, Decision, ExtractOp,
};

fn options() -> zip::write::SimpleFileOptions {
    zip::write::SimpleFileOptions::default().compression_method(zip::CompressionMethod::Stored)
}

fn deflated() -> zip::write::SimpleFileOptions {
    zip::write::SimpleFileOptions::default().compression_method(zip::CompressionMethod::Deflated)
}

fn archive(entries: &[(&str, Option<&[u8]>)]) -> Vec<u8> {
    let mut w = zip::ZipWriter::new(std::io::Cursor::new(Vec::new()));
    for (name, data) in entries {
        match data {
            None => w.add_directory(*name, options()).unwrap(),
            Some(bytes) => {
                w.start_file(*name, deflated()).unwrap();
                w.write_all(bytes).unwrap();
            }
        }
    }
    w.finish().unwrap().into_inner()
}

fn dir(path: &str) -> ExtractOp {
    ExtractOp::CreateDir { path: path.to_string() }
}

fn file(path: &str, data: &[u8]) -> ExtractOp {
    ExtractOp::WriteFile { path: path.to_string(), data: data.to_vec() }
}

#[test]
fn scenario_directory_and_file_give_two_steps() {
    let bytes = archive(&[("pkgs/", None), ("pkgs/a.pkg", Some(b"DATA"))]);
    let plan = extraction_plan(bytes).unwrap();
    assert_eq!(plan, vec![dir("pkgs/"), file("pkgs/a.pkg", b"DATA")]);
}

#[test]
fn escaping_entries_are_left_out_of_the_plan() {
    let bytes = archive(&[
        ("../../etc/passwd", Some(b"root")),
        ("/etc/shadow", Some(b"x")),
        ("ok/../../up", Some(b"y")),
        ("a/../b", Some(b"inside but with a parent component")),
        ("../", None),
        ("safe.txt", Some(b"kept")),
        ("deep/er/", None),
    ]);
    let plan = extraction_plan(bytes).unwrap();
    assert_eq!(plan, vec![file("safe.txt", b"kept"), dir("deep/er/")]);
    for op in &plan {
        let path = match op {
            ExtractOp::CreateDir { path } => path,
            ExtractOp::WriteFile { path, .. } => path,
        };
        assert!(is_confined(path));
        let joined = std::path::Path::new("/target/root").join(path);
        assert!(joined.starts_with("/target/root"));
        assert!(!joined.components().any(|c| c == std::path::Component::ParentDir));
    }
}

#[test]
fn extracting_the_same_archive_twice_gives_the_same_plan() {
    let bytes = archive(&[
        ("pkgs/", None),
        ("pkgs/a.pkg", Some(b"DATA")),
        ("pkgs/b.pkg", Some(&[0u8, 1, 2, 3, 255, 254])),
        ("../x", Some(b"no")),
    ]);
    let first = extraction_plan(bytes.clone()).unwrap();
    let second = extraction_plan(bytes).unwrap();
    assert_eq!(first, second);
    assert_eq!(first.len(), 3);
}

#[test]
fn entries_come_in_container_order_with_their_data() {
    let big: Vec<u8> = (0..100_000u32).map(|i| (i % 251) as u8).collect();
    let bytes = archive(&[("z.bin", Some(&big)), ("a/b/c.txt", Some(b"")), ("a/", None)]);
    let plan = extraction_plan(bytes).unwrap();
    assert_eq!(plan, vec![file("z.bin", &big), file("a/b/c.txt", b""), dir("a/")]);
}

#[test]
fn an_empty_archive_gives_an_empty_plan() {
    assert_eq!(extraction_plan(archive(&[])), Ok(Vec::new()));
}

#[test]
fn bytes_that_are_no_archive_are_a_format_error() {
    for bytes in [Vec::new(), b"not a zip file".to_vec(), vec![0u8; 100]] {
        let e = extraction_plan(bytes).unwrap_err();
        assert_eq!(e.kind, ErrorKind::Format);
        assert!(e.message.starts_with("Invalid zip archive: "), "{}", e.message);
    }
}

#[test]
fn corrupt_entry_data_is_a_format_error() {
    let payload = b"0123456789abcdefghijklmnopqrstuvwxyz";
    let mut w = zip::ZipWriter::new(std::io::Cursor::new(Vec::new()));
    w.start_file("f.txt", options()).unwrap();
    w.write_all(payload).unwrap();
    let mut bytes = w.finish().unwrap().into_inner();
    let at = bytes.windows(payload.len()).position(|w| w == payload).unwrap();
    bytes[at] ^= 0xff;
    let e = extraction_plan(bytes).unwrap_err();
    assert_eq!(e.kind, ErrorKind::Format);
}

#[test]
fn corrupt_data_of_a_skipped_entry_is_not_read() {
    let payload = b"0123456789abcdefghijklmnopqrstuvwxyz";
    let mut w = zip::ZipWriter::new(std::io::Cursor::new(Vec::new()));
    w.start_file("../f.txt", options()).unwrap();
    w.write_all(payload).unwrap();
    let mut bytes = w.finish().unwrap().into_inner();
    let at = bytes.windows(payload.len()).position(|w| w == payload).unwrap();
    bytes[at] ^= 0xff;
    assert_eq!(extraction_plan(bytes), Ok(Vec::new()));
}

#[test]
fn confined_paths_are_relative_and_free_of_parent_components() {
    for path in ["", "a", "a/b", "a/b/", "./a", "a/./b", "a//b", "..a", "a..", "...", "a/..b/c",
        "a/b..", ".", "a\\..\\b", "..."] {
        assert!(is_confined(path), "{path:?}");
    }
    for path in ["/", "/a", "..", "../", "../a", "a/..", "a/../b", "a/b/../..", "a\0b", "\0",
        "a/../", "./.."] {
        assert!(!is_confined(path), "{path:?}");
    }
}

#[test]
fn directory_names_end_in_a_separator() {
    for path in ["a/", "/", "a\\", "a/b/", "\\"] {
        assert!(is_directory_name(path), "{path:?}");
    }
    for path in ["", "a", "a/b", "a/ ", "a/.", "é"] {
        assert!(!is_directory_name(path), "{path:?}");
    }
}

#[test]
fn decision_follows_the_name() {
    assert_eq!(entry_decision(None), Decision::Skip);
    assert_eq!(entry_decision(Some("../../etc/passwd".to_string())), Decision::Skip);
    assert_eq!(entry_decision(Some("/etc/passwd".to_string())), Decision::Skip);
    assert_eq!(entry_decision(Some("pkgs/".to_string())), Decision::Directory("pkgs/".to_string()));
    assert_eq!(
        entry_decision(Some("pkgs/a.pkg".to_string())),
        Decision::File("pkgs/a.pkg".to_string())
    );
    assert_eq!(entry_decision(Some(String::new())), Decision::File(String::new()));
}
