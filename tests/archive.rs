use std::io::{Read, Write};

use omu_dash::archive::{entry_target, format_from_probes, same_components, split_components, ArchiveFormat};

#[test]
fn strips_leading_components() {
    assert_eq!(entry_target("dst", "python/bin/python3", 1), Some("dst/bin/python3".to_string()));
    assert_eq!(entry_target("dst", "python/bin/python3", 0), Some("dst/python/bin/python3".to_string()));
    assert_eq!(entry_target("dst/", "a", 0), Some("dst/a".to_string()));
}

#[test]
fn nothing_left_after_stripping_is_skipped() {
    assert_eq!(entry_target("dst", "python/", 1), None);
    assert_eq!(entry_target("dst", "python", 1), None);
    assert_eq!(entry_target("dst", "", 0), None);
}

#[test]
fn empty_and_dot_segments_are_dropped() {
    assert_eq!(entry_target("dst", "./a//b/./c", 0), Some("dst/a/b/c".to_string()));
    assert_eq!(split_components("./a//b/"), vec!["a".to_string(), "b".to_string()]);
}

#[test]
fn parent_segments_that_escape_are_skipped() {
    assert_eq!(entry_target("dst", "../evil", 0), None);
    assert_eq!(entry_target("dst", "pkg/../../evil", 1), None);
    assert_eq!(entry_target("dst", "pkg\\..\\..\\evil", 0), None);
    assert_eq!(entry_target("dst", "a/../../b", 0), None);
    assert_eq!(entry_target("dst", "a/..", 0), None);
}

#[test]
fn parent_segments_inside_the_destination_are_resolved() {
    assert_eq!(entry_target("dst", "a/../b", 0), Some("dst/b".to_string()));
    assert_eq!(entry_target("dst", "a/b/..", 0), Some("dst/a".to_string()));
    assert_eq!(entry_target("dst", "pkg\\..\\evil", 0), Some("dst/evil".to_string()));
    assert_eq!(entry_target("dst", "top/a/../b/c", 1), Some("dst/b/c".to_string()));
}

#[test]
fn same_place_whatever_the_separators() {
    assert!(same_components("a\\b/c", "a/b\\c/"));
    assert!(!same_components("a/b", "a/b/c"));
    assert!(!same_components("a/b", "a/c"));
}

#[test]
fn absolute_entries_are_skipped() {
    assert_eq!(entry_target("dst", "/etc/passwd", 0), None);
    assert_eq!(entry_target("dst", "/etc/passwd", 1), None);
    assert_eq!(entry_target("dst", "C:\\Windows\\x", 0), None);
}

#[test]
fn a_stripped_parent_does_not_block() {
    assert_eq!(entry_target("dst", "../pkg/a", 1), Some("dst/pkg/a".to_string()));
}

#[test]
fn probe_priority() {
    assert_eq!(format_from_probes(true, true, true, true), Some(ArchiveFormat::TarZstd));
    assert_eq!(format_from_probes(false, true, true, true), Some(ArchiveFormat::TarGz));
    assert_eq!(format_from_probes(false, false, true, true), Some(ArchiveFormat::TarBz2));
    assert_eq!(format_from_probes(false, false, false, true), Some(ArchiveFormat::Zip));
    assert_eq!(format_from_probes(false, false, false, false), None);
}

fn sample_tar() -> Vec<u8> {
    let mut b = tar::Builder::new(Vec::new());
    let data = b"hello";
    let mut h = tar::Header::new_gnu();
    h.set_size(data.len() as u64);
    h.set_mode(0o644);
    h.set_cksum();
    b.append_data(&mut h, "top/file.txt", &data[..]).unwrap();
    b.into_inner().unwrap()
}

#[test]
fn peek_recognises_gzip() {
    let mut e = flate2::write::GzEncoder::new(Vec::new(), flate2::Compression::default());
    e.write_all(&sample_tar()).unwrap();
    let gz = e.finish().unwrap();
    assert_eq!(ArchiveFormat::peek(&gz), Some(ArchiveFormat::TarGz));
}

#[test]
fn peek_recognises_zstd() {
    let z = zstd::encode_all(&sample_tar()[..], 3).unwrap();
    assert_eq!(ArchiveFormat::peek(&z), Some(ArchiveFormat::TarZstd));
}

#[test]
fn peek_recognises_bzip2() {
    let mut e = bzip2::write::BzEncoder::new(Vec::new(), bzip2::Compression::default());
    e.write_all(&sample_tar()).unwrap();
    let bz = e.finish().unwrap();
    assert_eq!(ArchiveFormat::peek(&bz), Some(ArchiveFormat::TarBz2));
}

#[test]
fn peek_recognises_zip() {
    let mut w = zip::ZipWriter::new(std::io::Cursor::new(Vec::new()));
    w.start_file("a.txt", zip::write::FileOptions::default()).unwrap();
    w.write_all(b"hi").unwrap();
    let bytes = w.finish().unwrap().into_inner();
    assert_eq!(ArchiveFormat::peek(&bytes), Some(ArchiveFormat::Zip));
}

#[test]
fn peek_rejects_other_bytes() {
    assert_eq!(ArchiveFormat::peek(b"plain text, not an archive"), None);
    assert!(ArchiveFormat::TarGz.is_tar());
    assert!(!ArchiveFormat::Zip.is_tar());
}

#[test]
fn packed_paths_unpack_to_the_same_relative_paths() {
    let names = ["logs/a.log", "logs/2024-01-01/b.log", "c.txt"];
    let mut b = tar::Builder::new(Vec::new());
    for (i, n) in names.iter().enumerate() {
        let data = vec![i as u8; 3];
        let mut h = tar::Header::new_gnu();
        h.set_size(3);
        h.set_mode(0o644);
        h.set_cksum();
        b.append_data(&mut h, n, &data[..]).unwrap();
    }
    let raw = b.into_inner().unwrap();
    let mut e = flate2::write::GzEncoder::new(Vec::new(), flate2::Compression::default());
    e.write_all(&raw).unwrap();
    let gz = e.finish().unwrap();
    assert_eq!(ArchiveFormat::peek(&gz), Some(ArchiveFormat::TarGz));
    let mut archive = tar::Archive::new(flate2::read::GzDecoder::new(&gz[..]));
    let mut seen = Vec::new();
    for entry in archive.entries().unwrap() {
        let mut entry = entry.unwrap();
        let name = entry.path().unwrap().to_string_lossy().to_string();
        let mut content = Vec::new();
        entry.read_to_end(&mut content).unwrap();
        seen.push((entry_target("out", &name, 0).unwrap(), content));
    }
    let expected: Vec<(String, Vec<u8>)> =
        names.iter().enumerate().map(|(i, n)| (format!("out/{}", n), vec![i as u8; 3])).collect();
    assert_eq!(seen, expected);
}
