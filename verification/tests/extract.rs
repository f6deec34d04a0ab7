use std::io::{Cursor, Write};

use centy_installer::extract::{extract_tar_gz, extract_zip, member_is_binary, ArchiveMember};
use centy_installer::{extract_binary, InstallerError};

fn tar_gz_of(files: &[(&str, &[u8])]) -> Vec<u8> {
    let mut tar_builder = tar::Builder::new(Vec::new());
    for (name, content) in files {
        let mut header = tar::Header::new_gnu();
        header.set_size(content.len() as u64);
        header.set_mode(0o755);
        header.set_cksum();
        tar_builder
            .append_data(&mut header, name, &content[..])
            .unwrap();
    }
    let tar_bytes = tar_builder.into_inner().unwrap();
    let mut encoder = flate2::write::GzEncoder::new(Vec::new(), flate2::Compression::default());
    encoder.write_all(&tar_bytes).unwrap();
    encoder.finish().unwrap()
}

fn zip_of(files: &[(&str, &[u8])]) -> Vec<u8> {
    let buf = Cursor::new(Vec::new());
    let mut zip = zip::ZipWriter::new(buf);
    let options = zip::write::SimpleFileOptions::default();
    for (name, content) in files {
        zip.start_file(*name, options).unwrap();
        zip.write_all(content).unwrap();
    }
    zip.finish().unwrap().into_inner()
}

fn create_zip_with_file(name: &str, content: &[u8]) -> Vec<u8> {
    zip_of(&[(name, content)])
}

fn member(path: &str, data: &[u8]) -> ArchiveMember {
    ArchiveMember { path: Some(path.as_bytes().to_vec()), data: data.to_vec() }
}

#[test]
fn extract_tar_gz_finds_binary() {
    let gz_bytes = tar_gz_of(&[("centy-daemon", b"fake-binary-content")]);
    let result = extract_tar_gz(&gz_bytes).unwrap();
    assert_eq!(result, b"fake-binary-content");
}

#[test]
fn extract_tar_gz_finds_binary_in_subdirectory() {
    let gz_bytes = tar_gz_of(&[("subdir/centy-daemon", b"nested-binary")]);
    let result = extract_tar_gz(&gz_bytes).unwrap();
    assert_eq!(result, b"nested-binary");
}

#[test]
fn extract_tar_gz_missing_binary() {
    let gz_bytes = tar_gz_of(&[("other-file", b"other")]);
    let result = extract_tar_gz(&gz_bytes);
    assert!(result.is_err());
    assert!(result.unwrap_err().contains("not found in tar.gz archive"));
}

#[test]
fn extract_tar_gz_invalid_data() {
    let result = extract_tar_gz(b"not-a-valid-archive");
    assert!(result.is_err());
}

#[test]
fn extract_tar_gz_invalid_data_is_a_read_error() {
    let message = extract_tar_gz(b"not-a-valid-archive").unwrap_err();
    assert!(message.starts_with("failed to read tar entry: "));
}

#[test]
fn extract_tar_gz_skips_non_matching_entries() {
    let gz_bytes = tar_gz_of(&[("readme.txt", b"other-content"), ("centy-daemon", b"the-binary")]);
    let result = extract_tar_gz(&gz_bytes).unwrap();
    assert_eq!(result, b"the-binary");
}

#[test]
fn extract_tar_gz_finds_binary_at_any_position() {
    let first = tar_gz_of(&[("centy-daemon", b"bin"), ("a.txt", b"a"), ("b.txt", b"b")]);
    let middle = tar_gz_of(&[("a.txt", b"a"), ("pkg/bin/centy-daemon", b"bin"), ("b.txt", b"b")]);
    let last = tar_gz_of(&[("a.txt", b"a"), ("b.txt", b"b"), ("centy-daemon", b"bin")]);
    assert_eq!(extract_tar_gz(&first).unwrap(), b"bin");
    assert_eq!(extract_tar_gz(&middle).unwrap(), b"bin");
    assert_eq!(extract_tar_gz(&last).unwrap(), b"bin");
}

#[test]
fn extract_tar_gz_takes_the_first_of_two() {
    let gz_bytes = tar_gz_of(&[("one/centy-daemon", b"first"), ("two/centy-daemon", b"second")]);
    assert_eq!(extract_tar_gz(&gz_bytes).unwrap(), b"first");
}

#[test]
fn extract_tar_gz_does_not_take_exe_or_lookalikes() {
    for name in ["centy-daemon.exe", "centy-daemon-old", "xcenty-daemon", "centy-daemon/notes"] {
        let gz_bytes = tar_gz_of(&[(name, b"x")]);
        assert_eq!(
            extract_tar_gz(&gz_bytes).unwrap_err(),
            "centy-daemon binary not found in tar.gz archive"
        );
    }
}

#[test]
fn extract_tar_gz_empty_archive() {
    let gz_bytes = tar_gz_of(&[]);
    assert_eq!(
        extract_tar_gz(&gz_bytes).unwrap_err(),
        "centy-daemon binary not found in tar.gz archive"
    );
}

#[test]
fn extract_zip_finds_binary() {
    let zip_bytes = create_zip_with_file("centy-daemon", b"zip-binary-content");
    let result = extract_zip(&zip_bytes).unwrap();
    assert_eq!(result, b"zip-binary-content");
}

#[test]
fn extract_zip_finds_exe_binary() {
    let zip_bytes = create_zip_with_file("centy-daemon.exe", b"exe-binary-content");
    let result = extract_zip(&zip_bytes).unwrap();
    assert_eq!(result, b"exe-binary-content");
}

#[test]
fn extract_zip_missing_binary() {
    let zip_bytes = create_zip_with_file("other-file.txt", b"not the binary");
    let result = extract_zip(&zip_bytes);
    assert!(result.is_err());
    assert!(result.unwrap_err().contains("not found in zip archive"));
}

#[test]
fn extract_zip_invalid_data() {
    let result = extract_zip(b"not-a-valid-zip");
    assert!(result.is_err());
    assert!(result.unwrap_err().contains("failed to open zip archive"));
}

#[test]
fn extract_zip_skips_non_matching_entries() {
    let zip_bytes = zip_of(&[("readme.txt", b"readme content"), ("centy-daemon", b"the-binary")]);
    let result = extract_zip(&zip_bytes).unwrap();
    assert_eq!(result, b"the-binary");
}

#[test]
fn extract_zip_finds_nested_binary_and_takes_the_first() {
    let zip_bytes = zip_of(&[
        ("docs/readme.txt", b"readme"),
        ("pkg/centy-daemon.exe", b"first"),
        ("centy-daemon", b"second"),
    ]);
    assert_eq!(extract_zip(&zip_bytes).unwrap(), b"first");
}

#[test]
fn extract_zip_passes_over_unsafe_paths() {
    let zip_bytes = zip_of(&[("../../centy-daemon", b"escaped"), ("centy-daemon", b"safe")]);
    assert_eq!(extract_zip(&zip_bytes).unwrap(), b"safe");
}

#[test]
fn extract_binary_tar_gz() {
    let gz_bytes = tar_gz_of(&[("centy-daemon", b"binary-data")]);
    let result = extract_binary(&gz_bytes, ".tar.gz").unwrap();
    assert_eq!(result, b"binary-data");
}

#[test]
fn extract_binary_zip() {
    let zip_bytes = zip_of(&[("centy-daemon", b"zip-binary")]);
    let result = extract_binary(&zip_bytes, ".zip").unwrap();
    assert_eq!(result, b"zip-binary");
}

#[test]
fn extract_binary_tar_gz_missing_binary() {
    let gz_bytes = tar_gz_of(&[("other-file", b"other")]);
    let result = extract_binary(&gz_bytes, ".tar.gz");
    assert!(result.is_err());
    match result.unwrap_err() {
        InstallerError::Extraction(msg) => {
            assert!(msg.contains("not found"));
        }
        other => panic!("expected Extraction error, got: {other:?}"),
    }
}

#[test]
fn extract_binary_dispatches_on_the_extension() {
    let gz_bytes = tar_gz_of(&[("centy-daemon", b"binary-data")]);
    match extract_binary(&gz_bytes, ".zip") {
        Err(InstallerError::Extraction(msg)) => {
            assert!(msg.starts_with("failed to open zip archive: "))
        }
        other => panic!("expected Extraction error, got: {other:?}"),
    }
}

fn gz_of(tar_bytes: &[u8]) -> Vec<u8> {
    let mut encoder = flate2::write::GzEncoder::new(Vec::new(), flate2::Compression::default());
    encoder.write_all(tar_bytes).unwrap();
    encoder.finish().unwrap()
}

fn tar_of(files: &[(&str, &[u8])]) -> Vec<u8> {
    let mut tar_builder = tar::Builder::new(Vec::new());
    for (name, content) in files {
        let mut header = tar::Header::new_gnu();
        header.set_size(content.len() as u64);
        header.set_mode(0o755);
        header.set_cksum();
        tar_builder
            .append_data(&mut header, name, &content[..])
            .unwrap();
    }
    tar_builder.into_inner().unwrap()
}

#[test]
fn extract_tar_gz_reads_no_further_than_the_binary() {
    let mut tar_bytes = tar_of(&[("centy-daemon", b"bin")]);
    tar_bytes.truncate(1024);
    tar_bytes.extend_from_slice(&[0xff; 512]);
    assert_eq!(extract_tar_gz(&gz_of(&tar_bytes)).unwrap(), b"bin");
}

#[test]
fn extract_tar_gz_fails_on_bad_framing_in_front_of_the_binary() {
    let mut tar_bytes = tar_of(&[("readme.txt", b"text")]);
    tar_bytes.truncate(1024);
    tar_bytes.extend_from_slice(&[0xff; 512]);
    tar_bytes.extend_from_slice(&tar_of(&[("centy-daemon", b"bin")]));
    let message = extract_tar_gz(&gz_of(&tar_bytes)).unwrap_err();
    assert!(message.starts_with("failed to read tar entry: "));
}

#[test]
fn extract_tar_gz_fails_on_truncated_compression() {
    let mut gz_bytes = tar_gz_of(&[("readme.txt", &[7u8; 4096]), ("centy-daemon", b"bin")]);
    gz_bytes.truncate(gz_bytes.len() / 2);
    let message = extract_tar_gz(&gz_bytes).unwrap_err();
    assert!(message.starts_with("failed to read tar entry: "));
}

#[test]
fn extract_zip_fails_on_truncated_archive() {
    let mut zip_bytes = zip_of(&[("centy-daemon", b"bin")]);
    zip_bytes.truncate(zip_bytes.len() - 10);
    let message = extract_zip(&zip_bytes).unwrap_err();
    assert!(message.starts_with("failed to open zip archive: "));
}

#[test]
fn extract_zip_empty_archive() {
    assert_eq!(
        extract_zip(&zip_of(&[])).unwrap_err(),
        "centy-daemon binary not found in zip archive"
    );
}

#[test]
fn member_is_binary_by_base_name() {
    assert!(member_is_binary(&member("centy-daemon", b""), false));
    assert!(member_is_binary(&member("a/b/c/centy-daemon", b""), false));
    assert!(member_is_binary(&member("/centy-daemon", b""), false));
    assert!(member_is_binary(&member("./centy-daemon", b""), false));
    assert!(member_is_binary(&member("bin/centy-daemon.exe", b""), true));
    assert!(!member_is_binary(&member("bin/centy-daemon.exe", b""), false));
    assert!(!member_is_binary(&member("centy-daemon/", b""), true));
    assert!(!member_is_binary(&member("centy-daemon/readme", b""), true));
    assert!(!member_is_binary(&member("Centy-Daemon", b""), true));
    assert!(!member_is_binary(&member("", b""), true));
    assert!(!member_is_binary(&ArchiveMember { path: None, data: vec![] }, true));
    let odd = ArchiveMember { path: Some(vec![0xff, b'/', b'c', 0xe9]), data: vec![] };
    assert!(!member_is_binary(&odd, true));
}
