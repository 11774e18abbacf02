use std::io::Write;

use cask::extractor::{extract, ExtractorError};

/// A tar archive holding the given files, each name with its content.
fn tar_bytes(files: &[(&str, &[u8])]) -> Vec<u8> {
    let mut builder = tar::Builder::new(Vec::new());
    for (name, data) in files {
        let mut header = tar::Header::new_gnu();
        header.set_size(data.len() as u64);
        header.set_mode(0o755);
        builder.append_data(&mut header, *name, *data).unwrap();
    }
    builder.into_inner().unwrap()
}

fn gzip_bytes(data: &[u8]) -> Vec<u8> {
    let mut enc = libflate::gzip::Encoder::new(Vec::new()).unwrap();
    enc.write_all(data).unwrap();
    enc.finish().into_result().unwrap()
}

fn bzip2_bytes(data: &[u8]) -> Vec<u8> {
    let mut enc = bzip2::write::BzEncoder::new(Vec::new(), bzip2::Compression::default());
    enc.write_all(data).unwrap();
    enc.finish().unwrap()
}

fn zip_bytes(files: &[(&str, &[u8])]) -> Vec<u8> {
    let mut writer = zip::ZipWriter::new(std::io::Cursor::new(Vec::new()));
    let options = zip::write::SimpleFileOptions::default()
        .compression_method(zip::CompressionMethod::Stored)
        .unix_permissions(0o755);
    for (name, data) in files {
        writer.start_file(*name, options).unwrap();
        writer.write_all(data).unwrap();
    }
    writer.finish().unwrap().into_inner()
}

#[test]
fn test_extract_tgz_00() {
    let data = gzip_bytes(&tar_bytes(&[("00.txt", b"00")]));
    let extracted = extract("00.tgz", &data, "00.txt", "/").unwrap();
    assert_eq!(extracted.data.len(), 2);
    assert_eq!(extracted.data, b"00");
}

#[test]
fn test_extract_tgz_01() {
    let data = gzip_bytes(&tar_bytes(&[("sub-folder/01.txt", b"01")]));
    let extracted = extract("01.tgz", &data, "01.txt", "/sub-folder").unwrap();
    assert_eq!(extracted.data.len(), 2);
    assert_eq!(extracted.data, b"01");
}

#[test]
fn test_extract_tgz_02() {
    let data = gzip_bytes(&tar_bytes(&[("02.txt", b"02")]));
    let r = extract("02.tgz", &data, "not_exist", "/");
    assert!(r.is_err());
}

#[test]
fn test_extract_tar_00() {
    let data = tar_bytes(&[("00.txt", b"00")]);
    let extracted = extract("00.tar", &data, "00.txt", "/").unwrap();
    assert_eq!(extracted.data.len(), 2);
    assert_eq!(extracted.data, b"00");
}

#[test]
fn test_extract_tar_01() {
    let data = tar_bytes(&[("sub-folder/01.txt", b"01")]);
    let extracted = extract("01.tar", &data, "01.txt", "/sub-folder").unwrap();
    assert_eq!(extracted.data.len(), 2);
    assert_eq!(extracted.data, b"01");
}

#[test]
fn test_extract_tar_02() {
    let data = tar_bytes(&[("02.txt", b"02")]);
    let r = extract("02.tar", &data, "not_exist", "/");
    assert!(r.is_err());
}

#[test]
fn test_extract_zip_00() {
    let data = zip_bytes(&[("00.txt", b"00")]);
    let extracted = extract("00.zip", &data, "00.txt", "/").unwrap();
    assert_eq!(extracted.data.len(), 2);
    assert_eq!(extracted.data, b"00");
}

#[test]
fn test_extract_zip_01() {
    let data = zip_bytes(&[("sub-folder/01.txt", b"01")]);
    let extracted = extract("01.zip", &data, "01.txt", "/sub-folder").unwrap();
    assert_eq!(extracted.data.len(), 2);
    assert_eq!(extracted.data, b"01");
}

#[test]
fn test_extract_zip_02() {
    let data = zip_bytes(&[("02.txt", b"02")]);
    let r = extract("02.zip", &data, "not_exist", "/");
    assert!(r.is_err());
}

#[test]
fn test_extract_tar_test() {
    let data = tar_bytes(&[("test_tar", b"hello world\n")]);
    let extracted = extract("test_tar.tar", &data, "test_tar", "/").unwrap();
    assert_eq!(extracted.data.len(), 12);
    assert_eq!(extracted.data, b"hello world\n");
}

#[test]
fn test_extract_zip() {
    let data = zip_bytes(&[("test_zip", b"hello world\n")]);
    let extracted = extract("test_zip.zip", &data, "test_zip", "/").unwrap();
    assert_eq!(extracted.data.len(), 12);
    assert_eq!(extracted.data, b"hello world\n");
}

#[test]
fn test_extract_tar_if_bin_not_exist() {
    let data = tar_bytes(&[("test", b"hello world\n")]);
    let r = extract("test.tar", &data, "not_exist", "/");
    assert!(r.is_err());
}

#[test]
fn test_extract_tar_gz() {
    let data = gzip_bytes(&tar_bytes(&[("test", b"hello world\n")]));
    let extracted = extract("test.tar.gz", &data, "test", "/").unwrap();
    assert_eq!(extracted.data.len(), 12);
    assert_eq!(extracted.data, b"hello world\n");
}

#[test]
fn test_extract_tar_gz_without_binary_file() {
    let data = gzip_bytes(&tar_bytes(&[("other", b"x")]));
    let r = extract("test_without_binary.tar.gz", &data, "without_test", "/");
    assert!(r.is_err());
}

#[test]
fn test_extract_tar_gz_file_in_sub_folder() {
    let data = gzip_bytes(&tar_bytes(&[(
        "golangci-lint-1.45.0-darwin-amd64/golangci-lint",
        b"binary",
    )]));
    let r = extract(
        "golangci-lint-in-sub-folder.tar.gz",
        &data,
        "golangci-lint",
        "/golangci-lint-1.45.0-darwin-amd64",
    );
    assert!(r.is_ok());
    assert_eq!(r.unwrap().data, b"binary");
}

#[test]
fn test_extract_tar_file_in_sub_folder() {
    let data = tar_bytes(&[("sub-folder/sub-folder", b"binary")]);
    let r = extract("sub-folder.tar", &data, "sub-folder", "/sub-folder");
    assert!(r.is_ok());
    assert_eq!(r.unwrap().data, b"binary");
}

#[test]
fn test_extract_tar_bz2() {
    let data = bzip2_bytes(&tar_bytes(&[("03.txt", b"03")]));
    let extracted = extract("03.tar.bz2", &data, "03.txt", "/").unwrap();
    assert_eq!(extracted.data.len(), 2);
    assert_eq!(extracted.data, b"03");
}

#[test]
fn test_extract_unknown_suffix() {
    let data = tar_bytes(&[("00.txt", b"00")]);
    let r = extract("archive.rar", &data, "00.txt", "/");
    match r {
        Err(ExtractorError::NotSupportExtension { filename }) => {
            assert_eq!(filename, "archive.rar");
        }
        _ => panic!("expected the unsupported-container failure"),
    }
}

#[test]
fn test_extract_corrupt_gzip() {
    let data = vec![1u8, 2, 3, 4];
    let r = extract("bad.tgz", &data, "00.txt", "/");
    match r {
        Err(ExtractorError::ExtractFail { filename, path, .. }) => {
            assert_eq!(filename, "00.txt");
            assert_eq!(path, "/");
        }
        _ => panic!("expected the extraction failure"),
    }
}

#[test]
fn test_extract_dot_slash_prefix() {
    let data = tar_bytes(&[("./gpm", b"tool")]);
    let extracted = extract("gpm.tar", &data, "gpm", "/").unwrap();
    assert_eq!(extracted.data, b"tool");
}

#[test]
fn test_extract_sparse_marker_prefix() {
    let data = tar_bytes(&[("GNUSparseFile.0/gpm", b"tool")]);
    let extracted = extract("gpm.tar", &data, "gpm", "/").unwrap();
    assert_eq!(extracted.data, b"tool");
}

#[test]
fn test_extract_first_match_wins() {
    let data = tar_bytes(&[("gpm", b"first"), ("gpm", b"second")]);
    let extracted = extract("gpm.tar", &data, "gpm", "/").unwrap();
    assert_eq!(extracted.data, b"first");
}

#[test]
fn test_extract_zip_skips_directories() {
    let mut writer = zip::ZipWriter::new(std::io::Cursor::new(Vec::new()));
    let options = zip::write::SimpleFileOptions::default()
        .compression_method(zip::CompressionMethod::Stored);
    writer.add_directory("bin", options).unwrap();
    writer.start_file("bin/tool", options).unwrap();
    writer.write_all(b"tool").unwrap();
    let data = writer.finish().unwrap().into_inner();
    let extracted = extract("tool.zip", &data, "tool", "/bin").unwrap();
    assert_eq!(extracted.data, b"tool");
}

#[test]
fn test_extension_as_str() {
    assert_eq!(cask::extractor::Extension::TarGz.as_str(), ".tar.gz");
    assert_eq!(cask::extractor::Extension::Tgz.as_str(), ".tgz");
    assert_eq!(cask::extractor::Extension::TarBiz2.as_str(), ".tar.bz2");
    assert_eq!(cask::extractor::Extension::Tar.as_str(), ".tar");
    assert_eq!(cask::extractor::Extension::Zip.as_str(), ".zip");
}
