use std::io::Cursor;
use std::io::Read;
use std::io::Write;
use denv::archive::ArchiveEntry;
use denv::archive::DefaultUnarchiver;
use denv::archive::Unarchiver;

const ARCHIVED_FILE_CONTENT: &str = "Hello world!";
const ARCHIVED_FILEPATH: &str = "dir/file";

fn tgz_bytes() -> Vec<u8> {
    let encoder = flate2::write::GzEncoder::new(Vec::new(), flate2::Compression::default());
    let mut tar = tar::Builder::new(encoder);
    let data = ARCHIVED_FILE_CONTENT.as_bytes();
    let mut header = tar::Header::new_gnu();
    header.set_size(data.len() as u64);
    header.set_mode(0o644);
    header.set_cksum();
    tar.append_data(&mut header, ARCHIVED_FILEPATH, data).unwrap();
    tar.into_inner().unwrap().finish().unwrap()
}

fn zip_bytes() -> Vec<u8> {
    let mut zip = zip::ZipWriter::new(Cursor::new(Vec::new()));
    let options = zip::write::SimpleFileOptions::default();
    zip.start_file(ARCHIVED_FILEPATH, options).unwrap();
    zip.write_all(ARCHIVED_FILE_CONTENT.as_bytes()).unwrap();
    zip.finish().unwrap().into_inner()
}

fn file_entry(entries: &[ArchiveEntry]) -> &ArchiveEntry {
    entries
        .iter()
        .find(|e| !e.is_dir && e.path == ARCHIVED_FILEPATH)
        .unwrap()
}

#[test]
fn untar_should_return_err_if_archive_is_invalid() {
    let mut unarchiver = DefaultUnarchiver::new();
    unarchiver.untar(&vec![1, 2, 3]).unwrap_err();
}

#[test]
fn untar_should_return_ok() {
    let mut unarchiver = DefaultUnarchiver::new();
    let entries = unarchiver.untar(&tgz_bytes()).unwrap();
    let entry = file_entry(&entries);
    assert_eq!(entry.data, ARCHIVED_FILE_CONTENT.as_bytes());
}

#[test]
fn unzip_should_return_err_if_archive_is_invalid() {
    let mut unarchiver = DefaultUnarchiver::new();
    unarchiver.unzip(&vec![1, 2, 3]).unwrap_err();
}

#[test]
fn unzip_should_return_ok() {
    let mut unarchiver = DefaultUnarchiver::new();
    let entries = unarchiver.unzip(&zip_bytes()).unwrap();
    let entry = file_entry(&entries);
    assert_eq!(entry.data, ARCHIVED_FILE_CONTENT.as_bytes());
}

#[test]
fn unzip_decodes_what_was_encoded_not_the_input() {
    let mut unarchiver = DefaultUnarchiver::new();
    let bytes = zip_bytes();
    let entries = unarchiver.unzip(&bytes).unwrap();
    assert_eq!(entries.len(), 1);
    assert_ne!(entries[0].data, bytes);
}

#[test]
fn gzip_alone_is_not_a_zip() {
    let mut encoder =
        flate2::write::GzEncoder::new(Vec::new(), flate2::Compression::default());
    encoder.write_all(b"plain").unwrap();
    let gz = encoder.finish().unwrap();
    let mut check = flate2::read::GzDecoder::new(gz.as_slice());
    let mut plain = String::new();
    check.read_to_string(&mut plain).unwrap();
    assert_eq!(plain, "plain");
    let mut unarchiver = DefaultUnarchiver::new();
    unarchiver.unzip(&gz).unwrap_err();
}
