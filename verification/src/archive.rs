//! Archive decoding: a downloaded zip or tar.gz body, decoded in memory into
//! its entries. Writing the entries to disk is the installer's job.

use std::io::Read;
use vstd::prelude::*;
use crate::error::IoError;

verus! {

/// One member of an archive.
#[derive(Clone, Debug, PartialEq, Eq)]
pub struct ArchiveEntry {
    /// The member's path inside the archive.
    pub path: String,
    /// The member's bytes; empty for a directory.
    pub data: Vec<u8>,
    /// Whether the member is a directory.
    pub is_dir: bool,
}

/// The archive-decoding capability the installer runs against.
pub trait Unarchiver: Sized {
    /// How many archives this unarchiver has decoded.
    open spec fn calls(&self) -> nat {
        0
    }

    /// Decodes a gzip-compressed tar archive into its entries.
    fn untar(&mut self, archive: &Vec<u8>) -> (r: Result<Vec<ArchiveEntry>, IoError>)
        ensures
            final(self).calls() == old(self).calls() + 1,
    ;

    /// Decodes a zip archive into its entries.
    fn unzip(&mut self, archive: &Vec<u8>) -> (r: Result<Vec<ArchiveEntry>, IoError>)
        ensures
            final(self).calls() == old(self).calls() + 1,
    ;
}

/// What decoding a gzip-compressed tar archive yields: its entries, or the
/// decode error's rendering. A function of the archive bytes alone.
pub uninterp spec fn targz_entries(archive: Seq<u8>) -> Result<Vec<ArchiveEntry>, String>;

/// What decoding a zip archive yields: its entries, or the decode error's
/// rendering. A function of the archive bytes alone.
pub uninterp spec fn zip_entries(archive: Seq<u8>) -> Result<Vec<ArchiveEntry>, String>;

/// The decoder used outside tests, backed by the flate2, tar and zip crates.
pub struct DefaultUnarchiver {
    /// How many archives were decoded, kept for the decode-counting contracts.
    pub decoded: Ghost<nat>,
}

impl DefaultUnarchiver {
    pub fn new() -> (r: DefaultUnarchiver)
        ensures
            r.calls() == 0,
    {
        DefaultUnarchiver { decoded: Ghost(0) }
    }
}

impl Unarchiver for DefaultUnarchiver {
    open spec fn calls(&self) -> nat {
        self.decoded@
    }

    fn untar(&mut self, archive: &Vec<u8>) -> (r: Result<Vec<ArchiveEntry>, IoError>)
        ensures
            final(self).calls() == old(self).calls() + 1,
            ({
                match targz_entries(archive@) {
                    Ok(entries) => r matches Ok(x) && x == entries,
                    Err(m) => r matches Err(e) && e.message == m,
                }
            }),
    {
        self.decoded = Ghost(self.decoded@ + 1);
        match targz_entry_list(archive) {
            Ok(entries) => Ok(entries),
            Err(m) => Err(IoError::new(m)),
        }
    }

    fn unzip(&mut self, archive: &Vec<u8>) -> (r: Result<Vec<ArchiveEntry>, IoError>)
        ensures
            final(self).calls() == old(self).calls() + 1,
            ({
                match zip_entries(archive@) {
                    Ok(entries) => r matches Ok(x) && x == entries,
                    Err(m) => r matches Err(e) && e.message == m,
                }
            }),
    {
        self.decoded = Ghost(self.decoded@ + 1);
        match zip_entry_list(archive) {
            Ok(entries) => Ok(entries),
            Err(m) => Err(IoError::new(m)),
        }
    }
}

/// Relies on flate2::read::GzDecoder and tar::Archive: decompresses the
/// archive and reads out each member's path, bytes and directory flag.
#[verifier::external_body]
fn targz_entry_list(archive: &Vec<u8>) -> (r: Result<Vec<ArchiveEntry>, String>)
    ensures
        r == targz_entries(archive@),
{
    let mut tar = tar::Archive::new(flate2::read::GzDecoder::new(archive.as_slice()));
    let mut out: Vec<ArchiveEntry> = Vec::new();
    for entry in tar.entries().map_err(|e| e.to_string())? {
        let mut entry = entry.map_err(|e| e.to_string())?;
        let path = entry.path().map_err(|e| e.to_string())?.to_string_lossy().into_owned();
        let is_dir = entry.header().entry_type().is_dir();
        let mut data: Vec<u8> = Vec::new();
        entry.read_to_end(&mut data).map_err(|e| e.to_string())?;
        out.push(ArchiveEntry { path, data, is_dir });
    }
    Ok(out)
}

/// Relies on zip::ZipArchive: reads out each member's path, bytes and
/// directory flag.
#[verifier::external_body]
fn zip_entry_list(archive: &Vec<u8>) -> (r: Result<Vec<ArchiveEntry>, String>)
    ensures
        r == zip_entries(archive@),
{
    let mut zip = zip::ZipArchive::new(std::io::Cursor::new(archive.as_slice())).map_err(|e| e.to_string())?;
    let mut out: Vec<ArchiveEntry> = Vec::new();
    for i in 0..zip.len() {
        let mut file = zip.by_index(i).map_err(|e| e.to_string())?;
        let path = file.name().to_string();
        let is_dir = file.is_dir();
        let mut data: Vec<u8> = Vec::new();
        file.read_to_end(&mut data).map_err(|e| e.to_string())?;
        out.push(ArchiveEntry { path, data, is_dir });
    }
    Ok(out)
}

} // verus!
