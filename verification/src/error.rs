//! The error values shared by the filesystem, downloader and installer layers.

use vstd::prelude::*;

verus! {

/// An opaque I/O failure, carried as the message that the failing primitive
/// reported.
#[derive(Clone, Debug, PartialEq, Eq)]
pub struct IoError {
    pub message: String,
}

impl IoError {
    pub fn new(message: String) -> (r: IoError)
        ensures
            r.message == message,
    {
        IoError { message }
    }

    pub fn message(&self) -> (r: &str)
        ensures
            r@ == self.message@,
    {
        self.message.as_str()
    }
}

/// An I/O failure attributed to the path it happened on.
#[derive(Clone, Debug, PartialEq, Eq)]
pub struct FileSystemError {
    pub path: String,
    pub source: IoError,
}

impl FileSystemError {
    pub fn new(path: String, source: IoError) -> (r: FileSystemError)
        ensures
            r.path == path,
            r.source == source,
    {
        FileSystemError { path, source }
    }

    pub fn path(&self) -> (r: &str)
        ensures
            r@ == self.path@,
    {
        self.path.as_str()
    }

    pub fn source(&self) -> (r: &IoError)
        ensures
            r == self.source,
    {
        &self.source
    }

    /// The rendering used when this failure is reported: `I/O failed on <path>: <message>`.
    pub fn message(&self) -> (r: String)
        ensures
            r@ == file_system_error_message(self.path@, self.source.message@),
    {
        let mut s = String::new();
        s.append("I/O failed on ");
        s.append(self.path.as_str());
        s.append(": ");
        s.append(self.source.message());
        s
    }

    /// Forgets the path, keeping the full rendering as the message of a plain
    /// I/O error.
    pub fn to_io_error(&self) -> (r: IoError)
        ensures
            r.message@ == file_system_error_message(self.path@, self.source.message@),
    {
        IoError::new(self.message())
    }
}

/// What `FileSystemError::message` returns.
pub open spec fn file_system_error_message(path: Seq<char>, message: Seq<char>) -> Seq<char> {
    "I/O failed on "@ + path + ": "@ + message
}

} // verus!
