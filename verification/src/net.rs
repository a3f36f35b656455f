//! The downloader capability: one HTTP GET, its body returned as bytes.
//!
//! Implementations do the network work; the library's contracts count the
//! requests made, which is what the installer's at-most-one-download
//! guarantee is stated over.

use vstd::prelude::*;
use crate::error::IoError;

verus! {

/// The downloader capability the installer runs against.
pub trait Downloader: Sized {
    /// The URLs this downloader has requested, in order.
    open spec fn requests(&self) -> Seq<Seq<char>> {
        Seq::empty()
    }

    /// Performs one HTTP GET of `url` and returns the response body; fails on
    /// a non-success status or a transport error.
    fn download(&mut self, url: &str) -> (r: Result<Vec<u8>, IoError>)
        ensures
            final(self).requests() == old(self).requests().push(url@),
    ;
}

} // verus!
