//! A future that resolves to an opened file.
//!
//! Opening the file is blocking work that the embedder runs off the reactor
//! thread; the future itself only carries the path until that work is done.

use vstd::prelude::*;

verus! {

/// Future returned by a file-open call; resolves to the opened file once
/// the embedder has performed the blocking open.
pub struct OpenFuture<P> {
    pub path: P,
}

impl<P> OpenFuture<P> {
    /// A future that will open the file at `path`.
    pub fn new(path: P) -> (f: OpenFuture<P>)
        ensures
            f.path == path,
    {
        OpenFuture { path }
    }

    /// The path the future will open.
    pub fn path(&self) -> (p: &P)
        ensures
            *p == self.path,
    {
        &self.path
    }

    /// Consume the future, handing the path to the blocking open.
    pub fn into_path(self) -> (p: P)
        ensures
            p == self.path,
    {
        self.path
    }
}

} // verus!
