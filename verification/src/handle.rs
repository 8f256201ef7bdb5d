//! Asset handles and the load-time request context.
//!
//! The asset subsystem is modelled as a request log: asking for a path
//! hands back an opaque handle at once — the index of the request — and
//! the log records which paths were asked for, in order. The real
//! subsystem delivers the bytes on its own schedule; this core only ever
//! needs the handle and the order of requests.

use vstd::prelude::*;

verus! {

/// An opaque handle to a requested asset.
#[derive(Debug, Clone, Copy, PartialEq, Eq)]
pub struct Handle {
    /// The index of the request that produced this handle.
    pub id: usize,
}

/// The load-time context: the path of the document being loaded, and the
/// log of asset paths requested so far.
#[derive(Debug)]
pub struct LoadContext {
    /// The path of the document being loaded.
    pub path: String,
    /// Every asset path requested so far, in request order.
    pub requests: Vec<String>,
}

impl LoadContext {
    /// A fresh context for a document at `path`, with no requests yet.
    pub fn new(path: String) -> (r: LoadContext)
        ensures
            r.path == path,
            r.requests@ == Seq::<String>::empty(),
    {
        LoadContext { path, requests: Vec::new() }
    }

    /// Requests the asset at `path` and returns its handle. The handle
    /// numbers the request; the path is appended to the log.
    pub fn load(&mut self, path: String) -> (h: Handle)
        ensures
            h.id == old(self).requests@.len(),
            final(self).requests@ == old(self).requests@.push(path),
            final(self).path == old(self).path,
    {
        let id = self.requests.len();
        self.requests.push(path);
        Handle { id }
    }
}

} // verus!
