//! Textual asset references and their resolved forms.

use vstd::prelude::*;

use crate::path::resolve_ref;

verus! {

/// A reference to an asset: the path as written in the document, and its
/// resolved, base-anchored form. Until the resolution pass runs, the
/// resolved form is simply the written path.
#[derive(Debug, Clone, PartialEq, Eq)]
pub struct AssetRef {
    path: String,
    resolved: String,
}

impl AssetRef {
    /// The path as written in the document.
    pub closed spec fn path_spec(self) -> Seq<char> {
        self.path@
    }

    /// The resolved form of the reference.
    pub closed spec fn resolved_spec(self) -> Seq<char> {
        self.resolved@
    }

    /// A fresh, unresolved reference: the resolved form starts out as the
    /// written path.
    pub fn new(path: &str) -> (r: AssetRef)
        ensures
            r.path_spec() == path@,
            r.resolved_spec() == path@,
    {
        AssetRef { path: path.to_owned(), resolved: path.to_owned() }
    }

    /// Anchors the reference to `base`. Runs once per document load;
    /// resolution recomputes from the written path, so the written path
    /// is never lost.
    pub fn resolve_asset_path(&mut self, base: &str)
        ensures
            final(self).path_spec() == old(self).path_spec(),
            final(self).resolved_spec() == resolve_ref(base@, old(self).path_spec()),
    {
        self.resolved = crate::path::relative_asset_path(base, self.path.as_str());
    }

    /// The resolved form of the reference.
    pub fn resolved(&self) -> (r: &String)
        ensures
            r@ == self.resolved_spec(),
    {
        &self.resolved
    }

    /// An identical copy of the reference.
    pub fn dup(&self) -> (r: AssetRef)
        ensures
            r == *self,
    {
        AssetRef { path: self.path.clone(), resolved: self.resolved.clone() }
    }

}

} // verus!
