//! The decisions of a "save as": what seeds the dialog, and what is written
//! once the dialog has answered.

use vstd::prelude::*;

use crate::extension::{enforce_md_extension, enforced, has_md_extension};
use crate::path::{file_name_of, opt_view};
use crate::seed::{dialog_seed, seeds, DialogSeed};

verus! {

/// A request to save a document under a name the user picks.
#[derive(Debug, Clone, PartialEq, Eq)]
pub struct SaveRequest {
    pub content: String,
    pub suggested_path: Option<String>,
}

/// A write to perform: `content` goes to the file at `path`.
#[derive(Debug, Clone, PartialEq, Eq)]
pub struct WritePlan {
    pub path: String,
    pub content: String,
}

impl SaveRequest {
    pub fn new(content: String, suggested_path: Option<String>) -> (r: SaveRequest)
        ensures
            r.content == content,
            r.suggested_path == suggested_path,
    {
        SaveRequest { content, suggested_path }
    }

    /// The hints to show the dialog with.
    pub fn seed(&self) -> (r: DialogSeed)
        ensures
            seeds(opt_view(self.suggested_path), r),
    {
        dialog_seed(&self.suggested_path)
    }

    /// What to do once the dialog answered with `picked`: nothing when the
    /// user cancelled, else write the content, unchanged, to the picked path
    /// with its extension enforced, so that a picked file name always ends up
    /// with an `md` extension.
    pub fn resolve(self, picked: Option<String>) -> (r: Option<WritePlan>)
        ensures
            picked is None <==> r is None,
            picked matches Some(p) ==> r matches Some(w) && w.path@ == enforced(p@)
                && w.content == self.content,
            picked matches Some(p) ==> (file_name_of(p@) is Some ==> (r matches Some(w)
                && has_md_extension(w.path@))),
    {
        match picked {
            Some(p) => Some(WritePlan { path: enforce_md_extension(p), content: self.content }),
            None => None,
        }
    }
}

} // verus!
