//! The directory and file name that pre-fill a save dialog.

use vstd::prelude::*;

use crate::path::{file_name_of, opt_view, parent_of, path_file_name, path_parent};

verus! {

/// Hints for a save dialog. A field left empty lets the dialog pick its own
/// default.
#[derive(Debug, Clone, PartialEq, Eq)]
pub struct DialogSeed {
    pub initial_directory: Option<String>,
    pub initial_filename: Option<String>,
}

/// The directory a path names, if it names one: its parent, unless the path
/// has none or the parent is empty (a bare file name).
pub open spec fn directory_hint(p: Seq<char>) -> Option<Seq<char>> {
    match parent_of(p) {
        Some(d) => if d.len() > 0 {
            Some(d)
        } else {
            None
        },
        None => None,
    }
}

/// The file name offered for a document that was never saved.
pub open spec fn untitled_name() -> Seq<char> {
    "untitled.md"@
}

/// Seeds the dialog from a previously known path: its directory, if it has
/// one, and its file name, if it has one.
pub fn configure_dialog_path(path: &str) -> (r: DialogSeed)
    ensures
        opt_view(r.initial_directory) == directory_hint(path@),
        opt_view(r.initial_filename) == file_name_of(path@),
{
    let initial_directory = match path_parent(path) {
        Some(d) => if d.unicode_len() > 0 {
            Some(d)
        } else {
            None
        },
        None => None,
    };
    let initial_filename = path_file_name(path);
    DialogSeed { initial_directory, initial_filename }
}

/// `r` seeds the dialog for a document whose known path is `suggested`:
/// from that path if there is one, else with no directory and the file name
/// `untitled.md`.
pub open spec fn seeds(suggested: Option<Seq<char>>, r: DialogSeed) -> bool {
    match suggested {
        Some(p) => opt_view(r.initial_directory) == directory_hint(p) && opt_view(
            r.initial_filename,
        ) == file_name_of(p),
        None => r.initial_directory is None && opt_view(r.initial_filename) == Some(
            untitled_name(),
        ),
    }
}

/// Seeds the dialog for saving a document: from its known path if there is
/// one, else with no directory and the file name `untitled.md`.
pub fn dialog_seed(suggested: &Option<String>) -> (r: DialogSeed)
    ensures
        seeds(opt_view(*suggested), r),
{
    match suggested {
        Some(p) => configure_dialog_path(p.as_str()),
        None => DialogSeed { initial_directory: None, initial_filename: Some("untitled.md".to_owned()) },
    }
}

} // verus!
