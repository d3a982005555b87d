//! The rule that a saved document carries the `md` extension.

use vstd::prelude::*;

use crate::path::{extension_of, extension_set, file_name_of, path_extension, set_extension};

verus! {

/// An extension that reads `md` when ASCII case is ignored.
pub open spec fn is_md(e: Seq<char>) -> bool {
    &&& e.len() == 2
    &&& (e[0] == 'm' || e[0] == 'M')
    &&& (e[1] == 'd' || e[1] == 'D')
}

/// The path already has an extension, and it is `md` in some case.
pub open spec fn has_md_extension(p: Seq<char>) -> bool {
    match extension_of(p) {
        Some(e) => is_md(e),
        None => false,
    }
}

/// The path a document is written to when the user picked `p`: `p` itself
/// when its extension is already `md` in any case, else `p` with its
/// extension set to `md`.
pub open spec fn enforced(p: Seq<char>) -> Seq<char> {
    if has_md_extension(p) {
        p
    } else {
        extension_set(p, "md"@)
    }
}

/// Whether `ext` equals `md` with ASCII case ignored.
pub fn is_md_extension(ext: &str) -> (r: bool)
    ensures
        r == is_md(ext@),
{
    if ext.unicode_len() != 2 {
        return false;
    }
    let first = ext.get_char(0);
    let second = ext.get_char(1);
    (first == 'm' || first == 'M') && (second == 'd' || second == 'D')
}

/// Makes sure `path` ends in the `md` extension. An extension that already
/// reads `md` in any case is kept as typed; any other extension is replaced,
/// and a missing one is added.
pub fn enforce_md_extension(path: String) -> (r: String)
    ensures
        r@ == enforced(path@),
        file_name_of(path@) is Some ==> has_md_extension(r@),
        file_name_of(path@) is None ==> r@ == path@,
        // enforcing again changes nothing
        enforced(r@) == r@,
{
    let has_md = match path_extension(path.as_str()) {
        Some(ext) => is_md_extension(ext.as_str()),
        None => false,
    };
    if has_md {
        path
    } else {
        proof {
            reveal_strlit("md");
        }
        set_extension(path.as_str(), "md")
    }
}

} // verus!
