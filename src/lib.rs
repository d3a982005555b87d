//! Path handling behind a Markdown editor's save dialog: the hints that seed
//! the dialog, and the rule that a saved document ends in `.md`.

pub mod extension;
pub mod path;
pub mod save;
pub mod seed;
