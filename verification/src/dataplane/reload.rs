//! Hot reload: which changes in the plugin directory call for a plugin to
//! be loaded.

use vstd::prelude::*;
use crate::text::{extension_of, path_extension, str_eq};

verus! {

/// What happened to a file of the plugin directory.
#[derive(Debug, Clone, Copy, PartialEq, Eq, Structural)]
pub enum ChangeKind {
    /// The file was made.
    Created,
    /// The file was changed.
    Modified,
    /// The file was taken away.
    Removed,
    /// Anything else.
    Other,
}

/// Whether a file is a plugin: its extension is `wasm`.
pub open spec fn is_plugin_path(path: Seq<char>) -> bool {
    path_extension(path) == Some("wasm"@)
}

/// Whether a file is a plugin.
pub fn is_plugin_file(path: &str) -> (r: bool)
    ensures
        r == is_plugin_path(path@),
{
    match extension_of(path) {
        Some(ext) => str_eq(ext.as_str(), "wasm"),
        None => false,
    }
}

/// Whether a change calls for a load: a plugin file was made or changed.
pub fn wants_reload(kind: ChangeKind, path: &str) -> (r: bool)
    ensures
        r == ((kind == ChangeKind::Created || kind == ChangeKind::Modified) && is_plugin_path(path@)),
{
    match kind {
        ChangeKind::Created | ChangeKind::Modified => is_plugin_file(path),
        _ => false,
    }
}

} // verus!
