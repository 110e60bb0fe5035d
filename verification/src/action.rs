//! What the bridge learns from Neovim about a file and about the user's selection.
pub mod neovim;

use vstd::prelude::*;

verus! {

/// How a file stands in the running Neovim instances.
#[derive(Debug, Clone, Copy, PartialEq, Eq, Structural)]
pub struct BufferStatus {
    /// Some instance shows the file in its current buffer.
    pub is_current: bool,
    /// Some instance holds edits of the file that are not yet written to disk.
    pub has_unsaved_changes: bool,
}

/// A visual selection made in Neovim, with the file and lines it covers.
#[derive(Debug, Clone)]
pub struct EditorContext {
    pub file_path: String,
    pub start_line: u32,
    pub end_line: u32,
    pub cwd: String,
    pub content: String,
}

} // verus!
