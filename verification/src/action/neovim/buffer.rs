//! Finding a file among Neovim's buffers, and reading what Neovim reports about it.
use crate::action::BufferStatus;
use vstd::prelude::*;

verus! {

/// The result of comparing two paths as `std::path::Path` values.
pub uninterp spec fn path_components_equal(a: Seq<char>, b: Seq<char>) -> bool;

/// Compares two paths with `PartialEq` of `std::path::Path`, which compares them
/// component by component (so `a//b` and `a/b/` name the same path). Claimed: the
/// result is the named comparison of the two texts, and equal texts compare equal.
#[verifier::external_body]
fn same_path(a: &str, b: &str) -> (same: bool)
    ensures
        same == path_components_equal(a@, b@),
        a@ == b@ ==> same,
{
    std::path::Path::new(a) == std::path::Path::new(b)
}

/// A buffer's name as Neovim reports it, and the canonical form of that path when it
/// could be resolved on disk.
#[derive(Debug, Clone)]
pub struct BufferEntry {
    pub name: String,
    pub canonical: Option<String>,
}

/// The path used for a file: its canonical form when there is one, else the path as given.
pub open spec fn resolved_path(raw: Seq<char>, canonical: Option<String>) -> Seq<char> {
    match canonical {
        Some(c) => c@,
        None => raw,
    }
}

/// A buffer holds the target file: it has a name, and that name resolves to the same
/// path as the target (the same text, or a text that compares equal as a path).
pub open spec fn holds_file(target: Seq<char>, entry: BufferEntry) -> bool {
    let path = resolved_path(entry.name@, entry.canonical);
    entry.name@.len() > 0 && (path == target || path_components_equal(path, target))
}

/// The scan over the buffers stops at this one: either its name could not be read, or
/// it holds the file.
pub open spec fn stops_scan(target: Seq<char>, entry: Option<BufferEntry>) -> bool {
    match entry {
        None => true,
        Some(e) => holds_file(target, e),
    }
}

/// What one buffer tells the search for a file.
#[derive(Debug, Clone, Copy, PartialEq, Eq, Structural)]
pub enum BufferScan {
    /// Not this one: its name is empty or names another file.
    Skip,
    /// This buffer holds the file.
    Found,
    /// Its name could not be read: the search fails.
    Unreadable,
}

/// Why a file could not be found among the buffers.
#[derive(Debug, Clone, Copy, PartialEq, Eq, Structural)]
pub enum FindBufferError {
    /// The name of the buffer at this position could not be read.
    NameUnreadable(usize),
    /// No buffer holds the file.
    NotOpen,
}

/// A buffer with a name holds the file whose resolved path is the very text its name
/// resolves to: its canonical form when it has one, else the name itself, whatever
/// characters the path holds. A buffer without a name holds no file.
pub proof fn law_same_path_is_found(target: Seq<char>, entry: BufferEntry)
    ensures
        entry.name@.len() > 0 && entry.canonical is None && entry.name@ == target ==> holds_file(
            target,
            entry,
        ),
        entry.name@.len() > 0 && (entry.canonical matches Some(c) && c@ == target) ==> holds_file(
            target,
            entry,
        ),
        entry.name@.len() == 0 ==> !holds_file(target, entry),
{
}

/// The search finds the first buffer whose resolved name is the resolved target text,
/// when every buffer before it has a readable name that holds another file.
pub proof fn law_first_same_path_found(target: Seq<char>, buffers: Seq<Option<BufferEntry>>, i: int)
    requires
        0 <= i < buffers.len(),
        buffers[i] matches Some(e) && e.name@.len() > 0 && resolved_path(e.name@, e.canonical)
            == target,
        forall|j: int| 0 <= j < i ==> !stops_scan(target, #[trigger] buffers[j]),
    ensures
        buffers[i] matches Some(e) && holds_file(target, e),
        stops_scan(target, buffers[i]),
{
}

/// The path that stands for a file: its canonical form if it has one, else the path
/// as given.
pub fn resolve_path(raw: &str, canonical: Option<String>) -> (path: String)
    ensures
        path@ == resolved_path(raw@, canonical),
{
    match canonical {
        Some(c) => c,
        None => String::from_str(raw),
    }
}

/// Looks at one buffer in the search for the file at `target` (already resolved):
/// `None` is a buffer whose name could not be read; a buffer with an empty name is
/// passed over; otherwise the resolved name is compared with the target as paths.
pub fn scan_buffer(target: &str, entry: &Option<BufferEntry>) -> (scan: BufferScan)
    ensures
        scan == (match *entry {
            None => BufferScan::Unreadable,
            Some(e) => if holds_file(target@, e) {
                BufferScan::Found
            } else {
                BufferScan::Skip
            },
        }),
{
    match entry {
        None => BufferScan::Unreadable,
        Some(e) => {
            if e.name.as_str().is_empty() {
                BufferScan::Skip
            } else {
                let path = match &e.canonical {
                    Some(c) => c.as_str(),
                    None => e.name.as_str(),
                };
                if same_path(path, target) {
                    BufferScan::Found
                } else {
                    BufferScan::Skip
                }
            }
        },
    }
}

/// Finds the buffer that holds the file `file_path`, given that path's canonical form
/// (if it has one) and the buffers in Neovim's order. Buffers are looked at in order;
/// the first one whose name cannot be read ends the search with an error, and the
/// first one that holds the file is the answer.
pub fn find_buffer(
    file_path: &str,
    target_canonical: Option<String>,
    buffers: &Vec<Option<BufferEntry>>,
) -> (found: Result<usize, FindBufferError>)
    ensures
        ({
            let target = resolved_path(file_path@, target_canonical);
            match found {
                Ok(i) => {
                    &&& i < buffers@.len()
                    &&& buffers@[i as int] matches Some(e) && holds_file(target, e)
                    &&& forall|j: int| 0 <= j < i ==> !stops_scan(target, #[trigger] buffers@[j])
                },
                Err(FindBufferError::NameUnreadable(i)) => {
                    &&& i < buffers@.len()
                    &&& buffers@[i as int] is None
                    &&& forall|j: int| 0 <= j < i ==> !stops_scan(target, #[trigger] buffers@[j])
                },
                Err(FindBufferError::NotOpen) => forall|j: int|
                    0 <= j < buffers@.len() ==> !stops_scan(target, #[trigger] buffers@[j]),
            }
        }),
{
    let target = resolve_path(file_path, target_canonical);
    let mut i: usize = 0;
    while i < buffers.len()
        invariant
            0 <= i <= buffers@.len(),
            target@ == resolved_path(file_path@, target_canonical),
            forall|j: int| 0 <= j < i ==> !stops_scan(target@, #[trigger] buffers@[j]),
        decreases buffers@.len() - i,
    {
        match scan_buffer(target.as_str(), &buffers[i]) {
            BufferScan::Found => {
                return Ok(i);
            },
            BufferScan::Unreadable => {
                return Err(FindBufferError::NameUnreadable(i));
            },
            BufferScan::Skip => {},
        }
        i = i + 1;
    }
    Err(FindBufferError::NotOpen)
}

/// The status of a buffer in one instance: whether it is the current buffer, and
/// whether its `modified` option is set; a `modified` value that is not a boolean
/// counts as not modified.
pub fn get_buffer_status(is_current: bool, modified: Option<bool>) -> (status: BufferStatus)
    ensures
        status.is_current == is_current,
        status.has_unsaved_changes == (modified == Some(true)),
{
    let has_unsaved_changes = match modified {
        Some(m) => m,
        None => false,
    };
    BufferStatus { is_current, has_unsaved_changes }
}

/// What Neovim answered to the visual-selection snippet.
#[derive(Debug, Clone)]
pub enum LuaReply {
    /// `nil`: there is no selection.
    Nil,
    /// A string: the selection as JSON.
    Text(String),
    /// Any other value.
    Other,
}

/// Neovim answered the visual-selection snippet with something other than nil or a string.
#[derive(Debug, Clone, Copy, PartialEq, Eq, Structural)]
pub enum SelectionError {
    UnexpectedResponse,
}

/// The JSON text of the visual selection in Neovim's answer: none for `nil`, the text
/// for a string, an error for anything else.
pub fn visual_selection_json(reply: LuaReply) -> (json: Result<Option<String>, SelectionError>)
    ensures
        match reply {
            LuaReply::Nil => json == Ok::<Option<String>, SelectionError>(None),
            LuaReply::Text(t) => json == Ok::<Option<String>, SelectionError>(Some(t)),
            LuaReply::Other => json == Err::<Option<String>, SelectionError>(
                SelectionError::UnexpectedResponse,
            ),
        },
{
    match reply {
        LuaReply::Nil => Ok(None),
        LuaReply::Text(t) => Ok(Some(t)),
        LuaReply::Other => Err(SelectionError::UnexpectedResponse),
    }
}

} // verus!
