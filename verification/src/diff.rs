//! What the views know of a changed file in a diff.

use vstd::prelude::*;

verus! {

/// How a file changed (the statuses a diff delta can have).
#[derive(Clone, Copy, Debug, PartialEq, Eq, Structural)]
pub enum DeltaStatus {
    Unmodified,
    Added,
    Deleted,
    Modified,
    Renamed,
    Copied,
    Ignored,
    Untracked,
    Typechange,
    Unreadable,
    Conflicted,
}

/// Whether a diff line was added, removed, or is unchanged context.
#[derive(Clone, Copy, Debug, PartialEq, Eq, Structural)]
pub enum DiffLineKind {
    Addition,
    Deletion,
    Context,
}

/// One line of a diff hunk, with its line terminator if it had one.
#[derive(Clone, Debug)]
pub struct DiffLine {
    pub kind: DiffLineKind,
    pub content: String,
}

/// One hunk of a file's diff: where it starts and how many lines it spans
/// on each side, and its lines.
#[derive(Clone, Debug)]
pub struct DiffHunk {
    pub old_start: u32,
    pub old_lines: u32,
    pub new_start: u32,
    pub new_lines: u32,
    pub lines: Vec<DiffLine>,
}

/// One changed file: its path before and after (absent for an added or a
/// deleted file), how it changed, and its hunks.
#[derive(Clone, Debug)]
pub struct FileDiff {
    pub old_path: Option<String>,
    pub new_path: Option<String>,
    pub status: DeltaStatus,
    pub hunks: Vec<DiffHunk>,
}

/// The text of an optional path, empty when absent.
pub open spec fn path_text(p: Option<String>) -> Seq<char> {
    match p {
        Some(s) => s@,
        None => Seq::empty(),
    }
}

/// The display/identity path of a file: the new path, falling back to the
/// old path for a deleted file (empty if neither is known).
pub open spec fn identity_path(f: FileDiff) -> Seq<char> {
    if f.new_path is Some { path_text(f.new_path) } else { path_text(f.old_path) }
}

/// Resolve a `FileDiff`'s display/identity path: the new path, falling back
/// to the old path for a deleted file.
pub fn file_path(file: &FileDiff) -> (p: String)
    ensures
        p@ == identity_path(*file),
{
    match &file.new_path {
        Some(p) => p.clone(),
        None => match &file.old_path {
            Some(p) => p.clone(),
            None => String::new(),
        },
    }
}

/// Single-character status indicator of the file pickers.
pub open spec fn status_letter(status: DeltaStatus) -> Seq<char> {
    match status {
        DeltaStatus::Added => "A"@,
        DeltaStatus::Deleted => "D"@,
        DeltaStatus::Renamed => "R"@,
        DeltaStatus::Copied => "C"@,
        DeltaStatus::Typechange => "T"@,
        _ => "M"@,
    }
}

/// Single-character status indicator, matching the one used elsewhere in the
/// app for the same `DeltaStatus` values.
pub fn status_char(status: DeltaStatus) -> (s: &'static str)
    ensures
        s@ == status_letter(status),
{
    match status {
        DeltaStatus::Added => "A",
        DeltaStatus::Deleted => "D",
        DeltaStatus::Renamed => "R",
        DeltaStatus::Copied => "C",
        DeltaStatus::Typechange => "T",
        _ => "M",
    }
}

} // verus!
