//! Application state shared by every view: the mode the UI is in, the
//! commit list, scroll positions, and the requests a key press produces.

use vstd::prelude::*;
use crate::diff::FileDiff;
use crate::oid::{CommitInfo, Oid, VirtualOid};
use crate::scroll::{page_rows, page_size, ScrollState};

verus! {

/// A user command, decoded from a key press.
#[derive(Clone, Copy, Debug, PartialEq, Eq, Structural)]
pub enum KeyCommand {
    MoveUp,
    MoveDown,
    PageUp,
    PageDown,
    HalfPageUp,
    HalfPageDown,
    JumpToTop,
    JumpToBottom,
    ScrollLeft,
    ScrollRight,
    ScrollToLeftEdge,
    ScrollToRightEdge,
    ScrollListUp,
    ScrollListDown,
    ToggleDetail,
    Confirm,
    ShowHelp,
    Split,
    Squash,
    Fixup,
    Drop,
    Reword,
    Move,
    Update,
    Refresh,
    Quit,
    ForceQuit,
    Suspend,
    Mergetool,
    OpenEditor,
    Search,
    SearchNext,
    SearchPrev,
    NavFileNext,
    NavFilePrev,
    IncreaseContext,
    DecreaseContext,
    SeparatorLeft,
    SeparatorRight,
    TogglePickerItem,
    Undo,
    Redo,
    NoOp,
}

/// The command with its vertical direction swapped when the list is shown
/// oldest-first.
pub open spec fn mirrored(c: KeyCommand, reverse: bool) -> KeyCommand {
    if !reverse {
        c
    } else {
        match c {
            KeyCommand::MoveUp => KeyCommand::MoveDown,
            KeyCommand::MoveDown => KeyCommand::MoveUp,
            KeyCommand::PageUp => KeyCommand::PageDown,
            KeyCommand::PageDown => KeyCommand::PageUp,
            KeyCommand::HalfPageUp => KeyCommand::HalfPageDown,
            KeyCommand::HalfPageDown => KeyCommand::HalfPageUp,
            other => other,
        }
    }
}

/// Mirroring twice gives back the command: showing the list reversed and
/// reversing again changes nothing.
pub proof fn lemma_mirrored_involution(c: KeyCommand, reverse: bool)
    ensures
        mirrored(mirrored(c, reverse), reverse) == c,
{
}

impl KeyCommand {
    /// Swaps the vertical direction of movement commands when `reverse`.
    pub fn with_vertical_mirroring(self, reverse: bool) -> (c: KeyCommand)
        ensures
            c == mirrored(self, reverse),
    {
        if !reverse {
            return self;
        }
        match self {
            KeyCommand::MoveUp => KeyCommand::MoveDown,
            KeyCommand::MoveDown => KeyCommand::MoveUp,
            KeyCommand::PageUp => KeyCommand::PageDown,
            KeyCommand::PageDown => KeyCommand::PageUp,
            KeyCommand::HalfPageUp => KeyCommand::HalfPageDown,
            KeyCommand::HalfPageDown => KeyCommand::HalfPageUp,
            other => other,
        }
    }
}

/// Whether a squash keeps the source commit's message (`Squash`) or drops it
/// (`Fixup`).
#[derive(Clone, Copy, Debug, PartialEq, Eq, Structural)]
pub enum SquashMode {
    Squash,
    Fixup,
}

/// How a commit is split.
#[derive(Clone, Copy, Debug, PartialEq, Eq, Structural)]
pub enum SplitStrategy {
    PerFile,
    PerHunk,
    PerHunkGroup,
    OutFiles,
    OutHunks,
}

/// Number of split strategies offered.
pub const SPLIT_STRATEGY_COUNT: usize = 5;

/// The strategy at position `i` of the menu.
pub open spec fn strategy_at(i: nat) -> SplitStrategy {
    if i == 0 { SplitStrategy::PerFile }
    else if i == 1 { SplitStrategy::PerHunk }
    else if i == 2 { SplitStrategy::PerHunkGroup }
    else if i == 3 { SplitStrategy::OutFiles }
    else { SplitStrategy::OutHunks }
}

impl SplitStrategy {
    /// The strategy at position `i` of the menu (`i < SPLIT_STRATEGY_COUNT`).
    pub fn from_index(i: usize) -> (s: SplitStrategy)
        requires
            i < SPLIT_STRATEGY_COUNT,
        ensures
            s == strategy_at(i as nat),
    {
        if i == 0 { SplitStrategy::PerFile }
        else if i == 1 { SplitStrategy::PerHunk }
        else if i == 2 { SplitStrategy::PerHunkGroup }
        else if i == 3 { SplitStrategy::OutFiles }
        else { SplitStrategy::OutHunks }
    }
}

/// Position of a strategy in the split menu.
pub open spec fn strategy_index(s: SplitStrategy) -> nat {
    match s {
        SplitStrategy::PerFile => 0,
        SplitStrategy::PerHunk => 1,
        SplitStrategy::PerHunkGroup => 2,
        SplitStrategy::OutFiles => 3,
        SplitStrategy::OutHunks => 4,
    }
}

/// Every strategy has one menu position, and the menu lists each strategy
/// once: position and strategy determine each other.
pub proof fn lemma_strategy_menu_bijective(s: SplitStrategy, i: nat)
    requires
        i < SPLIT_STRATEGY_COUNT,
    ensures
        strategy_index(s) < SPLIT_STRATEGY_COUNT,
        strategy_at(strategy_index(s)) == s,
        strategy_index(strategy_at(i)) == i,
{
}

/// Default number of context lines around diff hunks.
pub const DEFAULT_CONTEXT_LINES: u32 = 3;

/// Where a paused rebase-like operation stands.
#[derive(Clone, Debug)]
pub struct ConflictState {
    pub operation_label: String,
    pub original_branch_oid: Oid,
    pub new_tip_oid: Oid,
    pub conflicting_commit_oid: Oid,
    pub remaining_oids: Vec<Oid>,
    pub conflicting_files: Vec<String>,
    pub still_unresolved: bool,
}

/// `a` and `b` hold the same values.
pub open spec fn same_conflict(a: ConflictState, b: ConflictState) -> bool {
    &&& a.operation_label == b.operation_label
    &&& a.original_branch_oid == b.original_branch_oid
    &&& a.new_tip_oid == b.new_tip_oid
    &&& a.conflicting_commit_oid == b.conflicting_commit_oid
    &&& a.remaining_oids@ == b.remaining_oids@
    &&& a.conflicting_files@ == b.conflicting_files@
    &&& a.still_unresolved == b.still_unresolved
}

impl ConflictState {
    /// A copy of this state.
    pub fn duplicate(&self) -> (r: ConflictState)
        ensures
            same_conflict(r, *self),
    {
        ConflictState {
            operation_label: self.operation_label.clone(),
            original_branch_oid: self.original_branch_oid.duplicate(),
            new_tip_oid: self.new_tip_oid.duplicate(),
            conflicting_commit_oid: self.conflicting_commit_oid.duplicate(),
            remaining_oids: crate::oid::duplicate_oids(&self.remaining_oids),
            conflicting_files: crate::oid::duplicate_strings(&self.conflicting_files),
            still_unresolved: self.still_unresolved,
        }
    }
}

/// Conflicts left by reapplying the auto-stash after an operation.
#[derive(Clone, Debug)]
pub struct StashConflictState {
    pub operation_label: String,
    pub conflicting_files: Vec<String>,
}

/// A drop waiting for confirmation.
#[derive(Clone, Debug)]
pub struct PendingDrop {
    pub commit_oid: Oid,
    pub head_oid: Oid,
    pub commit_summary: String,
}

/// A split waiting for confirmation.
#[derive(Clone, Debug)]
pub struct PendingSplit {
    pub strategy: SplitStrategy,
    pub commit_oid: Oid,
    pub head_oid: Oid,
}

/// One `fixup!`/`squash!` commit and the commit it names.
#[derive(Clone, Debug)]
pub struct AutofixupPair {
    pub source_oid: Oid,
    pub target_oid: Oid,
    pub source_summary: String,
    pub target_summary: String,
    pub source_message: String,
    pub target_message: String,
    pub mode: SquashMode,
}

/// An autofixup batch waiting for confirmation.
#[derive(Clone, Debug)]
pub struct PendingAutofixup {
    pub head_oid: Oid,
    pub reference_oid: Oid,
    pub pairs: Vec<AutofixupPair>,
    /// Final messages the user pinned per target summary.
    pub message_overrides: Vec<(String, String)>,
    /// The target group under the cursor.
    pub selected_group: usize,
}

/// One hunk offered by the "split out hunks" picker.
#[derive(Clone, Debug)]
pub struct HunkChoice {
    pub delta_idx: usize,
    pub hunk_idx: usize,
}

/// The mode the UI is in, with what that mode needs.
#[derive(Debug)]
pub enum AppMode {
    CommitList,
    CommitDetail,
    /// The help overlay, over the mode it was opened from.
    Help(Box<AppMode>),
    SquashSelect { source_index: usize, squash_mode: SquashMode },
    MoveSelect { source_index: usize, insert_before: usize },
    DropConfirm(PendingDrop),
    RecoverConfirm(Box<ConflictState>),
    RebaseConflict(Box<ConflictState>),
    StashConflict(StashConflictState),
    AutofixupConfirm(PendingAutofixup),
    SplitSelect { strategy_index: usize },
    SplitConfirm(PendingSplit),
    SplitFileSelect { commit_oid: Oid, files: Vec<String>, file_index: usize },
    SplitFilesSelect {
        commit_oid: Oid,
        files: Vec<FileDiff>,
        file_index: usize,
        /// Marked rows, ascending and without repeats.
        selected: Vec<usize>,
        preview_h_scroll: usize,
        preview_v_scroll: usize,
    },
    SplitHunksSelect {
        commit_oid: Oid,
        hunks: Vec<HunkChoice>,
        hunk_index: usize,
        /// Marked rows, ascending and without repeats.
        selected: Vec<usize>,
        context_lines: u32,
        preview_h_scroll: usize,
        preview_v_scroll: usize,
    },
    OperationSelect { operation: Operation },
}

/// What the main loop must do after a key press.
#[derive(Debug)]
pub enum AppAction {
    Handled,
    Quit,
    ReloadCommits,
    PrepareDropConfirm { commit_oid: Oid, commit_summary: String },
    PrepareReword { commit_oid: Oid, current_message: String },
    PrepareSquash {
        source_oid: Oid,
        target_oid: Oid,
        source_message: String,
        target_message: String,
        squash_mode: SquashMode,
    },
    ExecuteDrop { commit_oid: Oid, head_oid: Oid },
    ExecuteMove { source_oid: Oid, insert_after_oid: Option<Oid> },
    RebaseContinue(ConflictState),
    RebaseAbort(ConflictState),
    RunMergetool { files: Vec<String>, conflict_state: ConflictState },
    RunEditor { files: Vec<String>, conflict_state: ConflictState },
    AutostashContinue,
    AutostashAbort,
    RunMergetoolForStash { files: Vec<String> },
    RunEditorForStash { files: Vec<String> },
    ExecuteAutofixup {
        head_oid: Oid,
        reference_oid: Oid,
        pairs: Vec<AutofixupPair>,
        message_overrides: Vec<(String, String)>,
    },
    PrepareAutofixupEditMessage { target_summary: String, template: String },
    PrepareSplit { strategy: SplitStrategy, commit_oid: Oid },
    PrepareSplitOutFiles { commit_oid: Oid },
    PrepareSplitOutHunks { commit_oid: Oid, context_lines: u32 },
    ExecuteSplit { strategy: SplitStrategy, commit_oid: Oid, head_oid: Oid },
    ExecuteSplitOutFile { commit_oid: Oid, file_path: String },
    ExecuteSplitOutFiles { commit_oid: Oid, file_paths: Vec<String> },
    ExecuteSplitOutHunks { commit_oid: Oid, hunks: Vec<(usize, usize)>, context_lines: u32 },
    /// Revert the last recorded operation.
    Undo,
    /// Re-apply the last undone operation.
    Redo,
}

/// An operation offered by the operation picker.
#[derive(Clone, Copy, Debug, PartialEq, Eq, Structural)]
pub enum Operation {
    Split,
    Squash,
    Fixup,
    Move,
    Reword,
    Drop,
    Undo,
    Redo,
}

/// The key command that runs an operation.
pub open spec fn operation_key(op: Operation) -> KeyCommand {
    match op {
        Operation::Split => KeyCommand::Split,
        Operation::Squash => KeyCommand::Squash,
        Operation::Fixup => KeyCommand::Fixup,
        Operation::Move => KeyCommand::Move,
        Operation::Reword => KeyCommand::Reword,
        Operation::Drop => KeyCommand::Drop,
        Operation::Undo => KeyCommand::Undo,
        Operation::Redo => KeyCommand::Redo,
    }
}

/// The operations offered for a row: every commit operation for a real
/// commit (squash and fixup need an earlier commit, so not for the oldest
/// one), undo and redo for any row.
pub open spec fn operations_for(is_real: bool, oldest: bool) -> Seq<Operation> {
    if !is_real {
        seq![Operation::Undo, Operation::Redo]
    } else if oldest {
        seq![Operation::Split, Operation::Move, Operation::Reword, Operation::Drop, Operation::Undo, Operation::Redo]
    } else {
        seq![Operation::Split, Operation::Squash, Operation::Fixup, Operation::Move, Operation::Reword,
            Operation::Drop, Operation::Undo, Operation::Redo]
    }
}

impl Operation {
    /// The key command that runs this operation.
    pub fn key_command(self) -> (k: KeyCommand)
        ensures
            k == operation_key(self),
    {
        match self {
            Operation::Split => KeyCommand::Split,
            Operation::Squash => KeyCommand::Squash,
            Operation::Fixup => KeyCommand::Fixup,
            Operation::Move => KeyCommand::Move,
            Operation::Reword => KeyCommand::Reword,
            Operation::Drop => KeyCommand::Drop,
            Operation::Undo => KeyCommand::Undo,
            Operation::Redo => KeyCommand::Redo,
        }
    }

    /// The operations offered for a row.
    pub fn available_for(oid: &VirtualOid, is_oldest: bool) -> (v: Vec<Operation>)
        ensures
            v@ == operations_for(oid is Real, is_oldest),
    {
        let mut v: Vec<Operation> = Vec::new();
        if !oid.is_synthetic() {
            v.push(Operation::Split);
            if !is_oldest {
                v.push(Operation::Squash);
                v.push(Operation::Fixup);
            }
            v.push(Operation::Move);
            v.push(Operation::Reword);
            v.push(Operation::Drop);
        }
        v.push(Operation::Undo);
        v.push(Operation::Redo);
        assert(v@ =~= operations_for(oid is Real, is_oldest));
        v
    }
}


/// Regex search within the commit detail view.
#[derive(Debug)]
pub struct SearchState {
    /// The search bar is shown.
    pub active: bool,
    /// Keys go to the query rather than to commands.
    pub input_active: bool,
    pub query: String,
    /// Content lines that match, ascending.
    pub matches: Vec<usize>,
    /// The match the view is on.
    pub match_index: Option<usize>,
}

impl SearchState {
    /// No search.
    pub fn new() -> (s: SearchState)
        ensures
            !s.active && !s.input_active && s.query@.len() == 0 && s.matches@.len() == 0
                && s.match_index is None,
    {
        SearchState { active: false, input_active: false, query: String::new(), matches: Vec::new(), match_index: None }
    }

    /// Dismiss the search.
    pub fn clear(&mut self)
        ensures
            !final(self).active && !final(self).input_active && final(self).query@.len() == 0
                && final(self).matches@.len() == 0 && final(self).match_index is None,
    {
        self.active = false;
        self.input_active = false;
        self.query = String::new();
        self.matches = Vec::new();
        self.match_index = None;
    }

    /// Open the search bar with an empty query, taking keys.
    pub fn activate(&mut self)
        ensures
            final(self).active && final(self).input_active && final(self).query@.len() == 0
                && final(self).matches@.len() == 0 && final(self).match_index is None,
    {
        self.active = true;
        self.input_active = true;
        self.query = String::new();
        self.matches = Vec::new();
        self.match_index = None;
    }
}

/// Scroll state and options of the commit detail view.
#[derive(Debug)]
pub struct DetailState {
    /// Vertical scroll.
    pub v: ScrollState,
    /// Horizontal scroll.
    pub h: ScrollState,
    /// Context lines shown around each diff hunk.
    pub context_lines: u32,
    /// Content line where each file's diff starts, ascending.
    pub file_start_lines: Vec<usize>,
}

/// Position of the first entry of `v` greater than `x`.
pub fn first_above(v: &Vec<usize>, x: usize) -> (r: Option<usize>)
    ensures
        r is None ==> forall|i: int| 0 <= i < v@.len() ==> #[trigger] v@[i] <= x,
        r matches Some(i) ==> i < v@.len() && v@[i as int] > x
            && forall|j: int| 0 <= j < i ==> #[trigger] v@[j] <= x,
{
    let n = v.len();
    let mut i: usize = 0;
    while i < n
        invariant
            n == v@.len(),
            i <= n,
            forall|j: int| 0 <= j < i ==> #[trigger] v@[j] <= x,
        decreases n - i,
    {
        if v[i] > x {
            return Some(i);
        }
        i = i + 1;
    }
    None
}

/// Position of the last entry of `v` less than `x`.
pub fn last_below(v: &Vec<usize>, x: usize) -> (r: Option<usize>)
    ensures
        r is None ==> forall|i: int| 0 <= i < v@.len() ==> #[trigger] v@[i] >= x,
        r matches Some(i) ==> i < v@.len() && v@[i as int] < x
            && forall|j: int| i < j < v@.len() ==> #[trigger] v@[j] >= x,
{
    let n = v.len();
    let mut i: usize = n;
    while i > 0
        invariant
            n == v@.len(),
            i <= n,
            forall|j: int| i <= j < n ==> #[trigger] v@[j] >= x,
        decreases i,
    {
        if v[i - 1] < x {
            return Some(i - 1);
        }
        i = i - 1;
    }
    None
}

/// Most context lines the detail view asks for.
pub const MAX_CONTEXT_LINES: u32 = 1000;

impl DetailState {
    /// Scrolled to the top, default context.
    pub fn new() -> (d: DetailState)
        ensures
            d.v.offset == 0 && d.h.offset == 0 && d.context_lines == DEFAULT_CONTEXT_LINES
                && d.file_start_lines@.len() == 0,
    {
        DetailState { v: ScrollState::new(), h: ScrollState::new(), context_lines: DEFAULT_CONTEXT_LINES, file_start_lines: Vec::new() }
    }

    /// Scrolls to the first file that starts below the current offset.
    pub fn jump_to_next_file(&mut self)
        ensures
            final(self).v.max == old(self).v.max,
            final(self).v.visible_height == old(self).v.visible_height,
            final(self).h == old(self).h,
            final(self).file_start_lines@ == old(self).file_start_lines@,
            final(self).context_lines == old(self).context_lines,
            (forall|i: int| 0 <= i < old(self).file_start_lines@.len()
                ==> #[trigger] old(self).file_start_lines@[i] <= old(self).v.offset)
                ==> final(self).v.offset == old(self).v.offset,
            forall|i: int| 0 <= i < old(self).file_start_lines@.len()
                && #[trigger] old(self).file_start_lines@[i] > old(self).v.offset
                && (forall|j: int| 0 <= j < i ==> old(self).file_start_lines@[j] <= old(self).v.offset)
                ==> final(self).v.offset == (if old(self).file_start_lines@[i] <= old(self).v.max {
                    old(self).file_start_lines@[i]
                } else {
                    old(self).v.max
                }),
    {
        match first_above(&self.file_start_lines, self.v.offset) {
            Some(i) => {
                let line = self.file_start_lines[i];
                self.v.scroll_to(line);
            },
            None => {},
        }
    }

    /// Scrolls to the last file that starts above the current offset.
    pub fn jump_to_prev_file(&mut self)
        ensures
            final(self).v.max == old(self).v.max,
            final(self).v.visible_height == old(self).v.visible_height,
            final(self).h == old(self).h,
            final(self).file_start_lines@ == old(self).file_start_lines@,
            final(self).context_lines == old(self).context_lines,
            (forall|i: int| 0 <= i < old(self).file_start_lines@.len()
                ==> #[trigger] old(self).file_start_lines@[i] >= old(self).v.offset)
                ==> final(self).v.offset == old(self).v.offset,
            forall|i: int| 0 <= i < old(self).file_start_lines@.len()
                && #[trigger] old(self).file_start_lines@[i] < old(self).v.offset
                && (forall|j: int| i < j < old(self).file_start_lines@.len() ==> old(self).file_start_lines@[j] >= old(self).v.offset)
                ==> final(self).v.offset == (if old(self).file_start_lines@[i] <= old(self).v.max {
                    old(self).file_start_lines@[i]
                } else {
                    old(self).v.max
                }),
    {
        match last_below(&self.file_start_lines, self.v.offset) {
            Some(i) => {
                let line = self.file_start_lines[i];
                self.v.scroll_to(line);
            },
            None => {},
        }
    }

    /// One more context line, up to [`MAX_CONTEXT_LINES`].
    pub fn increase_context_lines(&mut self)
        ensures
            final(self).context_lines == (if old(self).context_lines < MAX_CONTEXT_LINES {
                old(self).context_lines + 1
            } else {
                old(self).context_lines as int
            }),
            final(self).v == old(self).v,
            final(self).h == old(self).h,
            final(self).file_start_lines@ == old(self).file_start_lines@,
    {
        if self.context_lines < MAX_CONTEXT_LINES {
            self.context_lines = self.context_lines + 1;
        }
    }

    /// One context line less, down to none.
    pub fn decrease_context_lines(&mut self)
        ensures
            final(self).context_lines == (if old(self).context_lines > 0 {
                old(self).context_lines - 1
            } else {
                0
            }),
            final(self).v == old(self).v,
            final(self).h == old(self).h,
            final(self).file_start_lines@ == old(self).file_start_lines@,
    {
        self.context_lines = self.context_lines.saturating_sub(1);
    }
}


/// Everything the views read and change.
#[derive(Debug)]
pub struct AppState {
    pub mode: AppMode,
    /// The rows of the commit list, newest first.
    pub commits: Vec<CommitInfo>,
    /// The selected row.
    pub selection_index: usize,
    /// The list is shown oldest-first.
    pub reverse: bool,
    /// Rows of the commit list on screen.
    pub commit_list_visible_height: usize,
    /// Scroll state of the open dialog.
    pub dialog: ScrollState,
    pub detail: DetailState,
    pub search: SearchState,
    /// Column offset of the bar between the list and the detail pane.
    pub separator_offset: i16,
    /// First hunk-group column shown.
    pub fragmap_scroll_offset: usize,
    pub status_message: Option<String>,
    pub status_is_error: bool,
    /// The commit the list starts from.
    pub reference_oid: Oid,
    /// The reference commit is itself a row of the list.
    pub include_reference_oid: bool,
    /// Row to select once an autofixup batch completes.
    pub pending_autofixup_selection: Option<usize>,
}

/// The mode after the help overlay is toggled: closing it gives back the
/// mode it was opened over; opening it keeps the current mode beneath.
pub open spec fn help_toggled(m: AppMode) -> AppMode {
    match m {
        AppMode::Help(prev) => *prev,
        other => AppMode::Help(Box::new(other)),
    }
}

/// Toggling help twice leaves the mode as it was (unless the overlay was
/// itself stacked over another help overlay).
pub proof fn lemma_help_toggle_involution(m: AppMode)
    requires
        m matches AppMode::Help(prev) ==> !(*prev is Help),
    ensures
        help_toggled(help_toggled(m)) == m,
{
}

/// Text of the message that refuses `verb` on a working-tree row.
pub open spec fn refusal(verb: Seq<char>) -> Seq<char> {
    "Cannot "@ + verb + " staged/unstaged changes"@
}

impl AppState {
    /// The list with no rows, in list mode.
    pub fn new(reference_oid: Oid) -> (a: AppState)
        ensures
            a.mode is CommitList,
            a.commits@.len() == 0,
            a.selection_index == 0,
            a.status_message is None,
            a.pending_autofixup_selection is None,
            a.reference_oid == reference_oid,
    {
        AppState {
            mode: AppMode::CommitList,
            commits: Vec::new(),
            selection_index: 0,
            reverse: false,
            commit_list_visible_height: 0,
            dialog: ScrollState::new(),
            detail: DetailState::new(),
            search: SearchState::new(),
            separator_offset: 0,
            fragmap_scroll_offset: 0,
            status_message: None,
            status_is_error: false,
            reference_oid,
            include_reference_oid: false,
            pending_autofixup_selection: None,
        }
    }

    /// Shows `msg` as an error.
    pub fn set_error_message(&mut self, msg: String)
        ensures
            final(self).status_message == Some(msg),
            final(self).status_is_error,
            final(self).mode == old(self).mode,
            final(self).selection_index == old(self).selection_index,
            final(self).commits == old(self).commits,
            final(self).dialog == old(self).dialog,
            final(self).pending_autofixup_selection == old(self).pending_autofixup_selection,
    {
        self.status_message = Some(msg);
        self.status_is_error = true;
    }

    /// Shows `msg` as a success.
    pub fn set_success_message(&mut self, msg: String)
        ensures
            final(self).status_message == Some(msg),
            !final(self).status_is_error,
            final(self).mode == old(self).mode,
            final(self).selection_index == old(self).selection_index,
            final(self).commits == old(self).commits,
            final(self).dialog == old(self).dialog,
            final(self).pending_autofixup_selection == old(self).pending_autofixup_selection,
    {
        self.status_message = Some(msg);
        self.status_is_error = false;
    }

    /// Takes the mode out, leaving the commit list.
    pub fn take_mode(&mut self) -> (m: AppMode)
        ensures
            m == old(self).mode,
            final(self).mode is CommitList,
            final(self).commits == old(self).commits,
            final(self).selection_index == old(self).selection_index,
            final(self).dialog == old(self).dialog,
            final(self).status_message == old(self).status_message,
            final(self).status_is_error == old(self).status_is_error,
            *final(self) == (AppState { mode: AppMode::CommitList, ..*old(self) }),
    {
        let mut m = AppMode::CommitList;
        std::mem::swap(&mut m, &mut self.mode);
        m
    }

    /// Opens the help overlay over the current mode, or closes it again.
    pub fn toggle_help(&mut self)
        ensures
            final(self).mode == help_toggled(old(self).mode),
            old(self).mode matches AppMode::Help(prev) ==> final(self).mode == *prev
                && final(self).dialog == old(self).dialog,
            !(old(self).mode is Help) ==> final(self).mode == AppMode::Help(Box::new(old(self).mode))
                && final(self).dialog.offset == 0,
            final(self).commits == old(self).commits,
            final(self).selection_index == old(self).selection_index,
            final(self).status_message == old(self).status_message,
    {
        let prev = self.take_mode();
        match prev {
            AppMode::Help(inner) => {
                self.mode = *inner;
            },
            other => {
                self.mode = AppMode::Help(Box::new(other));
                self.dialog.offset = 0;
            },
        }
    }

    /// Switches between the commit list and the detail view.
    pub fn toggle_detail_view(&mut self)
        ensures
            old(self).mode is CommitList ==> final(self).mode is CommitDetail,
            old(self).mode is CommitDetail ==> final(self).mode is CommitList,
            !(old(self).mode is CommitList) && !(old(self).mode is CommitDetail) ==> final(self).mode == old(self).mode,
            final(self).commits == old(self).commits,
            final(self).selection_index == old(self).selection_index,
            final(self).status_message == old(self).status_message,
    {
        if matches!(self.mode, AppMode::CommitList) {
            self.mode = AppMode::CommitDetail;
        } else if matches!(self.mode, AppMode::CommitDetail) {
            self.mode = AppMode::CommitList;
        }
    }

    /// Whether the selected row is the last one: the oldest commit shown.
    pub fn selected_is_oldest_commit(&self) -> (b: bool)
        ensures
            b == (self.selection_index + 1 == self.commits@.len()),
    {
        self.selection_index < self.commits.len() && self.selection_index + 1 == self.commits.len()
    }

    /// Selects the row above.
    pub fn move_up(&mut self)
        ensures
            final(self).selection_index == (if old(self).selection_index > 0 { old(self).selection_index - 1 } else { 0 }),
            final(self).mode == old(self).mode,
            final(self).commits == old(self).commits,
    {
        self.selection_index = self.selection_index.saturating_sub(1);
    }

    /// Selects the row below, staying on the last row.
    pub fn move_down(&mut self)
        ensures
            old(self).selection_index + 1 < old(self).commits@.len() ==> final(self).selection_index == old(self).selection_index + 1,
            old(self).selection_index + 1 >= old(self).commits@.len() ==> final(self).selection_index == old(self).selection_index,
            final(self).mode == old(self).mode,
            final(self).commits == old(self).commits,
    {
        if self.selection_index < self.commits.len() && self.selection_index + 1 < self.commits.len() {
            self.selection_index = self.selection_index + 1;
        }
    }

    /// Moves the selection one page up.
    pub fn page_up(&mut self, visible_height: usize)
        ensures
            final(self).selection_index == (if old(self).selection_index >= page_rows(visible_height as nat) {
                old(self).selection_index - page_rows(visible_height as nat)
            } else {
                0
            }),
            final(self).mode == old(self).mode,
            final(self).commits == old(self).commits,
    {
        let p = page_size(visible_height);
        self.selection_index = self.selection_index.saturating_sub(p);
    }

    /// Moves the selection one page down, stopping on the last row.
    pub fn page_down(&mut self, visible_height: usize)
        ensures
            old(self).commits@.len() == 0 ==> final(self).selection_index == old(self).selection_index,
            old(self).commits@.len() > 0 ==> final(self).selection_index == (
                if old(self).selection_index + page_rows(visible_height as nat) < old(self).commits@.len() {
                    old(self).selection_index + page_rows(visible_height as nat)
                } else {
                    old(self).commits@.len() - 1
                }),
            final(self).mode == old(self).mode,
            final(self).commits == old(self).commits,
    {
        let n = self.commits.len();
        if n == 0 {
            return;
        }
        let p = page_size(visible_height);
        self.selection_index = if self.selection_index < n && p < n - self.selection_index {
            self.selection_index + p
        } else {
            n - 1
        };
    }

    /// Scrolls the hunk-group columns one to the left.
    pub fn scroll_fragmap_left(&mut self)
        ensures
            final(self).fragmap_scroll_offset == (if old(self).fragmap_scroll_offset > 0 {
                old(self).fragmap_scroll_offset - 1
            } else {
                0
            }),
            final(self).mode == old(self).mode,
            final(self).commits == old(self).commits,
            final(self).selection_index == old(self).selection_index,
    {
        self.fragmap_scroll_offset = self.fragmap_scroll_offset.saturating_sub(1);
    }

    /// Scrolls the hunk-group columns one to the right (the render clamps).
    pub fn scroll_fragmap_right(&mut self)
        ensures
            final(self).fragmap_scroll_offset == (if old(self).fragmap_scroll_offset < usize::MAX {
                old(self).fragmap_scroll_offset + 1
            } else {
                old(self).fragmap_scroll_offset as int
            }),
            final(self).mode == old(self).mode,
            final(self).commits == old(self).commits,
            final(self).selection_index == old(self).selection_index,
    {
        self.fragmap_scroll_offset = self.fragmap_scroll_offset.saturating_add(1);
    }

    /// Whether the selected row is a real commit; otherwise shows the error
    /// "Cannot `verb` staged/unstaged changes".
    pub fn check_selected_real(&mut self, verb: &str) -> (ok: bool)
        requires
            old(self).selection_index < old(self).commits@.len(),
        ensures
            ok == (old(self).commits@[old(self).selection_index as int].oid is Real),
            ok ==> final(self).status_message == old(self).status_message
                && final(self).status_is_error == old(self).status_is_error,
            !ok ==> (final(self).status_message matches Some(m) && m@ == refusal(verb@))
                && final(self).status_is_error,
            final(self).mode == old(self).mode,
            final(self).commits == old(self).commits,
            final(self).selection_index == old(self).selection_index,
            final(self).dialog == old(self).dialog,
    {
        if self.commits[self.selection_index].oid.is_synthetic() {
            let mut msg = String::from_str("Cannot ");
            msg.append(verb);
            msg.append(" staged/unstaged changes");
            proof {
                reveal_strlit("Cannot ");
                reveal_strlit(" staged/unstaged changes");
            }
            self.set_error_message(msg);
            false
        } else {
            true
        }
    }

    /// Starts picking the commit to squash the selected one into.
    pub fn enter_squash_select(&mut self)
        requires
            old(self).selection_index < old(self).commits@.len(),
        ensures
            old(self).commits@[old(self).selection_index as int].oid is Real ==> final(self).mode
                == (AppMode::SquashSelect { source_index: old(self).selection_index, squash_mode: SquashMode::Squash }),
            !(old(self).commits@[old(self).selection_index as int].oid is Real) ==> final(self).mode == old(self).mode
                && final(self).status_is_error
                && (final(self).status_message matches Some(m) && m@ == refusal("squash"@)),
            final(self).commits == old(self).commits,
            final(self).selection_index == old(self).selection_index,
    {
        if self.check_selected_real("squash") {
            self.mode = AppMode::SquashSelect { source_index: self.selection_index, squash_mode: SquashMode::Squash };
        }
    }

    /// Starts picking the commit to fix the selected one up into.
    pub fn enter_fixup_select(&mut self)
        requires
            old(self).selection_index < old(self).commits@.len(),
        ensures
            old(self).commits@[old(self).selection_index as int].oid is Real ==> final(self).mode
                == (AppMode::SquashSelect { source_index: old(self).selection_index, squash_mode: SquashMode::Fixup }),
            !(old(self).commits@[old(self).selection_index as int].oid is Real) ==> final(self).mode == old(self).mode
                && final(self).status_is_error
                && (final(self).status_message matches Some(m) && m@ == refusal("fixup"@)),
            final(self).commits == old(self).commits,
            final(self).selection_index == old(self).selection_index,
    {
        if self.check_selected_real("fixup") {
            self.mode = AppMode::SquashSelect { source_index: self.selection_index, squash_mode: SquashMode::Fixup };
        }
    }

    /// Starts picking the new position of the selected commit; the cursor
    /// starts on the commit's own slot.
    pub fn enter_move_select(&mut self)
        requires
            old(self).selection_index < old(self).commits@.len(),
        ensures
            old(self).commits@[old(self).selection_index as int].oid is Real ==> final(self).mode
                == (AppMode::MoveSelect { source_index: old(self).selection_index, insert_before: old(self).selection_index }),
            !(old(self).commits@[old(self).selection_index as int].oid is Real) ==> final(self).mode == old(self).mode
                && final(self).status_is_error
                && (final(self).status_message matches Some(m) && m@ == refusal("move"@)),
            final(self).commits == old(self).commits,
            final(self).selection_index == old(self).selection_index,
    {
        if self.check_selected_real("move") {
            self.mode = AppMode::MoveSelect { source_index: self.selection_index, insert_before: self.selection_index };
        }
    }

    /// Opens the split strategy menu for the selected commit.
    pub fn enter_split_select(&mut self)
        requires
            old(self).selection_index < old(self).commits@.len(),
        ensures
            old(self).commits@[old(self).selection_index as int].oid is Real ==> final(self).mode
                == (AppMode::SplitSelect { strategy_index: 0 }) && final(self).dialog.offset == 0,
            !(old(self).commits@[old(self).selection_index as int].oid is Real) ==> final(self).mode == old(self).mode
                && final(self).status_is_error
                && (final(self).status_message matches Some(m) && m@ == refusal("split"@)),
            final(self).commits == old(self).commits,
            final(self).selection_index == old(self).selection_index,
    {
        if self.check_selected_real("split") {
            self.mode = AppMode::SplitSelect { strategy_index: 0 };
            self.dialog.offset = 0;
        }
    }

    /// Opens the conflict dialog for a paused operation.
    pub fn enter_rebase_conflict(&mut self, state: ConflictState)
        ensures
            final(self).mode == AppMode::RebaseConflict(Box::new(state)),
            final(self).dialog.offset == 0,
            final(self).commits == old(self).commits,
            final(self).selection_index == old(self).selection_index,
            final(self).status_message == old(self).status_message,
            final(self).status_is_error == old(self).status_is_error,
            final(self).pending_autofixup_selection == old(self).pending_autofixup_selection,
    {
        self.mode = AppMode::RebaseConflict(Box::new(state));
        self.dialog.offset = 0;
    }

    /// Leaves squash target selection, returning the selection to the source.
    pub fn cancel_squash_select(&mut self)
        ensures
            final(self).mode is CommitList,
            old(self).mode matches AppMode::SquashSelect { source_index, .. }
                ==> final(self).selection_index == source_index,
            !(old(self).mode is SquashSelect) ==> final(self).selection_index == old(self).selection_index,
            final(self).commits == old(self).commits,
    {
        if let AppMode::SquashSelect { source_index, .. } = self.mode {
            self.selection_index = source_index;
        }
        self.mode = AppMode::CommitList;
    }

    /// Leaves move target selection, returning the selection to the source.
    pub fn cancel_move_select(&mut self)
        ensures
            final(self).mode is CommitList,
            old(self).mode matches AppMode::MoveSelect { source_index, .. }
                ==> final(self).selection_index == source_index,
            !(old(self).mode is MoveSelect) ==> final(self).selection_index == old(self).selection_index,
            final(self).commits == old(self).commits,
    {
        if let AppMode::MoveSelect { source_index, .. } = self.mode {
            self.selection_index = source_index;
        }
        self.mode = AppMode::CommitList;
    }

    /// Closes a dialog without acting: back to the commit list.
    pub fn close_dialog(&mut self)
        ensures
            final(self).mode is CommitList,
            final(self).commits == old(self).commits,
            final(self).selection_index == old(self).selection_index,
            final(self).status_message == old(self).status_message,
    {
        self.mode = AppMode::CommitList;
    }

    /// Scrolls the open dialog one line up.
    pub fn scroll_dialog_up(&mut self)
        ensures
            final(self).dialog.offset == (if old(self).dialog.offset > 0 { old(self).dialog.offset - 1 } else { 0 }),
            final(self).dialog.max == old(self).dialog.max,
            final(self).mode == old(self).mode,
            final(self).commits == old(self).commits,
            final(self).selection_index == old(self).selection_index,
            *final(self) == (AppState { dialog: final(self).dialog, ..*old(self) }),
    {
        self.dialog.step_back();
    }

    /// Scrolls the open dialog one line down.
    pub fn scroll_dialog_down(&mut self)
        ensures
            final(self).dialog.offset == crate::scroll::min_int(old(self).dialog.offset + 1, old(self).dialog.max as int),
            final(self).dialog.max == old(self).dialog.max,
            final(self).mode == old(self).mode,
            final(self).commits == old(self).commits,
            final(self).selection_index == old(self).selection_index,
            *final(self) == (AppState { dialog: final(self).dialog, ..*old(self) }),
    {
        self.dialog.step_forward();
    }

    /// Scrolls the open dialog one page up.
    pub fn scroll_dialog_page_up(&mut self)
        ensures
            final(self).dialog.offset == (if old(self).dialog.offset >= page_rows(old(self).dialog.visible_height as nat) {
                old(self).dialog.offset - page_rows(old(self).dialog.visible_height as nat)
            } else {
                0
            }),
            final(self).dialog.max == old(self).dialog.max,
            final(self).mode == old(self).mode,
            final(self).commits == old(self).commits,
            final(self).selection_index == old(self).selection_index,
            *final(self) == (AppState { dialog: final(self).dialog, ..*old(self) }),
    {
        self.dialog.page_back();
    }

    /// Scrolls the open dialog one page down.
    pub fn scroll_dialog_page_down(&mut self)
        ensures
            final(self).dialog.offset == crate::scroll::min_int(
                old(self).dialog.offset + page_rows(old(self).dialog.visible_height as nat),
                old(self).dialog.max as int,
            ),
            final(self).dialog.max == old(self).dialog.max,
            final(self).mode == old(self).mode,
            final(self).commits == old(self).commits,
            final(self).selection_index == old(self).selection_index,
            *final(self) == (AppState { dialog: final(self).dialog, ..*old(self) }),
    {
        self.dialog.page_forward();
    }
}

} // verus!
