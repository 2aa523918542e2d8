//! The views and dialogs: what each key does, the arithmetic of their
//! layout, and the text they show.

pub mod list_nav;
pub mod commit_list;
pub mod commit_rows;
pub mod operation_select;
pub mod search;
pub mod commit_detail;
pub mod list_layout;
pub mod detail_text;
pub mod dialog;
pub mod two_pane_picker;
pub mod squash_select;
pub mod move_select;
pub mod drop;
pub mod recover;
pub mod conflict;
pub mod stash_conflict;
pub mod help;
pub mod split_select;
pub mod split_file_select;
pub mod split_files_select;
pub mod split_hunks_select;
pub mod autofixup;
