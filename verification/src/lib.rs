//! Verified core of git-tailor: the pure decisions behind an interactive
//! commit-tidying tool (key handling, list navigation, search, the undo
//! journal, hunk splicing, palettes and message building).

pub mod text;
pub mod pattern;
pub mod oid;
pub mod diff;
pub mod commit_message;
pub mod patch;
pub mod journal;
pub mod rewrite;
pub mod scroll;
pub mod app;
pub mod autofixup;
pub mod views;
pub mod static_views;
pub mod edit;
pub mod squash;
pub mod split_plan;
pub mod palette;
pub mod theme;
pub mod update_check;
pub mod dispatch;
