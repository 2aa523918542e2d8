use git_tailor::app::{AppAction, AppMode, AppState, KeyCommand, Operation, SquashMode};
use git_tailor::diff::{DeltaStatus, FileDiff};
use git_tailor::oid::{synthetic_commit_info, CommitInfo, Oid, VirtualOid};
use git_tailor::palette::Color;
use git_tailor::views::commit_detail::{self, diff_path_with_prefix, format_file_status, get_file_status_and_path, get_status_color, FileStatus};
use git_tailor::views::commit_list::{self, fragmap_index};
use git_tailor::views::operation_select;
use git_tailor::views::list_layout::{compute_layout, fragmap_separator_x, needs_h_scrollbar};
use git_tailor::views::commit_detail::{compute_scroll_layout, Area};
use git_tailor::diff::{DiffHunk, DiffLine, DiffLineKind};
use git_tailor::views::detail_text::{build_diff_lines, build_file_list_lines, build_hunk_preview, diff_line, hunk_header};

fn commit(c: &str, summary: &str) -> CommitInfo {
    CommitInfo {
        oid: VirtualOid::Real(Oid::new(c.repeat(40))),
        summary: summary.to_string(),
        message: format!("{summary}\n\nbody"),
    }
}

fn app_with_rows() -> AppState {
    let mut app = AppState::new(Oid::new("0".repeat(40)));
    app.commits = vec![
        synthetic_commit_info(VirtualOid::Staged, "Staged changes"),
        commit("a", "newest"),
        commit("b", "middle"),
        commit("c", "oldest"),
    ];
    app.commit_list_visible_height = 3;
    app
}

#[test]
fn list_movement_is_clamped_and_mirrored_when_reversed() {
    let mut app = app_with_rows();
    commit_list::handle_key(KeyCommand::MoveUp, &mut app);
    assert_eq!(app.selection_index, 0);
    commit_list::handle_key(KeyCommand::PageDown, &mut app);
    assert_eq!(app.selection_index, 2);
    commit_list::handle_key(KeyCommand::PageDown, &mut app);
    assert_eq!(app.selection_index, 3);
    app.reverse = true;
    commit_list::handle_key(KeyCommand::MoveUp, &mut app);
    assert_eq!(app.selection_index, 3);
    commit_list::handle_key(KeyCommand::MoveDown, &mut app);
    assert_eq!(app.selection_index, 2);
}

#[test]
fn operations_on_a_working_tree_row_are_refused() {
    let mut app = app_with_rows();
    let r = commit_list::handle_key(KeyCommand::Drop, &mut app);
    assert!(matches!(r, AppAction::Handled));
    assert_eq!(app.status_message.as_deref(), Some("Cannot drop staged/unstaged changes"));
    assert!(app.status_is_error);
    commit_list::handle_key(KeyCommand::Squash, &mut app);
    assert_eq!(app.status_message.as_deref(), Some("Cannot squash staged/unstaged changes"));
    assert!(matches!(app.mode, AppMode::CommitList));
}

#[test]
fn drop_and_reword_hand_the_commit_to_the_main_loop() {
    let mut app = app_with_rows();
    app.selection_index = 2;
    match commit_list::handle_key(KeyCommand::Drop, &mut app) {
        AppAction::PrepareDropConfirm { commit_oid, commit_summary } => {
            assert_eq!(commit_oid.hex, "b".repeat(40));
            assert_eq!(commit_summary, "middle");
        }
        other => panic!("unexpected {other:?}"),
    }
    match commit_list::handle_key(KeyCommand::Reword, &mut app) {
        AppAction::PrepareReword { current_message, .. } => assert_eq!(current_message, "middle\n\nbody"),
        other => panic!("unexpected {other:?}"),
    }
    commit_list::handle_key(KeyCommand::Fixup, &mut app);
    assert!(matches!(app.mode, AppMode::SquashSelect { source_index: 2, squash_mode: SquashMode::Fixup }));
}

#[test]
fn separator_moves_by_four_and_saturates() {
    let mut app = app_with_rows();
    commit_list::handle_key(KeyCommand::SeparatorLeft, &mut app);
    assert_eq!(app.separator_offset, -4);
    commit_list::handle_key(KeyCommand::SeparatorRight, &mut app);
    commit_list::handle_key(KeyCommand::SeparatorRight, &mut app);
    assert_eq!(app.separator_offset, 4);
    app.separator_offset = i16::MAX - 1;
    commit_list::handle_key(KeyCommand::SeparatorRight, &mut app);
    assert_eq!(app.separator_offset, i16::MAX);
    app.separator_offset = i16::MIN + 2;
    commit_list::handle_key(KeyCommand::SeparatorLeft, &mut app);
    assert_eq!(app.separator_offset, i16::MIN);
}

#[test]
fn list_commands_pass_through_to_the_main_loop() {
    let mut app = app_with_rows();
    assert!(matches!(commit_list::handle_key(KeyCommand::Quit, &mut app), AppAction::Quit));
    assert!(matches!(commit_list::handle_key(KeyCommand::Update, &mut app), AppAction::ReloadCommits));
    assert!(matches!(commit_list::handle_key(KeyCommand::Undo, &mut app), AppAction::Undo));
    assert!(matches!(commit_list::handle_key(KeyCommand::Redo, &mut app), AppAction::Redo));
    commit_list::handle_key(KeyCommand::ToggleDetail, &mut app);
    assert!(matches!(app.mode, AppMode::CommitDetail));
}

#[test]
fn fragmap_rows_follow_the_display_order() {
    let mut app = app_with_rows();
    assert_eq!(fragmap_index(&app, 1), 1);
    app.reverse = true;
    assert_eq!(fragmap_index(&app, 0), 3);
    assert_eq!(fragmap_index(&app, 3), 0);
    assert_eq!(fragmap_index(&app, 7), 0);
}

#[test]
fn the_operation_picker_offers_what_the_row_allows() {
    let mut app = app_with_rows();
    app.selection_index = 3;
    app.mode = AppMode::OperationSelect { operation: Operation::Split };
    // The oldest commit has no squash or fixup.
    operation_select::handle_key(KeyCommand::MoveDown, &mut app);
    assert!(matches!(app.mode, AppMode::OperationSelect { operation: Operation::Move }));
    // A shortcut of an offered operation runs it.
    let r = operation_select::handle_key(KeyCommand::Drop, &mut app);
    assert!(matches!(r, AppAction::PrepareDropConfirm { .. }));
    assert!(matches!(app.mode, AppMode::CommitList));
}

#[test]
fn the_operation_picker_ignores_shortcuts_it_does_not_offer() {
    let mut app = app_with_rows();
    app.selection_index = 0;
    app.mode = AppMode::OperationSelect { operation: Operation::Undo };
    let r = operation_select::handle_key(KeyCommand::Drop, &mut app);
    assert!(matches!(r, AppAction::Handled));
    assert!(matches!(app.mode, AppMode::OperationSelect { operation: Operation::Undo }));
    let r = operation_select::handle_key(KeyCommand::Confirm, &mut app);
    assert!(matches!(r, AppAction::Undo));
    assert!(matches!(app.mode, AppMode::CommitList));
}

#[test]
fn detail_view_scrolls_within_bounds_and_quits_search_first() {
    let mut app = app_with_rows();
    app.mode = AppMode::CommitDetail;
    app.detail.v.set_bounds(10, 4);
    commit_detail::handle_key(KeyCommand::JumpToBottom, &mut app);
    assert_eq!(app.detail.v.offset, 10);
    commit_detail::handle_key(KeyCommand::PageUp, &mut app);
    assert_eq!(app.detail.v.offset, 7);
    commit_detail::handle_key(KeyCommand::HalfPageDown, &mut app);
    assert_eq!(app.detail.v.offset, 9);
    commit_detail::handle_key(KeyCommand::Search, &mut app);
    assert!(app.search.active);
    commit_detail::handle_key(KeyCommand::Quit, &mut app);
    assert!(!app.search.active);
    assert!(matches!(app.mode, AppMode::CommitDetail));
    commit_detail::handle_key(KeyCommand::Quit, &mut app);
    assert!(matches!(app.mode, AppMode::CommitList));
}

#[test]
fn detail_view_context_lines_step_and_saturate() {
    let mut app = app_with_rows();
    app.detail.context_lines = 0;
    commit_detail::handle_key(KeyCommand::DecreaseContext, &mut app);
    assert_eq!(app.detail.context_lines, 0);
    commit_detail::handle_key(KeyCommand::IncreaseContext, &mut app);
    assert_eq!(app.detail.context_lines, 1);
    assert!(matches!(commit_detail::handle_key(KeyCommand::Refresh, &mut app), AppAction::ReloadCommits));
}

#[test]
fn file_status_column() {
    let renamed = FileDiff {
        old_path: Some("a.rs".to_string()),
        new_path: Some("b.rs".to_string()),
        status: DeltaStatus::Renamed,
        hunks: vec![],
    };
    assert_eq!(get_file_status_and_path(&renamed), (FileStatus::Renamed, "a.rs → b.rs".to_string()));
    let modified = FileDiff { status: DeltaStatus::Modified, ..renamed.clone() };
    assert_eq!(get_file_status_and_path(&modified), (FileStatus::Modified, "b.rs".to_string()));
    let deleted = FileDiff { old_path: Some("gone.rs".to_string()), new_path: None, status: DeltaStatus::Deleted, hunks: vec![] };
    assert_eq!(get_file_status_and_path(&deleted), (FileStatus::Deleted, "gone.rs".to_string()));
    let unknown = FileDiff { old_path: None, new_path: None, status: DeltaStatus::Typechange, hunks: vec![] };
    assert_eq!(get_file_status_and_path(&unknown), (FileStatus::Modified, "<unknown>".to_string()));
    assert_eq!(format_file_status(FileStatus::Added), "A");
    assert_eq!(get_status_color(FileStatus::Deleted), Color::Red);
}

#[test]
fn diff_paths_get_their_side_prefix() {
    assert_eq!(diff_path_with_prefix(Some("src/x.rs"), "a"), "a/src/x.rs");
    assert_eq!(diff_path_with_prefix(None, "b"), "/dev/null");
}

#[test]
fn layout_gives_the_title_its_natural_width() {
    let mut app = app_with_rows();
    let l = compute_layout(&mut app, 80, 20, &vec![0, 1, 2, 5]);
    assert_eq!(l.available_height, 19);
    assert!(!l.has_v_scrollbar);
    assert_eq!(l.title_width, 60);
    assert_eq!(l.fragmap_available_width, 8);
    assert_eq!(l.display_clusters, vec![0, 1, 2, 5]);
    assert_eq!(l.fragmap_col_width, 4);
    assert_eq!(app.separator_offset, 0);
    // SHA, separators, title and hunk groups fill the width exactly.
    assert_eq!(10 + 2 + l.title_width as usize + l.fragmap_available_width, 80);
    assert_eq!(fragmap_separator_x(0, &l), Some(71));
}

#[test]
fn layout_clamps_a_dragged_separator_and_writes_it_back() {
    let mut app = app_with_rows();
    app.separator_offset = 20;
    app.fragmap_scroll_offset = 10;
    let l = compute_layout(&mut app, 80, 20, &vec![0, 1, 2, 5]);
    assert_eq!(l.title_width, 67);
    assert_eq!(app.separator_offset, 7);
    assert_eq!(l.fragmap_available_width, 1);
    assert_eq!(l.h_scroll_offset, 3);
    assert_eq!(app.fragmap_scroll_offset, 3);
    assert_eq!(l.display_clusters, vec![5]);
}

#[test]
fn layout_of_a_narrow_table_drops_the_title() {
    let mut app = app_with_rows();
    app.separator_offset = -8;
    let l = compute_layout(&mut app, 20, 3, &vec![]);
    assert_eq!(l.title_width, 0);
    assert_eq!(app.separator_offset, 0);
    assert!(l.has_v_scrollbar);
    assert_eq!(l.available_height, 2);
    assert_eq!(l.fragmap_col_width, 0);
    assert_eq!(fragmap_separator_x(0, &l), None);
}

#[test]
fn layout_scrolls_the_list_to_keep_the_selection_visible() {
    let mut app = app_with_rows();
    app.selection_index = 3;
    let l = compute_layout(&mut app, 80, 3, &vec![]);
    assert_eq!(l.available_height, 2);
    assert_eq!(l.scroll_offset, 2);
    app.reverse = true;
    let l = compute_layout(&mut app, 80, 3, &vec![]);
    assert_eq!(l.visual_selection, 0);
    assert_eq!(l.scroll_offset, 0);
}

#[test]
fn many_hunk_groups_need_a_scrollbar() {
    assert!(!needs_h_scrollbar(80, 0));
    assert!(!needs_h_scrollbar(80, 47));
    assert!(needs_h_scrollbar(80, 48));
}

#[test]
fn detail_scrollbars_appear_only_when_content_overflows() {
    let area = Area { x: 0, y: 0, width: 10, height: 5 };
    let l = compute_scroll_layout(area, &vec![3, 12, 4]);
    assert_eq!(l.max_line_width, 12);
    assert_eq!(l.max_h_scroll, 2);
    assert_eq!(l.visible_height, 4);
    assert_eq!(l.max_scroll, 0);
    assert_eq!(l.text_area, Area { x: 0, y: 0, width: 10, height: 4 });
    assert_eq!(l.h_scrollbar_area, Area { x: 0, y: 4, width: 10, height: 1 });
    assert_eq!(l.v_scrollbar_area.width, 0);

    let l = compute_scroll_layout(area, &vec![5; 7]);
    assert_eq!(l.max_h_scroll, 0);
    assert_eq!(l.max_scroll, 2);
    assert_eq!(l.text_area, Area { x: 1, y: 0, width: 9, height: 5 });
    assert_eq!(l.v_scrollbar_area, Area { x: 0, y: 0, width: 1, height: 5 });
    assert_eq!(l.h_scrollbar_area.height, 0);
}

fn sample_files() -> Vec<FileDiff> {
    vec![
        FileDiff {
            old_path: Some("src/a.rs".to_string()),
            new_path: Some("src/a.rs".to_string()),
            status: DeltaStatus::Modified,
            hunks: vec![DiffHunk {
                old_start: 3,
                old_lines: 2,
                new_start: 3,
                new_lines: 12,
                lines: vec![
                    DiffLine { kind: DiffLineKind::Context, content: "keep\n".to_string() },
                    DiffLine { kind: DiffLineKind::Deletion, content: "old\r\n".to_string() },
                    DiffLine { kind: DiffLineKind::Addition, content: "new".to_string() },
                ],
            }],
        },
        FileDiff { old_path: None, new_path: Some("b.txt".to_string()), status: DeltaStatus::Added, hunks: vec![] },
    ]
}

#[test]
fn the_diff_section_lists_headers_hunks_and_lines() {
    let (lines, headers) = build_diff_lines(&sample_files());
    assert_eq!(
        lines,
        vec![
            "", "Diff:", "", "--- a/src/a.rs", "+++ b/src/a.rs", "@@ -3,2 +3,12 @@", " keep", "-old", "+new", "",
            "--- /dev/null", "+++ b/b.txt", "",
        ]
    );
    assert_eq!(headers, vec![3, 10]);
}

#[test]
fn the_file_list_shows_status_and_path() {
    let lines = build_file_list_lines(&sample_files());
    assert_eq!(lines, vec!["", "Changed Files:", "", "  M src/a.rs", "  A b.txt"]);
}

#[test]
fn diff_lines_drop_their_terminators() {
    let l = DiffLine { kind: DiffLineKind::Context, content: "x\n\r\n".to_string() };
    assert_eq!(diff_line(&l), " x");
    let h = DiffHunk { old_start: 0, old_lines: 0, new_start: 1, new_lines: 105, lines: vec![] };
    assert_eq!(hunk_header(&h), "@@ -0,0 +1,105 @@");
}

#[test]
fn a_hunk_preview_shows_path_header_and_lines() {
    let files = sample_files();
    let lines = build_hunk_preview("src/a.rs", &files[0].hunks[0]);
    assert_eq!(lines, vec!["src/a.rs:", "", "@@ -3,2 +3,12 @@", " keep", "-old", "+new"]);
}
