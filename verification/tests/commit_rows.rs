use git_tailor::app::{AppMode, AppState, SquashMode};
use git_tailor::oid::{CommitInfo, Oid, VirtualOid};
use git_tailor::views::commit_rows::{build_rows, RowHighlight, RowPlan};

fn app(n: usize) -> AppState {
    let mut app = AppState::new(Oid::new("0".repeat(40)));
    for i in 0..n {
        app.commits.push(CommitInfo {
            oid: VirtualOid::Real(Oid::new(format!("{:040}", i))),
            summary: format!("c{i}"),
            message: format!("c{i}"),
        });
    }
    app
}

fn commit(index: usize, visual_index: usize, highlight: RowHighlight) -> RowPlan {
    RowPlan::Commit { index, visual_index, highlight }
}

#[test]
fn rows_show_the_slice_in_view_with_the_selection() {
    let a = app(5);
    let rows = build_rows(&a, 1, 3, 2);
    assert_eq!(
        rows,
        vec![
            commit(1, 1, RowHighlight::Plain),
            commit(2, 2, RowHighlight::Selected),
            commit(3, 3, RowHighlight::Plain),
        ]
    );
}

#[test]
fn rows_make_room_for_a_visible_move_separator() {
    let mut a = app(5);
    a.mode = AppMode::MoveSelect { source_index: 0, insert_before: 2 };
    let rows = build_rows(&a, 0, 4, 3);
    assert_eq!(
        rows,
        vec![
            commit(0, 0, RowHighlight::Source),
            commit(1, 1, RowHighlight::Plain),
            RowPlan::Separator { source_index: 0 },
            commit(2, 2, RowHighlight::Plain),
        ]
    );
}

#[test]
fn rows_mark_the_squash_source_and_target() {
    let mut a = app(3);
    a.mode = AppMode::SquashSelect { source_index: 2, squash_mode: SquashMode::Fixup };
    a.reverse = true;
    let rows = build_rows(&a, 0, 10, 1);
    assert_eq!(
        rows,
        vec![
            commit(2, 0, RowHighlight::Source),
            commit(1, 1, RowHighlight::Target),
            commit(0, 2, RowHighlight::Plain),
        ]
    );
}

#[test]
fn rows_of_an_empty_list_are_empty() {
    assert!(build_rows(&app(0), 4, 3, 0).is_empty());
}
