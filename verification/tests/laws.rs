use git_tailor::app::{AppMode, AppState, KeyCommand, SplitStrategy, SPLIT_STRATEGY_COUNT};
use git_tailor::autofixup::group_by_target;
use git_tailor::app::{AutofixupPair, SquashMode};
use git_tailor::oid::Oid;
use git_tailor::palette::{Color, Colors, Scheme};
use git_tailor::views::dialog::wrap_text;
use git_tailor::views::help;
use git_tailor::views::search::{next_match_index, SearchDirection};

#[test]
fn mirroring_twice_is_the_identity() {
    for c in [KeyCommand::MoveUp, KeyCommand::PageDown, KeyCommand::HalfPageUp, KeyCommand::Quit] {
        for reverse in [false, true] {
            assert_eq!(c.with_vertical_mirroring(reverse).with_vertical_mirroring(reverse), c);
        }
    }
    assert_eq!(KeyCommand::MoveUp.with_vertical_mirroring(true), KeyCommand::MoveDown);
}

#[test]
fn toggling_help_twice_restores_the_mode() {
    let mut app = AppState::new(Oid::new("0".repeat(40)));
    app.mode = AppMode::CommitDetail;
    help::handle_key(KeyCommand::ShowHelp, &mut app);
    assert!(matches!(app.mode, AppMode::Help(_)));
    help::handle_key(KeyCommand::Quit, &mut app);
    assert!(matches!(app.mode, AppMode::CommitDetail));
}

#[test]
fn each_menu_position_has_its_own_strategy() {
    let all: Vec<SplitStrategy> = (0..SPLIT_STRATEGY_COUNT).map(SplitStrategy::from_index).collect();
    assert_eq!(
        all,
        vec![
            SplitStrategy::PerFile,
            SplitStrategy::PerHunk,
            SplitStrategy::PerHunkGroup,
            SplitStrategy::OutFiles,
            SplitStrategy::OutHunks
        ]
    );
}

#[test]
fn next_then_prev_returns_to_the_same_match() {
    for len in 1..6usize {
        for i in 0..len {
            let n = next_match_index(Some(i), len, SearchDirection::Next);
            assert_eq!(next_match_index(Some(n), len, SearchDirection::Prev), i);
            let p = next_match_index(Some(i), len, SearchDirection::Prev);
            assert_eq!(next_match_index(Some(p), len, SearchDirection::Next), i);
        }
    }
}

#[test]
fn resolving_a_resolved_color_changes_nothing() {
    for p in [Colors::Terminal, Colors::Fixed(Scheme::campbell()), Colors::Fixed(Scheme::dark_plus())] {
        for c in [Color::Red, Color::LightCyan, Color::Reset, Color::Indexed(7), Color::Rgb(9, 8, 7)] {
            let once = p.resolve(c);
            assert_eq!(p.resolve(once), once);
        }
    }
}

#[test]
fn every_pair_lands_in_exactly_one_group() {
    let mk = |t: &str| AutofixupPair {
        source_oid: Oid::new("1".repeat(40)),
        target_oid: Oid::new("2".repeat(40)),
        source_summary: String::new(),
        target_summary: t.to_string(),
        source_message: String::new(),
        target_message: String::new(),
        mode: SquashMode::Fixup,
    };
    let pairs = vec![mk("x"), mk("y"), mk("x"), mk("z"), mk("y")];
    let groups = group_by_target(&pairs);
    let total: usize = groups.iter().map(|g| g.sources.len()).sum();
    assert_eq!(total, pairs.len());
    assert!(groups.len() <= pairs.len());
}

#[test]
fn wrapped_lines_never_exceed_the_width() {
    let text = "the quick brown fox jumps over a lazydogwithaverylongname";
    for width in 1..20 {
        let lines = wrap_text(text, width);
        assert!(!lines.is_empty());
        for l in &lines {
            assert!(l.chars().count() <= width, "width={width} line={l:?}");
        }
    }
    assert_eq!(wrap_text("aaa bbb ccc", 7), vec!["aaa", "bbb ccc"]);
    assert_eq!(wrap_text("aaa bbb ccc", 8), vec!["aaa bbb", "ccc"]);
}
