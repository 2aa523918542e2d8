use git_tailor::app::AppState;
use git_tailor::oid::Oid;
use git_tailor::views::search::{
    apply, handle_search_event, highlight_ranges, next_match_index, SearchBarInfo, SearchDirection, SearchKey,
};
use git_tailor::app::AppAction;

fn app() -> AppState {
    AppState::new(Oid::new("0".repeat(40)))
}

#[test]
fn next_from_none_forward() {
    assert_eq!(next_match_index(None, 5, SearchDirection::Next), 0);
}

#[test]
fn next_from_none_backward() {
    assert_eq!(next_match_index(None, 5, SearchDirection::Prev), 4);
}

#[test]
fn next_wraps_forward() {
    assert_eq!(next_match_index(Some(4), 5, SearchDirection::Next), 0);
}

#[test]
fn next_wraps_backward() {
    assert_eq!(next_match_index(Some(0), 5, SearchDirection::Prev), 4);
}

#[test]
fn next_advances_forward() {
    assert_eq!(next_match_index(Some(2), 5, SearchDirection::Next), 3);
}

#[test]
fn next_advances_backward() {
    assert_eq!(next_match_index(Some(3), 5, SearchDirection::Prev), 2);
}

fn lines(v: &[&str]) -> Vec<String> {
    v.iter().map(|s| s.to_string()).collect()
}

#[test]
fn typing_a_query_then_searching_finds_matching_lines() {
    let mut a = app();
    a.search.activate();
    for c in "fo+".chars() {
        assert!(matches!(handle_search_event(SearchKey::Char(c), &mut a), AppAction::Handled));
    }
    assert_eq!(a.search.query, "fo+");
    let content = lines(&["alpha", "foo", "bar", "xfoooy"]);
    let info = apply(&mut a, &content);
    assert_eq!(info, Some(SearchBarInfo::Matches { current: 0, total: 2 }));
    assert_eq!(a.search.matches, vec![1, 3]);
    assert_eq!(a.search.match_index, Some(0));
}

#[test]
fn backspace_removes_the_last_query_character() {
    let mut a = app();
    a.search.activate();
    handle_search_event(SearchKey::Char('a'), &mut a);
    handle_search_event(SearchKey::Char('b'), &mut a);
    handle_search_event(SearchKey::Backspace, &mut a);
    assert_eq!(a.search.query, "a");
    handle_search_event(SearchKey::Backspace, &mut a);
    handle_search_event(SearchKey::Backspace, &mut a);
    assert_eq!(a.search.query, "");
}

#[test]
fn ctrl_c_quits_and_escape_dismisses() {
    let mut a = app();
    a.search.activate();
    assert!(matches!(handle_search_event(SearchKey::Interrupt, &mut a), AppAction::Quit));
    assert!(a.search.active);
    handle_search_event(SearchKey::Escape, &mut a);
    assert!(!a.search.active);
    assert!(!a.search.input_active);
}

#[test]
fn an_invalid_pattern_is_reported_and_clears_matches() {
    let mut a = app();
    a.search.activate();
    handle_search_event(SearchKey::Char('('), &mut a);
    let info = apply(&mut a, &lines(&["(", "x"]));
    assert_eq!(info, Some(SearchBarInfo::InvalidPattern));
    assert!(a.search.matches.is_empty());
    assert_eq!(a.search.match_index, None);
}

#[test]
fn no_matches_is_reported() {
    let mut a = app();
    a.search.activate();
    handle_search_event(SearchKey::Char('z'), &mut a);
    let info = apply(&mut a, &lines(&["a", "b"]));
    assert_eq!(info, Some(SearchBarInfo::NoMatches));
    assert_eq!(a.search.match_index, None);
}

#[test]
fn enter_jumps_to_the_first_match_at_or_below_the_scroll_position() {
    let mut a = app();
    a.search.activate();
    handle_search_event(SearchKey::Char('x'), &mut a);
    let content = lines(&["x", "a", "a", "a", "a", "x", "a", "a", "a", "a", "a", "a", "a", "a", "a", "a", "a", "a", "a", "a", "x"]);
    apply(&mut a, &content);
    assert_eq!(a.search.matches, vec![0, 5, 20]);
    a.detail.v.set_bounds(100, 4);
    a.detail.v.scroll_to(6);
    handle_search_event(SearchKey::Enter, &mut a);
    assert!(!a.search.input_active);
    assert_eq!(a.search.match_index, Some(2));
    // Line 20 was off screen: centred, two lines above it.
    assert_eq!(a.detail.v.offset, 18);
}

#[test]
fn enter_wraps_to_the_first_match_when_all_lie_above() {
    let mut a = app();
    a.search.activate();
    handle_search_event(SearchKey::Char('x'), &mut a);
    apply(&mut a, &lines(&["x", "a", "x", "a", "a", "a", "a", "a", "a", "a"]));
    a.detail.v.set_bounds(100, 4);
    a.detail.v.scroll_to(5);
    handle_search_event(SearchKey::Enter, &mut a);
    assert_eq!(a.search.match_index, Some(0));
    assert_eq!(a.detail.v.offset, 0);
}

#[test]
fn a_dismissed_search_shows_no_bar() {
    let mut a = app();
    let info = apply(&mut a, &lines(&["a"]));
    assert_eq!(info, None);
}

#[test]
fn highlight_splits_a_line_around_matches() {
    let mut a = app();
    a.search.activate();
    handle_search_event(SearchKey::Char('o'), &mut a);
    let pattern = git_tailor::pattern::compile_query(&a.search.query).unwrap();
    let pieces = highlight_ranges(&pattern, "foo bar");
    assert_eq!(pieces, vec![(0, 1, false), (1, 2, true), (2, 3, true), (3, 7, false)]);
    let none = highlight_ranges(&pattern, "xyz");
    assert_eq!(none, vec![(0, 3, false)]);
}
