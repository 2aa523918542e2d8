use git_tailor::views::split_file_select;
use git_tailor::views::two_pane_picker;

// "aa/bb/cc/dd.rs" is 14 columns; components start at 0, 3, 6, 9.

#[test]
fn two_pane_picker_keeps_path_that_fits() {
    assert_eq!(two_pane_picker::elide_path("aa/bb/cc/dd.rs", 14), "aa/bb/cc/dd.rs");
    assert_eq!(two_pane_picker::elide_path("src/a.rs", 20), "src/a.rs");
}

#[test]
fn two_pane_picker_elides_leading_components_on_boundary() {
    assert_eq!(two_pane_picker::elide_path("aa/bb/cc/dd.rs", 13), "…/bb/cc/dd.rs");
    assert_eq!(two_pane_picker::elide_path("aa/bb/cc/dd.rs", 10), "…/cc/dd.rs");
}

#[test]
fn two_pane_picker_keeps_basename_when_middle_too_long() {
    assert_eq!(two_pane_picker::elide_path("aa/bb/cc/dd.rs", 9), "…/dd.rs");
}

#[test]
fn two_pane_picker_truncates_basename_as_last_resort() {
    let out = two_pane_picker::elide_path("aa/bb/cc/dd.rs", 6);
    assert_eq!(out, "…dd.rs");
    assert!(out.chars().count() <= 6);
}

#[test]
fn two_pane_picker_handles_path_without_separators() {
    let out = two_pane_picker::elide_path("verylongfilename.rs", 10);
    assert!(out.starts_with('…'));
    assert!(out.ends_with(".rs"));
    assert!(out.chars().count() <= 10);
}

#[test]
fn two_pane_picker_result_never_exceeds_budget() {
    let p = "src/views/git2_impl/reads/extract_files.rs";
    for max in 4..=p.chars().count() {
        assert!(two_pane_picker::elide_path(p, max).chars().count() <= max, "max={max}");
    }
}

#[test]
fn split_file_select_keeps_path_that_fits() {
    assert_eq!(split_file_select::elide_path("aa/bb/cc/dd.rs", 14), "aa/bb/cc/dd.rs");
    assert_eq!(split_file_select::elide_path("src/a.rs", 20), "src/a.rs");
}

#[test]
fn split_file_select_elides_leading_components_on_boundary() {
    assert_eq!(split_file_select::elide_path("aa/bb/cc/dd.rs", 13), "…/bb/cc/dd.rs");
    assert_eq!(split_file_select::elide_path("aa/bb/cc/dd.rs", 10), "…/cc/dd.rs");
}

#[test]
fn split_file_select_keeps_basename_when_middle_too_long() {
    assert_eq!(split_file_select::elide_path("aa/bb/cc/dd.rs", 9), "…/dd.rs");
}

#[test]
fn split_file_select_truncates_basename_as_last_resort() {
    let out = split_file_select::elide_path("aa/bb/cc/dd.rs", 6);
    assert_eq!(out, "…dd.rs");
    assert!(out.chars().count() <= 6);
}

#[test]
fn split_file_select_handles_path_without_separators() {
    let out = split_file_select::elide_path("verylongfilename.rs", 10);
    assert!(out.starts_with('…'));
    assert!(out.ends_with(".rs"));
    assert!(out.chars().count() <= 10);
}

#[test]
fn split_file_select_result_never_exceeds_budget() {
    let p = "src/views/git2_impl/reads/extract_files.rs";
    for max in 4..=p.chars().count() {
        assert!(split_file_select::elide_path(p, max).chars().count() <= max, "max={max}");
    }
}

#[test]
fn elide_path_with_no_columns_is_empty() {
    assert_eq!(two_pane_picker::elide_path("aa/bb/cc/dd.rs", 0), "");
    assert_eq!(split_file_select::elide_path("x", 0), "");
    assert_eq!(two_pane_picker::elide_path("", 0), "");
    assert_eq!(two_pane_picker::elide_path("abc", 1), "…");
}
