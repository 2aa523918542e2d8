use git_tailor::commit_message::{split_message, summary_suffix_message};

#[test]
fn summary_suffix_message_summary_only() {
    assert_eq!(summary_suffix_message("my fix", "src/a.rs"), "my fix (src/a.rs)");
}

#[test]
fn summary_suffix_message_preserves_body() {
    let original = "my fix\n\nBody line 1.\nBody line 2.";
    let result = summary_suffix_message(original, "src/a.rs");
    assert_eq!(result, "my fix (src/a.rs)\n\nBody line 1.\nBody line 2.");
}

#[test]
fn summary_suffix_message_trailing_newline_on_summary() {
    assert_eq!(summary_suffix_message("my fix\n", "src/a.rs"), "my fix (src/a.rs)");
}

#[test]
fn split_message_summary_only() {
    assert_eq!(split_message("my fix", 1, 3), "my fix (1/3)");
}

#[test]
fn split_message_preserves_body() {
    let original = "my fix\n\nBody line 1.\nBody line 2.";
    let result = split_message(original, 2, 3);
    assert_eq!(result, "my fix (2/3)\n\nBody line 1.\nBody line 2.");
}

#[test]
fn split_message_body_whitespace_only_treated_as_no_body() {
    let original = "my fix\n\n  \n";
    let result = split_message(original, 1, 2);
    assert_eq!(result, "my fix (1/2)");
}

#[test]
fn split_message_trailing_newline_on_summary() {
    let result = split_message("my fix\n", 1, 1);
    assert_eq!(result, "my fix (1/1)");
}

#[test]
fn split_message_multi_digit_numbers() {
    assert_eq!(split_message("wip", 10, 120), "wip (10/120)");
}

#[test]
fn summary_suffix_message_body_whitespace_only_is_dropped() {
    assert_eq!(summary_suffix_message("fix\n\n \t\n", "b.rs"), "fix (b.rs)");
}
