use git_tailor::views::detail_text::{build_metadata_lines, str_lines, CommitMetadata};

#[test]
fn str_lines_splits_as_std_does() {
    for t in ["", "a", "a\n", "a\nb", "a\r\nb\r\n", "a\n\nb\n", "\n", "x\ry\n", "é\nü"] {
        let expected: Vec<String> = t.lines().map(|l| l.to_string()).collect();
        assert_eq!(str_lines(t), expected, "text {t:?}");
    }
}

fn meta() -> CommitMetadata {
    CommitMetadata {
        oid: "a".repeat(40),
        message: "Subject\n\nBody line\n".to_string(),
        author: Some("Ann".to_string()),
        author_email: Some("ann@example.com".to_string()),
        author_date: Some("2024-01-02 03:04:05 +0100".to_string()),
        committer: Some("Bob".to_string()),
        committer_email: Some("bob@example.com".to_string()),
        commit_date: Some("2024-01-03 03:04:05 +0100".to_string()),
    }
}

#[test]
fn metadata_lines_show_id_message_and_people() {
    let lines = build_metadata_lines(&meta());
    let commit_line = format!("Commit: {}", "a".repeat(40));
    let expected = vec![
        "",
        commit_line.as_str(),
        "",
        "Subject",
        "",
        "Body line",
        "",
        "Author: Ann <ann@example.com>",
        "Author Date: 2024-01-02 03:04:05 +0100",
        "",
        "Committer: Bob <bob@example.com>",
        "Commit Date: 2024-01-03 03:04:05 +0100",
    ];
    assert_eq!(lines, expected);
}

#[test]
fn metadata_without_author_email_stops_after_the_message() {
    let mut m = meta();
    m.author_email = None;
    let lines = build_metadata_lines(&m);
    assert_eq!(lines.len(), 7);
    assert_eq!(lines.last().unwrap(), "");
}
