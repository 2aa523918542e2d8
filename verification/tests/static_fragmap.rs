use git_tailor::static_views::fragmap::{render, FragmapRow};

fn row(oid: &str, summary: &str, fully_squashable: bool, touches: &[bool], squashable: &[bool]) -> FragmapRow {
    FragmapRow {
        oid: oid.to_string(),
        summary: summary.to_string(),
        fully_squashable,
        touches: touches.to_vec(),
        squashable_from_first: squashable.to_vec(),
    }
}

fn sample() -> Vec<FragmapRow> {
    vec![
        row("aaaaaaaaaaaa", "first", false, &[true, false], &[false, false]),
        row("bbbbbbbbbb", "second", false, &[false, false], &[false, false]),
        row("cccccccc", "third", true, &[true, true], &[true, false]),
        row("dddd", "fourth", false, &[false, true], &[false, false]),
    ]
}

#[test]
fn static_render_plain_rows_and_connectors() {
    let out = render(&sample(), 2, false, false);
    let expected = format!(
        "aaaaaaaa {:<26}#.\nbbbbbbbb {:<26}^.\ncccccccc {:<26}##\ndddd {:<26}.#\n",
        "first", "second", "third", "fourth"
    );
    assert_eq!(out, expected);
}

#[test]
fn static_render_conflicting_connector() {
    let rows = vec![
        row("11111111", "a", false, &[true], &[false]),
        row("22222222", "b", false, &[false], &[false]),
        row("33333333", "c", false, &[true], &[false]),
    ];
    let out = render(&rows, 1, false, false);
    assert_eq!(out.lines().nth(1).unwrap(), format!("22222222 {:<26}|", "b"));
}

#[test]
fn static_render_reverse_prints_oldest_first() {
    let out = render(&sample(), 2, false, true);
    let first = out.lines().next().unwrap();
    assert!(first.starts_with("dddd fourth"));
    assert_eq!(out.lines().count(), 4);
}

#[test]
fn static_render_truncates_long_titles() {
    let rows = vec![row("0123456789abcdef", "abcdefghijklmnopqrstuvwxyz0123", false, &[], &[])];
    let out = render(&rows, 0, false, false);
    assert_eq!(out, "01234567 abcdefghijklmnopqrstuvwxyz\n");
}

#[test]
fn static_render_colors() {
    let out = render(&sample(), 2, true, false);
    let third = out.lines().nth(2).unwrap();
    assert_eq!(
        third,
        format!(
            "\x1b[36mcccccccc\x1b[0m \x1b[90m{:<26}\x1b[0m\x1b[47m \x1b[0m\x1b[47m \x1b[0m",
            "third"
        )
    );
    let second = out.lines().nth(1).unwrap();
    assert!(second.ends_with("\x1b[43m \x1b[0m."));
}

#[test]
fn static_render_reverse_is_the_lines_reversed() {
    let forward = render(&sample(), 2, false, false);
    let backward = render(&sample(), 2, false, true);
    let mut lines: Vec<&str> = forward.lines().collect();
    lines.reverse();
    assert_eq!(backward.lines().collect::<Vec<_>>(), lines);
    assert_eq!(backward.matches('\n').count(), sample().len());
}
