use git_tailor::patch::{apply_hunk_to_content, apply_multiple_hunks_to_content, file_after_hunks, split_lines_keep_eol, FileUpdate, FileUpdateError, Hunk, HunkLine, PatchError};
use git_tailor::diff::DeltaStatus;

fn line(origin: char, text: &str) -> HunkLine {
    HunkLine { origin, content: text.as_bytes().to_vec() }
}

#[test]
fn split_lines_keeps_line_endings_and_the_unterminated_tail() {
    let lines = split_lines_keep_eol(b"a\nbb\n\nc");
    assert_eq!(lines, vec![&b"a\n"[..], &b"bb\n"[..], &b"\n"[..], &b"c"[..]]);
    assert!(split_lines_keep_eol(b"").is_empty());
    // Joining the pieces gives back the input.
    let data = b"x\r\ny\n";
    let joined: Vec<u8> = split_lines_keep_eol(data).concat();
    assert_eq!(joined, data.to_vec());
}

#[test]
fn a_single_hunk_replaces_its_old_lines() {
    let content = b"one\ntwo\nthree\n";
    let hunk = Hunk {
        old_start: 2,
        old_lines: 1,
        lines: vec![line('-', "two\n"), line('+', "TWO\n"), line('+', "2\n")],
    };
    assert_eq!(apply_hunk_to_content(content, &hunk), b"one\nTWO\n2\nthree\n".to_vec());
}

#[test]
fn a_pure_insertion_goes_after_its_start_line() {
    let content = b"one\ntwo\n";
    let hunk = Hunk { old_start: 1, old_lines: 0, lines: vec![line('+', "new\n")] };
    assert_eq!(apply_hunk_to_content(content, &hunk), b"one\nnew\ntwo\n".to_vec());
}

#[test]
fn selected_hunks_apply_in_position_order_and_others_are_kept() {
    let content = b"a\nb\nc\nd\n";
    let hunks = vec![
        Hunk { old_start: 1, old_lines: 1, lines: vec![line('-', "a\n"), line('+', "A\n")] },
        Hunk { old_start: 3, old_lines: 1, lines: vec![line('-', "c\n"), line('+', "C\n")] },
        Hunk { old_start: 4, old_lines: 1, lines: vec![line('-', "d\n")] },
    ];
    let r = apply_multiple_hunks_to_content(content, &hunks, &[2, 0]).unwrap();
    assert_eq!(r, b"A\nb\nc\n".to_vec());
    let r = apply_multiple_hunks_to_content(content, &hunks, &[1]).unwrap();
    assert_eq!(r, b"a\nb\nC\nd\n".to_vec());
}

#[test]
fn an_unknown_hunk_index_is_an_error() {
    let hunks = vec![Hunk { old_start: 1, old_lines: 0, lines: vec![] }];
    assert_eq!(apply_multiple_hunks_to_content(b"x\n", &hunks, &[3]), Err(PatchError::NoSuchHunk(3)));
}

#[test]
fn the_order_hunks_are_named_in_does_not_matter() {
    let content = b"a\nb\nc\nd\n";
    let hunks = vec![
        Hunk { old_start: 1, old_lines: 1, lines: vec![line('-', "a\n"), line('+', "A\n")] },
        Hunk { old_start: 3, old_lines: 1, lines: vec![line('-', "c\n"), line('+', "C\n")] },
        Hunk { old_start: 4, old_lines: 1, lines: vec![line('-', "d\n")] },
    ];
    let a = apply_multiple_hunks_to_content(content, &hunks, &[0, 1, 2]).unwrap();
    let b = apply_multiple_hunks_to_content(content, &hunks, &[2, 0, 1]).unwrap();
    let c = apply_multiple_hunks_to_content(content, &hunks, &[1, 2, 0]).unwrap();
    assert_eq!(a, b"A\nb\nC\n".to_vec());
    assert_eq!(a, b);
    assert_eq!(a, c);
    assert_eq!(apply_multiple_hunks_to_content(content, &hunks, &[]).unwrap(), content.to_vec());
}

#[test]
fn file_after_hunks_keeps_writes_and_removes() {
    let hunks = vec![
        Hunk { old_start: 1, old_lines: 1, lines: vec![line('-', "a\n"), line('+', "A\n")] },
        Hunk { old_start: 2, old_lines: 1, lines: vec![line('-', "b\n")] },
    ];
    let parent = Some((b"a\nb\n".to_vec(), 0o100644));
    assert!(matches!(file_after_hunks(DeltaStatus::Modified, 0, parent.clone(), &hunks, &[]), Ok(FileUpdate::Keep)));
    match file_after_hunks(DeltaStatus::Modified, 0, parent.clone(), &hunks, &[0]) {
        Ok(FileUpdate::Write { content, mode }) => {
            assert_eq!(content, b"A\nb\n".to_vec());
            assert_eq!(mode, 0o100644);
        },
        other => panic!("unexpected {other:?}"),
    }
    let deleted = vec![Hunk { old_start: 1, old_lines: 2, lines: vec![line('-', "a\n"), line('-', "b\n")] }];
    assert!(matches!(file_after_hunks(DeltaStatus::Deleted, 0, parent.clone(), &deleted, &[0]), Ok(FileUpdate::Remove)));
    assert_eq!(
        file_after_hunks(DeltaStatus::Modified, 0, None, &hunks, &[0]).unwrap_err(),
        FileUpdateError::NotInParent
    );
    assert_eq!(
        file_after_hunks(DeltaStatus::Modified, 0, parent, &hunks, &[5]).unwrap_err(),
        FileUpdateError::Hunk(PatchError::NoSuchHunk(5))
    );
    let added = vec![Hunk { old_start: 0, old_lines: 0, lines: vec![line('+', "new\n")] }];
    match file_after_hunks(DeltaStatus::Added, 0o100755, None, &added, &[0]) {
        Ok(FileUpdate::Write { content, mode }) => {
            assert_eq!(content, b"new\n".to_vec());
            assert_eq!(mode, 0o100755);
        },
        other => panic!("unexpected {other:?}"),
    }
}

#[test]
fn split_lines_keeps_every_byte_and_ends_lines_at_newlines() {
    let data = b"one\ntwo\r\n\nlast";
    let lines = split_lines_keep_eol(data);
    assert_eq!(lines.concat(), data.to_vec());
    assert!(lines.iter().all(|l| !l.is_empty()));
    for (i, l) in lines.iter().enumerate() {
        assert!(!l[..l.len() - 1].contains(&b'\n'));
        if i + 1 < lines.len() {
            assert_eq!(*l.last().unwrap(), b'\n');
        }
    }
}

#[test]
fn lines_outside_the_applied_hunks_stay_in_order() {
    let content = b"a\nb\nc\nd\ne\n";
    let hunks = vec![
        Hunk { old_start: 2, old_lines: 1, lines: vec![line('-', "b\n"), line('+', "B\n")] },
        Hunk { old_start: 4, old_lines: 1, lines: vec![line('-', "d\n")] },
    ];
    let r = apply_multiple_hunks_to_content(content, &hunks, &[1, 0]).unwrap();
    assert_eq!(r, b"a\nB\nc\ne\n".to_vec());
}
