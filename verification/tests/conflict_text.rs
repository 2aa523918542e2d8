use git_tailor::oid::{CommitInfo, Oid, VirtualOid};
use git_tailor::views::conflict::{
    conflict_commit_summary, conflict_note, conflict_title, note_text, remaining_note, ConflictNote,
};

fn oid(c: char) -> Oid {
    Oid::new(c.to_string().repeat(40))
}

#[test]
fn conflict_summary_is_looked_up_in_the_list() {
    let commits = vec![
        CommitInfo { oid: VirtualOid::Staged, summary: "Staged changes".to_string(), message: String::new() },
        CommitInfo { oid: VirtualOid::Real(oid('a')), summary: "first".to_string(), message: String::new() },
        CommitInfo { oid: VirtualOid::Real(oid('b')), summary: "second".to_string(), message: String::new() },
    ];
    assert_eq!(conflict_commit_summary(&commits, &oid('b')), "second");
    assert_eq!(conflict_commit_summary(&commits, &oid('c')), "");
}

#[test]
fn conflict_notes_tell_moves_and_squashes_apart() {
    let a = oid('a');
    let b = oid('b');
    assert_eq!(conflict_note(&a, Some(&a), "Move", false), Some(ConflictNote::MovedCommit));
    assert_eq!(conflict_note(&a, Some(&b), "Move", false), Some(ConflictNote::RebasedOnMoved));
    assert_eq!(conflict_note(&a, None, "Squash", true), Some(ConflictNote::SquashItself));
    assert_eq!(conflict_note(&a, None, "Squash", false), Some(ConflictNote::AfterSquash));
    assert_eq!(conflict_note(&a, None, "Drop", true), None);
    assert_eq!(note_text(ConflictNote::SquashItself), " The squash itself caused the conflict.");
}

#[test]
fn conflict_counts_and_title() {
    assert_eq!(remaining_note(0), None);
    assert_eq!(remaining_note(12).unwrap(), " (12 commit(s) still to rebase after this)");
    assert_eq!(conflict_title("Drop"), "Drop Conflict");
}
