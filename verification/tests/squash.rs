use git_tailor::oid::Oid;
use git_tailor::squash::{descendants_to_replay, select_rename_edits, squash_step, RenameCandidate, SquashStep};

fn oid(c: char) -> Option<Oid> {
    Some(Oid::new(c.to_string().repeat(40)))
}

fn cand(path: &str, in_target: bool, renamed_to: Option<&str>) -> RenameCandidate {
    RenameCandidate {
        old_path: path.to_string(),
        in_target,
        renamed_to: renamed_to.map(|s| s.to_string()),
        base_blob: oid('a'),
        target_blob: oid('b'),
        source_blob: oid('c'),
    }
}

#[test]
fn rename_edits_take_only_renamed_plain_files() {
    let mut missing_blob = cand("gone.rs", false, Some("moved.rs"));
    missing_blob.target_blob = None;
    let cs = vec![
        cand("kept.rs", true, Some("other.rs")),
        cand("old.rs", false, Some("new.rs")),
        cand("deep.rs", false, Some("dir/deep.rs")),
        cand("plain.rs", false, None),
        missing_blob,
        cand("second.rs", false, Some("renamed.rs")),
    ];
    let edits = select_rename_edits(&cs);
    let paths: Vec<(String, String)> =
        edits.iter().map(|e| (e.base_path.clone(), e.target_path.clone())).collect();
    assert_eq!(
        paths,
        vec![("old.rs".to_string(), "new.rs".to_string()), ("second.rs".to_string(), "renamed.rs".to_string())]
    );
    assert_eq!(edits[0].base_oid, Oid::new("a".repeat(40)));
    assert_eq!(edits[0].target_oid, Oid::new("b".repeat(40)));
    assert_eq!(edits[0].source_oid, Oid::new("c".repeat(40)));
}

#[test]
fn squash_replays_the_descendants_but_the_source() {
    let all = vec![Oid::new("1".repeat(40)), Oid::new("2".repeat(40)), Oid::new("3".repeat(40))];
    let r = descendants_to_replay(&all, &Oid::new("2".repeat(40)));
    assert_eq!(r, vec![Oid::new("1".repeat(40)), Oid::new("3".repeat(40))]);
}

#[test]
fn squash_step_follows_the_pick() {
    assert_eq!(squash_step(false, true), SquashStep::CommitMerged);
    assert_eq!(squash_step(true, true), SquashStep::CommitRenameAware);
    assert_eq!(squash_step(true, false), SquashStep::Pause);
}
