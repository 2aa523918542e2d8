use git_tailor::app::{AutofixupPair, SquashMode};
use git_tailor::autofixup::{
    autofixup_target_selection_index, edit_template, group_by_target, more_pending_for_target, next_batch_step,
    pair_message,
};
use git_tailor::oid::{CommitInfo, Oid, VirtualOid};

fn commit(oid: &str) -> CommitInfo {
    CommitInfo { oid: VirtualOid::Real(Oid::new(oid.repeat(40))), summary: String::new(), message: String::new() }
}

fn synthetic(oid: VirtualOid) -> CommitInfo {
    CommitInfo { oid, summary: String::new(), message: String::new() }
}

fn pair(source: &str, target: &str) -> AutofixupPair {
    AutofixupPair {
        source_oid: Oid::new(source.repeat(40)),
        target_oid: Oid::new(target.repeat(40)),
        source_summary: String::new(),
        target_summary: String::new(),
        source_message: String::new(),
        target_message: String::new(),
        mode: SquashMode::Fixup,
    }
}

// Layout: A, T(target), F1(fixup->T), C(survivor), F2(fixup->T)
// Batch removes F1 and F2, folding both into T.
fn commits() -> Vec<CommitInfo> {
    vec![commit("a"), commit("t"), commit("1"), commit("c"), commit("2")]
}

fn pairs() -> Vec<AutofixupPair> {
    vec![pair("1", "t"), pair("2", "t")]
}

#[test]
fn selection_on_a_surviving_commit_shifts_down_by_removed_commits_before_it() {
    assert_eq!(autofixup_target_selection_index(&commits(), 3, &pairs()), Some(2));
}

#[test]
fn selection_before_any_removal_is_unaffected() {
    assert_eq!(autofixup_target_selection_index(&commits(), 1, &pairs()), Some(1));
}

#[test]
fn selection_on_a_folded_away_fixup_lands_on_its_target() {
    assert_eq!(autofixup_target_selection_index(&commits(), 4, &pairs()), Some(1));
}

#[test]
fn selection_on_the_first_fixup_also_lands_on_its_target() {
    assert_eq!(autofixup_target_selection_index(&commits(), 2, &pairs()), Some(1));
}

#[test]
fn synthetic_row_selection_falls_back_to_none() {
    let mut cs = commits();
    cs.push(synthetic(VirtualOid::Unstaged));
    assert_eq!(autofixup_target_selection_index(&cs, 5, &pairs()), None, "synthetic rows aren't touched by autofixup");
}

#[test]
fn result_never_exceeds_the_commit_list_bounds() {
    let idx = autofixup_target_selection_index(&commits(), 4, &pairs()).unwrap();
    assert!(idx < commits().len());
}

#[test]
fn a_target_missing_from_the_list_gives_none() {
    let ps = vec![pair("1", "z")];
    assert_eq!(autofixup_target_selection_index(&commits(), 2, &ps), None);
}

#[test]
fn out_of_range_selection_gives_none() {
    assert_eq!(autofixup_target_selection_index(&commits(), 9, &pairs()), None);
}

fn named(source_msg: &str, target: &str, target_msg: &str, mode: SquashMode) -> AutofixupPair {
    AutofixupPair {
        source_oid: Oid::new("1".repeat(40)),
        target_oid: Oid::new("2".repeat(40)),
        source_summary: String::new(),
        target_summary: target.to_string(),
        source_message: source_msg.to_string(),
        target_message: target_msg.to_string(),
        mode,
    }
}

#[test]
fn groups_follow_first_appearance_of_each_target() {
    let ps = vec![
        named("s1", "T1", "m1", SquashMode::Fixup),
        named("s2", "T2", "m2", SquashMode::Squash),
        named("s3", "T1", "m1", SquashMode::Squash),
    ];
    let groups = group_by_target(&ps);
    assert_eq!(groups.len(), 2);
    assert_eq!(groups[0].target_summary, "T1");
    assert_eq!(groups[0].sources, vec![0, 2]);
    assert_eq!(groups[1].target_summary, "T2");
    assert_eq!(groups[1].sources, vec![1]);
    assert_eq!(edit_template(&groups[0], &ps), "m1\n\ns3");
    assert_eq!(edit_template(&groups[1], &ps), "m2\n\ns2");
}

#[test]
fn pair_message_uses_the_override_only_for_the_last_pending_pair() {
    let p = named("src", "T", "target msg", SquashMode::Squash);
    let overrides = vec![("T".to_string(), "final".to_string())];
    assert_eq!(pair_message(&p, true, &overrides), "target msg\n\nsrc");
    assert_eq!(pair_message(&p, false, &overrides), "final");
    let f = named("src", "T", "target msg", SquashMode::Fixup);
    assert_eq!(pair_message(&f, false, &Vec::new()), "target msg");
}

#[test]
fn more_pending_looks_past_the_first_pair() {
    let ps = vec![named("a", "T", "", SquashMode::Fixup), named("b", "U", "", SquashMode::Fixup)];
    assert!(!more_pending_for_target(&ps));
    let ps = vec![named("a", "T", "", SquashMode::Fixup), named("b", "T", "", SquashMode::Fixup)];
    assert!(more_pending_for_target(&ps));
}

#[test]
fn a_batch_squashes_the_first_planned_pair_next() {
    assert!(next_batch_step(&Vec::new(), &Vec::new()).is_none());
    let plan = vec![named("s1", "T", "tm", SquashMode::Squash), named("s2", "T", "tm", SquashMode::Fixup)];
    let overrides = vec![("T".to_string(), "pinned".to_string())];
    let (source, target, message) = next_batch_step(&plan, &overrides).unwrap();
    assert_eq!(source.hex, "1".repeat(40));
    assert_eq!(target.hex, "2".repeat(40));
    // Another pair for the same target is still queued: no override yet.
    assert_eq!(message, "tm\n\ns1");
    let (_, _, last) = next_batch_step(&plan[1..].to_vec(), &overrides).unwrap();
    assert_eq!(last, "pinned");
}

#[test]
fn pin_override_replaces_a_pinned_summary_and_adds_others() {
    let mut o: Vec<(String, String)> = Vec::new();
    git_tailor::autofixup::pin_override(&mut o, "t".to_string(), "one".to_string());
    git_tailor::autofixup::pin_override(&mut o, "u".to_string(), "two".to_string());
    git_tailor::autofixup::pin_override(&mut o, "t".to_string(), "three".to_string());
    assert_eq!(o, vec![("t".to_string(), "three".to_string()), ("u".to_string(), "two".to_string())]);
}
