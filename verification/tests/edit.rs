use git_tailor::edit::{decide_finish_edit, finish_edit_message, EditAbort, EditDecision, EditFacts};

fn clean() -> EditFacts {
    EditFacts {
        worktree_dirty: false,
        tip_is_edited_commit: false,
        head_on_branch: true,
        tip_contains_edited_commit: false,
        has_parent: true,
        built_on_parent: true,
        has_merge: false,
    }
}

#[test]
fn finish_edit_replays_a_clean_new_chain() {
    assert_eq!(decide_finish_edit(&clean()), EditDecision::Replay);
    assert_eq!(finish_edit_message(EditDecision::Replay), None);
}

#[test]
fn finish_edit_checks_the_dirty_tree_before_cancelling() {
    let f = EditFacts { worktree_dirty: true, tip_is_edited_commit: true, ..clean() };
    let d = decide_finish_edit(&f);
    assert_eq!(d, EditDecision::RefuseDirty);
    assert_eq!(
        finish_edit_message(d).unwrap(),
        "Edit not applied: the working tree has uncommitted changes — commit or discard them, then finish the edit."
    );
}

#[test]
fn finish_edit_cancels_an_unchanged_commit() {
    let f = EditFacts { tip_is_edited_commit: true, head_on_branch: false, ..clean() };
    assert_eq!(decide_finish_edit(&f), EditDecision::Cancel);
}

#[test]
fn finish_edit_aborts_in_check_order() {
    let f = EditFacts { head_on_branch: false, has_merge: true, ..clean() };
    assert_eq!(decide_finish_edit(&f), EditDecision::Abort(EditAbort::HeadMoved));
    let f = EditFacts { tip_contains_edited_commit: true, built_on_parent: false, ..clean() };
    assert_eq!(decide_finish_edit(&f), EditDecision::Abort(EditAbort::StillContainsEdited));
    let f = EditFacts { built_on_parent: false, has_merge: true, ..clean() };
    assert_eq!(decide_finish_edit(&f), EditDecision::Abort(EditAbort::NotOnParent));
    let f = EditFacts { has_parent: false, built_on_parent: false, ..clean() };
    assert_eq!(decide_finish_edit(&f), EditDecision::Replay);
    let f = EditFacts { has_merge: true, ..clean() };
    let d = decide_finish_edit(&f);
    assert_eq!(d, EditDecision::Abort(EditAbort::MergeCreated));
    assert_eq!(
        finish_edit_message(d).unwrap(),
        "Edit aborted: a merge commit was created. Restored the branch to its previous state."
    );
}
