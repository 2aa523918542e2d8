//! Finishing an "edit" of a commit: what the state the user left in the
//! edit shell decides, check by check, before anything is rewritten.

use vstd::prelude::*;

verus! {

/// What the repository showed when the user finished the edit. Each check
/// is only consulted once the earlier ones passed.
pub struct EditFacts {
    /// The working tree has uncommitted changes.
    pub worktree_dirty: bool,
    /// The branch tip is still the edited commit (nothing was changed).
    pub tip_is_edited_commit: bool,
    /// HEAD is still on the edited branch.
    pub head_on_branch: bool,
    /// The new tip still has the edited commit in its history.
    pub tip_contains_edited_commit: bool,
    /// The edited commit has a parent (it is not the root commit).
    pub has_parent: bool,
    /// The new tip is the parent or builds on it.
    pub built_on_parent: bool,
    /// A merge commit lies between the parent and the new tip.
    pub has_merge: bool,
}

/// Why an edit is abandoned and the branch restored.
#[derive(Clone, Copy, Debug, PartialEq, Eq, Structural)]
pub enum EditAbort {
    HeadMoved,
    StillContainsEdited,
    NotOnParent,
    MergeCreated,
}

/// What finishing the edit does.
#[derive(Clone, Copy, Debug, PartialEq, Eq, Structural)]
pub enum EditDecision {
    /// Refuse: uncommitted work must never be discarded, so nothing is
    /// restored and the edit stays in progress.
    RefuseDirty,
    /// Nothing changed: restore the original tip and end the edit.
    Cancel,
    /// Restore the original tip and report why.
    Abort(EditAbort),
    /// Replay the original descendants onto the user's new commits.
    Replay,
}

/// The decision the checks give, in their order: a dirty tree first (before
/// the paths that restore the original tip with a forced checkout), then an
/// unchanged tip, then the shape of the new history.
pub open spec fn edit_decision(f: EditFacts) -> EditDecision {
    if f.worktree_dirty {
        EditDecision::RefuseDirty
    } else if f.tip_is_edited_commit {
        EditDecision::Cancel
    } else if !f.head_on_branch {
        EditDecision::Abort(EditAbort::HeadMoved)
    } else if f.tip_contains_edited_commit {
        EditDecision::Abort(EditAbort::StillContainsEdited)
    } else if f.has_parent && !f.built_on_parent {
        EditDecision::Abort(EditAbort::NotOnParent)
    } else if f.has_merge {
        EditDecision::Abort(EditAbort::MergeCreated)
    } else {
        EditDecision::Replay
    }
}

/// Decide how to finish an edit from what the repository showed.
pub fn decide_finish_edit(f: &EditFacts) -> (d: EditDecision)
    ensures
        d == edit_decision(*f),
{
    if f.worktree_dirty {
        return EditDecision::RefuseDirty;
    }
    if f.tip_is_edited_commit {
        return EditDecision::Cancel;
    }
    if !f.head_on_branch {
        return EditDecision::Abort(EditAbort::HeadMoved);
    }
    if f.tip_contains_edited_commit {
        return EditDecision::Abort(EditAbort::StillContainsEdited);
    }
    if f.has_parent && !f.built_on_parent {
        return EditDecision::Abort(EditAbort::NotOnParent);
    }
    if f.has_merge {
        return EditDecision::Abort(EditAbort::MergeCreated);
    }
    EditDecision::Replay
}

/// A dirty working tree is never restored over: whatever else holds, the
/// edit is refused and stays in progress.
pub proof fn lemma_dirty_tree_is_never_restored(f: EditFacts)
    requires
        f.worktree_dirty,
    ensures
        edit_decision(f) == EditDecision::RefuseDirty,
{
}

/// The reason given when the edit is abandoned.
pub open spec fn abort_reason(a: EditAbort) -> Seq<char> {
    match a {
        EditAbort::HeadMoved => "HEAD is no longer on the edited branch"@,
        EditAbort::StillContainsEdited => "the new commits still include the edited commit"@,
        EditAbort::NotOnParent => "the new commits do not build on the edited commit's parent"@,
        EditAbort::MergeCreated => "a merge commit was created"@,
    }
}

/// The error text of a decision that is not carried out, if any.
pub open spec fn decision_message(d: EditDecision) -> Option<Seq<char>> {
    match d {
        EditDecision::RefuseDirty => Some("Edit not applied: the working tree has uncommitted changes \u{2014} commit or discard them, then finish the edit."@),
        EditDecision::Abort(a) => Some("Edit aborted: "@ + abort_reason(a) + ". Restored the branch to its previous state."@),
        _ => None,
    }
}

/// The error text for a decision that is not carried out: the refusal of a
/// dirty tree, or the abort with its reason.
pub fn finish_edit_message(d: EditDecision) -> (m: Option<String>)
    ensures
        match decision_message(d) {
            Some(t) => m matches Some(s) && s@ == t,
            None => m is None,
        },
{
    match d {
        EditDecision::RefuseDirty => Some(String::from_str(
            "Edit not applied: the working tree has uncommitted changes \u{2014} commit or discard them, then finish the edit.",
        )),
        EditDecision::Abort(a) => {
            let reason = match a {
                EditAbort::HeadMoved => "HEAD is no longer on the edited branch",
                EditAbort::StillContainsEdited => "the new commits still include the edited commit",
                EditAbort::NotOnParent => "the new commits do not build on the edited commit's parent",
                EditAbort::MergeCreated => "a merge commit was created",
            };
            let mut s = String::from_str("Edit aborted: ");
            s.append(reason);
            s.append(". Restored the branch to its previous state.");
            Some(s)
        },
        _ => None,
    }
}

} // verus!
