//! Squashing across a rename: which of the source's changes must be merged
//! by hand because the target moved the file they touch.

use vstd::prelude::*;
use crate::oid::Oid;

verus! {

/// A path the source commit changed, with what the trees and the rename
/// map (base side to target side) say about it.
pub struct RenameCandidate {
    /// The path on the side of the source's parent.
    pub old_path: String,
    /// The target's tree has a file at `old_path`.
    pub in_target: bool,
    /// Where the file at `old_path` was renamed to on the target's side.
    pub renamed_to: Option<String>,
    /// The blob at `old_path` in the source's parent.
    pub base_blob: Option<Oid>,
    /// The blob at `renamed_to` in the target.
    pub target_blob: Option<Oid>,
    /// The blob at `old_path` in the source.
    pub source_blob: Option<Oid>,
}

/// A change of the source to merge into the renamed file of the target.
pub struct RenameEdit {
    pub base_path: String,
    pub target_path: String,
    pub base_oid: Oid,
    pub target_oid: Oid,
    pub source_oid: Oid,
}

/// Whether a candidate is merged by hand: the target no longer has the path
/// (a path still there merges the ordinary way), the rename map moved it,
/// to a path without directories (the tree builder takes plain file
/// names), and all three sides have a blob.
pub open spec fn taken(c: RenameCandidate) -> bool {
    &&& !c.in_target
    &&& c.renamed_to matches Some(t) && !t@.contains('/')
    &&& c.base_blob is Some
    &&& c.target_blob is Some
    &&& c.source_blob is Some
}

/// A rename edit by its values: both paths, then the three blobs.
pub open spec fn edit_view(e: RenameEdit) -> (Seq<char>, Seq<char>, Oid, Oid, Oid) {
    (e.base_path@, e.target_path@, e.base_oid, e.target_oid, e.source_oid)
}

/// The edit a taken candidate gives.
pub open spec fn edit_from(c: RenameCandidate) -> (Seq<char>, Seq<char>, Oid, Oid, Oid) {
    (c.old_path@, c.renamed_to->Some_0@, c.base_blob->Some_0, c.target_blob->Some_0, c.source_blob->Some_0)
}

/// The edits of the taken candidates, in order.
pub open spec fn rename_edits(cs: Seq<RenameCandidate>) -> Seq<(Seq<char>, Seq<char>, Oid, Oid, Oid)>
    decreases cs.len(),
{
    if cs.len() == 0 {
        Seq::empty()
    } else {
        let rest = rename_edits(cs.drop_last());
        if taken(cs.last()) { rest.push(edit_from(cs.last())) } else { rest }
    }
}

fn has_slash(s: &String) -> (b: bool)
    ensures
        b == s@.contains('/'),
{
    let t = s.as_str();
    let n = t.unicode_len();
    let mut i: usize = 0;
    while i < n
        invariant
            n == s@.len(),
            t@ == s@,
            i <= n,
            forall|j: int| 0 <= j < i ==> s@[j] != '/',
        decreases n - i,
    {
        if t.get_char(i) == '/' {
            assert(s@[i as int] == '/');
            return true;
        }
        i = i + 1;
    }
    false
}

/// The source changes to merge by hand into renamed files of the target, in
/// the order of the source's diff.
pub fn select_rename_edits(cs: &Vec<RenameCandidate>) -> (r: Vec<RenameEdit>)
    ensures
        Seq::new(r@.len(), |i: int| edit_view(r@[i])) == rename_edits(cs@),
{
    let mut r: Vec<RenameEdit> = Vec::new();
    let mut k: usize = 0;
    assert(cs@.take(0) =~= Seq::<RenameCandidate>::empty());
    while k < cs.len()
        invariant
            k <= cs@.len(),
            Seq::new(r@.len(), |i: int| edit_view(r@[i])) == rename_edits(cs@.take(k as int)),
        decreases cs@.len() - k,
    {
        let ghost before = r@;
        assert(cs@.take(k + 1).drop_last() =~= cs@.take(k as int));
        assert(cs@.take(k + 1).last() == cs@[k as int]);
        let c = &cs[k];
        if !c.in_target {
            if let Some(t) = &c.renamed_to {
                if !has_slash(t) {
                    match (&c.base_blob, &c.target_blob, &c.source_blob) {
                        (Some(b), Some(tb), Some(sb)) => {
                            r.push(RenameEdit {
                                base_path: c.old_path.clone(),
                                target_path: t.clone(),
                                base_oid: b.duplicate(),
                                target_oid: tb.duplicate(),
                                source_oid: sb.duplicate(),
                            });
                            assert(Seq::new(r@.len(), |i: int| edit_view(r@[i])) =~= Seq::new(before.len(),
                                |i: int| edit_view(before[i])).push(edit_from(cs@[k as int])));
                        },
                        _ => {},
                    }
                }
            }
        }
        k = k + 1;
    }
    assert(cs@.take(cs@.len() as int) =~= cs@);
    r
}

/// How a squash proceeds once the source was cherry-picked onto the target.
#[derive(Clone, Copy, Debug, PartialEq, Eq, Structural)]
pub enum SquashStep {
    /// The pick merged cleanly: commit its tree.
    CommitMerged,
    /// The pick conflicted, but merging across the target's renames
    /// resolved it: commit that tree.
    CommitRenameAware,
    /// The conflict stands: pause for the user to resolve it.
    Pause,
}

/// The step a squash takes: a clean pick is committed; a conflicted one is
/// committed from the rename-aware merge when that produced a tree, and
/// pauses otherwise.
pub fn squash_step(pick_conflicted: bool, rename_aware_tree: bool) -> (s: SquashStep)
    ensures
        !pick_conflicted ==> s == SquashStep::CommitMerged,
        pick_conflicted && rename_aware_tree ==> s == SquashStep::CommitRenameAware,
        pick_conflicted && !rename_aware_tree ==> s == SquashStep::Pause,
{
    if !pick_conflicted {
        SquashStep::CommitMerged
    } else if rename_aware_tree {
        SquashStep::CommitRenameAware
    } else {
        SquashStep::Pause
    }
}

/// `all` without the commits equal to `source`, in order.
pub open spec fn without(all: Seq<Oid>, source: Oid) -> Seq<Oid>
    decreases all.len(),
{
    if all.len() == 0 {
        Seq::empty()
    } else {
        let rest = without(all.drop_last(), source);
        if all.last()@ == source@ { rest } else { rest.push(all.last()) }
    }
}

/// The commits replayed onto the squashed commit: the target's descendants
/// up to HEAD, in order, except the source, which the squash absorbed.
pub fn descendants_to_replay(all: &Vec<Oid>, source: &Oid) -> (r: Vec<Oid>)
    ensures
        r@ == without(all@, *source),
{
    let mut r: Vec<Oid> = Vec::new();
    let mut i: usize = 0;
    assert(all@.take(0) =~= Seq::<Oid>::empty());
    while i < all.len()
        invariant
            i <= all@.len(),
            r@ == without(all@.take(i as int), *source),
        decreases all@.len() - i,
    {
        assert(all@.take(i + 1).drop_last() =~= all@.take(i as int));
        assert(all@.take(i + 1).last() == all@[i as int]);
        if !all[i].same(source) {
            r.push(all[i].duplicate());
        }
        i = i + 1;
    }
    assert(all@.take(all@.len() as int) =~= all@);
    r
}

} // verus!
