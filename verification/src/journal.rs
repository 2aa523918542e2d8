//! The undo/redo journal: which completed operations can be undone and
//! redone, what a paused operation left behind, and how an on-disk document
//! of an older or newer format is treated.
//!
//! Reading and writing the document and moving refs are done by the caller;
//! this module decides what the stacks become and what has to be checked.

use vstd::prelude::*;
use crate::oid::Oid;
use crate::text::{decimal, push_decimal};

verus! {

/// On-disk journal format version.
pub const JOURNAL_VERSION: u32 = 3;

/// Maximum number of undo records kept; pushing past it drops the oldest.
pub const MAX_UNDO_DEPTH: usize = 50;


/// One reversible operation.
#[derive(Clone, Debug)]
pub enum UndoRecord {
    /// A history-rewriting op: restoring `tip_before` undoes it, `tip_after`
    /// redoes it (a hard ref move with checkout).
    RefMove { label: String, tip_before: Oid, tip_after: Oid },
    /// An index-only op: the ref stays at `head` while the index tree moves
    /// from `index_tree_before` to `index_tree_after`.
    IndexChange { label: String, head: Oid, index_tree_before: Oid, index_tree_after: Oid },
    /// A new commit: undo/redo is a soft ref move between the parent
    /// (`tip_before`) and the commit (`tip_after`).
    Commit { label: String, tip_before: Oid, tip_after: Oid },
}

impl UndoRecord {
    /// The label, as text.
    pub open spec fn label_view(&self) -> Seq<char> {
        match self {
            UndoRecord::RefMove { label, .. } => label@,
            UndoRecord::IndexChange { label, .. } => label@,
            UndoRecord::Commit { label, .. } => label@,
        }
    }

    /// Where HEAD sits while the op is applied.
    pub open spec fn applied_head_view(&self) -> Seq<char> {
        match self {
            UndoRecord::RefMove { tip_after, .. } => tip_after@,
            UndoRecord::Commit { tip_after, .. } => tip_after@,
            UndoRecord::IndexChange { head, .. } => head@,
        }
    }

    /// Where HEAD sits while the op is undone.
    pub open spec fn unapplied_head_view(&self) -> Seq<char> {
        match self {
            UndoRecord::RefMove { tip_before, .. } => tip_before@,
            UndoRecord::Commit { tip_before, .. } => tip_before@,
            UndoRecord::IndexChange { head, .. } => head@,
        }
    }

    /// The operation's label, for status messages.
    pub fn label(&self) -> (l: &String)
        ensures
            l@ == self.label_view(),
    {
        match self {
            UndoRecord::RefMove { label, .. } => label,
            UndoRecord::IndexChange { label, .. } => label,
            UndoRecord::Commit { label, .. } => label,
        }
    }

    /// Whether undo/redo leave the working tree untouched (so the caller can
    /// skip the auto-stash dance that protects the working tree during
    /// `RefMove` checkouts). True for index-only ops and for commits.
    pub fn skips_autostash(&self) -> (b: bool)
        ensures
            b == !(self is RefMove),
    {
        match self {
            UndoRecord::RefMove { .. } => false,
            _ => true,
        }
    }

    /// Where HEAD should sit while this op is applied (top of the undo
    /// stack): after the ref move, or unchanged for an index-only op.
    pub fn applied_head(&self) -> (o: &Oid)
        ensures
            o@ == self.applied_head_view(),
    {
        match self {
            UndoRecord::RefMove { tip_after, .. } => tip_after,
            UndoRecord::Commit { tip_after, .. } => tip_after,
            UndoRecord::IndexChange { head, .. } => head,
        }
    }

    /// Where HEAD should sit while this op is undone (top of the redo
    /// stack): back at the pre-op tip, or unchanged for an index-only op.
    pub fn unapplied_head(&self) -> (o: &Oid)
        ensures
            o@ == self.unapplied_head_view(),
    {
        match self {
            UndoRecord::RefMove { tip_before, .. } => tip_before,
            UndoRecord::Commit { tip_before, .. } => tip_before,
            UndoRecord::IndexChange { head, .. } => head,
        }
    }

    /// The texts of the two ids this record pins.
    pub open spec fn pinned_pair(&self) -> (Seq<char>, Seq<char>) {
        match self {
            UndoRecord::RefMove { tip_before, tip_after, .. } => (tip_before@, tip_after@),
            UndoRecord::Commit { tip_before, tip_after, .. } => (tip_before@, tip_after@),
            UndoRecord::IndexChange { index_tree_before, index_tree_after, .. } => (index_tree_before@, index_tree_after@),
        }
    }

    /// Ids that must stay reachable (pinned against gc) while this record
    /// lives: both tips of a ref move or commit, both trees of an index change.
    pub fn pinned_oids(&self) -> (v: Vec<Oid>)
        ensures
            v@.len() == 2,
            v@[0]@ == self.pinned_pair().0 && v@[1]@ == self.pinned_pair().1,
            match self {
                UndoRecord::RefMove { tip_before, tip_after, .. } => v@[0]@ == tip_before@ && v@[1]@ == tip_after@,
                UndoRecord::Commit { tip_before, tip_after, .. } => v@[0]@ == tip_before@ && v@[1]@ == tip_after@,
                UndoRecord::IndexChange { index_tree_before, index_tree_after, .. } =>
                    v@[0]@ == index_tree_before@ && v@[1]@ == index_tree_after@,
            },
    {
        let mut v: Vec<Oid> = Vec::new();
        match self {
            UndoRecord::RefMove { tip_before, tip_after, .. } => {
                v.push(tip_before.duplicate());
                v.push(tip_after.duplicate());
            },
            UndoRecord::Commit { tip_before, tip_after, .. } => {
                v.push(tip_before.duplicate());
                v.push(tip_after.duplicate());
            },
            UndoRecord::IndexChange { index_tree_before, index_tree_after, .. } => {
                v.push(index_tree_before.duplicate());
                v.push(index_tree_after.duplicate());
            },
        }
        v
    }
}


/// Full name of the ref pinning the pre-operation branch tip of an
/// interrupted operation, under the tool's own ref namespace.
pub fn orig_ref() -> (r: String)
    ensures
        r@ == "refs/git-tailor/orig"@,
{
    String::from_str("refs/git-tailor/orig")
}


/// Full name of the ref pinning the `i`-th undo/redo tip against `git gc`.
pub fn undo_pin_ref(i: usize) -> (r: String)
    ensures
        r@ == "refs/git-tailor/undo/"@ + decimal(i as nat),
{
    let mut r = String::from_str("refs/git-tailor/undo/");
    push_decimal(&mut r, i);
    r
}

/// `a` sorts before `b`: character by character, a proper prefix first.
pub open spec fn text_before(a: Seq<char>, b: Seq<char>) -> bool
    decreases a.len(),
{
    if a.len() == 0 {
        b.len() > 0
    } else if b.len() == 0 {
        false
    } else if a[0] != b[0] {
        a[0] < b[0]
    } else {
        text_before(a.drop_first(), b.drop_first())
    }
}

proof fn lemma_text_before_irreflexive(a: Seq<char>)
    ensures
        !text_before(a, a),
    decreases a.len(),
{
    if a.len() > 0 {
        lemma_text_before_irreflexive(a.drop_first());
    }
}

proof fn lemma_text_before_total(a: Seq<char>, b: Seq<char>)
    ensures
        a == b || text_before(a, b) || text_before(b, a),
    decreases a.len(),
{
    if a.len() > 0 && b.len() > 0 && a[0] == b[0] {
        lemma_text_before_total(a.drop_first(), b.drop_first());
        if a.drop_first() == b.drop_first() {
            assert(a =~= seq![a[0]] + a.drop_first());
            assert(b =~= seq![b[0]] + b.drop_first());
        }
    } else if a.len() == 0 && b.len() == 0 {
        assert(a =~= b);
    }
}

proof fn lemma_text_before_transitive(a: Seq<char>, b: Seq<char>, c: Seq<char>)
    requires
        text_before(a, b),
        text_before(b, c),
    ensures
        text_before(a, c),
    decreases a.len(),
{
    if a.len() > 0 && b.len() > 0 && c.len() > 0 && a[0] == b[0] && b[0] == c[0] {
        lemma_text_before_transitive(a.drop_first(), b.drop_first(), c.drop_first());
    }
}

fn oid_before(a: &Oid, b: &Oid) -> (r: bool)
    ensures
        r == text_before(a@, b@),
{
    let x = a.hex.as_str();
    let y = b.hex.as_str();
    let n = x.unicode_len();
    let m = y.unicode_len();
    let mut i: usize = 0;
    assert(x@.skip(0) =~= x@);
    assert(y@.skip(0) =~= y@);
    while i < n && i < m
        invariant
            n == x@.len(),
            m == y@.len(),
            x@ == a@,
            y@ == b@,
            i <= n && i <= m,
            x@.take(i as int) == y@.take(i as int),
            text_before(a@, b@) == text_before(x@.skip(i as int), y@.skip(i as int)),
        decreases n - i,
    {
        let cx = x.get_char(i);
        let cy = y.get_char(i);
        assert(x@.skip(i as int)[0] == cx && y@.skip(i as int)[0] == cy);
        if cx != cy {
            return cx < cy;
        }
        assert(x@.skip(i as int).drop_first() =~= x@.skip(i + 1));
        assert(y@.skip(i as int).drop_first() =~= y@.skip(i + 1));
        assert(x@.take(i + 1) =~= x@.take(i as int).push(cx));
        assert(y@.take(i + 1) =~= y@.take(i as int).push(cy));
        i = i + 1;
    }
    i < m
}

/// Ids `v` lists in strictly ascending order of their text.
pub open spec fn ascending_ids(v: Seq<Oid>) -> bool {
    forall|i: int, j: int| 0 <= i < j < v.len() ==> text_before(#[trigger] v[i]@, #[trigger] v[j]@)
}

/// The texts of the ids pinned by `records`.
pub open spec fn pinned_texts(records: Seq<UndoRecord>) -> Set<Seq<char>> {
    Set::new(|t: Seq<char>| exists|i: int| 0 <= i < records.len()
        && (#[trigger] records[i].pinned_pair().0 == t || records[i].pinned_pair().1 == t))
}

/// Inserts `o` into the ascending list `v` unless its text is there.
fn insert_pin(v: &mut Vec<Oid>, o: &Oid)
    requires
        ascending_ids(old(v)@),
    ensures
        ascending_ids(final(v)@),
        id_texts(final(v)@) == id_texts(old(v)@).insert(o@),
{
    let ghost before = v@;
    let mut p: usize = 0;
    while p < v.len() && oid_before(&v[p], o)
        invariant
            p <= v@.len(),
            v@ == before,
            forall|k: int| 0 <= k < p ==> text_before(#[trigger] v@[k]@, o@),
        decreases v@.len() - p,
    {
        p = p + 1;
    }
    if p < v.len() && v[p].same(o) {
        assert(Set::new(|t: Seq<char>| exists|i: int| 0 <= i < v@.len() && #[trigger] v@[i]@ == t)
            =~= Set::new(|t: Seq<char>| exists|i: int| 0 <= i < before.len() && #[trigger] before[i]@ == t).insert(o@));
        return;
    }
    proof {
        if p < before.len() {
            lemma_text_before_total(before[p as int]@, o@);
        }
    }
    v.insert(p, o.duplicate());
    proof {
        assert forall|i: int, j: int| 0 <= i < j < v@.len() implies text_before(#[trigger] v@[i]@, #[trigger] v@[j]@) by {
            if j < p {
                assert(v@[i] == before[i] && v@[j] == before[j]);
            } else if j == p {
                assert(v@[i] == before[i]);
            } else if i == p {
                assert(v@[j] == before[j - 1]);
                if j - 1 > p {
                    lemma_text_before_transitive(o@, before[p as int]@, before[j - 1]@);
                }
            } else if i < p {
                assert(v@[i] == before[i] && v@[j] == before[j - 1]);
            } else {
                assert(v@[i] == before[i - 1] && v@[j] == before[j - 1]);
            }
        }
        let a = Set::new(|t: Seq<char>| exists|i: int| 0 <= i < v@.len() && #[trigger] v@[i]@ == t);
        let b = Set::new(|t: Seq<char>| exists|i: int| 0 <= i < before.len() && #[trigger] before[i]@ == t).insert(o@);
        assert forall|t: Seq<char>| a.contains(t) implies b.contains(t) by {
            let i = choose|i: int| 0 <= i < v@.len() && #[trigger] v@[i]@ == t;
            if i < p {
                assert(v@[i] == before[i]);
            } else if i > p {
                assert(v@[i] == before[i - 1]);
            }
        }
        assert forall|t: Seq<char>| b.contains(t) implies a.contains(t) by {
            if t == o@ {
                assert(v@[p as int]@ == t);
            } else {
                let i = choose|i: int| 0 <= i < before.len() && #[trigger] before[i]@ == t;
                if i < p {
                    assert(v@[i] == before[i]);
                } else {
                    assert(v@[i + 1] == before[i]);
                }
            }
        }
        assert(a =~= b);
    }
}

proof fn lemma_pinned_texts_push(s: Seq<UndoRecord>, r: UndoRecord)
    ensures
        pinned_texts(s.push(r)) == pinned_texts(s).insert(r.pinned_pair().0).insert(r.pinned_pair().1),
{
    let lhs = pinned_texts(s.push(r));
    let rhs = pinned_texts(s).insert(r.pinned_pair().0).insert(r.pinned_pair().1);
    assert forall|t: Seq<char>| lhs.contains(t) implies rhs.contains(t) by {
        let i = choose|i: int| 0 <= i < s.push(r).len()
            && (#[trigger] s.push(r)[i].pinned_pair().0 == t || s.push(r)[i].pinned_pair().1 == t);
        if i < s.len() {
            assert(s.push(r)[i] == s[i]);
        }
    }
    assert forall|t: Seq<char>| rhs.contains(t) implies lhs.contains(t) by {
        if t == r.pinned_pair().0 || t == r.pinned_pair().1 {
            assert(s.push(r)[s.len() as int] == r);
            assert(s.push(r)[s.len() as int].pinned_pair() == r.pinned_pair());
        } else {
            let i = choose|i: int| 0 <= i < s.len() && (#[trigger] s[i].pinned_pair().0 == t || s[i].pinned_pair().1 == t);
            assert(s.push(r)[i] == s[i]);
            assert(s.push(r)[i].pinned_pair() == s[i].pinned_pair());
        }
    }
    assert(lhs =~= rhs);
}

proof fn lemma_pinned_texts_concat(a: Seq<UndoRecord>, b: Seq<UndoRecord>)
    ensures
        pinned_texts(a + b) == pinned_texts(a).union(pinned_texts(b)),
{
    let lhs = pinned_texts(a + b);
    let rhs = pinned_texts(a).union(pinned_texts(b));
    assert forall|t: Seq<char>| lhs.contains(t) implies rhs.contains(t) by {
        let i = choose|i: int| 0 <= i < (a + b).len()
            && (#[trigger] (a + b)[i].pinned_pair().0 == t || (a + b)[i].pinned_pair().1 == t);
        if i < a.len() {
            assert((a + b)[i] == a[i]);
        } else {
            assert((a + b)[i] == b[i - a.len()]);
        }
    }
    assert forall|t: Seq<char>| rhs.contains(t) implies lhs.contains(t) by {
        if pinned_texts(a).contains(t) {
            let i = choose|i: int| 0 <= i < a.len() && (#[trigger] a[i].pinned_pair().0 == t || a[i].pinned_pair().1 == t);
            assert((a + b)[i] == a[i]);
        } else {
            let i = choose|i: int| 0 <= i < b.len() && (#[trigger] b[i].pinned_pair().0 == t || b[i].pinned_pair().1 == t);
            assert((a + b)[i + a.len()] == b[i]);
        }
    }
    assert(lhs =~= rhs);
}

/// The texts `v` lists.
pub open spec fn id_texts(v: Seq<Oid>) -> Set<Seq<char>> {
    Set::new(|t: Seq<char>| exists|i: int| 0 <= i < v.len() && #[trigger] v[i]@ == t)
}

/// Adds the ids every record of `records` pins to the ascending list `pins`.
fn add_pins(pins: &mut Vec<Oid>, records: &Vec<UndoRecord>)
    requires
        ascending_ids(old(pins)@),
    ensures
        ascending_ids(final(pins)@),
        id_texts(final(pins)@) == id_texts(old(pins)@).union(pinned_texts(records@)),
{
    let ghost start = id_texts(pins@);
    let mut k: usize = 0;
    assert(records@.take(0) =~= Seq::<UndoRecord>::empty());
    assert(pinned_texts(Seq::<UndoRecord>::empty()) =~= Set::<Seq<char>>::empty());
    assert(start.union(Set::<Seq<char>>::empty()) =~= start);
    while k < records.len()
        invariant
            k <= records@.len(),
            ascending_ids(pins@),
            id_texts(pins@) == start.union(pinned_texts(records@.take(k as int))),
        decreases records@.len() - k,
    {
        let pair = records[k].pinned_oids();
        insert_pin(pins, &pair[0]);
        insert_pin(pins, &pair[1]);
        proof {
            assert(records@.take(k + 1) =~= records@.take(k as int).push(records@[k as int]));
            lemma_pinned_texts_push(records@.take(k as int), records@[k as int]);
            assert(id_texts(pins@) =~= start.union(pinned_texts(records@.take(k + 1))));
        }
        k = k + 1;
    }
    assert(records@.take(records@.len() as int) =~= records@);
}

/// The ids the undo and redo stacks pin against `git gc`, each once, in
/// ascending order of their text: these are the tips
/// `refs/git-tailor/undo/0`, `…/1`, … are kept on.
pub fn undo_pins(doc: &JournalDoc) -> (pins: Vec<Oid>)
    ensures
        ascending_ids(pins@),
        id_texts(pins@) == pinned_texts(doc.undo@ + doc.redo@),
{
    let mut pins: Vec<Oid> = Vec::new();
    assert(id_texts(pins@) =~= Set::<Seq<char>>::empty());
    add_pins(&mut pins, &doc.undo);
    add_pins(&mut pins, &doc.redo);
    proof {
        lemma_pinned_texts_concat(doc.undo@, doc.redo@);
        assert(Set::<Seq<char>>::empty().union(pinned_texts(doc.undo@)).union(pinned_texts(doc.redo@))
            =~= pinned_texts(doc.undo@ + doc.redo@));
    }
    pins
}

/// What the journal keeps of an operation paused mid-way (a conflict
/// awaiting resolution, or an edit shell in progress).
#[derive(Clone, Debug)]
pub struct InProgress {
    /// The operation's name, for the recovery prompt.
    pub operation_label: String,
    /// Branch tip before the operation started.
    pub original_branch_oid: Oid,
}

/// State of an auto-stash created for the in-flight operation.
#[derive(Clone, Debug)]
pub struct AutostashRecord {
    /// The stash commit holding the user's dirty changes.
    pub stash: Oid,
    /// Branch tip at the moment the stash was taken.
    pub pre_op_tip: Oid,
    /// Set once the stash has been reapplied and left conflict markers.
    pub applied_with_conflict: bool,
}

/// The full journal document.
pub struct JournalDoc {
    pub version: u32,
    /// `Some` while an operation is paused or incomplete.
    pub in_progress: Option<InProgress>,
    /// Completed operations available to undo, oldest first (top = last).
    pub undo: Vec<UndoRecord>,
    /// Undone operations available to redo, oldest first (top = last).
    pub redo: Vec<UndoRecord>,
    /// Auto-stash created for the in-flight operation.
    pub autostash: Option<AutostashRecord>,
}

/// Result of an undo or redo request.
#[derive(Debug)]
pub enum UndoOutcome {
    /// The operation named `label` was undone (or redone).
    Done { label: String },
    /// Nothing to undo (or redo).
    Empty,
    /// History was changed outside the tool; the stacks were cleared.
    Stale,
}

/// How a journal read at startup is to be reported.
#[derive(Debug)]
pub enum JournalStatus {
    /// Nothing paused.
    Clean,
    /// An operation was paused; offer to resume or abort it.
    Recovered(InProgress),
    /// The file could not be read or parsed.
    Corrupt(String),
    /// The file was written by a newer version of the tool.
    NewerVersion(u32),
    /// An older file holds a paused operation this version cannot take over.
    UpgradeInterrupted { op: String },
}

/// What the caller must verify and then do to undo or redo the top record.
#[derive(Debug)]
pub enum RevertStep {
    /// The stack is empty.
    Nothing,
    /// Check that HEAD is at `expected`, then move the branch to `target`
    /// and check it out.
    Ref { expected: Oid, target: Oid },
    /// Check that HEAD is at `head` and the index holds tree `expected`, then
    /// read tree `target` into the index.
    Index { head: Oid, expected: Oid, target: Oid },
    /// Check that HEAD is at `expected`, then move the branch to `target`
    /// without touching index or working tree.
    Soft { expected: Oid, target: Oid },
}

/// The step that undoes record `r`.
pub open spec fn undo_step_of(r: UndoRecord, s: RevertStep) -> bool {
    match r {
        UndoRecord::RefMove { tip_before, tip_after, .. } =>
            s matches RevertStep::Ref { expected, target } && expected@ == tip_after@ && target@ == tip_before@,
        UndoRecord::IndexChange { head, index_tree_before, index_tree_after, .. } =>
            s matches RevertStep::Index { head: h, expected, target } && h@ == head@
                && expected@ == index_tree_after@ && target@ == index_tree_before@,
        UndoRecord::Commit { tip_before, tip_after, .. } =>
            s matches RevertStep::Soft { expected, target } && expected@ == tip_after@ && target@ == tip_before@,
    }
}

/// The step that redoes record `r`.
pub open spec fn redo_step_of(r: UndoRecord, s: RevertStep) -> bool {
    match r {
        UndoRecord::RefMove { tip_before, tip_after, .. } =>
            s matches RevertStep::Ref { expected, target } && expected@ == tip_before@ && target@ == tip_after@,
        UndoRecord::IndexChange { head, index_tree_before, index_tree_after, .. } =>
            s matches RevertStep::Index { head: h, expected, target } && h@ == head@
                && expected@ == index_tree_before@ && target@ == index_tree_after@,
        UndoRecord::Commit { tip_before, tip_after, .. } =>
            s matches RevertStep::Soft { expected, target } && expected@ == tip_before@ && target@ == tip_after@,
    }
}

/// The (undo, redo) stacks after the top undo record is undone.
pub open spec fn after_undo(undo: Seq<UndoRecord>, redo: Seq<UndoRecord>) -> (Seq<UndoRecord>, Seq<UndoRecord>) {
    (undo.drop_last(), redo.push(undo.last()))
}

/// The (undo, redo) stacks after the top redo record is redone.
pub open spec fn after_redo(undo: Seq<UndoRecord>, redo: Seq<UndoRecord>) -> (Seq<UndoRecord>, Seq<UndoRecord>) {
    (undo.push(redo.last()), redo.drop_last())
}

/// The undo stack after pushing `r`: the record on top, the oldest entries
/// dropped beyond [`MAX_UNDO_DEPTH`].
pub open spec fn pushed_undo(undo: Seq<UndoRecord>, r: UndoRecord) -> Seq<UndoRecord> {
    let p = undo.push(r);
    if p.len() > MAX_UNDO_DEPTH { p.skip(p.len() - MAX_UNDO_DEPTH) } else { p }
}

impl JournalDoc {
    /// An empty document of the current version.
    pub fn new() -> (d: JournalDoc)
        ensures
            d.version == JOURNAL_VERSION,
            d.in_progress is None,
            d.undo@.len() == 0,
            d.redo@.len() == 0,
            d.autostash is None,
    {
        JournalDoc { version: JOURNAL_VERSION, in_progress: None, undo: Vec::new(), redo: Vec::new(), autostash: None }
    }

    /// Whether the document holds nothing worth persisting.
    pub fn is_empty(&self) -> (b: bool)
        ensures
            b == (self.in_progress is None && self.undo@.len() == 0 && self.redo@.len() == 0
                && self.autostash is None),
    {
        self.in_progress.is_none() && self.undo.len() == 0 && self.redo.len() == 0 && self.autostash.is_none()
    }

    /// Append a record to the undo stack, clearing the redo stack (a new
    /// action invalidates redo) and capping the depth.
    pub fn push_undo(&mut self, record: UndoRecord)
        ensures
            final(self).undo@ == pushed_undo(old(self).undo@, record),
            final(self).redo@.len() == 0,
            final(self).in_progress == old(self).in_progress,
            final(self).autostash == old(self).autostash,
            final(self).version == old(self).version,
    {
        let ghost pushed = self.undo@.push(record);
        let ghost ip = self.in_progress;
        let ghost st = self.autostash;
        let ghost ver = self.version;
        self.undo.push(record);
        self.redo.clear();
        assert(pushed.skip(0) =~= pushed);
        while self.undo.len() > MAX_UNDO_DEPTH
            invariant
                pushed.len() >= self.undo@.len(),
                pushed.len() > MAX_UNDO_DEPTH ==> self.undo@.len() >= MAX_UNDO_DEPTH,
                pushed.len() <= MAX_UNDO_DEPTH ==> self.undo@.len() == pushed.len(),
                self.undo@ == pushed.skip(pushed.len() - self.undo@.len()),
                self.redo@.len() == 0,
                self.in_progress == ip,
                self.autostash == st,
                self.version == ver,
            decreases self.undo@.len(),
        {
            self.undo.remove(0);
            assert(self.undo@ =~= pushed.skip(pushed.len() - self.undo@.len()));
        }
        proof {
            if pushed.len() <= MAX_UNDO_DEPTH {
                assert(self.undo@ =~= pushed);
            }
        }
    }

    /// Whether the next undo leaves the working tree untouched, so the
    /// caller can skip the auto-stash dance.
    pub fn pending_undo_skips_autostash(&self) -> (b: bool)
        ensures
            b == (self.undo@.len() > 0 && !(self.undo@.last() is RefMove)),
    {
        let n = self.undo.len();
        n > 0 && self.undo[n - 1].skips_autostash()
    }

    /// Whether the next redo leaves the working tree untouched.
    pub fn pending_redo_skips_autostash(&self) -> (b: bool)
        ensures
            b == (self.redo@.len() > 0 && !(self.redo@.last() is RefMove)),
    {
        let n = self.redo.len();
        n > 0 && self.redo[n - 1].skips_autostash()
    }

    /// Whether the undo/redo stacks no longer match HEAD (history was
    /// changed outside the tool). An empty history is never stale.
    pub fn stacks_stale(&self, head: &Oid) -> (b: bool)
        ensures
            b == (if self.undo@.len() > 0 {
                self.undo@.last().applied_head_view() != head@
            } else if self.redo@.len() > 0 {
                self.redo@.last().unapplied_head_view() != head@
            } else {
                false
            }),
    {
        let nu = self.undo.len();
        let nr = self.redo.len();
        if nu > 0 {
            !self.undo[nu - 1].applied_head().same(head)
        } else if nr > 0 {
            !self.redo[nr - 1].unapplied_head().same(head)
        } else {
            false
        }
    }

    /// Drop the just-recorded undo entry of a forward operation that moved
    /// the branch from `pre_op_tip` to `discarded_tip` and was then reverted.
    /// Returns whether an entry was dropped.
    pub fn drop_reverted_undo_record(&mut self, pre_op_tip: &Oid, discarded_tip: &Oid) -> (dropped: bool)
        ensures
            dropped == (old(self).undo@.len() > 0 && match old(self).undo@.last() {
                UndoRecord::RefMove { tip_before, tip_after, .. } =>
                    tip_before@ == pre_op_tip@ && tip_after@ == discarded_tip@,
                _ => false,
            }),
            dropped ==> final(self).undo@ == old(self).undo@.drop_last(),
            !dropped ==> final(self).undo@ == old(self).undo@,
            final(self).redo@ == old(self).redo@,
            final(self).in_progress == old(self).in_progress,
            final(self).autostash == old(self).autostash,
    {
        let n = self.undo.len();
        if n == 0 {
            return false;
        }
        let matches = match &self.undo[n - 1] {
            UndoRecord::RefMove { tip_before, tip_after, .. } =>
                tip_before.same(pre_op_tip) && tip_after.same(discarded_tip),
            _ => false,
        };
        if matches {
            self.undo.pop();
        }
        matches
    }

    /// What undoing the top record requires.
    pub fn undo_step(&self) -> (s: RevertStep)
        ensures
            self.undo@.len() == 0 ==> s is Nothing,
            self.undo@.len() > 0 ==> undo_step_of(self.undo@.last(), s),
    {
        let n = self.undo.len();
        if n == 0 {
            return RevertStep::Nothing;
        }
        match &self.undo[n - 1] {
            UndoRecord::RefMove { tip_before, tip_after, .. } =>
                RevertStep::Ref { expected: tip_after.duplicate(), target: tip_before.duplicate() },
            UndoRecord::IndexChange { head, index_tree_before, index_tree_after, .. } =>
                RevertStep::Index { head: head.duplicate(), expected: index_tree_after.duplicate(), target: index_tree_before.duplicate() },
            UndoRecord::Commit { tip_before, tip_after, .. } =>
                RevertStep::Soft { expected: tip_after.duplicate(), target: tip_before.duplicate() },
        }
    }

    /// What redoing the top redo record requires.
    pub fn redo_step(&self) -> (s: RevertStep)
        ensures
            self.redo@.len() == 0 ==> s is Nothing,
            self.redo@.len() > 0 ==> redo_step_of(self.redo@.last(), s),
    {
        let n = self.redo.len();
        if n == 0 {
            return RevertStep::Nothing;
        }
        match &self.redo[n - 1] {
            UndoRecord::RefMove { tip_before, tip_after, .. } =>
                RevertStep::Ref { expected: tip_before.duplicate(), target: tip_after.duplicate() },
            UndoRecord::IndexChange { head, index_tree_before, index_tree_after, .. } =>
                RevertStep::Index { head: head.duplicate(), expected: index_tree_before.duplicate(), target: index_tree_after.duplicate() },
            UndoRecord::Commit { tip_before, tip_after, .. } =>
                RevertStep::Soft { expected: tip_before.duplicate(), target: tip_after.duplicate() },
        }
    }

    /// Record the result of an undo whose checks were made: when `current`
    /// (HEAD, and for an index change the index, were where the record says)
    /// the top record moves to the redo stack; otherwise both stacks are
    /// cleared as stale.
    pub fn finish_undo(&mut self, current: bool) -> (out: UndoOutcome)
        ensures
            old(self).undo@.len() == 0 ==> out is Empty && final(self).undo@ == old(self).undo@
                && final(self).redo@ == old(self).redo@,
            old(self).undo@.len() > 0 && !current ==> out is Stale && final(self).undo@.len() == 0
                && final(self).redo@.len() == 0,
            old(self).undo@.len() > 0 && current ==> (out matches UndoOutcome::Done { label }
                && label@ == old(self).undo@.last().label_view()
                && (final(self).undo@, final(self).redo@) == after_undo(old(self).undo@, old(self).redo@)),
            final(self).in_progress == old(self).in_progress,
            final(self).autostash == old(self).autostash,
    {
        if self.undo.len() == 0 {
            return UndoOutcome::Empty;
        }
        if !current {
            self.undo.clear();
            self.redo.clear();
            return UndoOutcome::Stale;
        }
        let record = self.undo.pop().unwrap();
        let label = record.label().clone();
        self.redo.push(record);
        UndoOutcome::Done { label }
    }

    /// Record the result of a redo whose checks were made; the mirror of
    /// [`JournalDoc::finish_undo`].
    pub fn finish_redo(&mut self, current: bool) -> (out: UndoOutcome)
        ensures
            old(self).redo@.len() == 0 ==> out is Empty && final(self).undo@ == old(self).undo@
                && final(self).redo@ == old(self).redo@,
            old(self).redo@.len() > 0 && !current ==> out is Stale && final(self).undo@.len() == 0
                && final(self).redo@.len() == 0,
            old(self).redo@.len() > 0 && current ==> (out matches UndoOutcome::Done { label }
                && label@ == old(self).redo@.last().label_view()
                && (final(self).undo@, final(self).redo@) == after_redo(old(self).undo@, old(self).redo@)),
            final(self).in_progress == old(self).in_progress,
            final(self).autostash == old(self).autostash,
    {
        if self.redo.len() == 0 {
            return UndoOutcome::Empty;
        }
        if !current {
            self.undo.clear();
            self.redo.clear();
            return UndoOutcome::Stale;
        }
        let record = self.redo.pop().unwrap();
        let label = record.label().clone();
        self.undo.push(record);
        UndoOutcome::Done { label }
    }

    /// How the document read at startup is reported: a paused operation is
    /// offered for recovery, anything else is quiet.
    pub fn classify(self) -> (s: JournalStatus)
        ensures
            match self.in_progress {
                Some(r) => s matches JournalStatus::Recovered(x) && x == r,
                None => s is Clean,
            },
    {
        match self.in_progress {
            Some(record) => JournalStatus::Recovered(record),
            None => JournalStatus::Clean,
        }
    }
}

/// How a document of a given on-disk version is read.
#[derive(Debug, PartialEq, Eq)]
pub enum ReadPlan {
    /// Written by a newer version: report it, do not touch it.
    TooNew(u32),
    /// A version-1 (or unversioned) document: upgrade unless it holds a
    /// paused operation, which that schema cannot carry over.
    UpgradeFromV1,
    /// A version-2 document: differs only additively; upgrade in place.
    UpgradeAdditive,
    /// The current version.
    Current,
}

/// Decide how to read a document whose header says `version`.
pub fn read_plan(version: u32) -> (p: ReadPlan)
    ensures
        version > JOURNAL_VERSION ==> p == ReadPlan::TooNew(version),
        version <= 1 ==> p == ReadPlan::UpgradeFromV1,
        1 < version < JOURNAL_VERSION ==> p == ReadPlan::UpgradeAdditive,
        version == JOURNAL_VERSION ==> p == ReadPlan::Current,
{
    if version > JOURNAL_VERSION {
        ReadPlan::TooNew(version)
    } else if version <= 1 {
        ReadPlan::UpgradeFromV1
    } else if version < JOURNAL_VERSION {
        ReadPlan::UpgradeAdditive
    } else {
        ReadPlan::Current
    }
}

/// Upgrade the parts of a version-1 document to the current schema.
/// `interrupted` is the label of an operation the old document holds as
/// paused (`None` when nothing was paused); such a document is reported
/// instead of upgraded, so an older version of the tool can still finish it.
pub fn migrate_v1(
    interrupted: Option<String>,
    undo: Vec<UndoRecord>,
    redo: Vec<UndoRecord>,
    autostash: Option<AutostashRecord>,
) -> (r: Result<JournalDoc, JournalStatus>)
    ensures
        match interrupted {
            Some(op) => r matches Err(JournalStatus::UpgradeInterrupted { op: o }) && o == op,
            None => r matches Ok(d) && d.version == JOURNAL_VERSION && d.in_progress is None
                && d.undo@ == undo@ && d.redo@ == redo@ && d.autostash == autostash,
        },
{
    match interrupted {
        Some(op) => Err(JournalStatus::UpgradeInterrupted { op }),
        None => Ok(JournalDoc { version: JOURNAL_VERSION, in_progress: None, undo, redo, autostash }),
    }
}

impl JournalDoc {
    /// Startup clean-up of the stacks: when no operation is paused and HEAD
    /// no longer matches the stacks, both are cleared. Returns whether they
    /// were.
    pub fn prune_stale(&mut self, head: &Oid) -> (cleared: bool)
        ensures
            cleared == (old(self).in_progress is None && ({
                let d = old(self);
                if d.undo@.len() > 0 {
                    d.undo@.last().applied_head_view() != head@
                } else if d.redo@.len() > 0 {
                    d.redo@.last().unapplied_head_view() != head@
                } else {
                    false
                }
            })),
            cleared ==> final(self).undo@.len() == 0 && final(self).redo@.len() == 0,
            !cleared ==> final(self).undo@ == old(self).undo@ && final(self).redo@ == old(self).redo@,
            final(self).in_progress == old(self).in_progress,
            final(self).autostash == old(self).autostash,
    {
        if self.in_progress.is_none() && self.stacks_stale(head) {
            self.undo.clear();
            self.redo.clear();
            true
        } else {
            false
        }
    }
}

/// Undoing an operation and then redoing it (both checks passing) leaves
/// the undo and redo stacks exactly as they were; so does redoing and then
/// undoing.
pub proof fn lemma_undo_redo_round_trip(undo: Seq<UndoRecord>, redo: Seq<UndoRecord>)
    ensures
        undo.len() > 0 ==> ({
            let (u1, r1) = after_undo(undo, redo);
            r1.len() > 0 && after_redo(u1, r1) == (undo, redo)
        }),
        redo.len() > 0 ==> ({
            let (u1, r1) = after_redo(undo, redo);
            u1.len() > 0 && after_undo(u1, r1) == (undo, redo)
        }),
{
    if undo.len() > 0 {
        assert(undo.drop_last().push(undo.last()) =~= undo);
        assert(redo.push(undo.last()).drop_last() =~= redo);
    }
    if redo.len() > 0 {
        assert(redo.drop_last().push(redo.last()) =~= redo);
        assert(undo.push(redo.last()).drop_last() =~= undo);
    }
}

/// Where a step leaves HEAD (for an index step, HEAD stays) and, for an
/// index step, the index tree it reads.
pub open spec fn step_lands(s: RevertStep) -> (Seq<char>, Option<Seq<char>>) {
    match s {
        RevertStep::Nothing => (Seq::empty(), None),
        RevertStep::Ref { target, .. } => (target@, None),
        RevertStep::Soft { target, .. } => (target@, None),
        RevertStep::Index { head, target, .. } => (head@, Some(target@)),
    }
}

/// What a step checks before it runs: HEAD (and, for an index step, the
/// index tree).
pub open spec fn step_expects(s: RevertStep) -> (Seq<char>, Option<Seq<char>>) {
    match s {
        RevertStep::Nothing => (Seq::empty(), None),
        RevertStep::Ref { expected, .. } => (expected@, None),
        RevertStep::Soft { expected, .. } => (expected@, None),
        RevertStep::Index { head, expected, .. } => (head@, Some(expected@)),
    }
}

/// Undoing the top record and then redoing it: the redo step expects
/// exactly what the undo step left (so its check passes when nothing
/// changed in between), and puts HEAD back at the record's applied head,
/// with an index change's index tree back to its tree after.
pub proof fn lemma_redo_restores_undo(undo: Seq<UndoRecord>, redo: Seq<UndoRecord>, s1: RevertStep, s2: RevertStep)
    requires
        undo.len() > 0,
        undo_step_of(undo.last(), s1),
        redo_step_of(after_undo(undo, redo).1.last(), s2),
    ensures
        step_expects(s2) == step_lands(s1),
        step_lands(s2) == step_expects(s1),
        step_lands(s2).0 == undo.last().applied_head_view(),
        undo.last() matches UndoRecord::IndexChange { index_tree_after, .. } ==> step_lands(s2).1
            == Some(index_tree_after@),
{
    assert(after_undo(undo, redo).1.last() == undo.last());
}

/// Pushing a record never lets the undo stack grow past its cap, puts the
/// record on top, and keeps the most recent earlier records below it.
pub proof fn lemma_push_undo_bounded(undo: Seq<UndoRecord>, r: UndoRecord)
    ensures
        pushed_undo(undo, r).len() <= MAX_UNDO_DEPTH,
        pushed_undo(undo, r).last() == r,
        undo.len() < MAX_UNDO_DEPTH ==> pushed_undo(undo, r) == undo.push(r),
{
}

} // verus!
