//! Plans for history rewrites: the order commits are replayed in when one
//! is moved, and what a replay that stops on a conflict leaves to do.

use vstd::prelude::*;
use crate::oid::Oid;

verus! {

/// Why a move could not be planned.
#[derive(Clone, Copy, Debug, PartialEq, Eq, Structural)]
pub enum MoveError {
    /// The commit to insert after is not among the commits being replayed.
    InsertPointNotFound,
}

/// `s` without the ids whose text is `x`, in order.
pub open spec fn without(s: Seq<Oid>, x: Seq<char>) -> Seq<Oid>
    decreases s.len(),
{
    if s.len() == 0 {
        Seq::empty()
    } else if s.last()@ == x {
        without(s.drop_last(), x)
    } else {
        without(s.drop_last(), x).push(s.last())
    }
}

/// Position of the first id in `s` whose text is `x`.
pub open spec fn first_position(s: Seq<Oid>, x: Seq<char>, p: int) -> bool {
    0 <= p < s.len() && s[p]@ == x && forall|q: int| 0 <= q < p ==> #[trigger] s[q]@ != x
}

/// The replay order after moving `commit` to just after `insert_after`:
/// the commits between the base and the tip, oldest first, without
/// `commit`, with `commit` put back right after `insert_after` — or first,
/// when `insert_after` is the base itself.
pub open spec fn reordered(chain: Seq<Oid>, commit: Oid, insert_after: Seq<char>, base: Seq<char>, p: int) -> Seq<Oid> {
    let rest = without(chain, commit@);
    if insert_after == base {
        seq![commit] + rest
    } else {
        rest.take(p + 1) + seq![commit] + rest.skip(p + 1)
    }
}

fn duplicate_without(chain: &Vec<Oid>, x: &Oid) -> (r: Vec<Oid>)
    ensures
        r@ == without(chain@, x@),
{
    let mut r: Vec<Oid> = Vec::new();
    let mut i: usize = 0;
    assert(chain@.take(0) =~= Seq::<Oid>::empty());
    while i < chain.len()
        invariant
            i <= chain@.len(),
            r@ == without(chain@.take(i as int), x@),
        decreases chain@.len() - i,
    {
        assert(chain@.take(i + 1).drop_last() =~= chain@.take(i as int));
        if !chain[i].same(x) {
            r.push(chain[i].duplicate());
        }
        i = i + 1;
    }
    assert(chain@.take(chain@.len() as int) =~= chain@);
    r
}

fn find_first(s: &Vec<Oid>, x: &Oid) -> (r: Option<usize>)
    ensures
        r matches Some(p) ==> first_position(s@, x@, p as int),
        r is None ==> forall|q: int| 0 <= q < s@.len() ==> #[trigger] s@[q]@ != x@,
{
    let mut i: usize = 0;
    while i < s.len()
        invariant
            i <= s@.len(),
            forall|q: int| 0 <= q < i ==> #[trigger] s@[q]@ != x@,
        decreases s@.len() - i,
    {
        if s[i].same(x) {
            return Some(i);
        }
        i = i + 1;
    }
    None
}

/// Plan moving `commit` to just after `insert_after` in `chain` (the
/// commits from `base` to the tip, oldest first): the order in which they
/// are replayed onto `base`. Fails when `insert_after` is neither the base
/// nor among the other commits of the chain.
pub fn plan_reorder(chain: &Vec<Oid>, commit: &Oid, insert_after: &Oid, base: &Oid) -> (r: Result<Vec<Oid>, MoveError>)
    ensures
        insert_after@ == base@ ==> (r matches Ok(v) && v@ == reordered(chain@, *commit, insert_after@, base@, 0)),
        insert_after@ != base@ ==> match r {
            Ok(v) => exists|p: int| first_position(without(chain@, commit@), insert_after@, p)
                && v@ == reordered(chain@, *commit, insert_after@, base@, p),
            Err(e) => e == MoveError::InsertPointNotFound
                && forall|q: int| 0 <= q < without(chain@, commit@).len()
                    ==> #[trigger] without(chain@, commit@)[q]@ != insert_after@,
        },
{
    let mut rest = duplicate_without(chain, commit);
    if insert_after.same(base) {
        rest.insert(0, commit.duplicate());
        assert(rest@ =~= seq![*commit] + without(chain@, commit@));
        return Ok(rest);
    }
    match find_first(&rest, insert_after) {
        Some(p) => {
            let n = rest.len();
            assert(p < n);
            let ghost before = rest@;
            rest.insert(p + 1, commit.duplicate());
            assert(rest@ =~= before.take(p + 1) + seq![*commit] + before.skip(p + 1));
            Ok(rest)
        },
        None => Err(MoveError::InsertPointNotFound),
    }
}

/// `s` in reverse order.
pub open spec fn reversed(s: Seq<Oid>) -> Seq<Oid> {
    Seq::new(s.len(), |i: int| s[s.len() - 1 - i])
}

/// The commits strictly after `stop` up to the tip, oldest first, from a
/// walk of the history that starts at the tip and goes to older commits:
/// the walk up to (not including) `stop`, reversed. Without `stop` in the
/// walk, the whole walk.
pub fn descendants_until(walk: &Vec<Oid>, stop: &Oid) -> (r: Vec<Oid>)
    ensures
        exists|k: int| #![trigger walk@.take(k)] 0 <= k <= walk@.len() && (k == walk@.len() || walk@[k]@ == stop@)
            && (forall|j: int| 0 <= j < k ==> #[trigger] walk@[j]@ != stop@)
            && r@ == reversed(walk@.take(k)),
{
    let mut k: usize = 0;
    while k < walk.len() && !walk[k].same(stop)
        invariant
            k <= walk@.len(),
            forall|j: int| 0 <= j < k ==> #[trigger] walk@[j]@ != stop@,
        decreases walk@.len() - k,
    {
        k = k + 1;
    }
    assert(k as int == walk@.len() || walk@[k as int]@ == stop@);
    let ghost witness = k as int;
    let mut r: Vec<Oid> = Vec::new();
    let mut i = k;
    while i > 0
        invariant
            i <= k <= walk@.len(),
            r@ == reversed(walk@.take(k as int)).take(k - i),
        decreases i,
    {
        r.push(walk[i - 1].duplicate());
        assert(r@ =~= reversed(walk@.take(k as int)).take(k - i + 1));
        i = i - 1;
    }
    assert(r@ =~= reversed(walk@.take(k as int)));
    assert(0 <= witness <= walk@.len() && (witness == walk@.len() || walk@[witness]@ == stop@)
        && (forall|j: int| 0 <= j < witness ==> #[trigger] walk@[j]@ != stop@)
        && r@ == reversed(walk@.take(witness)));
    r
}

/// The commits still to replay after the one at `conflicting_idx` stopped
/// a replay of `chain` on a conflict.
pub fn remaining_after(chain: &Vec<Oid>, conflicting_idx: usize) -> (r: Vec<Oid>)
    requires
        conflicting_idx < chain@.len(),
    ensures
        r@ == chain@.skip(conflicting_idx + 1),
{
    let mut r: Vec<Oid> = Vec::new();
    let n = chain.len();
    assert(conflicting_idx < n);
    let mut i = conflicting_idx + 1;
    while i < chain.len()
        invariant
            conflicting_idx + 1 <= i <= chain@.len(),
            r@ == chain@.subrange(conflicting_idx + 1, i as int),
        decreases chain@.len() - i,
    {
        r.push(chain[i].duplicate());
        assert(r@ =~= chain@.subrange(conflicting_idx + 1, i + 1));
        i = i + 1;
    }
    assert(r@ =~= chain@.skip(conflicting_idx + 1));
    r
}

/// A move keeps every commit of the chain: the plan holds the moved commit
/// once, right after the insertion point (first when that is the base),
/// and the other commits in their old order.
pub proof fn lemma_reorder_keeps_commits(chain: Seq<Oid>, commit: Oid, insert_after: Seq<char>, base: Seq<char>, p: int)
    requires
        insert_after == base || first_position(without(chain, commit@), insert_after, p),
    ensures
        reordered(chain, commit, insert_after, base, p).len() == without(chain, commit@).len() + 1,
        without(reordered(chain, commit, insert_after, base, p), commit@) == without(chain, commit@),
        insert_after == base ==> reordered(chain, commit, insert_after, base, p)[0] == commit,
        insert_after != base ==> reordered(chain, commit, insert_after, base, p)[p + 1] == commit
            && reordered(chain, commit, insert_after, base, p)[p]@ == insert_after,
{
    let rest = without(chain, commit@);
    lemma_without_drops_all(chain, commit@);
    if insert_after == base {
        lemma_without_concat(seq![commit], rest, commit@);
        lemma_without_identity(rest, commit@);
        lemma_without_single(commit);
        assert(Seq::<Oid>::empty() + rest =~= rest);
    } else {
        let a = rest.take(p + 1);
        let b = rest.skip(p + 1);
        assert(rest =~= a + b);
        lemma_without_concat(a + seq![commit], b, commit@);
        lemma_without_concat(a, seq![commit], commit@);
        lemma_without_single(commit);
        assert forall|q: int| 0 <= q < a.len() implies #[trigger] a[q]@ != commit@ by {
            assert(a[q] == rest[q]);
        }
        assert forall|q: int| 0 <= q < b.len() implies #[trigger] b[q]@ != commit@ by {
            assert(b[q] == rest[q + p + 1]);
        }
        lemma_without_identity(a, commit@);
        lemma_without_identity(b, commit@);
        assert(a + Seq::<Oid>::empty() =~= a);
        assert(a + seq![commit] + b =~= reordered(chain, commit, insert_after, base, p));
    }
}

proof fn lemma_without_single(commit: Oid)
    ensures
        without(seq![commit], commit@) == Seq::<Oid>::empty(),
{
    let s = seq![commit];
    assert(s.drop_last() =~= Seq::<Oid>::empty());
    assert(s.last() == commit);
    assert(without(s.drop_last(), commit@) == Seq::<Oid>::empty());
}

proof fn lemma_without_drops_all(s: Seq<Oid>, x: Seq<char>)
    ensures
        forall|q: int| 0 <= q < without(s, x).len() ==> #[trigger] without(s, x)[q]@ != x,
        without(s, x).len() <= s.len(),
    decreases s.len(),
{
    if s.len() > 0 {
        lemma_without_drops_all(s.drop_last(), x);
    }
}

proof fn lemma_without_identity(s: Seq<Oid>, x: Seq<char>)
    requires
        forall|q: int| 0 <= q < s.len() ==> #[trigger] s[q]@ != x,
    ensures
        without(s, x) == s,
    decreases s.len(),
{
    if s.len() > 0 {
        assert forall|q: int| 0 <= q < s.drop_last().len() implies #[trigger] s.drop_last()[q]@ != x by {
            assert(s.drop_last()[q] == s[q]);
        }
        lemma_without_identity(s.drop_last(), x);
        assert(s.drop_last().push(s.last()) =~= s);
    } else {
        assert(s =~= Seq::<Oid>::empty());
    }
}

proof fn lemma_without_concat(a: Seq<Oid>, b: Seq<Oid>, x: Seq<char>)
    ensures
        without(a + b, x) == without(a, x) + without(b, x),
    decreases b.len(),
{
    if b.len() == 0 {
        assert(a + b =~= a);
        assert(without(a, x) + without(b, x) =~= without(a, x));
    } else {
        lemma_without_concat(a, b.drop_last(), x);
        assert((a + b).drop_last() =~= a + b.drop_last());
        assert((a + b).last() == b.last());
        if b.last()@ == x {
        } else {
            assert(without(a, x) + without(b.drop_last(), x).push(b.last())
                =~= (without(a, x) + without(b.drop_last(), x)).push(b.last()));
        }
    }
}

} // verus!
