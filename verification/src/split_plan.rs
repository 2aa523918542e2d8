//! Splitting a commit per hunk group: which groups the commit touches, and
//! which of its hunks each intermediate commit carries.

use vstd::prelude::*;
use crate::views::two_pane_picker::strictly_ascending;

verus! {

/// Some hunk of some file is in group `g` (`groups[d][h]` is the group of
/// hunk `h` of file `d`).
pub open spec fn touches_group(groups: Seq<Vec<usize>>, g: usize) -> bool {
    exists|d: int, h: int| 0 <= d < groups.len() && 0 <= h < groups[d]@.len() && #[trigger] groups[d]@[h] == g
}

/// The positions `h < n` whose group is at most `gk`, ascending.
pub open spec fn hunks_upto(gs: Seq<usize>, gk: usize, n: nat) -> Seq<usize>
    decreases n,
{
    if n == 0 {
        Seq::empty()
    } else {
        let rest = hunks_upto(gs, gk, (n - 1) as nat);
        if gs[n - 1] <= gk { rest.push((n - 1) as usize) } else { rest }
    }
}

/// For each file, its hunks in groups up to `gk`.
pub open spec fn selection_upto(groups: Seq<Vec<usize>>, gk: usize) -> Seq<Seq<usize>> {
    Seq::new(groups.len(), |d: int| hunks_upto(groups[d]@, gk, groups[d]@.len()))
}

/// Why a commit cannot be split per hunk group.
#[derive(Debug, PartialEq, Eq)]
pub enum SplitPlanError {
    /// The commit's hunks fall in fewer than two groups.
    TooFewGroups,
}

impl SplitPlanError {
    /// The message shown for the error.
    pub fn message(&self) -> (s: String)
        ensures
            s@ == "Commit has fewer than 2 hunk groups \u{2014} nothing to split per hunk group"@,
    {
        String::from_str("Commit has fewer than 2 hunk groups \u{2014} nothing to split per hunk group")
    }
}

fn insert_ascending(v: &mut Vec<usize>, x: usize)
    requires
        strictly_ascending(old(v)@),
    ensures
        strictly_ascending(final(v)@),
        forall|y: usize| final(v)@.contains(y) <==> (old(v)@.contains(y) || y == x),
{
    let n = v.len();
    let mut p: usize = 0;
    while p < n && v[p] < x
        invariant
            n == v@.len(),
            p <= n,
            v@ == old(v)@,
            strictly_ascending(v@),
            forall|j: int| 0 <= j < p ==> v@[j] < x,
        decreases n - p,
    {
        p = p + 1;
    }
    if p < n && v[p] == x {
        assert(v@[p as int] == x);
        return;
    }
    let ghost before = v@;
    v.insert(p, x);
    assert(v@ == before.insert(p as int, x));
    assert(before == old(v)@);
    proof {
        assert forall|i: int, j: int| 0 <= i < j < v@.len() implies v@[i] < v@[j] by {
            if j < p {
                assert(v@[i] == before[i] && v@[j] == before[j]);
            } else if j == p {
                assert(v@[i] == before[i]);
            } else if i == p {
                assert(v@[j] == before[j - 1]);
                assert(before[p as int] > x);
                if j - 1 > p {
                    assert(before[p as int] < before[j - 1]);
                }
            } else if i < p {
                assert(v@[i] == before[i] && v@[j] == before[j - 1]);
            } else {
                assert(v@[i] == before[i - 1] && v@[j] == before[j - 1]);
            }
        }
        assert forall|y: usize| v@.contains(y) <==> (before.contains(y) || y == x) by {
            if v@.contains(y) {
                let i = choose|i: int| 0 <= i < v@.len() && v@[i] == y;
                if i < p {
                    assert(before[i] == y);
                } else if i > p {
                    assert(before[i - 1] == y);
                }
            }
            if before.contains(y) {
                let i = choose|i: int| 0 <= i < before.len() && before[i] == y;
                if i < p {
                    assert(v@[i] == y);
                } else {
                    assert(v@[i + 1] == y);
                }
            }
            if y == x {
                assert(v@[p as int] == x);
            }
        }
        assert(forall|y: usize| v@.contains(y) <==> (old(v)@.contains(y) || y == x));
    }
}

/// The groups the commit's hunks fall in, ascending, each once.
pub fn touched_groups(groups: &Vec<Vec<usize>>) -> (k: Vec<usize>)
    ensures
        strictly_ascending(k@),
        forall|g: usize| k@.contains(g) <==> touches_group(groups@, g),
{
    let mut k: Vec<usize> = Vec::new();
    let mut d: usize = 0;
    while d < groups.len()
        invariant
            d <= groups@.len(),
            strictly_ascending(k@),
            forall|g: usize| k@.contains(g) <==> exists|dd: int, h: int| 0 <= dd < d && 0 <= h < groups@[dd]@.len()
                && #[trigger] groups@[dd]@[h] == g,
        decreases groups@.len() - d,
    {
        let gs = &groups[d];
        let mut h: usize = 0;
        while h < gs.len()
            invariant
                d < groups@.len(),
                gs@ == groups@[d as int]@,
                h <= gs@.len(),
                strictly_ascending(k@),
                forall|g: usize| k@.contains(g) <==> (exists|dd: int, hh: int| 0 <= dd < d && 0 <= hh < groups@[dd]@.len()
                    && #[trigger] groups@[dd]@[hh] == g) || (exists|hh: int| 0 <= hh < h && #[trigger] gs@[hh] == g),
            decreases gs@.len() - h,
        {
            let ghost before = k@;
            insert_ascending(&mut k, gs[h]);
            assert forall|g: usize| k@.contains(g) <==> (exists|dd: int, hh: int| 0 <= dd < d && 0 <= hh < groups@[dd]@.len()
                && #[trigger] groups@[dd]@[hh] == g) || (exists|hh: int| 0 <= hh < h + 1 && #[trigger] gs@[hh] == g) by {
                if exists|hh: int| 0 <= hh < h + 1 && #[trigger] gs@[hh] == g {
                    let hh = choose|hh: int| 0 <= hh < h + 1 && #[trigger] gs@[hh] == g;
                    if hh < h {
                        assert(before.contains(g));
                    }
                }
                if before.contains(g) && !(exists|dd: int, hh: int| 0 <= dd < d && 0 <= hh < groups@[dd]@.len()
                    && #[trigger] groups@[dd]@[hh] == g) {
                    let hh = choose|hh: int| 0 <= hh < h && #[trigger] gs@[hh] == g;
                    assert(0 <= hh < h + 1 && gs@[hh] == g);
                }
            }
            h = h + 1;
        }
        assert forall|g: usize| k@.contains(g) <==> exists|dd: int, hh: int| 0 <= dd < d + 1
            && 0 <= hh < groups@[dd]@.len() && #[trigger] groups@[dd]@[hh] == g by {
            if exists|hh: int| 0 <= hh < gs@.len() && #[trigger] gs@[hh] == g {
                let hh = choose|hh: int| 0 <= hh < gs@.len() && #[trigger] gs@[hh] == g;
                assert(groups@[d as int]@[hh] == g);
            }
            if exists|dd: int, hh: int| 0 <= dd < d + 1 && 0 <= hh < groups@[dd]@.len()
                && #[trigger] groups@[dd]@[hh] == g {
                let (dd, hh) = choose|dd: int, hh: int| 0 <= dd < d + 1 && 0 <= hh < groups@[dd]@.len()
                    && #[trigger] groups@[dd]@[hh] == g;
                if dd == d {
                    assert(gs@[hh] == g);
                }
            }
        }
        d = d + 1;
    }
    k
}

/// The hunks of one file whose group is at most `gk`, ascending.
pub fn hunks_up_to(gs: &Vec<usize>, gk: usize) -> (r: Vec<usize>)
    ensures
        r@ == hunks_upto(gs@, gk, gs@.len()),
{
    let mut r: Vec<usize> = Vec::new();
    let mut h: usize = 0;
    while h < gs.len()
        invariant
            h <= gs@.len(),
            r@ == hunks_upto(gs@, gk, h as nat),
        decreases gs@.len() - h,
    {
        if gs[h] <= gk {
            r.push(h);
        }
        h = h + 1;
    }
    r
}

/// The plan of a split per hunk group: for each group the commit touches
/// but the last (whose commit takes the split commit's own tree), the hunks of each
/// file in that group or an earlier one. Fewer than two groups cannot be
/// split.
pub fn hunk_group_split_plan(groups: &Vec<Vec<usize>>) -> (r: Result<Vec<Vec<Vec<usize>>>, SplitPlanError>)
    ensures
        ({
            let k = choose|k: Seq<usize>| strictly_ascending(k)
                && forall|g: usize| k.contains(g) <==> touches_group(groups@, g);
            &&& r is Err <==> k.len() < 2
            &&& r matches Ok(steps) ==> steps@.len() == k.len() - 1 && forall|s: int| 0 <= s < steps@.len()
                ==> Seq::new(#[trigger] steps@[s]@.len(), |d: int| steps@[s]@[d]@) == selection_upto(groups@, k[s])
        }),
{
    let k = touched_groups(groups);
    proof {
        let kk = choose|kk: Seq<usize>| strictly_ascending(kk)
            && forall|g: usize| kk.contains(g) <==> touches_group(groups@, g);
        crate::views::split_files_select::lemma_ascending_by_members(kk, k@);
    }
    if k.len() < 2 {
        return Err(SplitPlanError::TooFewGroups);
    }
    let mut steps: Vec<Vec<Vec<usize>>> = Vec::new();
    let last = k.len() - 1;
    let mut s: usize = 0;
    while s < last
        invariant
            k@.len() >= 2,
            last == k@.len() - 1,
            s <= last,
            steps@.len() == s,
            forall|t: int| 0 <= t < s ==> Seq::new(#[trigger] steps@[t]@.len(), |d: int| steps@[t]@[d]@)
                == selection_upto(groups@, k@[t]),
        decreases k@.len() - s,
    {
        let gk = k[s];
        let mut step: Vec<Vec<usize>> = Vec::new();
        let mut d: usize = 0;
        while d < groups.len()
            invariant
                d <= groups@.len(),
                step@.len() == d,
                forall|e: int| 0 <= e < d ==> #[trigger] step@[e]@ == hunks_upto(groups@[e]@, gk, groups@[e]@.len()),
            decreases groups@.len() - d,
        {
            step.push(hunks_up_to(&groups[d], gk));
            d = d + 1;
        }
        assert(Seq::new(step@.len(), |e: int| step@[e]@) =~= selection_upto(groups@, gk));
        steps.push(step);
        s = s + 1;
    }
    Ok(steps)
}

} // verus!
