//! Bulk autofixup: grouping `fixup!`/`squash!` commits by the commit they
//! name, the messages they produce, and where the selection lands after a
//! batch.

use vstd::prelude::*;
use crate::app::{AutofixupPair, SquashMode};
use crate::oid::{CommitInfo, Oid};
use crate::text::push_char;

verus! {

/// The pairs of one batch that share a target (matched by summary text).
#[derive(Debug)]
pub struct AutofixupGroup {
    pub target_summary: String,
    pub target_message: String,
    /// Positions, in the batch, of the pairs folded into this target.
    pub sources: Vec<usize>,
}

/// Position of the first group with summary `t`.
pub open spec fn group_of(groups: Seq<(Seq<char>, Seq<usize>)>, t: Seq<char>) -> Option<int>
    decreases groups.len(),
{
    if groups.len() == 0 {
        None
    } else {
        match group_of(groups.drop_last(), t) {
            Some(i) => Some(i),
            None => if groups.last().0 == t { Some(groups.len() - 1) } else { None },
        }
    }
}

/// The groups of the first `n` pairs: each target summary once, in order of
/// first appearance, with the positions of its pairs in batch order.
pub open spec fn grouping(pairs: Seq<AutofixupPair>, n: nat) -> Seq<(Seq<char>, Seq<usize>)>
    decreases n,
{
    if n == 0 {
        Seq::empty()
    } else {
        let g = grouping(pairs, (n - 1) as nat);
        let t = pairs[n - 1].target_summary@;
        match group_of(g, t) {
            Some(i) => g.update(i, (g[i].0, g[i].1.push((n - 1) as usize))),
            None => g.push((t, seq![(n - 1) as usize])),
        }
    }
}

/// What a list of groups holds, as plain values.
pub open spec fn groups_view(groups: Seq<AutofixupGroup>) -> Seq<(Seq<char>, Seq<usize>)> {
    Seq::new(groups.len(), |i: int| (groups[i].target_summary@, groups[i].sources@))
}

proof fn lemma_group_of_bounds(groups: Seq<(Seq<char>, Seq<usize>)>, t: Seq<char>)
    ensures
        group_of(groups, t) matches Some(i) ==> 0 <= i < groups.len() && groups[i].0 == t,
        group_of(groups, t) is None ==> forall|i: int| 0 <= i < groups.len() ==> groups[i].0 != t,
    decreases groups.len(),
{
    if groups.len() > 0 {
        lemma_group_of_bounds(groups.drop_last(), t);
        assert forall|i: int| 0 <= i < groups.len() - 1 implies groups[i] == groups.drop_last()[i] by {}
    }
}

fn find_group(groups: &Vec<AutofixupGroup>, t: &String) -> (r: Option<usize>)
    ensures
        r matches Some(i) ==> group_of(groups_view(groups@), t@) == Some(i as int),
        r is None ==> group_of(groups_view(groups@), t@) is None,
{
    let ghost gv = groups_view(groups@);
    let mut i: usize = 0;
    while i < groups.len()
        invariant
            i <= groups@.len(),
            gv == groups_view(groups@),
            forall|j: int| 0 <= j < i ==> gv[j].0 != t@,
        decreases groups@.len() - i,
    {
        if groups[i].target_summary == *t {
            proof { lemma_group_of_first(gv, t@, i as int); }
            return Some(i);
        }
        i = i + 1;
    }
    proof { lemma_group_of_first(gv, t@, gv.len() as int); }
    None
}

proof fn lemma_group_of_first(groups: Seq<(Seq<char>, Seq<usize>)>, t: Seq<char>, i: int)
    requires
        0 <= i <= groups.len(),
        forall|j: int| 0 <= j < i ==> groups[j].0 != t,
        i == groups.len() || groups[i].0 == t,
    ensures
        i < groups.len() ==> group_of(groups, t) == Some(i),
        i == groups.len() ==> group_of(groups, t) is None,
    decreases groups.len(),
{
    if groups.len() > 0 {
        if i < groups.len() - 1 {
            lemma_group_of_first(groups.drop_last(), t, i);
        } else if i == groups.len() - 1 {
            lemma_group_of_first(groups.drop_last(), t, groups.len() - 1);
        } else {
            lemma_group_of_first(groups.drop_last(), t, groups.len() - 1);
        }
    }
}

/// Group a batch by target: one group per target summary, in order of first
/// appearance, each listing its pairs in batch order.
pub fn group_by_target(pairs: &Vec<AutofixupPair>) -> (groups: Vec<AutofixupGroup>)
    ensures
        groups_view(groups@) == grouping(pairs@, pairs@.len()),
        forall|i: int| 0 <= i < groups@.len() ==> #[trigger] groups@[i].sources@.len() > 0
            && groups@[i].target_message@ == pairs@[groups@[i].sources@[0] as int].target_message@,
{
    let mut groups: Vec<AutofixupGroup> = Vec::new();
    let mut n: usize = 0;
    while n < pairs.len()
        invariant
            n <= pairs@.len(),
            groups_view(groups@) == grouping(pairs@, n as nat),
            forall|i: int| 0 <= i < groups@.len() ==> #[trigger] groups@[i].sources@.len() > 0
                && groups@[i].target_message@ == pairs@[groups@[i].sources@[0] as int].target_message@,
        decreases pairs@.len() - n,
    {
        let ghost g = groups_view(groups@);
        let p = &pairs[n];
        match find_group(&groups, &p.target_summary) {
            Some(i) => {
                proof { lemma_group_of_bounds(g, p.target_summary@); }
                let mut group = groups.remove(i);
                group.sources.push(n);
                groups.insert(i, group);
                assert(groups_view(groups@) =~= g.update(i as int, (g[i as int].0, g[i as int].1.push(n))));
                assert forall|k: int| 0 <= k < groups@.len() implies #[trigger] groups@[k].sources@.len() > 0
                    && groups@[k].target_message@ == pairs@[groups@[k].sources@[0] as int].target_message@ by {
                    if k == i as int {
                        assert(groups@[k].sources@[0] == old_first(g, i as int));
                    }
                }
            },
            None => {
                let mut sources: Vec<usize> = Vec::new();
                sources.push(n);
                groups.push(AutofixupGroup {
                    target_summary: p.target_summary.clone(),
                    target_message: p.target_message.clone(),
                    sources,
                });
                assert(groups_view(groups@) =~= g.push((p.target_summary@, seq![n])));
            },
        }
        n = n + 1;
    }
    groups
}

pub open spec fn old_first(g: Seq<(Seq<char>, Seq<usize>)>, i: int) -> usize {
    g[i].1[0]
}


/// The message pinned for target summary `k`: the first entry with that key.
pub open spec fn override_for(o: Seq<(String, String)>, k: Seq<char>) -> Option<Seq<char>>
    decreases o.len(),
{
    if o.len() == 0 {
        None
    } else if o[0].0@ == k {
        Some(o[0].1@)
    } else {
        override_for(o.drop_first(), k)
    }
}

/// No target summary is pinned twice: the pinned messages form a map.
pub open spec fn keys_distinct(o: Seq<(String, String)>) -> bool {
    forall|i: int, j: int| 0 <= i < j < o.len() ==> #[trigger] o[i].0@ != #[trigger] o[j].0@
}

/// The pinned messages as a map from target summary to message.
pub open spec fn overrides_map(o: Seq<(String, String)>) -> Map<Seq<char>, Seq<char>>
    decreases o.len(),
{
    if o.len() == 0 {
        Map::empty()
    } else {
        overrides_map(o.drop_last()).insert(o.last().0@, o.last().1@)
    }
}

proof fn lemma_overrides_map_keys(o: Seq<(String, String)>, k: Seq<char>)
    ensures
        overrides_map(o).contains_key(k) <==> exists|i: int| 0 <= i < o.len() && #[trigger] o[i].0@ == k,
    decreases o.len(),
{
    if o.len() > 0 {
        lemma_overrides_map_keys(o.drop_last(), k);
        if overrides_map(o.drop_last()).contains_key(k) {
            let i = choose|i: int| 0 <= i < o.drop_last().len() && #[trigger] o.drop_last()[i].0@ == k;
            assert(o[i].0@ == k);
        }
        if exists|i: int| 0 <= i < o.len() && #[trigger] o[i].0@ == k {
            let i = choose|i: int| 0 <= i < o.len() && #[trigger] o[i].0@ == k;
            if i < o.len() - 1 {
                assert(o.drop_last()[i].0@ == k);
            }
        }
    }
}

/// With no summary pinned twice, the message pinned for a summary is the
/// map's entry for it: which entry comes first does not matter.
pub proof fn lemma_override_is_map_lookup(o: Seq<(String, String)>, k: Seq<char>)
    requires
        keys_distinct(o),
    ensures
        override_for(o, k) == (if overrides_map(o).contains_key(k) { Some(overrides_map(o)[k]) } else {
            None::<Seq<char>>
        }),
    decreases o.len(),
{
    if o.len() > 0 {
        let rest = o.drop_first();
        assert(keys_distinct(rest)) by {
            assert forall|i: int, j: int| 0 <= i < j < rest.len() implies #[trigger] rest[i].0@ != #[trigger] rest[j].0@ by {
                assert(rest[i] == o[i + 1] && rest[j] == o[j + 1]);
            }
        }
        lemma_override_is_map_lookup(rest, k);
        lemma_overrides_map_first(o);
        let single = seq![o[0]];
        assert(single.drop_last().len() == 0);
        assert(overrides_map(single.drop_last()) == Map::<Seq<char>, Seq<char>>::empty());
        assert(single.last() == o[0]);
        assert(overrides_map(single) =~= Map::<Seq<char>, Seq<char>>::empty().insert(o[0].0@, o[0].1@));
        if o[0].0@ != k {
            lemma_overrides_map_keys(rest, k);
        } else {
            lemma_overrides_map_keys(rest, k);
            if overrides_map(rest).contains_key(k) {
                let i = choose|i: int| 0 <= i < rest.len() && #[trigger] rest[i].0@ == k;
                assert(o[i + 1].0@ == k);
                assert(o[0].0@ != o[i + 1].0@);
            }
        }
    }
}

/// Building the map from the front: the first entry, then the rest over it.
proof fn lemma_overrides_map_first(o: Seq<(String, String)>)
    requires
        o.len() > 0,
    ensures
        overrides_map(o) == overrides_map(seq![o[0]]).union_prefer_right(overrides_map(o.drop_first())),
    decreases o.len(),
{
    if o.len() > 1 {
        lemma_overrides_map_first(o.drop_last());
        assert(o.drop_last().drop_first() =~= o.drop_first().drop_last());
        assert(o.drop_last()[0] == o[0]);
        assert(o.drop_first().last() == o.last());
        assert(overrides_map(o) =~= overrides_map(seq![o[0]]).union_prefer_right(overrides_map(o.drop_first())));
    } else {
        assert(o.drop_first() =~= Seq::<(String, String)>::empty());
        assert(seq![o[0]] =~= o);
        assert(overrides_map(o) =~= overrides_map(seq![o[0]]).union_prefer_right(overrides_map(o.drop_first())));
    }
}

/// Pin `message` as the final message of the target summarised `summary`:
/// a summary already pinned gets the new message, another is added. No
/// summary ends up pinned twice.
pub fn pin_override(o: &mut Vec<(String, String)>, summary: String, message: String)
    requires
        keys_distinct(old(o)@),
    ensures
        keys_distinct(final(o)@),
        overrides_map(final(o)@) == overrides_map(old(o)@).insert(summary@, message@),
{
    let mut i: usize = 0;
    while i < o.len()
        invariant
            i <= o@.len(),
            o@ == old(o)@,
            keys_distinct(o@),
            forall|j: int| 0 <= j < i ==> #[trigger] o@[j].0@ != summary@,
        decreases o@.len() - i,
    {
        if o[i].0 == summary {
            let ghost before = o@;
            o.set(i, (summary, message));
            proof { lemma_overrides_map_set(before, i as int, o@[i as int]); }
            return;
        }
        i = i + 1;
    }
    let ghost before = o@;
    o.push((summary, message));
    proof {
        assert(o@.drop_last() =~= before);
        assert forall|a: int, b: int| 0 <= a < b < o@.len() implies #[trigger] o@[a].0@ != #[trigger] o@[b].0@ by {
            if b < before.len() {
                assert(o@[a] == before[a] && o@[b] == before[b]);
            } else {
                assert(o@[a] == before[a]);
            }
        }
    }
}

proof fn lemma_overrides_map_set(o: Seq<(String, String)>, i: int, e: (String, String))
    requires
        keys_distinct(o),
        0 <= i < o.len(),
        o[i].0@ == e.0@,
    ensures
        keys_distinct(o.update(i, e)),
        overrides_map(o.update(i, e)) == overrides_map(o).insert(e.0@, e.1@),
    decreases o.len(),
{
    let u = o.update(i, e);
    assert forall|a: int, b: int| 0 <= a < b < u.len() implies #[trigger] u[a].0@ != #[trigger] u[b].0@ by {
        assert(u[a].0@ == o[a].0@ && u[b].0@ == o[b].0@);
    }
    if i == o.len() - 1 {
        assert(u.drop_last() =~= o.drop_last());
        assert(overrides_map(u) =~= overrides_map(o).insert(e.0@, e.1@));
    } else {
        assert(u.drop_last() =~= o.drop_last().update(i, e));
        assert(keys_distinct(o.drop_last())) by {
            assert forall|a: int, b: int| 0 <= a < b < o.drop_last().len() implies
                #[trigger] o.drop_last()[a].0@ != #[trigger] o.drop_last()[b].0@ by {
                assert(o.drop_last()[a] == o[a] && o.drop_last()[b] == o[b]);
            }
        }
        lemma_overrides_map_set(o.drop_last(), i, e);
        assert(o.last().0@ != e.0@) by {
            assert(o[i].0@ != o[o.len() - 1].0@);
        }
        assert(overrides_map(u) =~= overrides_map(o).insert(e.0@, e.1@));
    }
}

/// Text of `a`, a blank line, then `b` — the default message of a squash.
pub open spec fn joined_paragraphs(a: Seq<char>, b: Seq<char>) -> Seq<char> {
    a + seq!['\n', '\n'] + b
}

/// The commit message for one autofixup pair: a message pinned for its
/// target once no other pair for that target is still queued; otherwise the
/// target's message for a fixup, target and source messages for a squash.
pub open spec fn pair_message_spec(pair: AutofixupPair, more_pending: bool, o: Seq<(String, String)>) -> Seq<char> {
    if !more_pending && override_for(o, pair.target_summary@) is Some {
        override_for(o, pair.target_summary@)->Some_0
    } else {
        match pair.mode {
            SquashMode::Fixup => pair.target_message@,
            SquashMode::Squash => joined_paragraphs(pair.target_message@, pair.source_message@),
        }
    }
}

fn find_override(o: &Vec<(String, String)>, k: &String) -> (r: Option<usize>)
    ensures
        r matches Some(i) ==> i < o@.len() && override_for(o@, k@) == Some(o@[i as int].1@),
        r is None ==> override_for(o@, k@) is None,
{
    let mut i: usize = 0;
    assert(o@.skip(0) =~= o@);
    while i < o.len()
        invariant
            i <= o@.len(),
            override_for(o@, k@) == override_for(o@.skip(i as int), k@),
        decreases o@.len() - i,
    {
        assert(o@.skip(i as int).drop_first() =~= o@.skip(i + 1));
        if o[i].0 == *k {
            return Some(i);
        }
        i = i + 1;
    }
    None
}

/// The commit message for one autofixup pair.
///
/// If the user pinned a final message for this target in the confirmation
/// dialog, it's used — but only once `more_pending_for_target` is `false`,
/// i.e. this is the last fixup/squash still queued for that target. Applying
/// it earlier would rename the target before the remaining pairs in the same
/// group get a chance to match it (matching is by summary text).
///
/// Otherwise falls back to the default: `fixup!` keeps the target's message
/// unchanged; `squash!` combines target + source.
pub fn pair_message(pair: &AutofixupPair, more_pending_for_target: bool, message_overrides: &Vec<(String, String)>) -> (m: String)
    ensures
        m@ == pair_message_spec(*pair, more_pending_for_target, message_overrides@),
{
    if !more_pending_for_target {
        if let Some(i) = find_override(message_overrides, &pair.target_summary) {
            return message_overrides[i].1.clone();
        }
    }
    match pair.mode {
        SquashMode::Fixup => pair.target_message.clone(),
        SquashMode::Squash => {
            let mut m = pair.target_message.clone();
            push_char(&mut m, '\n');
            push_char(&mut m, '\n');
            m.append(pair.source_message.as_str());
            assert(m@ =~= joined_paragraphs(pair.target_message@, pair.source_message@));
            m
        },
    }
}

/// Whether another pair after the first in `plan` names the same target.
pub fn more_pending_for_target(plan: &Vec<AutofixupPair>) -> (b: bool)
    requires
        plan@.len() > 0,
    ensures
        b == exists|i: int| 1 <= i < plan@.len() && #[trigger] plan@[i].target_summary@ == plan@[0].target_summary@,
{
    let mut i: usize = 1;
    while i < plan.len()
        invariant
            1 <= i <= plan@.len(),
            forall|j: int| 1 <= j < i ==> #[trigger] plan@[j].target_summary@ != plan@[0].target_summary@,
        decreases plan@.len() - i,
    {
        if plan[i].target_summary == plan[0].target_summary {
            return true;
        }
        i = i + 1;
    }
    false
}

/// The next squash of an autofixup batch, given the pairs still planned
/// (in plan order): the first pair's source folded into its target with
/// its message; `None` once nothing is left, which completes the batch.
pub fn next_batch_step(plan: &Vec<AutofixupPair>, message_overrides: &Vec<(String, String)>)
    -> (r: Option<(Oid, Oid, String)>)
    ensures
        plan@.len() == 0 ==> r is None,
        plan@.len() > 0 ==> (r matches Some((source, target, message))
            && source == plan@[0].source_oid && target == plan@[0].target_oid
            && message@ == pair_message_spec(plan@[0],
                exists|i: int| 1 <= i < plan@.len() && #[trigger] plan@[i].target_summary@ == plan@[0].target_summary@,
                message_overrides@)),
{
    if plan.len() == 0 {
        return None;
    }
    let pair = &plan[0];
    let more = more_pending_for_target(plan);
    let message = pair_message(pair, more, message_overrides);
    Some((pair.source_oid.duplicate(), pair.target_oid.duplicate(), message))
}

/// The message a group starts from in the editor: the target's message,
/// then each squashed source's message after a blank line, in batch order.
pub open spec fn template_text(target_message: Seq<char>, pairs: Seq<AutofixupPair>, sources: Seq<usize>) -> Seq<char>
    decreases sources.len(),
{
    if sources.len() == 0 {
        target_message
    } else {
        let prev = template_text(target_message, pairs, sources.drop_last());
        let s = sources.last();
        if s < pairs.len() && pairs[s as int].mode == SquashMode::Squash {
            joined_paragraphs(prev, pairs[s as int].source_message@)
        } else {
            prev
        }
    }
}

/// The template lists the squashed sources' messages in the group's order:
/// with no source it is the target's message, and adding a source at the
/// end of the group adds that source's message (after a blank line) at the
/// end of the template when it is a squash, and leaves it when a fixup.
pub proof fn lemma_template_in_source_order(target_message: Seq<char>, pairs: Seq<AutofixupPair>, sources: Seq<usize>,
    x: usize)
    ensures
        template_text(target_message, pairs, Seq::empty()) == target_message,
        template_text(target_message, pairs, sources.push(x)) == (if x < pairs.len()
            && pairs[x as int].mode == SquashMode::Squash {
            template_text(target_message, pairs, sources) + seq!['\n', '\n'] + pairs[x as int].source_message@
        } else {
            template_text(target_message, pairs, sources)
        }),
{
    assert(sources.push(x).drop_last() =~= sources);
}

/// The message offered for editing a group's final message.
pub fn edit_template(group: &AutofixupGroup, pairs: &Vec<AutofixupPair>) -> (m: String)
    ensures
        m@ == template_text(group.target_message@, pairs@, group.sources@),
{
    let mut m = group.target_message.clone();
    let mut i: usize = 0;
    assert(group.sources@.take(0) =~= Seq::<usize>::empty());
    while i < group.sources.len()
        invariant
            i <= group.sources@.len(),
            m@ == template_text(group.target_message@, pairs@, group.sources@.take(i as int)),
        decreases group.sources@.len() - i,
    {
        assert(group.sources@.take(i + 1).drop_last() =~= group.sources@.take(i as int));
        let s = group.sources[i];
        if s < pairs.len() && matches!(pairs[s].mode, SquashMode::Squash) {
            let ghost prev = m@;
            push_char(&mut m, '\n');
            push_char(&mut m, '\n');
            m.append(pairs[s].source_message.as_str());
            assert(m@ =~= joined_paragraphs(prev, pairs@[s as int].source_message@));
        }
        i = i + 1;
    }
    assert(group.sources@.take(group.sources@.len() as int) =~= group.sources@);
    m
}

/// Row `k` is a commit that the batch folds away (a pair's source).
pub open spec fn folded_away(commits: Seq<CommitInfo>, pairs: Seq<AutofixupPair>, k: int) -> bool {
    commits[k].oid is Real && exists|p: int| 0 <= p < pairs.len()
        && #[trigger] pairs[p].source_oid@ == commits[k].oid->Real_0@
}

/// How many of the first `n` rows the batch folds away.
pub open spec fn folded_before(commits: Seq<CommitInfo>, pairs: Seq<AutofixupPair>, n: int) -> nat
    decreases n,
{
    if n <= 0 {
        0
    } else {
        folded_before(commits, pairs, n - 1) + if folded_away(commits, pairs, n - 1) { 1nat } else { 0nat }
    }
}

/// The first pair whose source is the commit with id `o`.
pub open spec fn first_pair_from(pairs: Seq<AutofixupPair>, o: Seq<char>, p: int) -> bool {
    0 <= p < pairs.len() && pairs[p].source_oid@ == o
        && forall|q: int| 0 <= q < p ==> #[trigger] pairs[q].source_oid@ != o
}

/// The first row holding real commit `o`.
pub open spec fn first_row_of(commits: Seq<CommitInfo>, o: Seq<char>, k: int) -> bool {
    0 <= k < commits.len() && commits[k].oid is Real && commits[k].oid->Real_0@ == o
        && forall|j: int| 0 <= j < k ==> !(#[trigger] commits[j].oid is Real && commits[j].oid->Real_0@ == o)
}

fn first_source_pair(pairs: &Vec<AutofixupPair>, o: &crate::oid::Oid) -> (r: Option<usize>)
    ensures
        r matches Some(p) ==> first_pair_from(pairs@, o@, p as int),
        r is None ==> forall|p: int| 0 <= p < pairs@.len() ==> #[trigger] pairs@[p].source_oid@ != o@,
{
    let mut i: usize = 0;
    while i < pairs.len()
        invariant
            i <= pairs@.len(),
            forall|q: int| 0 <= q < i ==> #[trigger] pairs@[q].source_oid@ != o@,
        decreases pairs@.len() - i,
    {
        if pairs[i].source_oid.same(o) {
            return Some(i);
        }
        i = i + 1;
    }
    None
}

fn first_row(commits: &Vec<CommitInfo>, o: &crate::oid::Oid) -> (r: Option<usize>)
    ensures
        r matches Some(k) ==> first_row_of(commits@, o@, k as int),
        r is None ==> forall|k: int| 0 <= k < commits@.len() ==> !(#[trigger] commits@[k].oid is Real
            && commits@[k].oid->Real_0@ == o@),
{
    let mut i: usize = 0;
    while i < commits.len()
        invariant
            i <= commits@.len(),
            forall|j: int| 0 <= j < i ==> !(#[trigger] commits@[j].oid is Real && commits@[j].oid->Real_0@ == o@),
        decreases commits@.len() - i,
    {
        match &commits[i].oid {
            crate::oid::VirtualOid::Real(c) => {
                if c.same(o) {
                    return Some(i);
                }
            },
            _ => {},
        }
        i = i + 1;
    }
    None
}

fn is_folded(commits: &Vec<CommitInfo>, pairs: &Vec<AutofixupPair>, k: usize) -> (b: bool)
    requires
        k < commits@.len(),
    ensures
        b == folded_away(commits@, pairs@, k as int),
{
    match &commits[k].oid {
        crate::oid::VirtualOid::Real(o) => first_source_pair(pairs, o).is_some(),
        _ => false,
    }
}

/// Where the selection belongs once an autofixup batch has run: a row the
/// batch folds away lands on the commit it was folded into; any row then
/// moves up by the folded-away rows above it. `None` for a working-tree row,
/// an out-of-range selection, or a target that is not in the list.
pub open spec fn selection_after_batch(commits: Seq<CommitInfo>, selection_index: usize, pairs: Seq<AutofixupPair>,
    r: Option<usize>) -> bool {
    &&& selection_index >= commits.len() ==> r is None
    &&& selection_index < commits.len() && !(commits[selection_index as int].oid is Real) ==> r is None
    &&& selection_index < commits.len() && commits[selection_index as int].oid is Real ==> {
        let o = commits[selection_index as int].oid->Real_0@;
        if !folded_away(commits, pairs, selection_index as int) {
            r == Some((selection_index - folded_before(commits, pairs, selection_index as int)) as usize)
        } else {
            forall|p: int| #![trigger first_pair_from(pairs, o, p)] first_pair_from(pairs, o, p) ==> (
                (forall|k: int| 0 <= k < commits.len() ==> !(#[trigger] commits[k].oid is Real
                    && commits[k].oid->Real_0@ == pairs[p].target_oid@)) ==> r is None)
                && forall|k: int| #![trigger first_row_of(commits, pairs[p].target_oid@, k)]
                    first_row_of(commits, pairs[p].target_oid@, k)
                    ==> r == Some((k - folded_before(commits, pairs, k)) as usize)
        }
    }
    &&& r matches Some(i) ==> i < commits.len()
}

/// Where the selection belongs once an autofixup batch has run (see
/// [`selection_after_batch`]).
pub fn autofixup_target_selection_index(commits: &Vec<CommitInfo>, selection_index: usize, pairs: &Vec<AutofixupPair>) -> (r: Option<usize>)
    ensures
        selection_after_batch(commits@, selection_index, pairs@, r),
{
    if selection_index >= commits.len() {
        return None;
    }
    let sel_oid = match &commits[selection_index].oid {
        crate::oid::VirtualOid::Real(o) => o,
        _ => return None,
    };
    let anchor = match first_source_pair(pairs, sel_oid) {
        None => selection_index,
        Some(p) => match first_row(commits, &pairs[p].target_oid) {
            Some(k) => k,
            None => return None,
        },
    };
    let mut removed: usize = 0;
    let mut k: usize = 0;
    while k < anchor
        invariant
            anchor < commits@.len(),
            k <= anchor,
            removed == folded_before(commits@, pairs@, k as int),
            removed <= k,
        decreases anchor - k,
    {
        if is_folded(commits, pairs, k) {
            removed = removed + 1;
        }
        k = k + 1;
    }
    Some(anchor - removed)
}


/// Rows taken by the first `n` groups: a target line plus one line per
/// source.
pub open spec fn rows_before(groups: Seq<(Seq<char>, Seq<usize>)>, n: int) -> nat
    decreases n,
{
    if n <= 0 { 0 } else { rows_before(groups, n - 1) + 1 + groups[n - 1].1.len() }
}

proof fn lemma_rows_before_push(g: Seq<(Seq<char>, Seq<usize>)>, x: (Seq<char>, Seq<usize>), m: int)
    requires
        0 <= m <= g.len(),
    ensures
        rows_before(g.push(x), m) == rows_before(g, m),
    decreases m,
{
    if m > 0 {
        lemma_rows_before_push(g, x, m - 1);
    }
}

proof fn lemma_rows_before_update(g: Seq<(Seq<char>, Seq<usize>)>, i: int, s: usize, m: int)
    requires
        0 <= i < g.len(),
        0 <= m <= g.len(),
    ensures
        m <= i ==> rows_before(g.update(i, (g[i].0, g[i].1.push(s))), m) == rows_before(g, m),
        m > i ==> rows_before(g.update(i, (g[i].0, g[i].1.push(s))), m) == rows_before(g, m) + 1,
    decreases m,
{
    if m > 0 {
        lemma_rows_before_update(g, i, s, m - 1);
    }
}

/// Each pair of a batch lands in exactly one group, so the groups of `n`
/// pairs are at most `n` and take `n` source lines plus one line per group.
pub proof fn lemma_grouping_rows(pairs: Seq<AutofixupPair>, n: nat)
    ensures
        grouping(pairs, n).len() <= n,
        rows_before(grouping(pairs, n), grouping(pairs, n).len() as int) == grouping(pairs, n).len() + n,
    decreases n,
{
    if n > 0 {
        lemma_grouping_rows(pairs, (n - 1) as nat);
        let g = grouping(pairs, (n - 1) as nat);
        let t = pairs[n - 1].target_summary@;
        lemma_group_of_bounds(g, t);
        match group_of(g, t) {
            Some(i) => {
                lemma_rows_before_update(g, i, (n - 1) as usize, g.len() as int);
            },
            None => {
                lemma_rows_before_push(g, (t, seq![(n - 1) as usize]), g.len() as int);
            },
        }
    }
}

} // verus!
