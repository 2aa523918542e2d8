use git_tailor::oid::Oid;
use git_tailor::rewrite::{descendants_until, plan_reorder, remaining_after, MoveError};

fn oid(c: &str) -> Oid {
    Oid::new(c.repeat(40))
}

fn hexes(v: &[Oid]) -> Vec<String> {
    v.iter().map(|o| o.hex[..1].to_string()).collect()
}

#[test]
fn moving_a_commit_later_puts_it_after_the_insertion_point() {
    // base .. a b c d (oldest first); move b after d.
    let chain = vec![oid("a"), oid("b"), oid("c"), oid("d")];
    let plan = plan_reorder(&chain, &oid("b"), &oid("d"), &oid("0")).unwrap();
    assert_eq!(hexes(&plan), vec!["a", "c", "d", "b"]);
}

#[test]
fn moving_a_commit_to_the_base_puts_it_first() {
    let chain = vec![oid("a"), oid("b"), oid("c")];
    let plan = plan_reorder(&chain, &oid("c"), &oid("0"), &oid("0")).unwrap();
    assert_eq!(hexes(&plan), vec!["c", "a", "b"]);
}

#[test]
fn an_insertion_point_outside_the_chain_is_refused() {
    let chain = vec![oid("a"), oid("b")];
    assert_eq!(plan_reorder(&chain, &oid("b"), &oid("z"), &oid("0")), Err(MoveError::InsertPointNotFound));
    // The moved commit itself is no insertion point.
    assert_eq!(plan_reorder(&chain, &oid("b"), &oid("b"), &oid("0")), Err(MoveError::InsertPointNotFound));
}

#[test]
fn a_move_keeps_every_other_commit_in_order() {
    let chain: Vec<Oid> = ["a", "b", "c", "d", "e"].iter().map(|c| oid(c)).collect();
    for moved in ["a", "c", "e"] {
        for after in ["a", "b", "d", "e"] {
            if moved == after {
                continue;
            }
            let plan = plan_reorder(&chain, &oid(moved), &oid(after), &oid("0")).unwrap();
            assert_eq!(plan.len(), chain.len());
            let others: Vec<String> = hexes(&plan).into_iter().filter(|h| h != moved).collect();
            let expected: Vec<String> = hexes(&chain).into_iter().filter(|h| h != moved).collect();
            assert_eq!(others, expected);
            let at = hexes(&plan).iter().position(|h| h == moved).unwrap();
            assert_eq!(hexes(&plan)[at - 1], after);
        }
    }
}

#[test]
fn a_conflict_leaves_the_later_commits_to_replay() {
    let chain = vec![oid("a"), oid("b"), oid("c")];
    assert_eq!(hexes(&remaining_after(&chain, 0)), vec!["b", "c"]);
    assert!(remaining_after(&chain, 2).is_empty());
}

#[test]
fn descendants_are_listed_oldest_first_up_to_the_stop() {
    // A walk from the tip: d c b a.
    let walk = vec![oid("d"), oid("c"), oid("b"), oid("a")];
    assert_eq!(hexes(&descendants_until(&walk, &oid("b"))), vec!["c", "d"]);
    assert!(descendants_until(&walk, &oid("d")).is_empty());
    assert_eq!(hexes(&descendants_until(&walk, &oid("z"))), vec!["a", "b", "c", "d"]);
}
