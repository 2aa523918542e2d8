use git_tailor::split_plan::{hunk_group_split_plan, hunks_up_to, touched_groups, SplitPlanError};

#[test]
fn touched_groups_are_ascending_and_distinct() {
    let groups = vec![vec![3, 1], vec![], vec![1, 5, 3]];
    assert_eq!(touched_groups(&groups), vec![1, 3, 5]);
}

#[test]
fn hunks_up_to_a_group_keep_their_order() {
    assert_eq!(hunks_up_to(&vec![3, 1, 5, 0], 3), vec![0, 1, 3]);
}

#[test]
fn split_plan_builds_each_intermediate_commit() {
    let groups = vec![vec![2, 0], vec![1]];
    let plan = hunk_group_split_plan(&groups).unwrap();
    assert_eq!(plan, vec![vec![vec![1], vec![]], vec![vec![1], vec![0]]]);
}

#[test]
fn split_plan_needs_two_groups() {
    let groups = vec![vec![4, 4], vec![4]];
    let err = hunk_group_split_plan(&groups).unwrap_err();
    assert_eq!(err, SplitPlanError::TooFewGroups);
    assert_eq!(err.message(), "Commit has fewer than 2 hunk groups — nothing to split per hunk group");
}
