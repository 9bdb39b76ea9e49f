use bevy_rafx::order::{execution_order, Edge};

fn edge(before: usize, after: usize) -> Edge {
    Edge { before, after }
}

#[test]
fn nodes_without_edges_run_in_their_own_order() {
    assert_eq!(execution_order(0, &vec![]), Some(vec![]));
    assert_eq!(execution_order(4, &vec![]), Some(vec![0, 1, 2, 3]));
}

#[test]
fn edges_put_sources_first() {
    assert_eq!(execution_order(3, &vec![edge(2, 0), edge(1, 0)]), Some(vec![1, 2, 0]));
    assert_eq!(execution_order(4, &vec![edge(3, 2), edge(2, 1), edge(1, 0)]), Some(vec![3, 2, 1, 0]));
    assert_eq!(
        execution_order(5, &vec![edge(4, 0), edge(0, 2), edge(0, 2), edge(3, 1)]),
        Some(vec![3, 1, 4, 0, 2])
    );
}

#[test]
fn cycles_have_no_order() {
    assert_eq!(execution_order(1, &vec![edge(0, 0)]), None);
    assert_eq!(execution_order(2, &vec![edge(0, 1), edge(1, 0)]), None);
    assert_eq!(execution_order(4, &vec![edge(0, 1), edge(1, 2), edge(2, 3), edge(3, 1)]), None);
}
