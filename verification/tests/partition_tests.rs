use ledger_loadgen::partition::{concat_worker_results, work_per_worker};

#[test]
fn share_for_even_split() {
    // four workers over thirty-six transactions compute a share of nine,
    // and together produce exactly thirty-six
    let share = work_per_worker(36, 4);
    assert_eq!(share, 9);
    assert_eq!(share * 4, 36);
}

#[test]
fn share_rounds_up() {
    let share = work_per_worker(49, 8);
    assert_eq!(share, 7);
    // coverage: at least the total, at most total + workers - 1
    assert!(share * 8 >= 49);
    assert!(share * 8 <= 49 + 8 - 1);
}

#[test]
fn share_edge_cases() {
    assert_eq!(work_per_worker(0, 3), 0);
    assert_eq!(work_per_worker(5, 1), 5);
    assert_eq!(work_per_worker(1, 64), 1);
    assert_eq!(work_per_worker(64, 64), 1);
    assert_eq!(work_per_worker(65, 64), 2);
}

#[test]
fn concat_preserves_worker_order() {
    let batches: Vec<Vec<u32>> = vec![vec![1, 2], vec![3], vec![], vec![4, 5, 6]];
    let out = concat_worker_results(batches);
    assert_eq!(out, vec![1, 2, 3, 4, 5, 6]);
}

#[test]
fn concat_of_nothing_is_empty() {
    let batches: Vec<Vec<u32>> = Vec::new();
    let out = concat_worker_results(batches);
    assert!(out.is_empty());
}

#[test]
fn concat_of_uniform_shares() {
    // three workers, each with a share of two, in index order
    let batches: Vec<Vec<u32>> = vec![vec![10, 11], vec![20, 21], vec![30, 31]];
    let out = concat_worker_results(batches);
    assert_eq!(out, vec![10, 11, 20, 21, 30, 31]);
}
