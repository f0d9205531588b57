use texswizzle::reconcile::reconcile;

#[test]
fn reconcile_keeps_exact_buffer_unchanged() {
    let (out, adjusted) = reconcile(vec![1, 2, 3, 4], 4);
    assert_eq!(out, vec![1, 2, 3, 4]);
    assert!(!adjusted);
}

#[test]
fn reconcile_pads_short_buffer_with_zeros() {
    let (out, adjusted) = reconcile(vec![1, 2, 3], 6);
    assert_eq!(out, vec![1, 2, 3, 0, 0, 0]);
    assert!(adjusted);
}

#[test]
fn reconcile_truncates_long_buffer_to_prefix() {
    let (out, adjusted) = reconcile(vec![1, 2, 3, 4, 5, 6, 7, 8, 9, 10], 4);
    assert_eq!(out, vec![1, 2, 3, 4]);
    assert!(adjusted);
}

#[test]
fn reconcile_handles_empty_buffer() {
    let (out, adjusted) = reconcile(Vec::new(), 5);
    assert_eq!(out, vec![0, 0, 0, 0, 0]);
    assert!(adjusted);
}

#[test]
fn reconcile_handles_zero_expected_size() {
    let (out, adjusted) = reconcile(vec![9, 9, 9], 0);
    assert_eq!(out, Vec::<u8>::new());
    assert!(adjusted);

    let (out, adjusted) = reconcile(Vec::new(), 0);
    assert_eq!(out, Vec::<u8>::new());
    assert!(!adjusted);
}

#[test]
fn reconcile_handles_length_far_exceeding_budget() {
    let big = vec![7u8; 10_000];
    let (out, adjusted) = reconcile(big, 3);
    assert_eq!(out, vec![7, 7, 7]);
    assert!(adjusted);
}

#[test]
fn reconcile_twice_equals_reconcile_once() {
    for data in [vec![], vec![5u8], vec![1, 2, 3, 4, 5, 6, 7]] {
        for n in [0usize, 1, 3, 7, 12] {
            let (once, _) = reconcile(data.clone(), n);
            let (twice, adjusted_again) = reconcile(once.clone(), n);
            assert_eq!(twice, once);
            assert!(!adjusted_again);
        }
    }
}
