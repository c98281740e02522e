use evoting_core::order::{ascending_ids, share_slot};

#[test]
fn slot_counts_the_smaller_ids() {
    let ids = vec![7, 3, 9];
    assert_eq!(share_slot(&ids, 3), 0);
    assert_eq!(share_slot(&ids, 7), 1);
    assert_eq!(share_slot(&ids, 9), 2);
    assert_eq!(share_slot(&ids, 8), 2);
    assert_eq!(share_slot(&ids, 100), 3);
    assert_eq!(share_slot(&ids, i32::MIN), 0);
    assert_eq!(share_slot(&vec![], 1), 0);
    assert_eq!(share_slot(&vec![2, 2, 1], 3), 3);
}

#[test]
fn ascending_order_keeps_one_of_each() {
    assert_eq!(ascending_ids(&vec![7, 3, 9]), vec![3, 7, 9]);
    assert_eq!(ascending_ids(&vec![]), Vec::<i32>::new());
    assert_eq!(ascending_ids(&vec![1]), vec![1]);
    assert_eq!(ascending_ids(&vec![3, 2, 1]), vec![1, 2, 3]);
    assert_eq!(ascending_ids(&vec![1, 2, 3]), vec![1, 2, 3]);
    assert_eq!(ascending_ids(&vec![2, 1, 2, 1, 2]), vec![1, 2]);
    assert_eq!(ascending_ids(&vec![0, -1, i32::MAX, i32::MIN]), vec![i32::MIN, -1, 0, i32::MAX]);
}

#[test]
fn position_in_ascending_order_is_the_slot() {
    let ids = vec![12, -4, 900, 33, 0, 7];
    let order = ascending_ids(&ids);
    assert_eq!(order.len(), ids.len());
    for (i, id) in order.iter().enumerate() {
        assert_eq!(share_slot(&ids, *id), i);
    }
}
