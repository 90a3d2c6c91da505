use order_validation::list::List;

#[test]
fn empty_list() {
    let l: List<i32> = List::new();
    assert!(l.head().is_none());
    assert!(l.tail().is_none());
    assert_eq!(l.to_vec(), Vec::<i32>::new());
}

#[test]
fn prepend_builds_front_first() {
    let l: List<i32> = List::new().prepend(3).prepend(2).prepend(1);
    assert_eq!(l.to_vec(), vec![1, 2, 3]);
    assert_eq!(l.head(), Some(&1));
    assert_eq!(l.tail().unwrap().to_vec(), vec![2, 3]);
}

#[test]
fn prepend_leaves_original_untouched() {
    let base: List<i32> = List::new().prepend(3).prepend(2);
    let longer = base.prepend(1);
    let other = base.prepend(9);
    // Both lists share `base` as their tail, and `base` itself is unchanged.
    assert_eq!(base.to_vec(), vec![2, 3]);
    assert_eq!(longer.to_vec(), vec![1, 2, 3]);
    assert_eq!(other.to_vec(), vec![9, 2, 3]);
}
