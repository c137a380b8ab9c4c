use primitives::rc::RcInner;

#[test]
fn single_handle_is_the_last() {
    let inner = RcInner::new(5);
    assert_eq!(*inner.get(), 5);
    assert!(inner.release());
}

#[test]
fn each_retain_takes_one_more_release() {
    let inner = RcInner::new("v");
    inner.retain();
    inner.retain();
    assert!(!inner.release());
    assert!(!inner.release());
    assert!(inner.release());
}

#[test]
fn count_rules() {
    assert_eq!(RcInner::<()>::after_clone(1), 2);
    assert_eq!(RcInner::<()>::after_clone(usize::MAX), usize::MAX);
    assert_eq!(RcInner::<()>::after_drop(3), Some(2));
    assert_eq!(RcInner::<()>::after_drop(2), Some(1));
    assert_eq!(RcInner::<()>::after_drop(1), None);
    assert_eq!(RcInner::<()>::after_drop(0), None);
}
