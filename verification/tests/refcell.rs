use primitives::refcell::RefState;

#[test]
fn readers_add_up() {
    let state = RefState::new();
    assert!(matches!(state, RefState::Unshared));
    let one = state.share().unwrap();
    assert!(matches!(one, RefState::Shared(1)));
    let two = one.share().unwrap();
    assert!(matches!(two, RefState::Shared(2)));
    assert!(matches!(two.release_shared(), RefState::Shared(1)));
    assert!(matches!(one.release_shared(), RefState::Unshared));
}

#[test]
fn a_writer_excludes_everyone() {
    let writer = RefState::new().claim().unwrap();
    assert!(matches!(writer, RefState::Exclusive));
    assert!(writer.share().is_none());
    assert!(writer.claim().is_none());
    assert!(matches!(writer.release_exclusive(), RefState::Unshared));
}

#[test]
fn readers_exclude_a_writer() {
    let reader = RefState::new().share().unwrap();
    assert!(reader.claim().is_none());
    assert!(RefState::Shared(7).claim().is_none());
}

#[test]
fn readers_stop_at_the_limit() {
    assert!(RefState::Shared(usize::MAX).share().is_none());
    assert!(matches!(
        RefState::Shared(usize::MAX - 1).share(),
        Some(RefState::Shared(usize::MAX))
    ));
}
