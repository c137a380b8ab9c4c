use primitives::mutex::Mutex;

#[test]
fn with_lock_returns_what_the_closure_returns() {
    let mutex = Mutex::new(String::from("a"));
    let length = mutex.with_lock(|s| {
        s.push('b');
        s.len()
    });
    assert_eq!(length, 2);
    assert_eq!(mutex.with_lock(|s| s.clone()), "ab");
}
