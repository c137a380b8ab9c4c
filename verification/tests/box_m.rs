use primitives::box_m::BoxM;

#[test]
fn boxm_init() {
    let b = 32;
    let bm = BoxM::new(b);

    assert_eq!(*bm, 32);
}

#[test]
fn boxm_write_through() {
    let mut bm = BoxM::new(String::from("a"));
    bm.push('b');
    assert_eq!(*bm, "ab");
    *bm = String::from("c");
    assert_eq!(bm.len(), 1);
}
