use primitives::cell::Cell;

#[test]
fn test_cell() {
    let cell = Cell::new('a');

    println!("{}", cell.get());
    cell.set('c');
    println!("{}", cell.get());
}

#[test]
fn cell_get_returns_last_set() {
    let cell = Cell::new(1u32);
    assert_eq!(cell.get(), 1);
    let shared = &cell;
    shared.set(2);
    assert_eq!(cell.get(), 2);
    cell.set(3);
    assert_eq!(shared.get(), 3);
}
