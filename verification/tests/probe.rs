use probe::{rust_add, rust_hello};

#[test]
fn hello_returns_forty_two() {
    assert_eq!(rust_hello(), 42);
}

#[test]
fn add_small() {
    assert_eq!(rust_add(2, 3), 5);
}

#[test]
fn add_negative_cancels() {
    assert_eq!(rust_add(-5, 5), 0);
}

#[test]
fn add_zeros() {
    assert_eq!(rust_add(0, 0), 0);
}

#[test]
fn add_wraps_above_max() {
    assert_eq!(rust_add(2147483647, 1), -2147483648);
}

#[test]
fn add_wraps_below_min() {
    assert_eq!(rust_add(-2147483648, -1), 2147483647);
}

#[test]
fn repeated_calls_agree() {
    assert_eq!(rust_hello(), rust_hello());
    assert_eq!(rust_add(7, 35), rust_add(7, 35));
    assert_eq!(rust_add(-19, 4), rust_add(-19, 4));
}
