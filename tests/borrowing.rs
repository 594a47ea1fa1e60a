use ownership::borrowing::{
    attempted_mixed_mutable_immutable_references, attempted_modify_borrowed_value,
    attempted_two_mutable_references, calculate_length2, change2, extended_clone,
    multiple_mutable_references, mutable_references, references_and_borrowing,
};

#[test]
fn borrowed_length_leaves_owner_valid() {
    let s = String::from("hello, world");
    assert_eq!(calculate_length2(&s), 12);
    assert_eq!(s, "hello, world");
    assert_eq!(calculate_length2(&String::new()), 0);
    assert_eq!(calculate_length2(&String::from("ß")), 2);
}

#[test]
fn references_keep_ownership() {
    assert_eq!(references_and_borrowing(), (String::from("hello"), 5));
    assert_eq!(attempted_modify_borrowed_value(), "hello");
}

#[test]
fn change_through_mutable_borrow() {
    let mut s = String::from("hi");
    change2(&mut s);
    assert_eq!(s, "hi, world");
    let mut e = String::new();
    change2(&mut e);
    assert_eq!(e, ", world");
}

#[test]
fn mutable_reference_demo() {
    let (before, after) = mutable_references();
    assert_eq!(before, "hello");
    assert_eq!(after, "hello, world");
}

#[test]
fn clone_through_mutable_borrow() {
    assert_eq!(
        attempted_two_mutable_references(),
        (String::from("hello"), String::from("hello"))
    );
    assert_eq!(multiple_mutable_references(), "hello");
}

#[test]
fn changed_clone_leaves_original() {
    let v = String::from("hello");
    let c = extended_clone(&v, "?");
    assert_eq!(c, "hello?");
    assert_eq!(v, "hello");
    assert_eq!(extended_clone(&v, ""), v);
}

#[test]
fn mixed_references_demo() {
    let (s, r3, s2) = attempted_mixed_mutable_immutable_references();
    assert_eq!(s, "hello");
    assert_eq!(r3, "hello?");
    assert_eq!(s2, "hello");
}
