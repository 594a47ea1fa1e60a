use ownership::slices::{
    byte_at, first_word, naiive_slice_implementation_mutable_string_offset, slice,
    string_slices, OutOfBounds,
};

#[test]
fn first_word_of_hello_world() {
    assert_eq!(first_word(&String::from("hello world")), 5);
    assert_eq!(first_word(&String::from("hello")), 5);
    assert_eq!(first_word(&String::new()), 0);
    assert_eq!(first_word(&String::from(" lead")), 0);
    assert_eq!(first_word(&String::from("né ici")), 3);
}

#[test]
fn stale_offset_after_clear_is_out_of_bounds() {
    let mut v = String::from("hello world");
    let idx = first_word(&v);
    assert_eq!(idx, 5);
    assert_eq!(byte_at(&v, idx), Ok(b' '));
    v.clear();
    assert_eq!(byte_at(&v, idx), Err(OutOfBounds { index: 5, len: 0 }));
}

#[test]
fn offset_demo_returns_cleared_text() {
    let (word, s) = naiive_slice_implementation_mutable_string_offset();
    assert_eq!(word, 5);
    assert_eq!(s, "");
    assert_eq!(byte_at(&s, word), Err(OutOfBounds { index: 5, len: 0 }));
}

#[test]
fn byte_at_reads_bytes() {
    let v = String::from("abc");
    assert_eq!(byte_at(&v, 0), Ok(b'a'));
    assert_eq!(byte_at(&v, 2), Ok(b'c'));
    assert_eq!(byte_at(&v, 3), Err(OutOfBounds { index: 3, len: 3 }));
}

#[test]
fn slices_of_hello_world() {
    let v = String::from("hello world");
    assert_eq!(slice(&v, 0, 5), "hello");
    assert_eq!(slice(&v, 6, 11), "world");
    assert_eq!(slice(&v, 3, 3), "");
}

#[test]
fn whole_slice_round_trip() {
    for text in ["", "hello world", "grüße"] {
        let v = String::from(text);
        assert_eq!(slice(&v, 0, v.len()), text);
    }
}

#[test]
fn slice_on_multibyte_boundaries() {
    let v = String::from("grüße");
    assert_eq!(slice(&v, 2, 4), "ü");
    assert_eq!(slice(&v, 4, 7), "ße");
}

#[test]
fn string_slices_demo() {
    let r = string_slices();
    assert_eq!(r.hello, "hello");
    assert_eq!(r.world, "world");
    assert_eq!(r.slice1, "he");
    assert_eq!(r.slice2, "he");
    assert_eq!(r.slice3, "lo world");
    assert_eq!(r.slice4, "lo world");
    assert_eq!(r.slice5, "hello world");
    assert_eq!(r.slice6, "hello world");
}
