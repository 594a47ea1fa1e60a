use vstd::prelude::*;
use vstd::string::*;
use vstd::utf8::*;
use crate::text::byte_len;

verus! {

/// The length of `s` in bytes, read through a shared borrow: the caller keeps `s`.
pub fn calculate_length2(s: &String) -> (r: usize)
    ensures
        r == byte_len(s@),
{
    s.as_str().as_bytes().len()
}

/// Lends "hello" to `calculate_length2` and still owns it afterwards: returns the
/// text and its length.
pub fn references_and_borrowing() -> (r: (String, usize))
    ensures
        r.0@ == "hello"@,
        r.1 == 5,
{
    let s1 = String::from_str("hello");
    let len = calculate_length2(&s1);
    proof {
        reveal_strlit("hello");
        assert(is_ascii_chars(s1@));
        is_ascii_chars_encode_utf8(s1@);
    }
    (s1, len)
}

/// Makes "hello" and hands it to the caller, which may lend it out through a shared
/// borrow; no one can change it through such a borrow.
pub fn attempted_modify_borrowed_value() -> (s: String)
    ensures
        s@ == "hello"@,
{
    let s = String::from_str("hello");
    s
}

/// Appends ", world" through a mutable borrow.
pub fn change2(some_string: &mut String)
    ensures
        final(some_string)@ == old(some_string)@ + ", world"@,
{
    some_string.push_str(", world");
}

/// Changes "hello" through a mutable borrow: returns the text as it was made and as
/// it is after `change2`.
pub fn mutable_references() -> (r: (String, String))
    ensures
        r.0@ == "hello"@,
        r.1@ == "hello, world"@,
{
    let mut s = String::from_str("hello");
    let initial = s.clone();
    change2(&mut s);
    proof {
        reveal_strlit("hello");
        reveal_strlit(", world");
        reveal_strlit("hello, world");
        assert(s@ =~= "hello, world"@);
    }
    (initial, s)
}

/// Clones a text through the one mutable borrow of it, instead of taking a second
/// mutable borrow: returns the text and the clone, both "hello".
pub fn attempted_two_mutable_references() -> (r: (String, String))
    ensures
        r.0@ == "hello"@,
        r.1@ == "hello"@,
{
    let mut s = String::from_str("hello");
    let r1 = &mut s;
    let r2 = r1.clone();
    (s, r2)
}

/// Takes two mutable borrows of one text, one after the other: the first ends with
/// its scope before the second begins. Neither changes the text, which is returned.
pub fn multiple_mutable_references() -> (r: String)
    ensures
        r@ == "hello"@,
{
    let mut s = String::from_str("hello");
    {
        let _r1 = &mut s;
    }
    let _r2 = &mut s;
    s
}

/// A clone of `s` with `suffix` appended to it. The clone is a value of its own:
/// changing it leaves `s` as it was.
pub fn extended_clone(s: &String, suffix: &str) -> (c: String)
    ensures
        c@ == s@ + suffix@,
{
    let mut c = s.clone();
    let r = &mut c;
    r.push_str(suffix);
    c
}

/// Shared borrows of "hello" stand beside a changed clone of it; once shared borrows
/// of a second text are last used, a mutable borrow of it may begin. Returns the
/// first text, the changed clone, and the second text.
pub fn attempted_mixed_mutable_immutable_references() -> (r: (String, String, String))
    ensures
        r.0@ == "hello"@,
        r.1@ == "hello?"@,
        r.2@ == "hello"@,
{
    let s = String::from_str("hello");
    let r1 = &s;
    let r2 = &s;
    let r3 = extended_clone(r1, "?");
    proof {
        reveal_strlit("hello");
        reveal_strlit("?");
        reveal_strlit("hello?");
        assert(r2@ == "hello"@);
        assert(r3@ =~= "hello?"@);
    }
    let mut s2 = String::from_str("hello");
    let r4 = &s2;
    let r5 = &s2;
    assert(r4@ == r5@);
    let _r6 = &mut s2;
    (s, r3, s2)
}

} // verus!
