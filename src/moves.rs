use vstd::prelude::*;
use vstd::string::*;
use vstd::utf8::*;
use crate::text::byte_len;

verus! {

/// Appends ", world!" to a text made from "hello".
pub fn strings() -> (s: String)
    ensures
        s@ == "hello, world!"@,
{
    let mut s = String::from_str("hello");
    s.push_str(", world!");
    proof {
        reveal_strlit("hello");
        reveal_strlit(", world!");
        reveal_strlit("hello, world!");
        assert(s@ =~= "hello, world!"@);
    }
    s
}

/// Copies an integer and moves a text: returns the copy `y` of `x == 5` and the
/// text `s2` that now owns what `s1` held.
pub fn stack_vs_heap() -> (r: (i32, String))
    ensures
        r.0 == 5,
        r.1@ == "hello"@,
{
    let x: i32 = 5;
    let y = x;
    let s1 = String::from_str("hello");
    let s2 = s1;
    (y, s2)
}

/// Clones a text: both the original and the clone hold "hello".
pub fn clone_example() -> (r: (String, String))
    ensures
        r.0@ == "hello"@,
        r.1@ == r.0@,
{
    let s1 = String::from_str("hello");
    let s2 = s1.clone();
    (s1, s2)
}

/// A value of a `Copy` type and a copy of it, both usable and equal.
pub fn duplicate<T: Copy>(x: T) -> (r: (T, T))
    ensures
        r.0 == x,
        r.1 == x,
{
    let y = x;
    (x, y)
}

/// Integers and tuples of integers are copied; a tuple that holds a text is moved.
/// Returns `x`, its copy `y`, the integer tuple, and the tuple that took over the
/// mixed one.
pub fn stack_only_data_copy() -> (r: (i32, i32, (i32, i32, i32), (i32, i32, i32, String)))
    ensures
        r.0 == 5,
        r.1 == r.0,
        r.2 == (1i32, 2i32, 3i32),
        (r.3.0, r.3.1, r.3.2) == (1i32, 2i32, 3i32),
        r.3.3@ == "hello"@,
{
    let x: i32 = 5;
    let (x, y) = duplicate(x);
    let s1 = String::from_str("hello");
    let tup: (i32, i32, i32) = (1, 2, 3);
    let tup2: (i32, i32, i32, String) = (1, 2, 3, s1);
    let tup3 = tup2;
    (x, y, tup, tup3)
}

/// The arguments of a call that takes ownership of a text and of a call that gets a
/// copy of an integer: "hello", which the caller gives up, and 5, which it keeps.
pub fn ownership_and_functions() -> (r: (String, i32))
    ensures
        r.0@ == "hello"@,
        r.1 == 5,
{
    let s = String::from_str("hello");
    let x: i32 = 5;
    (s, x)
}

/// Returns a newly made text, "yours", to its caller.
pub fn gives_ownership() -> (r: String)
    ensures
        r@ == "yours"@,
{
    let some_string = String::from_str("yours");
    some_string
}

/// Takes ownership of a text and hands it back unchanged.
pub fn takes_and_gives_back(a_string: String) -> (r: String)
    ensures
        r == a_string,
{
    a_string
}

/// Receives one text from `gives_ownership` and moves another through
/// `takes_and_gives_back`, and returns the two texts it ends up owning.
pub fn return_values_and_scope() -> (r: (String, String))
    ensures
        r.0@ == "yours"@,
        r.1@ == "hello"@,
{
    let s1 = gives_ownership();
    let s2 = String::from_str("hello");
    let s3 = takes_and_gives_back(s2);
    (s1, s3)
}

/// Takes ownership of `s` and returns it together with its length in bytes.
pub fn calculate_length(s: String) -> (r: (String, usize))
    ensures
        r.0 == s,
        r.1 == byte_len(s@),
{
    let length = s.as_str().as_bytes().len();
    (s, length)
}

/// Moves "hello" into `calculate_length` and takes it back with its length.
pub fn return_values_and_scope_tuples() -> (r: (String, usize))
    ensures
        r.0@ == "hello"@,
        r.1 == 5,
{
    let s1 = String::from_str("hello");
    let (s2, len) = calculate_length(s1);
    proof {
        reveal_strlit("hello");
        assert(is_ascii_chars(s2@));
        is_ascii_chars_encode_utf8(s2@);
    }
    (s2, len)
}

/// Returns a text made inside the function by moving it out, rather than a
/// reference to it.
pub fn no_dangle() -> (r: String)
    ensures
        r@ == "hello"@,
{
    let s = String::from_str("hello");
    s
}

} // verus!
