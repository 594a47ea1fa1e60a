use vstd::prelude::*;
use vstd::utf8::*;
use vstd::string::*;
use crate::text::{bytes_of, byte_len, is_first_space, text_slice, valid_range, lemma_boundary_in_prefix, lemma_ascii_slice, SPACE};

verus! {

/// The part of `s` between the byte offsets `start` and `end`.
pub fn slice(s: &String, start: usize, end: usize) -> (r: &str)
    requires
        valid_range(s@, start as int, end as int),
    ensures
        bytes_of(r@) == bytes_of(s@).subrange(start as int, end as int),
        r@ == text_slice(s@, start as int, end as int),
{
    let whole = s.as_str();
    proof {
        encode_utf8_valid_utf8(s@);
        lemma_boundary_in_prefix(bytes_of(s@), start as int, end as int);
    }
    let (head, _) = whole.split_at(end);
    let (_, r) = head.split_at(start);
    proof {
        let b = bytes_of(s@);
        assert(b.subrange(0, end as int).subrange(start as int, end as int) =~= b.subrange(start as int, end as int));
        encode_utf8_decode_utf8(r@);
    }
    r
}

/// Byte offset of the end of the first word of `s`: the first space, or the length
/// of `s` when it holds none.
pub fn first_word(s: &String) -> (r: usize)
    ensures
        is_first_space(bytes_of(s@), r as int),
{
    let bytes = s.as_str().as_bytes();
    let mut i: usize = 0;
    while i < bytes.len()
        invariant
            bytes@ == bytes_of(s@),
            0 <= i <= bytes@.len(),
            forall|j: int| 0 <= j < i ==> bytes@[j] != SPACE,
        decreases bytes@.len() - i,
    {
        if bytes[i] == SPACE {
            return i;
        }
        i = i + 1;
    }
    bytes.len()
}

/// A read at a byte offset that lies past the end of a text.
#[derive(Debug, Clone, Copy, PartialEq, Eq, Structural)]
pub struct OutOfBounds {
    /// The offset that was asked for.
    pub index: usize,
    /// The length of the text, in bytes, at the time of the read.
    pub len: usize,
}

/// The byte at offset `index` of `s`, or `OutOfBounds` when `s` is not that long.
pub fn byte_at(s: &String, index: usize) -> (r: Result<u8, OutOfBounds>)
    ensures
        index < byte_len(s@) ==> r == Ok::<u8, OutOfBounds>(bytes_of(s@)[index as int]),
        index >= byte_len(s@) ==> r == Err::<u8, OutOfBounds>(
            OutOfBounds { index, len: byte_len(s@) as usize },
        ),
{
    let bytes = s.as_str().as_bytes();
    if index < bytes.len() {
        Ok(bytes[index])
    } else {
        Err(OutOfBounds { index, len: bytes.len() })
    }
}

/// Computes the end of the first word of "hello world", then clears the text. The
/// offset outlives what it was computed from: it is returned with the now empty text,
/// in which it no longer points at anything.
pub fn naiive_slice_implementation_mutable_string_offset() -> (r: (usize, String))
    ensures
        r.0 == 5,
        r.1@ == Seq::<char>::empty(),
        byte_len(r.1@) <= r.0,
{
    let mut s = String::from_str("hello world");
    let word = first_word(&s);
    proof {
        reveal_strlit("hello world");
        is_ascii_chars_encode_utf8(s@);
        assert(bytes_of(s@)[5] == SPACE);
        assert(forall|j: int| 0 <= j < 5 ==> bytes_of(s@)[j] != SPACE);
    }
    s.clear();
    (word, s)
}

/// Parts of "hello world", each copied out of the slice that views it.
pub struct WorldSlices {
    pub hello: String,
    pub world: String,
    /// The first two characters, sliced from an explicit start.
    pub slice1: String,
    /// The first two characters, sliced from the start.
    pub slice2: String,
    /// From the fourth character up to the length.
    pub slice3: String,
    /// From the fourth character to the end.
    pub slice4: String,
    /// The whole text, up to the length.
    pub slice5: String,
    /// The whole text.
    pub slice6: String,
}

/// Slices "hello world" in the ways a range can be written.
pub fn string_slices() -> (r: WorldSlices)
    ensures
        r.hello@ == "hello"@,
        r.world@ == "world"@,
        r.slice1@ == "he"@,
        r.slice2@ == "he"@,
        r.slice3@ == "lo world"@,
        r.slice4@ == "lo world"@,
        r.slice5@ == "hello world"@,
        r.slice6@ == "hello world"@,
{
    let s = String::from_str("hello world");
    let ghost c = s@;
    proof {
        reveal_strlit("hello world");
        assert(is_ascii_chars(c));
        is_ascii_chars_encode_utf8(c);
        lemma_ascii_slice(c, 0, 5);
        lemma_ascii_slice(c, 6, 11);
        lemma_ascii_slice(c, 0, 2);
        lemma_ascii_slice(c, 3, 11);
        lemma_ascii_slice(c, 0, 11);
    }
    let hello = slice(&s, 0, 5).to_owned();
    let world = slice(&s, 6, 11).to_owned();
    let slice1 = slice(&s, 0, 2).to_owned();
    let slice2 = slice(&s, 0, 2).to_owned();
    let len = s.as_str().as_bytes().len();
    let slice3 = slice(&s, 3, len).to_owned();
    let slice4 = slice(&s, 3, len).to_owned();
    let slice5 = slice(&s, 0, len).to_owned();
    let slice6 = slice(&s, 0, len).to_owned();
    proof {
        reveal_strlit("hello");
        reveal_strlit("world");
        reveal_strlit("he");
        reveal_strlit("lo world");
        assert(hello@ =~= "hello"@);
        assert(world@ =~= "world"@);
        assert(slice1@ =~= "he"@);
        assert(slice3@ =~= "lo world"@);
        assert(slice5@ =~= c);
    }
    WorldSlices { hello, world, slice1, slice2, slice3, slice4, slice5, slice6 }
}

} // verus!
