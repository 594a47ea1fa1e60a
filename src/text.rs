use vstd::prelude::*;
use vstd::utf8::*;

verus! {

/// The byte that encodes a space.
pub const SPACE: u8 = 32;

/// The UTF-8 bytes that hold the characters `c`.
pub open spec fn bytes_of(c: Seq<char>) -> Seq<u8> {
    encode_utf8(c)
}

/// The length of a text value, counted in bytes as `str::len` counts it.
pub open spec fn byte_len(c: Seq<char>) -> nat {
    bytes_of(c).len()
}

/// `i` is the offset of the first space byte of `b`, or `b.len()` when `b` holds no space.
pub open spec fn is_first_space(b: Seq<u8>, i: int) -> bool {
    &&& 0 <= i <= b.len()
    &&& forall|j: int| 0 <= j < i ==> b[j] != SPACE
    &&& (i == b.len() || b[i] == SPACE)
}

/// The characters held by the bytes `start..end` of the encoding of `c`.
pub open spec fn text_slice(c: Seq<char>, start: int, end: int) -> Seq<char> {
    decode_utf8(bytes_of(c).subrange(start, end))
}

/// `start..end` is a range of `c` that a slice may take: it lies within the text and
/// both ends fall on character boundaries.
pub open spec fn valid_range(c: Seq<char>, start: int, end: int) -> bool {
    &&& 0 <= start <= end <= byte_len(c)
    &&& is_char_boundary(bytes_of(c), start)
    &&& is_char_boundary(bytes_of(c), end)
}

/// A character boundary `i` of `b` is still one in the prefix of `b` that ends at a
/// later boundary `j`.
pub proof fn lemma_boundary_in_prefix(b: Seq<u8>, i: int, j: int)
    requires
        valid_utf8(b),
        is_char_boundary(b, i),
        is_char_boundary(b, j),
        0 <= i <= j,
    ensures
        valid_utf8(b.subrange(0, j)),
        is_char_boundary(b.subrange(0, j), i),
    decreases b.len(),
{
    valid_utf8_split(b, j);
    if i > 0 {
        let k = length_of_first_scalar(b);
        let tail = pop_first_scalar(b);
        let p = b.subrange(0, j);
        reveal_with_fuel(is_char_boundary, 2);
        assert(valid_first_scalar(b) && valid_utf8(tail));
        assert(is_char_boundary(tail, i - k));
        assert(is_char_boundary(tail, j - k));
        lemma_boundary_in_prefix(tail, i - k, j - k);
        assert(p[0] == b[0]);
        assert(pop_first_scalar(p) =~= tail.subrange(0, j - k));
    }
}

/// In an ASCII text every offset up to its length is a character boundary.
pub proof fn lemma_ascii_boundary(c: Seq<char>, i: int)
    requires
        is_ascii_chars(c),
        0 <= i <= c.len(),
    ensures
        byte_len(c) == c.len(),
        is_char_boundary(bytes_of(c), i),
    decreases c.len(),
{
    is_ascii_chars_encode_utf8(c);
    encode_utf8_valid_utf8(c);
    if i > 0 {
        let b = bytes_of(c);
        let rest = c.drop_first();
        assert(is_ascii_chars(rest));
        lemma_ascii_boundary(rest, i - 1);
        encode_utf8_first_scalar(c);
        let c0 = c[0] as u32;
        assert(c0 <= 0x7f);
        assert(encode_scalar(c0).len() == 1);
        assert(pop_first_scalar(b) =~= bytes_of(rest));
    }
}

/// In an ASCII text byte offsets are character offsets: every range within it may be
/// sliced, and the slice holds the characters of that range.
pub proof fn lemma_ascii_slice(c: Seq<char>, start: int, end: int)
    requires
        is_ascii_chars(c),
        0 <= start <= end <= c.len(),
    ensures
        valid_range(c, start, end),
        text_slice(c, start, end) == c.subrange(start, end),
{
    lemma_ascii_boundary(c, start);
    lemma_ascii_boundary(c, end);
    let sub = c.subrange(start, end);
    assert(is_ascii_chars(sub));
    is_ascii_chars_encode_utf8(c);
    is_ascii_chars_encode_utf8(sub);
    assert(bytes_of(sub) =~= bytes_of(c).subrange(start, end));
    encode_utf8_decode_utf8(sub);
}

/// Relies on `String::push_str`, which appends `string` to the end of the text.
pub assume_specification[ String::push_str ](s: &mut String, string: &str)
    ensures
        final(s)@ == old(s)@ + string@,
;

/// Relies on `String::clear`, which truncates the string and removes all of its contents.
pub assume_specification[ String::clear ](s: &mut String)
    ensures
        final(s)@ == Seq::<char>::empty(),
;

/// Slicing a text from offset 0 to its length is always allowed and gives back all of
/// its content.
pub proof fn lemma_slice_whole(c: Seq<char>)
    ensures
        valid_range(c, 0, byte_len(c) as int),
        text_slice(c, 0, byte_len(c) as int) == c,
{
    encode_utf8_valid_utf8(c);
    is_char_boundary_start_end_of_seq(bytes_of(c));
    assert(bytes_of(c).subrange(0, byte_len(c) as int) =~= bytes_of(c));
    encode_utf8_decode_utf8(c);
}

} // verus!
