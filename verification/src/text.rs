//! Strings as UTF-8 bytes: comparison, and slicing by byte offsets.

use vstd::prelude::*;
use vstd::utf8::*;

verus! {

/// The UTF-8 length of `content`, in bytes.
pub open spec fn byte_len(content: Seq<char>) -> nat {
    encode_utf8(content).len()
}

/// `start..end` is a byte range of `content` that begins and ends between
/// characters.
pub open spec fn on_char_boundaries(content: Seq<char>, start: int, end: int) -> bool {
    &&& 0 <= start <= end <= byte_len(content)
    &&& is_char_boundary(encode_utf8(content), start)
    &&& is_char_boundary(encode_utf8(content), end)
}

/// The characters that `content` holds in the byte range `start..end`.
pub open spec fn span_text(content: Seq<char>, start: int, end: int) -> Seq<char> {
    decode_utf8(encode_utf8(content).subrange(start, end))
}

/// Two strings with the same bytes hold the same characters.
pub proof fn lemma_same_bytes_same_text(a: Seq<char>, b: Seq<char>)
    requires
        encode_utf8(a) == encode_utf8(b),
    ensures
        a == b,
{
    encode_utf8_decode_utf8(a);
    encode_utf8_decode_utf8(b);
}

/// Whether `a` and `b` hold the same characters.
pub fn str_eq(a: &str, b: &str) -> (same: bool)
    ensures
        same == (a@ == b@),
{
    let x = a.as_bytes();
    let y = b.as_bytes();
    if x.len() != y.len() {
        return false;
    }
    let mut i: usize = 0;
    while i < x.len()
        invariant
            x@ == encode_utf8(a@),
            y@ == encode_utf8(b@),
            x@.len() == y@.len(),
            i <= x@.len(),
            forall|k: int| 0 <= k < i ==> x@[k] == y@[k],
        decreases x@.len() - i,
    {
        if x[i] != y[i] {
            return false;
        }
        i += 1;
    }
    proof {
        assert(x@ =~= y@);
        lemma_same_bytes_same_text(a@, b@);
    }
    true
}

/// A character boundary of a string is one of each of its prefixes that
/// reach at least as far and end on a boundary themselves.
pub proof fn lemma_boundary_in_prefix(bytes: Seq<u8>, start: int, end: int)
    requires
        valid_utf8(bytes),
        0 <= start <= end <= bytes.len(),
        is_char_boundary(bytes, start),
        is_char_boundary(bytes, end),
    ensures
        valid_utf8(bytes.subrange(0, end)),
        is_char_boundary(bytes.subrange(0, end), start),
{
    let prefix = bytes.subrange(0, end);
    valid_utf8_split(bytes, end);
    if start == end {
        is_char_boundary_start_end_of_seq(prefix);
    } else if start > 0 {
        is_char_boundary_iff_not_is_continuation_byte(bytes, start);
        is_char_boundary_iff_not_is_continuation_byte(prefix, start);
    }
}

/// The part of `content` in the byte range `start..end`.
pub fn slice_text<'a>(content: &'a str, start: usize, end: usize) -> (piece: &'a str)
    requires
        on_char_boundaries(content@, start as int, end as int),
    ensures
        piece@ == span_text(content@, start as int, end as int),
{
    let ghost bytes = encode_utf8(content@);
    proof {
        encode_utf8_valid_utf8(content@);
        lemma_boundary_in_prefix(bytes, start as int, end as int);
    }
    let (head, _) = content.split_at(end);
    let (_, piece) = head.split_at(start);
    proof {
        assert(encode_utf8(piece@) =~= bytes.subrange(start as int, end as int));
        encode_utf8_decode_utf8(piece@);
    }
    piece
}

} // verus!
