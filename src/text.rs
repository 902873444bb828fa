//! Byte-range slicing of the text that a command returns.
use vstd::prelude::*;
use vstd::utf8::*;
use vstd::string::*;

verus! {

broadcast use {
    encode_utf8_valid_utf8,
    encode_utf8_decode_utf8,
    is_char_boundary_start_end_of_seq,
    is_char_boundary_iff_not_is_continuation_byte,
    valid_utf8_split,
};

/// True when `[start, end)` is a range of whole characters of the UTF-8 encoding of `text`.
pub open spec fn range_in_text(text: Seq<char>, start: int, end: int) -> bool {
    let bytes = encode_utf8(text);
    &&& 0 <= start <= end <= bytes.len()
    &&& is_char_boundary(bytes, start)
    &&& is_char_boundary(bytes, end)
}

/// The characters that the bytes `[start, end)` of `text` encode, or nothing when the range
/// does not lie on character boundaries within the text.
pub open spec fn slice_or_empty(text: Seq<char>, start: int, end: int) -> Seq<char> {
    if range_in_text(text, start, end) {
        decode_utf8(encode_utf8(text).subrange(start, end))
    } else {
        Seq::empty()
    }
}

/// Copies the bytes `[start, end)` of `text` into a new string. A range that is reversed,
/// reaches past the end, or splits a character gives the empty string.
pub fn text_in_range(text: &str, start: usize, end: usize) -> (r: String)
    ensures
        r@ == slice_or_empty(text@, start as int, end as int),
        range_in_text(text@, start as int, end as int) ==> encode_utf8(r@) == encode_utf8(
            text@,
        ).subrange(start as int, end as int),
{
    if start > end || !text.is_char_boundary(start) || !text.is_char_boundary(end) {
        return String::new();
    }
    let ghost bytes = text.spec_bytes();
    let (_, tail) = text.split_at(start);
    let len = end - start;
    proof {
        let tb = tail.spec_bytes();
        assert(tb =~= bytes.subrange(start as int, bytes.len() as int));
        if end < bytes.len() {
            assert(tb[len as int] == bytes[end as int]);
            assert(is_continuation_byte(tb[len as int]) == is_continuation_byte(
                bytes[end as int],
            ));
            assert(is_char_boundary(tb, len as int));
        } else {
            assert(tb.len() == len);
            assert(is_char_boundary(tb, tb.len() as int));
        }
    }
    let (middle, _) = tail.split_at(len);
    proof {
        assert(middle.spec_bytes() =~= bytes.subrange(start as int, end as int));
    }
    middle.to_owned()
}

} // verus!
