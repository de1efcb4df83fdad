//! Byte-offset based operations on UTF-8 text.
use vstd::prelude::*;
use vstd::utf8::*;
use vstd::string::*;

verus! {

broadcast use vstd::utf8::group_utf8_lib;

/// The UTF-8 bytes of a character sequence.
pub open spec fn bytes_of(text: Seq<char>) -> Seq<u8> {
    encode_utf8(text)
}

/// The number of UTF-8 bytes of a character sequence.
pub open spec fn byte_len(text: Seq<char>) -> int {
    encode_utf8(text).len() as int
}

/// Whether `index` is a character boundary of `text`, counted in bytes.
pub open spec fn is_boundary(text: Seq<char>, index: int) -> bool {
    0 <= index <= byte_len(text) && is_char_boundary(encode_utf8(text), index)
}

/// The characters whose UTF-8 encoding is the bytes `start..end` of `text`.
pub open spec fn slice_bytes(text: Seq<char>, start: int, end: int) -> Seq<char> {
    decode_utf8(encode_utf8(text).subrange(start, end))
}

/// Whether `start..end` can be cut out of `text`: both ends are character
/// boundaries and `start <= end`.
pub open spec fn valid_slice(text: Seq<char>, start: int, end: int) -> bool {
    start <= end && is_boundary(text, start) && is_boundary(text, end)
}

/// Encoding distributes over concatenation.
pub proof fn lemma_encode_concat(a: Seq<char>, b: Seq<char>)
    ensures
        encode_utf8(a + b) == encode_utf8(a) + encode_utf8(b),
    decreases a.len(),
{
    if a.len() == 0 {
        assert(a + b =~= b);
    } else {
        lemma_encode_concat(a.drop_first(), b);
        assert((a + b).drop_first() =~= a.drop_first() + b);
        assert((a + b)[0] == a[0]);
        assert(encode_utf8(a + b) =~= encode_scalar(a[0] as u32) + encode_utf8(a.drop_first() + b));
    }
}

/// Cutting at a boundary of a whole text gives a boundary of its prefix.
proof fn lemma_boundary_in_prefix(b: Seq<u8>, end: int, i: int)
    requires
        valid_utf8(b),
        0 <= i <= end <= b.len(),
        is_char_boundary(b, end),
        is_char_boundary(b, i),
    ensures
        valid_utf8(b.subrange(0, end)),
        is_char_boundary(b.subrange(0, end), i),
{
    valid_utf8_split(b, end);
    let p = b.subrange(0, end);
    is_char_boundary_start_end_of_seq(p);
    if 0 < i < end {
        is_char_boundary_iff_not_is_continuation_byte(b, i);
        is_char_boundary_iff_not_is_continuation_byte(p, i);
        assert(p[i] == b[i]);
    }
}

/// The bytes `start..end` of `text` as a new string.
///
/// Panics in Rust if the ends are not character boundaries; `requires` leaves
/// such inputs out.
pub fn substring(text: &str, start: usize, end: usize) -> (r: String)
    requires
        valid_slice(text@, start as int, end as int),
    ensures
        r@ == slice_bytes(text@, start as int, end as int),
        bytes_of(r@) == bytes_of(text@).subrange(start as int, end as int),
{
    let ghost b = text.spec_bytes();
    proof {
        encode_utf8_valid_utf8(text@);
        lemma_boundary_in_prefix(b, end as int, start as int);
    }
    let (pre, _) = text.split_at(end);
    let (_, mid) = pre.split_at(start);
    proof {
        assert(mid.spec_bytes() =~= b.subrange(start as int, end as int));
        encode_utf8_decode_utf8(mid@);
    }
    mid.to_owned()
}

/// The bytes of `text` from `start` to its end, as a new string.
pub fn suffix_from(text: &str, start: usize) -> (r: String)
    requires
        is_boundary(text@, start as int),
    ensures
        r@ == slice_bytes(text@, start as int, byte_len(text@)),
{
    let ghost b = text.spec_bytes();
    let (_, post) = text.split_at(start);
    proof {
        assert(post.spec_bytes() =~= b.subrange(start as int, byte_len(text@)));
        encode_utf8_decode_utf8(post@);
    }
    post.to_owned()
}

/// `pre + middle + post`.
pub fn concat3(pre: &str, middle: &str, post: &str) -> (r: String)
    ensures
        r@ == pre@ + middle@ + post@,
        bytes_of(r@) == bytes_of(pre@) + bytes_of(middle@) + bytes_of(post@),
{
    let mut s = String::new();
    s.append(pre);
    s.append(middle);
    s.append(post);
    proof {
        assert(s@ =~= pre@ + middle@ + post@);
        lemma_encode_concat(pre@ + middle@, post@);
        lemma_encode_concat(pre@, middle@);
    }
    s
}

/// The length of a text in bytes.
pub fn text_len(text: &str) -> (r: usize)
    ensures
        r == byte_len(text@) as usize,
        r == byte_len(text@),
{
    let bytes = text.as_bytes();
    bytes.len()
}

/// Whether two texts are the same.
pub fn same_text(a: &str, b: &str) -> (r: bool)
    ensures
        r == (a@ == b@),
{
    let x = a.as_bytes();
    let y = b.as_bytes();
    if x.len() != y.len() {
        return false;
    }
    let mut i: usize = 0;
    while i < x.len()
        invariant
            x@ == a.spec_bytes(),
            y@ == b.spec_bytes(),
            x@.len() == y@.len(),
            i <= x@.len(),
            forall|j: int| 0 <= j < i ==> x@[j] == y@[j],
        decreases x.len() - i,
    {
        if x[i] != y[i] {
            return false;
        }
        i = i + 1;
    }
    proof {
        assert(x@ =~= y@);
        encode_utf8_decode_utf8(a@);
        encode_utf8_decode_utf8(b@);
    }
    true
}

/// A valid slice of a text has the bytes of its range.
pub proof fn lemma_slice_bytes(text: Seq<char>, a: int, b: int)
    requires
        valid_slice(text, a, b),
    ensures
        bytes_of(slice_bytes(text, a, b)) == bytes_of(text).subrange(a, b),
        byte_len(slice_bytes(text, a, b)) == b - a,
{
    let bs = bytes_of(text);
    encode_utf8_valid_utf8(text);
    valid_utf8_split(bs, b);
    let pre = bs.subrange(0, b);
    assert(is_char_boundary(pre, a)) by {
        is_char_boundary_start_end_of_seq(pre);
        if 0 < a < b {
            is_char_boundary_iff_not_is_continuation_byte(bs, a);
            is_char_boundary_iff_not_is_continuation_byte(pre, a);
            assert(pre[a] == bs[a]);
        }
    }
    valid_utf8_split(pre, a);
    assert(pre.subrange(a, pre.len() as int) =~= bs.subrange(a, b));
    decode_utf8_encode_utf8(bs.subrange(a, b));
}

/// Cutting a part out of a valid slice cuts it out of the text.
pub proof fn lemma_slice_of_slice(text: Seq<char>, a: int, b: int, x: int, y: int)
    requires
        valid_slice(text, a, b),
        0 <= x <= y <= b - a,
    ensures
        slice_bytes(slice_bytes(text, a, b), x, y) == slice_bytes(text, a + x, a + y),
{
    lemma_slice_bytes(text, a, b);
    assert(bytes_of(text).subrange(a, b).subrange(x, y) =~= bytes_of(text).subrange(a + x, a + y));
}

/// A boundary of a text inside a valid slice is a boundary of the slice.
pub proof fn lemma_boundary_in_slice(text: Seq<char>, a: int, b: int, x: int)
    requires
        valid_slice(text, a, b),
        is_boundary(text, x),
        a <= x <= b,
    ensures
        is_boundary(slice_bytes(text, a, b), x - a),
{
    let bs = bytes_of(text);
    lemma_slice_bytes(text, a, b);
    let sub = bs.subrange(a, b);
    let sl = slice_bytes(text, a, b);
    encode_utf8_valid_utf8(sl);
    encode_utf8_valid_utf8(text);
    is_char_boundary_start_end_of_seq(sub);
    if a < x < b {
        is_char_boundary_iff_not_is_continuation_byte(bs, x);
        is_char_boundary_iff_not_is_continuation_byte(sub, x - a);
        assert(sub[x - a] == bs[x]);
    }
}

} // verus!
