use vstd::prelude::*;
use vstd::string::StringSliceAdditionalSpecFns;
use vstd::utf8::is_continuation_byte;
use vstd::utf8::valid_utf8;
use vstd::utf8::decode_utf8;

verus! {

/// The number of UTF-8 leading (non-continuation) bytes among the first
/// `upto` bytes of `b` — for valid UTF-8, the number of characters encoded
/// before byte offset `upto`, each multi-byte character counted once.
pub open spec fn leading_count(b: Seq<u8>, upto: int) -> nat
    decreases upto,
{
    if upto <= 0 || upto > b.len() {
        0
    } else {
        leading_count(b, upto - 1) + if is_continuation_byte(b[upto - 1]) {
            0nat
        } else {
            1nat
        }
    }
}

/// Converts a byte-offset span within `line` into a character-offset span for
/// host display: each offset becomes the number of characters encoded before
/// it, so multi-byte characters count once, not per encoded byte.
pub fn char_span(line: &str, word_start: usize, word_end: usize) -> (r: (usize, usize))
    requires
        word_start <= word_end <= line.spec_bytes().len(),
    ensures
        r.0 == leading_count(line.spec_bytes(), word_start as int),
        r.1 == leading_count(line.spec_bytes(), word_end as int),
        r.0 <= r.1 <= line.spec_bytes().len(),
{
    let bytes = line.as_bytes();
    let n = bytes.len();
    let mut count: usize = 0;
    let mut i: usize = 0;
    let mut at_start: usize = 0;
    while i < word_end
        invariant
            i <= word_end <= n,
            n == bytes@.len(),
            bytes@ == line.spec_bytes(),
            count == leading_count(bytes@, i as int),
            count <= i,
            word_start < i ==> at_start == leading_count(bytes@, word_start as int),
            i <= word_start ==> at_start == 0,
            at_start <= count,
        decreases word_end - i,
    {
        if i == word_start {
            at_start = count;
        }
        let b = *vstd::slice::slice_index_get(bytes, i);
        if b < 0x80 || b > 0xbf {
            count = count + 1;
        }
        i = i + 1;
    }
    if i == word_start {
        at_start = count;
    }
    proof {
        lemma_leading_count_monotone(bytes@, word_start as int, word_end as int);
        lemma_leading_count_bounded(bytes@, word_end as int);
    }
    (at_start, count)
}

/// The character count before a later offset is never smaller than the one
/// before an earlier offset.
proof fn lemma_leading_count_monotone(b: Seq<u8>, i: int, j: int)
    requires
        0 <= i <= j <= b.len(),
    ensures
        leading_count(b, i) <= leading_count(b, j),
    decreases j - i,
{
    if i < j {
        lemma_leading_count_monotone(b, i, j - 1);
    }
}

/// At most one character is counted per byte.
proof fn lemma_leading_count_bounded(b: Seq<u8>, i: int)
    requires
        0 <= i <= b.len(),
    ensures
        leading_count(b, i) <= i,
        leading_count(b, i) <= b.len(),
    decreases i,
{
    if i > 0 {
        lemma_leading_count_bounded(b, i - 1);
    }
}

/// The count depends only on the bytes before the offset.
proof fn lemma_leading_count_agree(s: Seq<u8>, t: Seq<u8>, i: int)
    requires
        0 <= i <= s.len(),
        i <= t.len(),
        forall|j: int| 0 <= j < i ==> s[j] == t[j],
    ensures
        leading_count(s, i) == leading_count(t, i),
    decreases i,
{
    if i > 0 {
        lemma_leading_count_agree(s, t, i - 1);
    }
}

/// The count over a concatenation is the sum of the counts over the parts.
proof fn lemma_leading_count_concat(a: Seq<u8>, c: Seq<u8>)
    ensures
        leading_count(a + c, a.len() + c.len() as int) == leading_count(a, a.len() as int)
            + leading_count(c, c.len() as int),
    decreases c.len(),
{
    if c.len() == 0 {
        assert(a + c =~= a);
        lemma_leading_count_agree(a + c, a, a.len() as int);
    } else {
        let c0 = c.drop_last();
        lemma_leading_count_concat(a, c0);
        lemma_leading_count_agree(a + c, a + c0, a.len() + c.len() - 1);
        lemma_leading_count_agree(c, c0, c.len() - 1);
        assert((a + c)[a.len() + c.len() - 1] == c.last());
    }
}

/// A well-formed UTF-8 encoding of one scalar holds exactly one leading byte.
proof fn lemma_leading_count_first_scalar(b: Seq<u8>)
    requires
        vstd::utf8::valid_first_scalar(b),
    ensures
        leading_count(
            vstd::utf8::take_first_scalar(b),
            vstd::utf8::length_of_first_scalar(b),
        ) == 1,
{
    let len = vstd::utf8::length_of_first_scalar(b);
    let t = vstd::utf8::take_first_scalar(b);
    assert(leading_count(t, 0) == 0);
    assert(!is_continuation_byte(t[0]));
    assert(leading_count(t, 1) == 1);
    if len >= 2 {
        assert(is_continuation_byte(t[1]));
        assert(leading_count(t, 2) == 1);
    }
    if len >= 3 {
        assert(is_continuation_byte(t[2]));
        assert(leading_count(t, 3) == 1);
    }
    if len >= 4 {
        assert(is_continuation_byte(t[3]));
        assert(leading_count(t, 4) == 1);
    }
}

/// For valid UTF-8 text, the leading bytes are exactly the characters: the
/// count over the whole encoding equals the number of decoded characters.
pub proof fn lemma_leading_count_is_char_count(b: Seq<u8>)
    requires
        valid_utf8(b),
    ensures
        leading_count(b, b.len() as int) == decode_utf8(b).len(),
    decreases b.len(),
{
    if b.len() != 0 {
        let t = vstd::utf8::take_first_scalar(b);
        let rest = vstd::utf8::pop_first_scalar(b);
        assert(b =~= t + rest);
        lemma_leading_count_concat(t, rest);
        lemma_leading_count_agree(b, t + rest, b.len() as int);
        lemma_leading_count_first_scalar(b);
        lemma_leading_count_is_char_count(rest);
    }
}

/// What `char_span` computes, grounded in decoding: for valid UTF-8 text and
/// a byte offset on a character boundary, the number of leading bytes before
/// the offset is the number of characters encoded before it.
pub proof fn lemma_char_offset_decodes(b: Seq<u8>, i: int)
    requires
        valid_utf8(b),
        0 <= i <= b.len(),
        vstd::utf8::is_char_boundary(b, i),
    ensures
        leading_count(b, i) == decode_utf8(b.subrange(0, i)).len(),
{
    vstd::utf8::valid_utf8_split(b, i);
    let prefix = b.subrange(0, i);
    lemma_leading_count_agree(b, prefix, i);
    lemma_leading_count_is_char_count(prefix);
}

/// Relies on `String::from_utf8`: decodes the bytes as UTF-8 text, and
/// reports a failure exactly when the bytes are not valid UTF-8.
#[verifier::external_body]
pub(crate) fn bytes_to_string(bytes: Vec<u8>) -> (r: Option<String>)
    ensures
        r matches Some(s) ==> valid_utf8(bytes@) && s@ == decode_utf8(bytes@),
        r is None ==> !valid_utf8(bytes@),
{
    String::from_utf8(bytes).ok()
}

} // verus!
