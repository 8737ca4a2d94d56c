//! Byte-string primitives shared by the header grammar, the payload builder
//! and the key-format code: searching, trimming, comparing and case folding.

use vstd::prelude::*;
use vstd::utf8::decode_utf8;
use vstd::utf8::encode_utf8_decode_utf8;
use vstd::utf8::valid_utf8;

verus! {

/// The four bytes the header grammar treats as insignificant whitespace:
/// space, horizontal tab, carriage return and line feed.
pub open spec fn is_whitespace(b: u8) -> bool {
    b == 0x20 || b == 0x09 || b == 0x0d || b == 0x0a
}

/// Upper-case form of one byte under ASCII case folding.
pub open spec fn ascii_upper(b: u8) -> u8 {
    if 0x61 <= b <= 0x7a {
        (b - 0x20) as u8
    } else {
        b
    }
}

/// Lower-case form of one byte under ASCII case folding.
pub open spec fn ascii_lower(b: u8) -> u8 {
    if 0x41 <= b <= 0x5a {
        (b + 0x20) as u8
    } else {
        b
    }
}

/// `s` with every ASCII letter replaced by its upper-case form.
pub open spec fn uppercased(s: Seq<u8>) -> Seq<u8> {
    Seq::new(s.len(), |i: int| ascii_upper(s[i]))
}

/// Equality of two byte strings up to the case of ASCII letters.
pub open spec fn eq_ignore_case(a: Seq<u8>, b: Seq<u8>) -> bool {
    &&& a.len() == b.len()
    &&& forall|i: int| 0 <= i < a.len() ==> ascii_lower(#[trigger] a[i]) == ascii_lower(b[i])
}

/// Position of the first occurrence of `b` in `s` at or after `from`,
/// or `s.len()` when there is none.
pub open spec fn first_index_of(s: Seq<u8>, b: u8, from: int) -> int
    decreases s.len() - from,
{
    if from < 0 || from >= s.len() {
        s.len() as int
    } else if s[from] == b {
        from
    } else {
        first_index_of(s, b, from + 1)
    }
}

/// Position of the first byte of `s` at or after `from` that is not
/// whitespace, or `s.len()` when only whitespace is left.
pub open spec fn skip_whitespace(s: Seq<u8>, from: int) -> int
    decreases s.len() - from,
{
    if from < 0 || from >= s.len() {
        s.len() as int
    } else if !is_whitespace(s[from]) {
        from
    } else {
        skip_whitespace(s, from + 1)
    }
}

/// `first_index_of` is the unique position that holds `b` with no earlier
/// occurrence after `from`.
pub proof fn lemma_first_index_of(s: Seq<u8>, b: u8, from: int, at: int)
    requires
        0 <= from <= at <= s.len(),
        forall|j: int| from <= j < at ==> s[j] != b,
        at < s.len() ==> s[at] == b,
    ensures
        first_index_of(s, b, from) == at,
    decreases at - from,
{
    if from < at {
        lemma_first_index_of(s, b, from + 1, at);
    }
}

/// What `first_index_of` guarantees of its result.
pub proof fn lemma_first_index_of_props(s: Seq<u8>, b: u8, from: int)
    requires
        0 <= from <= s.len(),
    ensures
        from <= first_index_of(s, b, from) <= s.len(),
        first_index_of(s, b, from) < s.len() ==> s[first_index_of(s, b, from)] == b,
        forall|j: int| from <= j < first_index_of(s, b, from) ==> s[j] != b,
    decreases s.len() - from,
{
    if from < s.len() && s[from] != b {
        lemma_first_index_of_props(s, b, from + 1);
    }
}

/// `skip_whitespace` is the unique position reached by stepping over a run
/// of whitespace that starts at `from`.
pub proof fn lemma_skip_whitespace(s: Seq<u8>, from: int, at: int)
    requires
        0 <= from <= at <= s.len(),
        forall|j: int| from <= j < at ==> is_whitespace(s[j]),
        at < s.len() ==> !is_whitespace(s[at]),
    ensures
        skip_whitespace(s, from) == at,
    decreases at - from,
{
    if from < at {
        lemma_skip_whitespace(s, from + 1, at);
    }
}

/// What `skip_whitespace` guarantees of its result.
pub proof fn lemma_skip_whitespace_props(s: Seq<u8>, from: int)
    requires
        0 <= from <= s.len(),
    ensures
        from <= skip_whitespace(s, from) <= s.len(),
        skip_whitespace(s, from) < s.len() ==> !is_whitespace(s[skip_whitespace(s, from)]),
        forall|j: int| from <= j < skip_whitespace(s, from) ==> is_whitespace(s[j]),
    decreases s.len() - from,
{
    if from < s.len() && is_whitespace(s[from]) {
        lemma_skip_whitespace_props(s, from + 1);
    }
}

/// True exactly for the whitespace bytes.
pub fn byte_is_whitespace(b: u8) -> (r: bool)
    ensures
        r == is_whitespace(b),
{
    b == 0x20 || b == 0x09 || b == 0x0d || b == 0x0a
}

/// Finds the first `b` in `s` at or after `from`.
pub fn find_byte(s: &[u8], b: u8, from: usize) -> (at: usize)
    requires
        from <= s@.len(),
    ensures
        at == first_index_of(s@, b, from as int),
        from <= at <= s@.len(),
        at < s@.len() ==> s@[at as int] == b,
        forall|j: int| from <= j < at ==> s@[j] != b,
{
    let mut i: usize = from;
    while i < s.len() && s[i] != b
        invariant
            from <= i <= s@.len(),
            forall|j: int| from <= j < i ==> s@[j] != b,
        decreases s@.len() - i,
    {
        i += 1;
    }
    proof {
        lemma_first_index_of(s@, b, from as int, i as int);
    }
    i
}

/// Steps over the whitespace that starts at `from`.
pub fn skip_whitespace_from(s: &[u8], from: usize) -> (at: usize)
    requires
        from <= s@.len(),
    ensures
        at == skip_whitespace(s@, from as int),
        from <= at <= s@.len(),
        at < s@.len() ==> !is_whitespace(s@[at as int]),
        forall|j: int| from <= j < at ==> is_whitespace(s@[j]),
{
    let mut i: usize = from;
    while i < s.len() && byte_is_whitespace(s[i])
        invariant
            from <= i <= s@.len(),
            forall|j: int| from <= j < i ==> is_whitespace(s@[j]),
        decreases s@.len() - i,
    {
        i += 1;
    }
    proof {
        lemma_skip_whitespace(s@, from as int, i as int);
    }
    i
}

/// Byte-for-byte equality of two slices.
pub fn slice_eq(a: &[u8], b: &[u8]) -> (r: bool)
    ensures
        r == (a@ == b@),
{
    if a.len() != b.len() {
        return false;
    }
    let mut i: usize = 0;
    while i < a.len()
        invariant
            a@.len() == b@.len(),
            i <= a@.len(),
            forall|j: int| 0 <= j < i ==> a@[j] == b@[j],
        decreases a@.len() - i,
    {
        if a[i] != b[i] {
            return false;
        }
        i += 1;
    }
    assert(a@ =~= b@);
    true
}

/// The text that `bytes` are read as: the text that they encode in UTF-8,
/// with a replacement character in the place of whatever encodes none.
pub uninterp spec fn lossy_text(bytes: Seq<u8>) -> Seq<char>;

/// The text that `bytes` stand for: the text that they encode where they
/// are valid UTF-8, and else what they are read as.
pub open spec fn text_of(bytes: Seq<u8>) -> Seq<char> {
    if valid_utf8(bytes) {
        decode_utf8(bytes)
    } else {
        lossy_text(bytes)
    }
}

/// Reads bytes as text.
///
/// Trusted: calls `String::from_utf8_lossy` of std, which hands valid UTF-8
/// back as the text it encodes and puts U+FFFD in the place of invalid
/// sequences. The contract names the result [`lossy_text`] and claims what
/// it is on valid UTF-8.
#[verifier::external_body]
pub(crate) fn text_from_bytes(bytes: &[u8]) -> (r: String)
    ensures
        r@ == lossy_text(bytes@),
        valid_utf8(bytes@) ==> r@ == decode_utf8(bytes@),
{
    String::from_utf8_lossy(bytes).into_owned()
}

/// Equality of two texts.
pub fn str_eq(a: &str, b: &str) -> (r: bool)
    ensures
        r == (a@ == b@),
{
    let same: bool = slice_eq(a.as_bytes(), b.as_bytes());
    proof {
        // A text is determined by its UTF-8 encoding.
        encode_utf8_decode_utf8(a@);
        encode_utf8_decode_utf8(b@);
    }
    same
}

/// Lower-case form of one byte under ASCII case folding.
pub fn byte_to_ascii_lower(b: u8) -> (r: u8)
    ensures
        r == ascii_lower(b),
{
    if 0x41 <= b && b <= 0x5a {
        b + 0x20
    } else {
        b
    }
}

/// Equality of two slices up to the case of ASCII letters.
pub fn slice_eq_ignore_case(a: &[u8], b: &[u8]) -> (r: bool)
    ensures
        r == eq_ignore_case(a@, b@),
{
    if a.len() != b.len() {
        return false;
    }
    let mut i: usize = 0;
    while i < a.len()
        invariant
            a@.len() == b@.len(),
            i <= a@.len(),
            forall|j: int| 0 <= j < i ==> ascii_lower(#[trigger] a@[j]) == ascii_lower(b@[j]),
        decreases a@.len() - i,
    {
        if byte_to_ascii_lower(a[i]) != byte_to_ascii_lower(b[i]) {
            return false;
        }
        i += 1;
    }
    true
}

/// A copy of `s` with every ASCII letter in upper case.
pub fn to_ascii_uppercase(s: &[u8]) -> (r: Vec<u8>)
    ensures
        r@ == uppercased(s@),
{
    let mut out: Vec<u8> = Vec::new();
    let mut i: usize = 0;
    while i < s.len()
        invariant
            i <= s@.len(),
            out@.len() == i,
            forall|j: int| 0 <= j < i ==> out@[j] == ascii_upper(s@[j]),
        decreases s@.len() - i,
    {
        let b: u8 = s[i];
        if 0x61 <= b && b <= 0x7a {
            out.push(b - 0x20);
        } else {
            out.push(b);
        }
        i += 1;
    }
    assert(out@ =~= uppercased(s@));
    out
}

} // verus!
