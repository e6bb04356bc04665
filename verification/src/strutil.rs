//! Small verified string helpers: equality of string slices and trimming of
//! XML whitespace around element text.

use vstd::prelude::*;

verus! {

/// The four whitespace characters of XML.
pub open spec fn is_xml_whitespace(c: char) -> bool {
    c == ' ' || c == '\t' || c == '\n' || c == '\r'
}

/// Number of leading whitespace characters of `s`.
pub open spec fn leading_ws(s: Seq<char>) -> int
    decreases s.len(),
{
    if s.len() == 0 || !is_xml_whitespace(s[0]) {
        0
    } else {
        1 + leading_ws(s.drop_first())
    }
}

/// Number of trailing whitespace characters of `s`.
pub open spec fn trailing_ws(s: Seq<char>) -> int
    decreases s.len(),
{
    if s.len() == 0 || !is_xml_whitespace(s.last()) {
        0
    } else {
        1 + trailing_ws(s.drop_last())
    }
}

/// `s` with leading and trailing XML whitespace removed.
pub open spec fn trim_spec(s: Seq<char>) -> Seq<char> {
    if leading_ws(s) == s.len() {
        Seq::empty()
    } else {
        s.subrange(leading_ws(s), s.len() - trailing_ws(s))
    }
}

/// `leading_ws` is determined by any witness index: if everything before `i`
/// is whitespace and position `i` is not (or is the end), then `i` is the count.
proof fn lemma_leading_ws_characterization(s: Seq<char>, i: int)
    requires
        0 <= i <= s.len(),
        forall|j: int| 0 <= j < i ==> is_xml_whitespace(s[j]),
        i < s.len() ==> !is_xml_whitespace(s[i]),
    ensures
        leading_ws(s) == i,
    decreases s.len(),
{
    if s.len() != 0 && is_xml_whitespace(s[0]) {
        assert forall|j: int| 0 <= j < i - 1 implies is_xml_whitespace(s.drop_first()[j]) by {
            assert(s.drop_first()[j] == s[j + 1]);
        }
        lemma_leading_ws_characterization(s.drop_first(), i - 1);
    }
}

proof fn lemma_trailing_ws_characterization(s: Seq<char>, i: int)
    requires
        0 <= i <= s.len(),
        forall|j: int| s.len() - i <= j < s.len() ==> is_xml_whitespace(s[j]),
        i < s.len() ==> !is_xml_whitespace(s[s.len() - i - 1]),
    ensures
        trailing_ws(s) == i,
    decreases s.len(),
{
    if s.len() != 0 && is_xml_whitespace(s.last()) {
        assert forall|j: int| s.drop_last().len() - (i - 1) <= j < s.drop_last().len()
            implies is_xml_whitespace(s.drop_last()[j]) by {
            assert(s.drop_last()[j] == s[j]);
        }
        lemma_trailing_ws_characterization(s.drop_last(), i - 1);
    }
}

/// Equality of two string slices, decided character by character.
pub fn str_eq(a: &str, b: &str) -> (r: bool)
    ensures
        r == (a@ == b@),
{
    let a_len = a.unicode_len();
    let b_len = b.unicode_len();
    if a_len != b_len {
        return false;
    }
    let mut i: usize = 0;
    while i < a_len
        invariant
            a_len == a@.len(),
            b_len == b@.len(),
            a_len == b_len,
            0 <= i <= a_len,
            forall|j: int| 0 <= j < i ==> a@[j] == b@[j],
        decreases a_len - i,
    {
        if a.get_char(i) != b.get_char(i) {
            return false;
        }
        i = i + 1;
    }
    proof {
        assert(a@ =~= b@);
    }
    true
}

/// `s` with leading and trailing XML whitespace removed.
pub fn trim_xml_ws(s: &str) -> (r: String)
    ensures
        r@ == trim_spec(s@),
{
    let len = s.unicode_len();
    let mut start: usize = 0;
    while start < len && is_ws_char(s.get_char(start))
        invariant
            len == s@.len(),
            0 <= start <= len,
            forall|j: int| 0 <= j < start ==> is_xml_whitespace(s@[j]),
        decreases len - start,
    {
        start = start + 1;
    }
    if start == len {
        proof {
            lemma_leading_ws_characterization(s@, len as int);
        }
        return String::new();
    }
    proof {
        lemma_leading_ws_characterization(s@, start as int);
    }
    let mut end: usize = len;
    while end > start && is_ws_char(s.get_char(end - 1))
        invariant
            len == s@.len(),
            0 <= start <= end <= len,
            start < len,
            !is_xml_whitespace(s@[start as int]),
            forall|j: int| end <= j < len ==> is_xml_whitespace(s@[j]),
        decreases end,
    {
        end = end - 1;
    }
    proof {
        lemma_trailing_ws_characterization(s@, (len - end) as int);
    }
    let piece = s.substring_char(start, end);
    String::from_str(piece)
}

/// Whether `c` is XML whitespace.
fn is_ws_char(c: char) -> (r: bool)
    ensures
        r == is_xml_whitespace(c),
{
    c == ' ' || c == '\t' || c == '\n' || c == '\r'
}

} // verus!
