//! Separating a document into its front-matter block and its body.
use vstd::prelude::*;
use crate::text::{chars_of, slice_of};

verus! {

/// `s` holds the delimiter `---` at position `i`.
pub open spec fn delimiter_at(s: Seq<char>, i: int) -> bool {
    &&& 0 <= i
    &&& i + 3 <= s.len()
    &&& s[i] == '-'
    &&& s[i + 1] == '-'
    &&& s[i + 2] == '-'
}

/// The first position at or after `i` where the delimiter stands.
pub open spec fn find_delimiter(s: Seq<char>, i: int) -> Option<int>
    decreases s.len() - i,
{
    if i < 0 || i + 3 > s.len() {
        None
    } else if delimiter_at(s, i) {
        Some(i)
    } else {
        find_delimiter(s, i + 1)
    }
}

/// Where the closing delimiter of a document's front matter starts, if the
/// document opens with the delimiter and holds a second one after it.
pub open spec fn closing_delimiter(s: Seq<char>) -> Option<int> {
    if delimiter_at(s, 0) {
        find_delimiter(s, 3)
    } else {
        None
    }
}

/// The document split into (body, front matter). The front matter runs from
/// the start through the closing delimiter; without a delimiter pair the body
/// is the whole document and the front matter is empty.
pub open spec fn split_spec(s: Seq<char>) -> (Seq<char>, Seq<char>) {
    match closing_delimiter(s) {
        Some(j) => (s.subrange(j + 3, s.len() as int), s.subrange(0, j + 3)),
        None => (s, Seq::empty()),
    }
}

proof fn lemma_find_delimiter_bounds(s: Seq<char>, i: int)
    ensures
        find_delimiter(s, i) matches Some(j) ==> i <= j && delimiter_at(s, j),
    decreases s.len() - i,
{
    if !(i < 0 || i + 3 > s.len()) && !delimiter_at(s, i) {
        lemma_find_delimiter_bounds(s, i + 1);
    }
}

/// Splits `content` into `(body, front_matter)`.
pub fn split_content(content: &str) -> (r: (String, String))
    ensures
        r.0@ == split_spec(content@).0,
        r.1@ == split_spec(content@).1,
        r.1@.len() == 0 <==> closing_delimiter(content@) is None,
{
    let chars = chars_of(content);
    let n = chars.len();
    if !(n >= 3 && chars[0] == '-' && chars[1] == '-' && chars[2] == '-') {
        return (String::from_str(content), String::new());
    }
    let mut i: usize = 3;
    while i <= n - 3
        invariant
            chars@ == content@,
            n == chars@.len(),
            3 <= i,
            n >= 3,
            delimiter_at(content@, 0),
            find_delimiter(content@, 3) == find_delimiter(content@, i as int),
        decreases n - i,
    {
        if chars[i] == '-' && chars[i + 1] == '-' && chars[i + 2] == '-' {
            proof {
                lemma_find_delimiter_bounds(content@, i as int);
            }
            let body = slice_of(content, i + 3, n);
            let front = slice_of(content, 0, i + 3);
            return (body, front);
        }
        i = i + 1;
    }
    (String::from_str(content), String::new())
}

/// A document without the delimiter pair has empty front matter, and one
/// with the pair has front matter holding at least both delimiters; so a
/// missing pair is always told apart from a present block.
pub proof fn lemma_front_matter_empty_iff_no_pair(s: Seq<char>)
    ensures
        closing_delimiter(s) is None <==> split_spec(s).1.len() == 0,
        closing_delimiter(s) is Some ==> split_spec(s).1.len() >= 6,
{
    if delimiter_at(s, 0) {
        lemma_find_delimiter_bounds(s, 3);
    }
}

} // verus!
