//! Small verified helpers over strings seen as sequences of characters.
use vstd::prelude::*;
use vstd::std_specs::iter::IteratorSpec;

verus! {

/// The characters of `s`, in order.
pub fn chars_of(s: &str) -> (r: Vec<char>)
    ensures
        r@ == s@,
{
    let n = s.unicode_len();
    let mut it = s.chars();
    let mut v: Vec<char> = Vec::new();
    while v.len() < n
        invariant
            v@ + it.remaining() == s@,
            n == s@.len(),
        decreases n - v.len(),
    {
        if let Some(c) = it.next() {
            v.push(c);
        }
    }
    v
}

/// The characters of `s` from position `from` up to, not including, `to`.
pub fn slice_of(s: &str, from: usize, to: usize) -> (r: String)
    requires
        from <= to <= s@.len(),
    ensures
        r@ == s@.subrange(from as int, to as int),
{
    String::from_str(s.substring_char(from, to))
}

} // verus!

verus! {

/// The character of a decimal digit.
pub open spec fn digit_char(d: nat) -> char {
    if d == 0 { '0' } else if d == 1 { '1' } else if d == 2 { '2' } else if d == 3 { '3' }
    else if d == 4 { '4' } else if d == 5 { '5' } else if d == 6 { '6' } else if d == 7 { '7' }
    else if d == 8 { '8' } else { '9' }
}

/// The decimal digits of `n`, most significant first, without leading zeros.
pub open spec fn digits(n: nat) -> Seq<char>
    decreases n,
{
    if n < 10 {
        seq![digit_char(n)]
    } else {
        digits(n / 10).push(digit_char(n % 10))
    }
}

/// The decimal digits of `n`, zero-padded on the left to at least `width`.
pub open spec fn padded(n: nat, width: nat) -> Seq<char> {
    let d = digits(n);
    if d.len() >= width {
        d
    } else {
        Seq::new((width - d.len()) as nat, |i: int| '0') + d
    }
}

fn digit_text(d: u64) -> (r: &'static str)
    requires
        d < 10,
    ensures
        r@ == seq![digit_char(d as nat)],
{
    proof {
        reveal_strlit("0");
        reveal_strlit("1");
        reveal_strlit("2");
        reveal_strlit("3");
        reveal_strlit("4");
        reveal_strlit("5");
        reveal_strlit("6");
        reveal_strlit("7");
        reveal_strlit("8");
        reveal_strlit("9");
    }
    let r = if d == 0 { "0" } else if d == 1 { "1" } else if d == 2 { "2" } else if d == 3 { "3" }
    else if d == 4 { "4" } else if d == 5 { "5" } else if d == 6 { "6" } else if d == 7 { "7" }
    else if d == 8 { "8" } else { "9" };
    assert(r@ =~= seq![digit_char(d as nat)]);
    r
}

/// `n` written in decimal.
pub fn decimal(n: u64) -> (r: String)
    ensures
        r@ == digits(n as nat),
    decreases n,
{
    if n < 10 {
        String::from_str(digit_text(n))
    } else {
        let r = decimal(n / 10).concat(digit_text(n % 10));
        assert(r@ =~= digits(n as nat));
        r
    }
}

/// `n` written in decimal, zero-padded on the left to at least `width` digits.
pub fn padded_decimal(n: u64, width: usize) -> (r: String)
    ensures
        r@ == padded(n as nat, width as nat),
{
    let d = decimal(n);
    let len = d.unicode_len();
    if len >= width {
        d
    } else {
        let mut r = String::new();
        let mut i: usize = 0;
        while i < width - len
            invariant
                i <= width - len,
                r@ == Seq::new(i as nat, |k: int| '0'),
            decreases width - len - i,
        {
            proof { reveal_strlit("0"); }
            r.append("0");
            i = i + 1;
            assert(r@ =~= Seq::new(i as nat, |k: int| '0'));
        }
        let r = r.concat(d.as_str());
        assert(r@ =~= padded(n as nat, width as nat));
        r
    }
}

} // verus!

verus! {

/// The last position before `end` that holds `c`.
pub open spec fn last_index(s: Seq<char>, c: char, end: int) -> Option<int>
    decreases end,
{
    if end <= 0 || end > s.len() {
        None
    } else if s[end - 1] == c {
        Some(end - 1)
    } else {
        last_index(s, c, end - 1)
    }
}

/// The last segment of a `/`-separated path.
pub open spec fn base_name(path: Seq<char>) -> Seq<char> {
    match last_index(path, '/', path.len() as int) {
        Some(i) => path.subrange(i + 1, path.len() as int),
        None => path,
    }
}

/// The text after the last `.` of a file name, where that `.` is not its
/// first character.
pub open spec fn extension(name: Seq<char>) -> Option<Seq<char>> {
    match last_index(name, '.', name.len() as int) {
        Some(i) => if i > 0 {
            Some(name.subrange(i + 1, name.len() as int))
        } else {
            None
        },
        None => None,
    }
}

/// A file name without its extension.
pub open spec fn stem(name: Seq<char>) -> Seq<char> {
    match last_index(name, '.', name.len() as int) {
        Some(i) => if i > 0 {
            name.subrange(0, i)
        } else {
            name
        },
        None => name,
    }
}

/// The last position in `s` that holds `c`.
pub fn find_last(s: &Vec<char>, c: char) -> (r: Option<usize>)
    ensures
        r matches Some(i) ==> last_index(s@, c, s@.len() as int) == Some(i as int),
        r is None ==> last_index(s@, c, s@.len() as int) is None,
        r matches Some(i) ==> i < s@.len(),
{
    let mut i = s.len();
    while i > 0
        invariant
            i <= s@.len(),
            last_index(s@, c, s@.len() as int) == last_index(s@, c, i as int),
        decreases i,
    {
        if s[i - 1] == c {
            return Some(i - 1);
        }
        i = i - 1;
    }
    None
}

/// The last segment of a `/`-separated path.
pub fn base_name_of(path: &str) -> (r: String)
    ensures
        r@ == base_name(path@),
{
    let chars = chars_of(path);
    match find_last(&chars, '/') {
        Some(i) => {
            let n = chars.len();
            assert(i < n);
            slice_of(path, i + 1, n)
        },
        None => String::from_str(path),
    }
}

/// The extension of a file name.
pub fn extension_of(name: &str) -> (r: Option<String>)
    ensures
        r matches Some(e) ==> extension(name@) == Some(e@),
        r is None ==> extension(name@) is None,
{
    let chars = chars_of(name);
    match find_last(&chars, '.') {
        Some(i) => if i > 0 {
            let n = chars.len();
            assert(i < n);
            Some(slice_of(name, i + 1, n))
        } else {
            None
        },
        None => None,
    }
}

/// A file name without its extension.
pub fn stem_of(name: &str) -> (r: String)
    ensures
        r@ == stem(name@),
{
    let chars = chars_of(name);
    match find_last(&chars, '.') {
        Some(i) => if i > 0 {
            slice_of(name, 0, i)
        } else {
            String::from_str(name)
        },
        None => String::from_str(name),
    }
}

/// Whether two texts are equal.
pub fn same_text(a: &str, b: &str) -> (r: bool)
    ensures
        r == (a@ == b@),
{
    let x = chars_of(a);
    let y = chars_of(b);
    if x.len() != y.len() {
        return false;
    }
    let mut i: usize = 0;
    while i < x.len()
        invariant
            x@ == a@,
            y@ == b@,
            x@.len() == y@.len(),
            i <= x@.len(),
            x@.subrange(0, i as int) == y@.subrange(0, i as int),
        decreases x@.len() - i,
    {
        if x[i] != y[i] {
            return false;
        }
        assert(x@.subrange(0, i + 1) == x@.subrange(0, i as int).push(x@[i as int]));
        assert(y@.subrange(0, i + 1) == y@.subrange(0, i as int).push(y@[i as int]));
        i = i + 1;
    }
    assert(x@ == x@.subrange(0, x@.len() as int));
    assert(y@ == y@.subrange(0, y@.len() as int));
    true
}

} // verus!

verus! {

/// `s` begins with `p`.
pub open spec fn begins_with(s: Seq<char>, p: Seq<char>) -> bool {
    p.len() <= s.len() && s.subrange(0, p.len() as int) == p
}

/// Whether `s` begins with `p`.
pub fn has_prefix(s: &Vec<char>, p: &Vec<char>) -> (r: bool)
    ensures
        r == begins_with(s@, p@),
{
    if p.len() > s.len() {
        return false;
    }
    let mut i: usize = 0;
    while i < p.len()
        invariant
            p@.len() <= s@.len(),
            i <= p@.len(),
            s@.subrange(0, i as int) == p@.subrange(0, i as int),
        decreases p@.len() - i,
    {
        if s[i] != p[i] {
            assert(s@.subrange(0, p@.len() as int)[i as int] != p@[i as int]);
            return false;
        }
        assert(s@.subrange(0, i + 1) == s@.subrange(0, i as int).push(s@[i as int]));
        assert(p@.subrange(0, i + 1) == p@.subrange(0, i as int).push(p@[i as int]));
        i = i + 1;
    }
    assert(p@.subrange(0, i as int) == p@);
    true
}

/// A `..` segment of a `/`-separated path starts at `i`.
pub open spec fn parent_segment_at(s: Seq<char>, i: int) -> bool {
    &&& 0 <= i
    &&& i + 2 <= s.len()
    &&& s[i] == '.'
    &&& s[i + 1] == '.'
    &&& (i == 0 || s[i - 1] == '/')
    &&& (i + 2 == s.len() || s[i + 2] == '/')
}

/// The path climbs out of its directory through a `..` segment.
pub open spec fn climbs(s: Seq<char>) -> bool {
    exists|i: int| parent_segment_at(s, i)
}

/// Whether the path holds a `..` segment.
pub fn has_parent_segment(s: &Vec<char>) -> (r: bool)
    ensures
        r == climbs(s@),
{
    let n = s.len();
    if n < 2 {
        return false;
    }
    let mut i: usize = 0;
    while i <= n - 2
        invariant
            n == s@.len(),
            n >= 2,
            forall|j: int| 0 <= j < i ==> !parent_segment_at(s@, j),
        decreases n - i,
    {
        if s[i] == '.' && s[i + 1] == '.' && (i == 0 || s[i - 1] == '/') && (i + 2 == n || s[i
            + 2] == '/') {
            assert(parent_segment_at(s@, i as int));
            return true;
        }
        i = i + 1;
    }
    false
}

} // verus!

verus! {

/// The path without its trailing `/` characters.
pub open spec fn trim_slashes(path: Seq<char>) -> Seq<char>
    decreases path.len(),
{
    if path.len() > 0 && path.last() == '/' {
        trim_slashes(path.drop_last())
    } else {
        path
    }
}

/// The last component of a `/`-separated path, trailing `/` ignored.
pub open spec fn file_name(path: Seq<char>) -> Seq<char> {
    base_name(trim_slashes(path))
}

/// The last component of a `/`-separated path, trailing `/` ignored.
pub fn file_name_of(path: &str) -> (r: String)
    ensures
        r@ == file_name(path@),
{
    let chars = chars_of(path);
    let mut end = chars.len();
    proof {
        assert(chars@.subrange(0, end as int) == chars@);
    }
    while end > 0 && chars[end - 1] == '/'
        invariant
            end <= chars@.len(),
            chars@ == path@,
            trim_slashes(path@) == trim_slashes(chars@.subrange(0, end as int)),
        decreases end,
    {
        proof {
            assert(chars@.subrange(0, end as int).drop_last() == chars@.subrange(0, end - 1));
        }
        end = end - 1;
    }
    let trimmed = slice_of(path, 0, end);
    assert(trimmed@ == trim_slashes(path@));
    base_name_of(trimmed.as_str())
}

} // verus!
