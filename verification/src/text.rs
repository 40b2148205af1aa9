//! Text helpers over the character model of strings.
//!
//! Every contract here speaks of `Seq<char>`, the view of `str` and `String`.

use vstd::prelude::*;
use vstd::string::StringSliceAdditionalSpecFns;

verus! {

/// Whether `pat` stands in `hay` starting at position `i`.
pub open spec fn occurs_at(hay: Seq<char>, pat: Seq<char>, i: int) -> bool {
    0 <= i && i + pat.len() <= hay.len() && hay.subrange(i, i + pat.len()) == pat
}

/// Whether `pat` stands somewhere in `hay`.
pub open spec fn contains_text(hay: Seq<char>, pat: Seq<char>) -> bool {
    exists|i: int| occurs_at(hay, pat, i)
}

/// Whether `i` is the first position at or after `from` where `pat` stands in `hay`.
pub open spec fn first_occurrence(hay: Seq<char>, pat: Seq<char>, from: int, i: int) -> bool {
    from <= i && occurs_at(hay, pat, i) && forall|j: int| from <= j < i ==> !occurs_at(hay, pat, j)
}

/// Whether `hay` begins with `pat`.
pub open spec fn starts_with_text(hay: Seq<char>, pat: Seq<char>) -> bool {
    occurs_at(hay, pat, 0)
}

/// Whether `hay` ends with `pat`.
pub open spec fn ends_with_text(hay: Seq<char>, pat: Seq<char>) -> bool {
    occurs_at(hay, pat, hay.len() - pat.len())
}

/// What follows the last `sep` of `s`; all of `s` if it holds none.
pub open spec fn last_segment(s: Seq<char>, sep: char) -> Seq<char>
    decreases s.len(),
{
    if s.len() == 0 || s.last() == sep {
        Seq::empty()
    } else {
        last_segment(s.drop_last(), sep).push(s.last())
    }
}

/// `s` without `pat` at its end, as often as it stands there.
pub open spec fn without_suffix(s: Seq<char>, pat: Seq<char>) -> Seq<char>
    decreases s.len(),
{
    if pat.len() > 0 && ends_with_text(s, pat) {
        without_suffix(s.take(s.len() - pat.len()), pat)
    } else {
        s
    }
}

/// The text of an optional string.
pub open spec fn opt_text(o: Option<String>) -> Option<Seq<char>> {
    match o {
        Some(s) => Some(s@),
        None => None,
    }
}

/// What `char::is_whitespace` answers for `c`: membership in Unicode's White_Space set.
pub uninterp spec fn white_space(c: char) -> bool;

/// What `str::to_lowercase` returns for the text `s`.
pub uninterp spec fn lowercase_of(s: Seq<char>) -> Seq<char>;

/// Whether every character of `s` is white space.
pub open spec fn all_white_space(s: Seq<char>) -> bool {
    forall|i: int| 0 <= i < s.len() ==> white_space(#[trigger] s[i])
}

/// `s` without its leading white space.
pub open spec fn trimmed_start(s: Seq<char>) -> Seq<char>
    decreases s.len(),
{
    if s.len() > 0 && white_space(s[0]) {
        trimmed_start(s.drop_first())
    } else {
        s
    }
}

/// `s` without its trailing white space.
pub open spec fn trimmed_end(s: Seq<char>) -> Seq<char>
    decreases s.len(),
{
    if s.len() > 0 && white_space(s.last()) {
        trimmed_end(s.drop_last())
    } else {
        s
    }
}

/// `s` without its leading and trailing white space.
pub open spec fn trimmed(s: Seq<char>) -> Seq<char> {
    trimmed_end(trimmed_start(s))
}

/// The decimal digits of `n`, most significant first; `"0"` for zero.
pub open spec fn decimal_digits(n: nat) -> Seq<char>
    decreases n,
{
    if n < 10 {
        seq![digit_char(n)]
    } else {
        decimal_digits(n / 10).push(digit_char(n % 10))
    }
}

/// The character of the decimal digit `d`.
pub open spec fn digit_char(d: nat) -> char
    recommends
        d < 10,
{
    (48u8 + d as u8) as char
}

/// The decimal text of an integer, with a leading `-` for negatives.
pub open spec fn decimal_text(n: int) -> Seq<char> {
    if n < 0 {
        seq!['-'] + decimal_digits((-n) as nat)
    } else {
        decimal_digits(n as nat)
    }
}

/// Calls `char::is_whitespace`; the contract names its answer `white_space(c)`.
#[verifier::external_body]
pub(crate) fn char_is_whitespace(c: char) -> (r: bool)
    ensures
        r == white_space(c),
{
    c.is_whitespace()
}

/// Calls `str::to_lowercase`; the contract names its result `lowercase_of(s@)`.
#[verifier::external_body]
pub(crate) fn str_to_lowercase(s: &str) -> (r: String)
    ensures
        r@ == lowercase_of(s@),
{
    s.to_lowercase()
}

/// Calls `String::push`, which appends one character to the end of the string.
#[verifier::external_body]
pub(crate) fn string_push(s: &mut String, c: char)
    ensures
        final(s)@ == old(s)@.push(c),
{
    s.push(c)
}

/// The characters of `s`, in order.
pub fn to_chars(s: &str) -> (v: Vec<char>)
    ensures
        v@ == s@,
{
    let mut v: Vec<char> = Vec::new();
    for c in it: s.chars()
        invariant
            v@ == s@.take(it.index() as int),
            it.seq() == s@,
    {
        v.push(c);
    }
    v
}

/// The string made of the characters `v[from..to]`.
pub fn from_chars(v: &Vec<char>, from: usize, to: usize) -> (s: String)
    requires
        from <= to <= v.len(),
    ensures
        s@ == v@.subrange(from as int, to as int),
{
    let mut s = String::new();
    let mut i: usize = from;
    while i < to
        invariant
            from <= i <= to <= v.len(),
            s@ == v@.subrange(from as int, i as int),
        decreases to - i,
    {
        string_push(&mut s, v[i]);
        i = i + 1;
    }
    s
}

/// Whether two texts hold the same characters.
pub fn text_eq(a: &str, b: &str) -> (r: bool)
    ensures
        r == (a@ == b@),
{
    let x = a.as_bytes();
    let y = b.as_bytes();
    proof {
        vstd::utf8::encode_utf8_decode_utf8(a@);
        vstd::utf8::encode_utf8_decode_utf8(b@);
    }
    if x.len() != y.len() {
        return false;
    }
    let mut i: usize = 0;
    while i < x.len()
        invariant
            i <= x.len(),
            x.len() == y.len(),
            x@ == a.spec_bytes(),
            y@ == b.spec_bytes(),
            forall|j: int| 0 <= j < i ==> x@[j] == y@[j],
        decreases x.len() - i,
    {
        if x[i] != y[i] {
            return false;
        }
        i = i + 1;
    }
    assert(x@ =~= y@);
    true
}

/// Whether `pat` stands in `hay` at position `i`.
pub fn matches_at(hay: &Vec<char>, pat: &Vec<char>, i: usize) -> (r: bool)
    ensures
        r == occurs_at(hay@, pat@, i as int),
{
    if pat.len() > hay.len() || i > hay.len() - pat.len() {
        return false;
    }
    let mut k: usize = 0;
    while k < pat.len()
        invariant
            k <= pat.len(),
            i + pat.len() <= hay.len(),
            forall|j: int| 0 <= j < k ==> hay@[i + j] == pat@[j],
        decreases pat.len() - k,
    {
        if hay[i + k] != pat[k] {
            return false;
        }
        k = k + 1;
    }
    assert(hay@.subrange(i as int, i + pat.len()) =~= pat@);
    true
}

/// The first position at or after `from` where `pat` stands in `hay`, if any.
pub fn find_text(hay: &Vec<char>, pat: &Vec<char>, from: usize) -> (r: Option<usize>)
    ensures
        match r {
            Some(i) => first_occurrence(hay@, pat@, from as int, i as int),
            None => forall|j: int| from <= j ==> !occurs_at(hay@, pat@, j),
        },
{
    if from > hay.len() || pat.len() > hay.len() - from {
        return None;
    }
    let last: usize = hay.len() - pat.len();
    let mut i: usize = from;
    while i < last
        invariant
            from <= i <= last,
            last == hay.len() - pat.len(),
            forall|j: int| from <= j < i ==> !occurs_at(hay@, pat@, j),
        decreases last - i,
    {
        if matches_at(hay, pat, i) {
            return Some(i);
        }
        i = i + 1;
    }
    if matches_at(hay, pat, last) {
        Some(last)
    } else {
        None
    }
}

/// The first position at or after `from` where the character `c` stands in `hay`, if any.
pub fn find_char(hay: &Vec<char>, c: char, from: usize) -> (r: Option<usize>)
    ensures
        match r {
            Some(i) => from <= i < hay.len() && hay@[i as int] == c && forall|j: int|
                from <= j < i ==> hay@[j] != c,
            None => forall|j: int| from <= j < hay.len() ==> hay@[j] != c,
        },
{
    let mut i: usize = from;
    while i < hay.len()
        invariant
            from <= i,
            forall|j: int| from <= j < i && j < hay.len() ==> hay@[j] != c,
        decreases hay.len() - i,
    {
        if hay[i] == c {
            return Some(i);
        }
        i = i + 1;
    }
    None
}

/// Whether `v[..to]` ends with `pat`.
pub fn ends_with(v: &Vec<char>, to: usize, pat: &Vec<char>) -> (r: bool)
    requires
        to <= v.len(),
    ensures
        r == ends_with_text(v@.take(to as int), pat@),
{
    if pat.len() > to {
        return false;
    }
    let from: usize = to - pat.len();
    let mut k: usize = 0;
    while k < pat.len()
        invariant
            k <= pat.len(),
            from + pat.len() == to <= v.len(),
            forall|j: int| 0 <= j < k ==> v@[from + j] == pat@[j],
        decreases pat.len() - k,
    {
        if v[from + k] != pat[k] {
            return false;
        }
        k = k + 1;
    }
    assert(v@.take(to as int).subrange(from as int, to as int) =~= pat@);
    true
}

/// Where the part of `v` after its last `sep` begins.
pub fn last_segment_start(v: &Vec<char>, sep: char) -> (from: usize)
    ensures
        from <= v.len(),
        v@.skip(from as int) == last_segment(v@, sep),
{
    let mut from: usize = v.len();
    assert(v@.take(from as int) == v@);
    while from > 0 && v[from - 1] != sep
        invariant
            from <= v.len(),
            last_segment(v@, sep) == last_segment(v@.take(from as int), sep) + v@.skip(from as int),
        decreases from,
    {
        let ghost t = v@.take(from as int);
        assert(t.drop_last() == v@.take(from - 1));
        from = from - 1;
    }
    from
}

/// The end of `v[..to]` once `pat` is dropped from it as often as it stands
/// at the end.
pub fn without_suffix_end(v: &Vec<char>, to: usize, pat: &Vec<char>) -> (end: usize)
    requires
        to <= v.len(),
    ensures
        end <= to,
        v@.take(end as int) == without_suffix(v@.take(to as int), pat@),
{
    let mut end: usize = to;
    if pat.len() == 0 {
        return end;
    }
    while ends_with(v, end, pat)
        invariant
            end <= to <= v.len(),
            pat.len() > 0,
            without_suffix(v@.take(to as int), pat@) == without_suffix(v@.take(end as int), pat@),
        decreases end,
    {
        assert(v@.take(end as int).take(end - pat.len()) == v@.take(end - pat.len()));
        end = end - pat.len();
    }
    end
}

/// Whether every character of `v` is white space.
pub fn is_blank(v: &Vec<char>) -> (r: bool)
    ensures
        r == all_white_space(v@),
{
    let mut i: usize = 0;
    while i < v.len()
        invariant
            i <= v.len(),
            forall|j: int| 0 <= j < i ==> white_space(#[trigger] v@[j]),
        decreases v.len() - i,
    {
        if !char_is_whitespace(v[i]) {
            return false;
        }
        i = i + 1;
    }
    true
}

/// The bounds of `v[from..to]` without its leading and trailing white space.
pub fn trim_bounds(v: &Vec<char>, from: usize, to: usize) -> (r: (usize, usize))
    requires
        from <= to <= v.len(),
    ensures
        from <= r.0 <= r.1 <= to,
        v@.subrange(r.0 as int, r.1 as int) == trimmed(v@.subrange(from as int, to as int)),
{
    let ghost s = v@.subrange(from as int, to as int);
    let mut a: usize = from;
    assert(s.skip(0) == s);
    while a < to && char_is_whitespace(v[a])
        invariant
            from <= a <= to <= v.len(),
            s == v@.subrange(from as int, to as int),
            trimmed_start(s) == trimmed_start(s.skip(a - from)),
        decreases to - a,
    {
        assert(s.skip(a - from).drop_first() == s.skip(a - from + 1));
        a = a + 1;
    }
    let mut b: usize = to;
    assert(s.skip(a - from) == v@.subrange(a as int, b as int));
    while b > a && char_is_whitespace(v[b - 1])
        invariant
            from <= a <= b <= to <= v.len(),
            s == v@.subrange(from as int, to as int),
            trimmed(s) == trimmed_end(v@.subrange(a as int, b as int)),
        decreases b,
    {
        assert(v@.subrange(a as int, b as int).drop_last() == v@.subrange(a as int, b - 1));
        b = b - 1;
    }
    (a, b)
}

/// Appends the decimal digits of `n` to `s`.
pub fn push_decimal_digits(s: &mut String, n: u128)
    ensures
        final(s)@ == old(s)@ + decimal_digits(n as nat),
    decreases n,
{
    if n >= 10 {
        push_decimal_digits(s, n / 10);
    }
    let d: u8 = (n % 10) as u8;
    string_push(s, (48u8 + d) as char);
}

/// The decimal text of `n`.
pub fn decimal_string(n: i32) -> (s: String)
    ensures
        s@ == decimal_text(n as int),
{
    let mut s = String::new();
    if n < 0 {
        string_push(&mut s, '-');
        let m: u128 = (-(n as i64)) as u128;
        push_decimal_digits(&mut s, m);
    } else {
        push_decimal_digits(&mut s, n as u128);
    }
    s
}

/// The decimal text of `n`.
pub fn unsigned_decimal_string(n: u128) -> (s: String)
    ensures
        s@ == decimal_digits(n as nat),
{
    let mut s = String::new();
    push_decimal_digits(&mut s, n);
    s
}

} // verus!
