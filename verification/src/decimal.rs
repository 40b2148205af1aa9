//! Plain decimal numbers in text: an optional sign, digits, and at most one
//! point, with at least one digit. No exponent and no special values.

use vstd::prelude::*;

verus! {

/// The largest whole part that is told apart; larger ones read as this.
pub const WHOLE_CAP: u32 = 1_000_000;

pub open spec fn is_digit(c: char) -> bool {
    '0' <= c <= '9'
}

pub open spec fn digit_value(c: char) -> nat
    recommends
        is_digit(c),
{
    (c as u32 - '0' as u32) as nat
}

pub open spec fn all_digits(s: Seq<char>) -> bool {
    forall|i: int| 0 <= i < s.len() ==> is_digit(#[trigger] s[i])
}

/// Whether some digit of `s` is not `0`.
pub open spec fn has_nonzero_digit(s: Seq<char>) -> bool {
    exists|i: int| 0 <= i < s.len() && is_digit(#[trigger] s[i]) && s[i] != '0'
}

/// The number that the digits `s` write in base ten.
pub open spec fn digits_value(s: Seq<char>) -> nat
    decreases s.len(),
{
    if s.len() == 0 {
        0
    } else {
        digits_value(s.drop_last()) * 10 + digit_value(s.last())
    }
}

/// The first three digits of a fraction, read as thousandths.
pub open spec fn fraction_millis(frac: Seq<char>) -> nat {
    let d0 = if frac.len() > 0 { digit_value(frac[0]) } else { 0 };
    let d1 = if frac.len() > 1 { digit_value(frac[1]) } else { 0 };
    let d2 = if frac.len() > 2 { digit_value(frac[2]) } else { 0 };
    d0 * 100 + d1 * 10 + d2
}

/// The position of the first `c` in `s`, or the length of `s` if there is none.
pub open spec fn position_of(s: Seq<char>, c: char) -> int
    decreases s.len(),
{
    if s.len() == 0 || s[0] == c {
        0
    } else {
        1 + position_of(s.drop_first(), c)
    }
}

/// Whether `s` begins with a sign.
pub open spec fn has_sign(s: Seq<char>) -> bool {
    s.len() > 0 && (s[0] == '-' || s[0] == '+')
}

/// `s` without its sign.
pub open spec fn unsigned_part(s: Seq<char>) -> Seq<char> {
    if has_sign(s) {
        s.skip(1)
    } else {
        s
    }
}

/// The digits before the point.
pub open spec fn whole_digits(s: Seq<char>) -> Seq<char> {
    let body = unsigned_part(s);
    body.take(position_of(body, '.'))
}

/// The digits after the point; none if there is no point.
pub open spec fn fraction_digits(s: Seq<char>) -> Seq<char> {
    let body = unsigned_part(s);
    let p = position_of(body, '.');
    if p < body.len() {
        body.skip(p + 1)
    } else {
        Seq::empty()
    }
}

/// Whether `s` writes a decimal number.
pub open spec fn is_decimal(s: Seq<char>) -> bool {
    &&& all_digits(whole_digits(s))
    &&& all_digits(fraction_digits(s))
    &&& whole_digits(s).len() + fraction_digits(s).len() > 0
}

/// What is read of a decimal number.
#[derive(Debug, Clone, Copy, PartialEq, Eq, Structural)]
pub struct Decimal {
    /// Whether the text begins with `-`.
    pub negative: bool,
    /// The whole part, or `WHOLE_CAP` if it is larger.
    pub whole: u32,
    /// The first three digits after the point, as thousandths.
    pub millis: u32,
    /// Whether some digit is not `0`.
    pub nonzero: bool,
}

/// What `s` reads as, if it writes a decimal number.
pub open spec fn decimal_of(s: Seq<char>) -> Option<Decimal> {
    if is_decimal(s) {
        let whole = digits_value(whole_digits(s));
        Some(
            Decimal {
                negative: s.len() > 0 && s[0] == '-',
                whole: if whole >= WHOLE_CAP {
                    WHOLE_CAP
                } else {
                    whole as u32
                },
                millis: fraction_millis(fraction_digits(s)) as u32,
                nonzero: has_nonzero_digit(whole_digits(s)) || has_nonzero_digit(
                    fraction_digits(s),
                ),
            },
        )
    } else {
        None
    }
}

/// The parts of a decimal number stay within their bounds.
pub proof fn lemma_decimal_bounds(s: Seq<char>)
    requires
        decimal_of(s) is Some,
    ensures
        decimal_of(s)->0.whole <= WHOLE_CAP,
        decimal_of(s)->0.millis <= 999,
{
}

pub proof fn lemma_position_of(s: Seq<char>, c: char)
    ensures
        0 <= position_of(s, c) <= s.len(),
        position_of(s, c) < s.len() ==> s[position_of(s, c)] == c,
        forall|i: int| 0 <= i < position_of(s, c) ==> s[i] != c,
    decreases s.len(),
{
    if s.len() > 0 && s[0] != c {
        let t = s.drop_first();
        lemma_position_of(t, c);
        assert forall|i: int| 0 <= i < position_of(s, c) implies s[i] != c by {
            if i > 0 {
                assert(t[i - 1] == s[i]);
            }
        }
    }
}

/// The first position `p` without `c` before it, holding `c` or being the
/// end, is the position of the first `c`.
pub proof fn lemma_position_of_is(s: Seq<char>, c: char, p: int)
    requires
        0 <= p <= s.len(),
        p < s.len() ==> s[p] == c,
        forall|i: int| 0 <= i < p ==> s[i] != c,
    ensures
        position_of(s, c) == p,
{
    lemma_position_of(s, c);
}

pub fn is_digit_char(c: char) -> (r: bool)
    ensures
        r == is_digit(c),
{
    '0' <= c && c <= '9'
}

fn digit_of(c: char) -> (d: u32)
    requires
        is_digit(c),
    ensures
        d == digit_value(c),
        d <= 9,
{
    c as u32 - '0' as u32
}

/// Reads the decimal number that `v[from..to]` writes, if it writes one.
pub fn parse_decimal(v: &Vec<char>, from: usize, to: usize) -> (r: Option<Decimal>)
    requires
        from <= to <= v.len(),
    ensures
        r == decimal_of(v@.subrange(from as int, to as int)),
        r matches Some(d) ==> d.whole <= WHOLE_CAP && d.millis <= 999,
{
    let ghost s = v@.subrange(from as int, to as int);
    let negative = from < to && v[from] == '-';
    let signed = from < to && (v[from] == '-' || v[from] == '+');
    let start: usize = if signed { from + 1 } else { from };
    let ghost body = unsigned_part(s);

    let mut whole: u32 = 0;
    let mut nonzero = false;
    let mut i: usize = start;
    while i < to && v[i] != '.'
        invariant
            start <= i <= to <= v.len(),
            body == v@.subrange(start as int, to as int),
            body == unsigned_part(s),
            from <= start,
            s == v@.subrange(from as int, to as int),
            forall|j: int| 0 <= j < i - start ==> body[j] != '.',
            all_digits(body.take(i - start)),
            whole <= WHOLE_CAP,
            whole == if digits_value(body.take(i - start)) >= WHOLE_CAP {
                WHOLE_CAP as nat
            } else {
                digits_value(body.take(i - start))
            },
            nonzero == has_nonzero_digit(body.take(i - start)),
        decreases to - i,
    {
        let c = v[i];
        let ghost before = body.take(i - start);
        let ghost after = body.take(i - start + 1);
        assert(after.drop_last() == before);
        assert(after.last() == c);
        if !is_digit_char(c) {
            proof {
                lemma_position_of(body, '.');
            }
            return None;
        }
        let d = digit_of(c);
        if whole < WHOLE_CAP {
            whole = whole * 10 + d;
            if whole > WHOLE_CAP {
                whole = WHOLE_CAP;
            }
        }
        nonzero = nonzero || c != '0';
        i = i + 1;
    }
    let ghost p = i - start;
    proof {
        lemma_position_of_is(body, '.', p);
    }
    let whole_len: usize = i - start;
    let frac_start: usize = if i < to { i + 1 } else { to };
    let ghost frac = fraction_digits(s);

    let mut millis: u32 = 0;
    let mut k: usize = frac_start;
    while k < to
        invariant
            frac_start <= k <= to <= v.len(),
            frac == v@.subrange(frac_start as int, to as int),
            frac == fraction_digits(s),
            from <= frac_start,
            s == v@.subrange(from as int, to as int),
            all_digits(frac.take(k - frac_start)),
            millis == fraction_millis(frac.take(k - frac_start)),
            millis <= 999,
            nonzero == (has_nonzero_digit(whole_digits(s)) || has_nonzero_digit(
                frac.take(k - frac_start),
            )),
        decreases to - k,
    {
        let c = v[k];
        let ghost n = k - frac_start;
        let ghost after = frac.take(n + 1);
        assert(after[n] == c);
        if !is_digit_char(c) {
            return None;
        }
        let d = digit_of(c);
        if k - frac_start == 0 {
            millis = millis + d * 100;
        } else if k - frac_start == 1 {
            millis = millis + d * 10;
        } else if k - frac_start == 2 {
            millis = millis + d;
        }
        nonzero = nonzero || c != '0';
        k = k + 1;
    }
    assert(frac.take(frac.len() as int) == frac);
    if whole_len + (to - frac_start) == 0 {
        return None;
    }
    Some(Decimal { negative, whole, millis, nonzero })
}

} // verus!
