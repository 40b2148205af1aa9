//! Reading a worker's output lines: the progress marker and the lines worth
//! showing as diagnostics.

use crate::decimal::{decimal_of, parse_decimal, position_of, Decimal};
use crate::text::{
    contains_text, find_char, find_text, first_occurrence, lowercase_of, matches_at,
    starts_with_text, str_to_lowercase, to_chars, trim_bounds, trimmed,
};
use vstd::prelude::*;

verus! {

/// Full progress, in thousandths of a percent.
pub const FULL_PROGRESS: u32 = 100_000;

/// The text that introduces a progress value in a line.
pub open spec fn marker() -> Seq<char> {
    "remedia-"@
}

/// The text that stands for a progress value not yet known.
pub open spec fn not_available() -> Seq<char> {
    "N/A"@
}

/// The text between the first marker of `line` and the first `%` after it,
/// without the white space around it.
pub open spec fn progress_field(line: Seq<char>) -> Option<Seq<char>> {
    if exists|i: int| first_occurrence(line, marker(), 0, i) {
        let i = choose|i: int| first_occurrence(line, marker(), 0, i);
        let rest = line.skip(i + marker().len());
        let p = position_of(rest, '%');
        if p < rest.len() {
            Some(trimmed(rest.take(p)))
        } else {
            None
        }
    } else {
        None
    }
}

/// A decimal number as progress in thousandths of a percent, held within
/// 0 and `FULL_PROGRESS`; digits past the third after the point are dropped.
pub open spec fn clamped_progress(d: Decimal) -> u32 {
    if d.negative {
        0
    } else if d.whole >= 100 {
        FULL_PROGRESS
    } else if d.millis > 999 {
        (d.whole * 1000 + 999) as u32
    } else {
        (d.whole * 1000 + d.millis) as u32
    }
}

/// The progress that `line` reports, if it reports one.
pub open spec fn progress_of(line: Seq<char>) -> Option<u32> {
    match progress_field(line) {
        Some(field) => if field == not_available() {
            None
        } else {
            match decimal_of(field) {
                Some(d) => Some(clamped_progress(d)),
                None => None,
            }
        },
        None => None,
    }
}

/// Whether a lower-cased line speaks of an error, a warning or a failure.
pub open spec fn is_important(lowered: Seq<char>) -> bool {
    contains_text(lowered, "error"@) || contains_text(lowered, "warning"@) || contains_text(
        lowered,
        "failed"@,
    )
}

/// Reads the progress out of a line of worker output, in thousandths of a
/// percent. The value follows the marker `remedia-` and ends at the next `%`.
/// It is a plain decimal number; `N/A` and anything else give nothing.
pub fn parse_progress_percent(line: &str) -> (r: Option<u32>)
    ensures
        r == progress_of(line@),
        r matches Some(p) ==> p <= FULL_PROGRESS,
{
    let chars = to_chars(line);
    let mark = to_chars("remedia-");
    let idx = match find_text(&chars, &mark, 0) {
        Some(idx) => idx,
        None => {
            return None;
        },
    };
    assert(first_occurrence(line@, marker(), 0, idx as int));
    assert((choose|i: int| first_occurrence(line@, marker(), 0, i)) == idx as int);
    let start = idx + mark.len();
    let ghost rest = line@.skip(idx + marker().len());
    let end = match find_char(&chars, '%', start) {
        Some(end) => end,
        None => {
            proof {
                crate::decimal::lemma_position_of(rest, '%');
            }
            return None;
        },
    };
    proof {
        crate::decimal::lemma_position_of_is(rest, '%', end - start);
        assert(rest.take(end - start) == chars@.subrange(start as int, end as int));
    }
    let (a, b) = trim_bounds(&chars, start, end);
    let na = to_chars("N/A");
    if b - a == na.len() && matches_at(&chars, &na, a) {
        return None;
    }
    match parse_decimal(&chars, a, b) {
        Some(d) => Some(clamp_progress(d)),
        None => None,
    }
}

/// Holds a decimal number within 0 and `FULL_PROGRESS` thousandths of a percent.
pub fn clamp_progress(d: Decimal) -> (p: u32)
    ensures
        p == clamped_progress(d),
        p <= FULL_PROGRESS,
{
    if d.negative {
        0
    } else if d.whole >= 100 {
        FULL_PROGRESS
    } else if d.millis > 999 {
        d.whole * 1000 + 999
    } else {
        d.whole * 1000 + d.millis
    }
}

/// Whether a lower-cased line speaks of an error, a warning or a failure.
pub fn mentions_trouble(lowered: &str) -> (r: bool)
    ensures
        r == is_important(lowered@),
{
    let chars = to_chars(lowered);
    let error = to_chars("error");
    let warning = to_chars("warning");
    let failed = to_chars("failed");
    find_text(&chars, &error, 0).is_some() || find_text(&chars, &warning, 0).is_some() || find_text(
        &chars,
        &failed,
        0,
    ).is_some()
}

/// Whether a line of a worker's error stream is worth showing: whether, in
/// any mix of upper and lower case, it speaks of an error, a warning or a failure.
pub fn should_emit_stderr(line: &str) -> (r: bool)
    ensures
        r == is_important(lowercase_of(line@)),
{
    let lowered = str_to_lowercase(line);
    mentions_trouble(lowered.as_str())
}

/// A line whose progress value is `N/A`, alone or with more behind it,
/// reports no progress; nor does a line without a progress value.
pub proof fn law_not_available_reports_nothing(line: Seq<char>)
    requires
        progress_field(line) matches Some(field) ==> starts_with_text(field, not_available()),
    ensures
        progress_of(line) is None,
{
    match progress_field(line) {
        Some(field) => {
            reveal_strlit("N/A");
            assert(field.subrange(0, 3)[0] == 'N');
            crate::decimal::lemma_position_of(field, '.');
        },
        None => {},
    }
}

/// Whatever a line holds, the progress read from it lies within 0 and
/// `FULL_PROGRESS`; negative values read as 0 and values of 100 or more as
/// `FULL_PROGRESS`.
pub proof fn law_progress_is_clamped(line: Seq<char>)
    ensures
        progress_of(line) matches Some(p) ==> 0 <= p <= FULL_PROGRESS,
        forall|d: Decimal| d.negative ==> #[trigger] clamped_progress(d) == 0,
        forall|d: Decimal| !d.negative && d.whole >= 100 ==> #[trigger] clamped_progress(d) == FULL_PROGRESS,
{
    match progress_field(line) {
        Some(field) => {
            if field != not_available() && decimal_of(field) is Some {
                crate::decimal::lemma_decimal_bounds(field);
            }
        },
        None => {},
    }
}

} // verus!
