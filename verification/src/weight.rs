//! Extraction of a weight reading from a telemetry line.
//!
//! The weight is the first maximal run of ASCII digits anywhere in the
//! line, parsed as an unsigned 32-bit integer. A line without any digit,
//! or whose digit run overflows `u32`, yields no weight ("unknown");
//! later numeric content in the same line is ignored by design.

use vstd::prelude::*;

verus! {

/// ASCII decimal digit.
pub open spec fn is_digit(c: char) -> bool {
    0x30 <= c as int && c as int <= 0x39
}

/// Numeric value of an ASCII digit.
pub open spec fn digit_val(c: char) -> int {
    c as int - 0x30
}

/// Index of the first digit at or after `i`, or the length of `s` when no
/// digit follows.
pub open spec fn first_digit_from(s: Seq<char>, i: int) -> int
    decreases s.len() - i,
{
    if i >= s.len() {
        s.len() as int
    } else if is_digit(s[i]) {
        i
    } else {
        first_digit_from(s, i + 1)
    }
}

/// Index just past the run of digits that starts at `i`.
pub open spec fn digit_run_end(s: Seq<char>, i: int) -> int
    decreases s.len() - i,
{
    if i >= s.len() || !is_digit(s[i]) {
        i
    } else {
        digit_run_end(s, i + 1)
    }
}

/// The number a sequence of digits denotes, most significant first.
pub open spec fn digits_value(s: Seq<char>) -> int
    decreases s.len(),
{
    if s.len() == 0 {
        0
    } else {
        digits_value(s.drop_last()) * 10 + digit_val(s.last())
    }
}

/// The weight a line carries: the value of its first maximal digit run,
/// absent when there is no digit or the run does not fit in `u32`.
pub open spec fn weight_of(line: Seq<char>) -> Option<u32> {
    let start = first_digit_from(line, 0);
    if start == line.len() {
        None
    } else {
        let end = digit_run_end(line, start);
        let v = digits_value(line.subrange(start, end));
        if v <= u32::MAX {
            Some(v as u32)
        } else {
            None
        }
    }
}

fn is_digit_char(c: char) -> (b: bool)
    ensures
        b == is_digit(c),
{
    let u = c as u32;
    0x30 <= u && u <= 0x39
}

/// Extract the weight from a (trimmed) telemetry line: the first maximal
/// run of ASCII digits parsed as a `u32`, or nothing when no digit occurs
/// or the run overflows.
pub fn extract_weight(line: &str) -> (r: Option<u32>)
    ensures
        r == weight_of(line@),
{
    let len = line.unicode_len();
    let mut i: usize = 0;
    while i < len && !is_digit_char(line.get_char(i))
        invariant
            i <= len,
            len == line@.len(),
            first_digit_from(line@, 0) == first_digit_from(line@, i as int),
        decreases len - i,
    {
        i = i + 1;
    }
    if i == len {
        assert(first_digit_from(line@, 0) == len as int);
        return None;
    }
    let start = i;
    assert(first_digit_from(line@, 0) == start as int);
    let mut j = start;
    let mut val: u32 = 0;
    let mut too_big = false;
    while j < len && is_digit_char(line.get_char(j))
        invariant
            start <= j <= len,
            len == line@.len(),
            start < len,
            is_digit(line@[start as int]),
            forall|k: int| start <= k < j ==> is_digit(line@[k]),
            digit_run_end(line@, start as int) == digit_run_end(line@, j as int),
            !too_big ==> val == digits_value(line@.subrange(start as int, j as int)),
            too_big ==> digits_value(line@.subrange(start as int, j as int)) > u32::MAX,
        decreases len - j,
    {
        let c = line.get_char(j);
        let d = (c as u32) - 0x30;
        proof {
            assert(line@.subrange(start as int, j + 1).drop_last()
                =~= line@.subrange(start as int, j as int));
            assert(line@.subrange(start as int, j + 1).last() == line@[j as int]);
        }
        if !too_big {
            proof {
                vstd::arithmetic::div_mod::lemma_fundamental_div_mod((u32::MAX - d) as int, 10);
            }
            if val <= (u32::MAX - d) / 10 {
                val = val * 10 + d;
            } else {
                too_big = true;
            }
        }
        j = j + 1;
    }
    assert(digit_run_end(line@, start as int) == j as int);
    if too_big {
        None
    } else {
        Some(val)
    }
}

} // verus!
