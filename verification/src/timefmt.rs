//! Rendering of timestamps as text.
//!
//! The audit record shows a timestamp as month abbreviation, day, and a
//! 12-hour clock time with milliseconds — for instance `Oct 9, 3:05:09.123`.
//! Day and hour carry no leading zero; minutes and seconds always have two
//! digits and the milliseconds three.

use vstd::prelude::*;
use crate::clock::Timestamp;

verus! {

/// The ASCII digit for a value 0 to 9.
pub open spec fn digit_char(d: int) -> char {
    if d == 0 {
        '0'
    } else if d == 1 {
        '1'
    } else if d == 2 {
        '2'
    } else if d == 3 {
        '3'
    } else if d == 4 {
        '4'
    } else if d == 5 {
        '5'
    } else if d == 6 {
        '6'
    } else if d == 7 {
        '7'
    } else if d == 8 {
        '8'
    } else {
        '9'
    }
}

/// Decimal digits of a non-negative number, most significant first, no
/// leading zero.
pub open spec fn dec_chars(n: int) -> Seq<char>
    decreases n,
{
    if n < 10 {
        seq![digit_char(n)]
    } else {
        dec_chars(n / 10).push(digit_char(n % 10))
    }
}

/// Decimal digits padded to width two with a leading zero.
pub open spec fn pad2_chars(n: int) -> Seq<char> {
    if n < 10 {
        seq!['0'] + dec_chars(n)
    } else {
        dec_chars(n)
    }
}

/// Decimal digits padded to width three with leading zeros.
pub open spec fn pad3_chars(n: int) -> Seq<char> {
    if n < 10 {
        seq!['0', '0'] + dec_chars(n)
    } else if n < 100 {
        seq!['0'] + dec_chars(n)
    } else {
        dec_chars(n)
    }
}

/// The three-letter English abbreviation of a month, 1 to 12.
pub open spec fn month_chars(m: int) -> Seq<char> {
    if m == 1 {
        seq!['J', 'a', 'n']
    } else if m == 2 {
        seq!['F', 'e', 'b']
    } else if m == 3 {
        seq!['M', 'a', 'r']
    } else if m == 4 {
        seq!['A', 'p', 'r']
    } else if m == 5 {
        seq!['M', 'a', 'y']
    } else if m == 6 {
        seq!['J', 'u', 'n']
    } else if m == 7 {
        seq!['J', 'u', 'l']
    } else if m == 8 {
        seq!['A', 'u', 'g']
    } else if m == 9 {
        seq!['S', 'e', 'p']
    } else if m == 10 {
        seq!['O', 'c', 't']
    } else if m == 11 {
        seq!['N', 'o', 'v']
    } else {
        seq!['D', 'e', 'c']
    }
}

/// The text of a timestamp: month, day, then the 12-hour clock time with
/// milliseconds.
pub open spec fn timestamp_chars(ts: Timestamp) -> Seq<char> {
    month_chars(ts.month as int) + seq![' '] + dec_chars(ts.day as int) + seq![',', ' ']
        + dec_chars(ts.hour12 as int) + seq![':'] + pad2_chars(ts.minute as int) + seq![':']
        + pad2_chars(ts.second as int) + seq!['.'] + pad3_chars(ts.milli as int)
}

proof fn lemma_digit_char_val(d: int)
    requires
        0 <= d <= 9,
    ensures
        digit_char(d) as int == 48 + d,
{
}

proof fn lemma_dec_two_digits(n: int)
    requires
        10 <= n <= 99,
    ensures
        dec_chars(n) == seq![digit_char(n / 10), digit_char(n % 10)],
{
    assert(dec_chars(n / 10) == seq![digit_char(n / 10)]);
    assert(dec_chars(n) =~= seq![digit_char(n / 10), digit_char(n % 10)]);
}

proof fn lemma_pad2_digits(n: int)
    requires
        0 <= n <= 99,
    ensures
        pad2_chars(n) == seq![digit_char(n / 10), digit_char(n % 10)],
{
    if n < 10 {
        assert(pad2_chars(n) =~= seq![digit_char(n / 10), digit_char(n % 10)]);
    } else {
        lemma_dec_two_digits(n);
    }
}

proof fn lemma_pad2_injective(a: int, b: int)
    requires
        0 <= a <= 99,
        0 <= b <= 99,
        pad2_chars(a) == pad2_chars(b),
    ensures
        a == b,
{
    lemma_pad2_digits(a);
    lemma_pad2_digits(b);
    assert(pad2_chars(a)[0] == pad2_chars(b)[0] && pad2_chars(a)[1] == pad2_chars(b)[1]);
    lemma_digit_char_val(a / 10);
    lemma_digit_char_val(b / 10);
    lemma_digit_char_val(a % 10);
    lemma_digit_char_val(b % 10);
}

proof fn lemma_pad3_digits(n: int)
    requires
        0 <= n <= 999,
    ensures
        pad3_chars(n) == seq![digit_char(n / 100), digit_char((n / 10) % 10), digit_char(n % 10)],
{
    if n < 10 {
        assert(pad3_chars(n) =~= seq![
            digit_char(n / 100),
            digit_char((n / 10) % 10),
            digit_char(n % 10),
        ]);
    } else if n < 100 {
        lemma_dec_two_digits(n);
        assert(pad3_chars(n) =~= seq![
            digit_char(n / 100),
            digit_char((n / 10) % 10),
            digit_char(n % 10),
        ]);
    } else {
        lemma_dec_two_digits(n / 10);
        vstd::arithmetic::div_mod::lemma_div_denominator(n, 10, 10);
        assert((n / 10) / 10 == n / 100);
        assert(dec_chars(n) == dec_chars(n / 10).push(digit_char(n % 10)));
        assert(pad3_chars(n) =~= seq![
            digit_char(n / 100),
            digit_char((n / 10) % 10),
            digit_char(n % 10),
        ]);
    }
}

proof fn lemma_pad3_injective(a: int, b: int)
    requires
        0 <= a <= 999,
        0 <= b <= 999,
        pad3_chars(a) == pad3_chars(b),
    ensures
        a == b,
{
    lemma_pad3_digits(a);
    lemma_pad3_digits(b);
    assert(pad3_chars(a)[0] == pad3_chars(b)[0] && pad3_chars(a)[1] == pad3_chars(b)[1]
        && pad3_chars(a)[2] == pad3_chars(b)[2]);
    lemma_digit_char_val(a / 100);
    lemma_digit_char_val(b / 100);
    lemma_digit_char_val((a / 10) % 10);
    lemma_digit_char_val((b / 10) % 10);
    lemma_digit_char_val(a % 10);
    lemma_digit_char_val(b % 10);
    assert(a / 10 == 10 * (a / 100) + (a / 10) % 10) by {
        vstd::arithmetic::div_mod::lemma_div_denominator(a, 10, 10);
    }
    assert(b / 10 == 10 * (b / 100) + (b / 10) % 10) by {
        vstd::arithmetic::div_mod::lemma_div_denominator(b, 10, 10);
    }
}

proof fn lemma_dec_short_injective(a: int, b: int)
    requires
        0 <= a <= 99,
        0 <= b <= 99,
        dec_chars(a) == dec_chars(b),
    ensures
        a == b,
{
    if a >= 10 {
        lemma_dec_two_digits(a);
    }
    if b >= 10 {
        lemma_dec_two_digits(b);
    }
    if a < 10 && b < 10 {
        lemma_digit_char_val(a);
        lemma_digit_char_val(b);
        assert(dec_chars(a) == seq![digit_char(a)]);
        assert(dec_chars(b) == seq![digit_char(b)]);
        assert(seq![digit_char(a)][0] == digit_char(a));
        assert(seq![digit_char(b)][0] == digit_char(b));
        assert(dec_chars(a)[0] == dec_chars(b)[0]);
        assert(digit_char(a) == digit_char(b));
    } else if a >= 10 && b >= 10 {
        assert(dec_chars(a)[0] == dec_chars(b)[0] && dec_chars(a)[1] == dec_chars(b)[1]);
        lemma_digit_char_val(a / 10);
        lemma_digit_char_val(b / 10);
        lemma_digit_char_val(a % 10);
        lemma_digit_char_val(b % 10);
    } else {
        // One has one digit and the other two, so the texts cannot agree.
        assert(dec_chars(a).len() == if a < 10 { 1int } else { 2int });
        assert(dec_chars(b).len() == if b < 10 { 1int } else { 2int });
        assert(false);
    }
}

proof fn lemma_dec_short_is_digits(n: int)
    requires
        0 <= n <= 99,
    ensures
        forall|k: int|
            0 <= k < dec_chars(n).len() ==> 48 <= #[trigger] dec_chars(n)[k] as int <= 57,
{
    if n < 10 {
        lemma_digit_char_val(n);
    } else {
        lemma_dec_two_digits(n);
        lemma_digit_char_val(n / 10);
        lemma_digit_char_val(n % 10);
    }
}

proof fn lemma_month_injective(a: int, b: int)
    requires
        1 <= a <= 12,
        1 <= b <= 12,
        month_chars(a) == month_chars(b),
    ensures
        a == b,
{
    assert(month_chars(a)[0] == month_chars(b)[0] && month_chars(a)[1] == month_chars(b)[1]
        && month_chars(a)[2] == month_chars(b)[2]);
}

/// Two valid timestamps that render to the same text are the same
/// timestamp: the record's timestamp part identifies the instant it shows.
pub proof fn lemma_timestamp_chars_injective(ts1: Timestamp, ts2: Timestamp)
    requires
        ts1.valid(),
        ts2.valid(),
        timestamp_chars(ts1) == timestamp_chars(ts2),
    ensures
        ts1 == ts2,
{
    let t1 = timestamp_chars(ts1);
    let t2 = timestamp_chars(ts2);
    lemma_timestamp_pieces(ts1);
    lemma_timestamp_pieces(ts2);
    let len1 = t1.len() as int;
    let len2 = t2.len() as int;
    assert(len1 == len2);
    let d1 = dec_chars(ts1.day as int).len() as int;
    let d2 = dec_chars(ts2.day as int).len() as int;

    // Month: the first three characters.
    assert(month_chars(ts1.month as int) =~= t1.subrange(0, 3));
    assert(month_chars(ts2.month as int) =~= t2.subrange(0, 3));
    lemma_month_injective(ts1.month as int, ts2.month as int);

    // Minute, second and millisecond sit at fixed offsets from the end.
    assert(pad2_chars(ts1.minute as int) =~= t1.subrange(len1 - 9, len1 - 7));
    assert(pad2_chars(ts2.minute as int) =~= t2.subrange(len2 - 9, len2 - 7));
    lemma_pad2_injective(ts1.minute as int, ts2.minute as int);
    assert(pad2_chars(ts1.second as int) =~= t1.subrange(len1 - 6, len1 - 4));
    assert(pad2_chars(ts2.second as int) =~= t2.subrange(len2 - 6, len2 - 4));
    lemma_pad2_injective(ts1.second as int, ts2.second as int);
    assert(pad3_chars(ts1.milli as int) =~= t1.subrange(len1 - 3, len1));
    assert(pad3_chars(ts2.milli as int) =~= t2.subrange(len2 - 3, len2));
    lemma_pad3_injective(ts1.milli as int, ts2.milli as int);

    // Day: a digit where the other record would show the comma tells the
    // two widths apart, so the widths agree and so do the digits.
    lemma_dec_short_is_digits(ts1.day as int);
    lemma_dec_short_is_digits(ts2.day as int);
    if d1 != d2 {
        assert(t1[4 + d1] == ',');
        assert(t2[4 + d2] == ',');
        if d1 < d2 {
            assert(t2[4 + d1] == dec_chars(ts2.day as int)[d1]);
            assert(false);
        } else {
            assert(t1[4 + d2] == dec_chars(ts1.day as int)[d2]);
            assert(false);
        }
    }
    assert(dec_chars(ts1.day as int) =~= t1.subrange(4, 4 + d1));
    assert(dec_chars(ts2.day as int) =~= t2.subrange(4, 4 + d2));
    lemma_dec_short_injective(ts1.day as int, ts2.day as int);

    // Hour: what is left between the comma and the first colon.
    assert(dec_chars(ts1.hour12 as int) =~= t1.subrange(6 + d1, len1 - 10));
    assert(dec_chars(ts2.hour12 as int) =~= t2.subrange(6 + d2, len2 - 10));
    lemma_dec_short_injective(ts1.hour12 as int, ts2.hour12 as int);
}

/// Positions of the pieces inside a rendered timestamp.
proof fn lemma_timestamp_pieces(ts: Timestamp)
    requires
        ts.valid(),
    ensures
        month_chars(ts.month as int).len() == 3,
        pad2_chars(ts.minute as int).len() == 2,
        pad2_chars(ts.second as int).len() == 2,
        pad3_chars(ts.milli as int).len() == 3,
        1 <= dec_chars(ts.day as int).len() <= 2,
        1 <= dec_chars(ts.hour12 as int).len() <= 2,
        timestamp_chars(ts).len() == 16 + dec_chars(ts.day as int).len() + dec_chars(
            ts.hour12 as int,
        ).len(),
        timestamp_chars(ts)[3] == ' ',
        timestamp_chars(ts)[4 + dec_chars(ts.day as int).len() as int] == ',',
        forall|k: int|
            0 <= k < dec_chars(ts.day as int).len() ==> timestamp_chars(ts)[4 + k] == dec_chars(
                ts.day as int,
            )[k],
{
    lemma_pad2_digits(ts.minute as int);
    lemma_pad2_digits(ts.second as int);
    lemma_pad3_digits(ts.milli as int);
    if ts.day >= 10 {
        lemma_dec_two_digits(ts.day as int);
    }
    if ts.hour12 >= 10 {
        lemma_dec_two_digits(ts.hour12 as int);
    }
}

fn digit_str(d: u32) -> (s: &'static str)
    requires
        d <= 9,
    ensures
        s@ == seq![digit_char(d as int)],
{
    let s: &'static str = match d {
        0 => "0",
        1 => "1",
        2 => "2",
        3 => "3",
        4 => "4",
        5 => "5",
        6 => "6",
        7 => "7",
        8 => "8",
        _ => "9",
    };
    proof {
        reveal_strlit("0");
        reveal_strlit("1");
        reveal_strlit("2");
        reveal_strlit("3");
        reveal_strlit("4");
        reveal_strlit("5");
        reveal_strlit("6");
        reveal_strlit("7");
        reveal_strlit("8");
        reveal_strlit("9");
        assert(s@ =~= seq![digit_char(d as int)]);
    }
    s
}

/// Format a number in decimal.
pub fn u32_dec(n: u32) -> (s: String)
    ensures
        s@ == dec_chars(n as int),
    decreases n,
{
    if n < 10 {
        String::from_str(digit_str(n))
    } else {
        let mut s = u32_dec(n / 10);
        s.append(digit_str(n % 10));
        proof {
            assert(s@ =~= dec_chars(n as int));
        }
        s
    }
}

/// Format a number in decimal, two digits wide.
pub fn u32_pad2(n: u32) -> (s: String)
    requires
        n <= 99,
    ensures
        s@ == pad2_chars(n as int),
{
    if n < 10 {
        let mut s = String::from_str("0");
        s.append(digit_str(n));
        proof {
            reveal_strlit("0");
            assert(s@ =~= pad2_chars(n as int));
        }
        s
    } else {
        u32_dec(n)
    }
}

/// Format a number in decimal, three digits wide.
pub fn u32_pad3(n: u32) -> (s: String)
    requires
        n <= 999,
    ensures
        s@ == pad3_chars(n as int),
{
    if n < 10 {
        let mut s = String::from_str("00");
        s.append(digit_str(n));
        proof {
            reveal_strlit("00");
            assert(s@ =~= pad3_chars(n as int));
        }
        s
    } else if n < 100 {
        let mut s = String::from_str("0");
        s.append(u32_dec(n).as_str());
        proof {
            reveal_strlit("0");
            assert(s@ =~= pad3_chars(n as int));
        }
        s
    } else {
        u32_dec(n)
    }
}

/// The month abbreviation as text.
pub fn month_abbrev(m: u8) -> (s: &'static str)
    requires
        1 <= m <= 12,
    ensures
        s@ == month_chars(m as int),
{
    let s: &'static str = match m {
        1 => "Jan",
        2 => "Feb",
        3 => "Mar",
        4 => "Apr",
        5 => "May",
        6 => "Jun",
        7 => "Jul",
        8 => "Aug",
        9 => "Sep",
        10 => "Oct",
        11 => "Nov",
        _ => "Dec",
    };
    proof {
        reveal_strlit("Jan");
        reveal_strlit("Feb");
        reveal_strlit("Mar");
        reveal_strlit("Apr");
        reveal_strlit("May");
        reveal_strlit("Jun");
        reveal_strlit("Jul");
        reveal_strlit("Aug");
        reveal_strlit("Sep");
        reveal_strlit("Oct");
        reveal_strlit("Nov");
        reveal_strlit("Dec");
        assert(s@ =~= month_chars(m as int));
    }
    s
}

/// Render a timestamp for an audit record.
pub fn format_timestamp(ts: &Timestamp) -> (s: String)
    requires
        ts.valid(),
    ensures
        s@ == timestamp_chars(*ts),
{
    let mut s = String::from_str(month_abbrev(ts.month));
    s.append(" ");
    s.append(u32_dec(ts.day as u32).as_str());
    s.append(", ");
    s.append(u32_dec(ts.hour12 as u32).as_str());
    s.append(":");
    s.append(u32_pad2(ts.minute as u32).as_str());
    s.append(":");
    s.append(u32_pad2(ts.second as u32).as_str());
    s.append(".");
    s.append(u32_pad3(ts.milli as u32).as_str());
    proof {
        reveal_strlit(" ");
        reveal_strlit(", ");
        reveal_strlit(":");
        reveal_strlit(".");
        assert(s@ =~= timestamp_chars(*ts));
    }
    s
}

} // verus!
