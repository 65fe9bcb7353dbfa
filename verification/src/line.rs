//! Trimming of decoded telemetry lines.
//!
//! A raw line from the device carries leading and trailing whitespace (and
//! the trailing newline of a line-terminated frame); the pipeline works on
//! the trimmed text. An all-whitespace or empty line trims to the empty
//! string, which downstream means "no data this tick".

use vstd::prelude::*;

verus! {

/// The Unicode `White_Space` characters, the set `str::trim` strips.
pub open spec fn is_space(c: char) -> bool {
    let u = c as int;
    ||| u == 0x20
    ||| (0x9 <= u && u <= 0xD)
    ||| u == 0x85
    ||| u == 0xA0
    ||| u == 0x1680
    ||| (0x2000 <= u && u <= 0x200A)
    ||| u == 0x2028
    ||| u == 0x2029
    ||| u == 0x202F
    ||| u == 0x205F
    ||| u == 0x3000
}

fn is_space_char(c: char) -> (b: bool)
    ensures
        b == is_space(c),
{
    let u = c as u32;
    u == 0x20 || (0x9 <= u && u <= 0xD) || u == 0x85 || u == 0xA0 || u == 0x1680
        || (0x2000 <= u && u <= 0x200A) || u == 0x2028 || u == 0x2029 || u == 0x202F
        || u == 0x205F || u == 0x3000
}

/// Index of the first non-whitespace character at or after `i`, or the
/// length of `s` when only whitespace follows.
pub open spec fn skip_spaces_from(s: Seq<char>, i: int) -> int
    decreases s.len() - i,
{
    if i >= s.len() {
        s.len() as int
    } else if !is_space(s[i]) {
        i
    } else {
        skip_spaces_from(s, i + 1)
    }
}

/// Index just past the last non-whitespace character strictly before `j`,
/// or 0 when only whitespace precedes.
pub open spec fn skip_spaces_back(s: Seq<char>, j: int) -> int
    decreases j,
{
    if j <= 0 {
        0
    } else if !is_space(s[j - 1]) {
        j
    } else {
        skip_spaces_back(s, j - 1)
    }
}

/// `s` with leading and trailing whitespace removed.
pub open spec fn trimmed(s: Seq<char>) -> Seq<char> {
    let start = skip_spaces_from(s, 0);
    let end = skip_spaces_back(s, s.len() as int);
    if start < end {
        s.subrange(start, end)
    } else {
        Seq::empty()
    }
}

proof fn lemma_skip_back_le(s: Seq<char>, j: int)
    requires
        j >= 0,
    ensures
        skip_spaces_back(s, j) <= j,
    decreases j,
{
    if j > 0 && is_space(s[j - 1]) {
        lemma_skip_back_le(s, j - 1);
    }
}

/// Strip leading and trailing whitespace from a line.
pub fn trim_line(s: &str) -> (r: String)
    ensures
        r@ == trimmed(s@),
{
    let len = s.unicode_len();
    let mut start: usize = 0;
    while start < len && is_space_char(s.get_char(start))
        invariant
            start <= len,
            len == s@.len(),
            skip_spaces_from(s@, 0) == skip_spaces_from(s@, start as int),
        decreases len - start,
    {
        start = start + 1;
    }
    assert(skip_spaces_from(s@, start as int) == start as int);
    let mut end: usize = len;
    while end > start && is_space_char(s.get_char(end - 1))
        invariant
            start <= end <= len,
            len == s@.len(),
            skip_spaces_back(s@, len as int) == skip_spaces_back(s@, end as int),
        decreases end,
    {
        end = end - 1;
    }
    if start >= end {
        // Either the scan from the left ran off the end (all whitespace),
        // or the two scans met; both give the empty trim.
        proof {
            lemma_skip_back_le(s@, end as int);
        }
        assert(trimmed(s@) =~= Seq::<char>::empty());
        String::new()
    } else {
        assert(skip_spaces_back(s@, end as int) == end as int);
        let t = s.substring_char(start, end);
        assert(t@ =~= trimmed(s@));
        String::from_str(t)
    }
}

} // verus!
