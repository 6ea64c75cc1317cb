//! Counting installed packages from the listing that the package manager
//! prints, and reading a count back from a text that held it.

use crate::text::chars_of;
use vstd::prelude::*;

verus! {

/// The line feeds in `s`.
pub open spec fn line_feeds(s: Seq<char>) -> nat
    decreases s.len(),
{
    if s.len() == 0 {
        0
    } else {
        line_feeds(s.drop_last()) + if s.last() == '\n' {
            1nat
        } else {
            0nat
        }
    }
}

/// The lines of `s`: every line feed ends one, and what stands behind the last
/// line feed is one more unless it is empty.
pub open spec fn line_count(s: Seq<char>) -> nat {
    line_feeds(s) + if s.len() > 0 && s.last() != '\n' {
        1nat
    } else {
        0nat
    }
}

/// Whether `c` is white space.
pub open spec fn is_space(c: char) -> bool {
    let u = c as u32;
    ||| (0x09 <= u && u <= 0x0D)
    ||| u == 0x20
    ||| u == 0x85
    ||| u == 0xA0
    ||| u == 0x1680
    ||| (0x2000 <= u && u <= 0x200A)
    ||| u == 0x2028
    ||| u == 0x2029
    ||| u == 0x202F
    ||| u == 0x205F
    ||| u == 0x3000
}

/// Whether `c` is a decimal digit.
pub open spec fn is_digit(c: char) -> bool {
    0x30 <= (c as u32) && (c as u32) <= 0x39
}

/// The index of the first character of `s` that is not white space, or the
/// length of `s` where there is none.
pub open spec fn leading_spaces(s: Seq<char>) -> nat
    decreases s.len(),
{
    if s.len() > 0 && is_space(s.first()) {
        1 + leading_spaces(s.drop_first())
    } else {
        0
    }
}

/// The number of white-space characters at the end of `s`.
pub open spec fn trailing_spaces(s: Seq<char>) -> nat
    decreases s.len(),
{
    if s.len() > 0 && is_space(s.last()) {
        1 + trailing_spaces(s.drop_last())
    } else {
        0
    }
}

/// `s` without the white space at either end.
pub open spec fn trimmed(s: Seq<char>) -> Seq<char> {
    if leading_spaces(s) == s.len() {
        Seq::empty()
    } else {
        s.subrange(leading_spaces(s) as int, s.len() - trailing_spaces(s))
    }
}

/// The number that the digits of `s` write in base ten.
pub open spec fn digits_value(s: Seq<char>) -> nat
    decreases s.len(),
{
    if s.len() == 0 {
        0
    } else {
        digits_value(s.drop_last()) * 10 + ((s.last() as u32) - 0x30) as nat
    }
}

/// Whether `s` holds decimal digits only.
pub open spec fn only_digits(s: Seq<char>) -> bool {
    forall|i: int| 0 <= i < s.len() ==> is_digit(#[trigger] s[i])
}

/// `s` without a plus sign in front of it.
pub open spec fn unsigned_part(s: Seq<char>) -> Seq<char> {
    if s.len() > 0 && s.first() == '+' {
        s.drop_first()
    } else {
        s
    }
}

/// The count that `s` holds: white space at either end is ignored; what is left
/// must be one or more decimal digits, with at most one plus sign in front of
/// them, and must write a number that fits a machine word.
pub open spec fn count_in(s: Seq<char>) -> Option<usize> {
    let digits = unsigned_part(trimmed(s));
    if digits.len() > 0 && only_digits(digits) && digits_value(digits) <= usize::MAX {
        Some(digits_value(digits) as usize)
    } else {
        None
    }
}

/// The packages that `listing` names: its lines, less the one line of its
/// heading. A listing without any line names none and has no heading to leave
/// out either: `None`.
pub open spec fn packages_in(listing: Seq<char>) -> Option<usize> {
    if line_count(listing) == 0 {
        None
    } else {
        Some((line_count(listing) - 1) as usize)
    }
}

/// A text has no more lines than characters.
pub proof fn lemma_line_count_bound(s: Seq<char>)
    ensures
        line_feeds(s) <= s.len(),
        line_count(s) <= s.len(),
    decreases s.len(),
{
    if s.len() > 0 {
        lemma_line_count_bound(s.drop_last());
    }
}

/// The lines of `text`.
pub fn count_lines(text: &str) -> (n: usize)
    ensures
        n == line_count(text@),
{
    let chars = chars_of(text);
    let mut feeds: usize = 0;
    let mut i: usize = 0;
    while i < chars.len()
        invariant
            i <= chars.len(),
            feeds == line_feeds(chars@.take(i as int)),
            feeds <= i,
        decreases chars.len() - i,
    {
        proof {
            assert(chars@.take(i + 1).drop_last() == chars@.take(i as int));
        }
        if chars[i] == '\n' {
            feeds += 1;
        }
        i += 1;
    }
    proof {
        assert(chars@.take(chars.len() as int) == chars@);
        lemma_line_count_bound(chars@);
    }
    if chars.len() > 0 && chars[chars.len() - 1] != '\n' {
        feeds + 1
    } else {
        feeds
    }
}

/// The packages that `listing` names: its lines, less the heading.
pub fn package_count(listing: &str) -> (count: Option<usize>)
    ensures
        count == packages_in(listing@),
{
    let lines = count_lines(listing);
    if lines == 0 {
        None
    } else {
        Some(lines - 1)
    }
}

/// Whether `c` is white space.
pub fn is_space_char(c: char) -> (b: bool)
    ensures
        b == is_space(c),
{
    let u: u32 = c as u32;
    (0x09 <= u && u <= 0x0D) || u == 0x20 || u == 0x85 || u == 0xA0 || u == 0x1680 || (0x2000 <= u
        && u <= 0x200A) || u == 0x2028 || u == 0x2029 || u == 0x202F || u == 0x205F || u == 0x3000
}

/// A number does not get smaller by a digit written behind it.
pub proof fn lemma_digits_value_grows(s: Seq<char>, i: int)
    requires
        0 <= i <= s.len(),
    ensures
        digits_value(s.take(i)) <= digits_value(s),
    decreases s.len() - i,
{
    if i < s.len() {
        lemma_digits_value_grows(s, i + 1);
        assert(s.take(i + 1).drop_last() == s.take(i));
    } else {
        assert(s.take(i) == s);
    }
}

/// The count that `contents` holds, if it holds one.
pub fn parse_count(contents: &str) -> (count: Option<usize>)
    ensures
        count == count_in(contents@),
{
    let chars = chars_of(contents);
    let n: usize = chars.len();
    let mut start: usize = 0;
    assert(chars@.skip(0) == chars@);
    while start < n && is_space_char(chars[start])
        invariant
            start <= n,
            n == chars.len(),
            leading_spaces(chars@) == start + leading_spaces(chars@.skip(start as int)),
        decreases n - start,
    {
        proof {
            assert(chars@.skip(start as int).drop_first() == chars@.skip(start + 1));
        }
        start += 1;
    }
    if start == n {
        return None;
    }
    let mut end: usize = n;
    while end > start + 1 && is_space_char(chars[end - 1])
        invariant
            start < end <= n,
            n == chars.len(),
            trailing_spaces(chars@) == (n - end) + trailing_spaces(chars@.take(end as int)),
        decreases end,
    {
        proof {
            assert(chars@.take(end as int).drop_last() == chars@.take(end - 1));
        }
        end -= 1;
    }
    let first: usize = if chars[start] == '+' {
        start + 1
    } else {
        start
    };
    let ghost digits = chars@.subrange(first as int, end as int);
    if first == end {
        return None;
    }
    let mut value: usize = 0;
    let mut i: usize = first;
    while i < end
        invariant
            first <= i <= end <= n,
            n == chars.len(),
            digits == chars@.subrange(first as int, end as int),
            digits == unsigned_part(trimmed(contents@)),
            only_digits(digits.take(i - first)),
            value == digits_value(digits.take(i - first)),
        decreases end - i,
    {
        let u: u32 = chars[i] as u32;
        proof {
            assert(digits.take(i - first + 1).drop_last() == digits.take(i - first));
            lemma_digits_value_grows(digits, i - first + 1);
        }
        if u < 0x30 || u > 0x39 {
            return None;
        }
        let digit: usize = (u - 0x30) as usize;
        let scaled: usize = match value.checked_mul(10) {
            Some(v) => v,
            None => return None,
        };
        value = match scaled.checked_add(digit) {
            Some(v) => v,
            None => return None,
        };
        i += 1;
    }
    proof {
        assert(digits.take(end - first) == digits);
    }
    Some(value)
}

} // verus!
