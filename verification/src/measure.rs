//! Display width of text in terminal cells.
//!
//! The width of a text is the sum of the widths of its scalar values. No
//! ligature or grapheme-cluster rule is applied: a joiner sequence counts every
//! component on its own. Whether the terminal draws a glyph in as many cells as
//! are counted for it here is the terminal's business.

use crate::text::blanks;
use unicode_width::UnicodeWidthChar;
use vstd::prelude::*;

verus! {

/// What `unicode_width::UnicodeWidthChar::width` returns for `c`.
pub uninterp spec fn unicode_char_width(c: char) -> Option<usize>;

/// Whether `c` is a C0 control code, DEL or a C1 control code.
pub open spec fn is_control(c: char) -> bool {
    (c as u32) < 0x20 || (0x7F <= (c as u32) && (c as u32) < 0xA0)
}

/// Whether `c` is a printable ASCII character, the blank included.
pub open spec fn is_printable_ascii(c: char) -> bool {
    0x20 <= (c as u32) && (c as u32) < 0x7F
}

/// Whether `c` is a private-use code point. Icon fonts fill these with glyphs.
pub open spec fn is_private_use(c: char) -> bool {
    let u = c as u32;
    (0xE000 <= u && u <= 0xF8FF) || (0xF_0000 <= u && u <= 0xF_FFFD) || (0x10_0000 <= u && u
        <= 0x10_FFFD)
}

/// Calls `unicode_width::UnicodeWidthChar::width`.
///
/// Not proved, but read off the table lookup of that crate: the result is a
/// function of `c` alone; it is `None` exactly for the control codes; printable
/// ASCII occupies one cell.
#[verifier::external_body]
fn lookup_char_width(c: char) -> (r: Option<usize>)
    ensures
        r == unicode_char_width(c),
        r is None <==> is_control(c),
        is_printable_ascii(c) ==> r == Some(1usize),
{
    UnicodeWidthChar::width(c)
}

/// Cells occupied by one scalar value. Every scalar value is zero-width, narrow
/// or wide:
///
/// - a private-use code point is wide, as the icon glyphs are that stand there;
/// - printable ASCII is narrow, and so is a control code, for which the table
///   has no entry;
/// - everything else is what the table says, and wide where the table gives it
///   more than two cells.
pub open spec fn char_width(c: char) -> nat {
    if is_private_use(c) {
        2
    } else if is_control(c) || is_printable_ascii(c) {
        1
    } else {
        match unicode_char_width(c) {
            Some(n) => if n >= 2 {
                2
            } else {
                n as nat
            },
            None => 1,
        }
    }
}

/// Cells occupied by a text: the sum of `char_width` over its scalar values.
pub open spec fn text_width(s: Seq<char>) -> nat
    decreases s.len(),
{
    if s.len() == 0 {
        0
    } else {
        text_width(s.drop_last()) + char_width(s.last())
    }
}

/// `n` as a machine word, pinned at `usize::MAX` when it does not fit.
pub open spec fn saturated(n: nat) -> usize {
    if n <= usize::MAX {
        n as usize
    } else {
        usize::MAX
    }
}

/// Cells occupied by the scalar value `c`: 0, 1 or 2.
pub fn char_cells(c: char) -> (w: usize)
    ensures
        w == char_width(c),
        w <= 2,
{
    let u: u32 = c as u32;
    if (0xE000 <= u && u <= 0xF8FF) || (0xF_0000 <= u && u <= 0xF_FFFD) || (0x10_0000 <= u && u
        <= 0x10_FFFD) {
        return 2;
    }
    match lookup_char_width(c) {
        Some(n) => if n >= 2 {
            2
        } else {
            n
        },
        None => 1,
    }
}

/// Cells occupied by `text`. A sum beyond `usize::MAX` is reported as
/// `usize::MAX`.
pub fn width(text: &str) -> (w: usize)
    ensures
        w == saturated(text_width(text@)),
{
    broadcast use vstd::string::axiom_spec_iter;

    let mut total: usize = 0;
    for c in it: text.chars()
        invariant
            it.seq() == text@,
            total == saturated(text_width(text@.take(it.index()))),
    {
        proof {
            let i: int = it.index();
            assert(text@.take(i + 1).drop_last() == text@.take(i));
        }
        total = total.saturating_add(char_cells(c));
    }
    proof {
        assert(text@.take(text@.len() as int) == text@);
    }
    total
}

/// The width of a concatenation is the sum of the widths of its parts.
pub proof fn lemma_text_width_concat(a: Seq<char>, b: Seq<char>)
    ensures
        text_width(a + b) == text_width(a) + text_width(b),
    decreases b.len(),
{
    if b.len() > 0 {
        assert((a + b).drop_last() == a + b.drop_last());
        lemma_text_width_concat(a, b.drop_last());
    }
}

/// A run of `n` blanks is `n` cells wide.
pub proof fn lemma_text_width_blanks(n: nat)
    ensures
        text_width(blanks(n)) == n,
    decreases n,
{
    if n > 0 {
        assert(blanks(n).drop_last() == blanks((n - 1) as nat));
        lemma_text_width_blanks((n - 1) as nat);
    }
}

} // verus!
