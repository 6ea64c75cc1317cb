//! Placing text on a row of fixed width: two strings at opposite ends, or one
//! string in the middle.
//!
//! Text is never cut. Where it does not fit, the row comes out wider than the
//! frame.

use crate::escape::{lemma_plain_text_visible, visible_text, visible_width, ESC};
use crate::measure::{
    lemma_text_width_blanks, lemma_text_width_concat, saturated, text_width, width,
};
use crate::text::{blanks, chars_of, push_blanks, push_char, BLANK};
use vstd::prelude::*;
use vstd::string::StringExecFns;

verus! {

/// The blank cells at either edge of a row of `frame` cells, `coverage` percent
/// of which belong to the content.
pub open spec fn side_padding(coverage: nat, frame: nat) -> nat {
    (frame * (100 - coverage) / 200) as nat
}

/// The cells between the two paddings.
pub open spec fn inner_width(coverage: nat, frame: nat) -> nat {
    (frame - 2 * side_padding(coverage, frame)) as nat
}

/// Whether `left` and `right` find room side by side between the paddings.
pub open spec fn fits_between(left: Seq<char>, right: Seq<char>, coverage: nat, frame: nat) -> bool {
    text_width(left) + text_width(right) <= inner_width(coverage, frame)
}

/// The blank cells between `left` and `right`: what the two leave of the inner
/// width, and none where they leave nothing.
pub open spec fn gap_between(left: Seq<char>, right: Seq<char>, coverage: nat, frame: nat) -> nat {
    if fits_between(left, right, coverage, frame) {
        (inner_width(coverage, frame) - text_width(left) - text_width(right)) as nat
    } else {
        0
    }
}

/// The row with `left` behind the leading padding and `right` in front of the
/// trailing one. A coverage of zero gives the empty row.
pub open spec fn compose_text(
    left: Seq<char>,
    right: Seq<char>,
    coverage: nat,
    frame: nat,
) -> Seq<char> {
    if coverage == 0 {
        Seq::empty()
    } else {
        blanks(side_padding(coverage, frame)) + left + blanks(
            gap_between(left, right, coverage, frame),
        ) + right + blanks(side_padding(coverage, frame))
    }
}

/// The column at which a text of `text_w` cells starts when centered in `frame`
/// cells: column 0 where the text is wider than the frame.
pub open spec fn center_start(text_w: nat, frame: nat) -> nat {
    if text_w <= frame {
        ((frame - text_w) / 2) as nat
    } else {
        0
    }
}

/// The blank cells behind a centered text of `text_w` cells.
pub open spec fn center_tail(text_w: nat, frame: nat) -> nat {
    if text_w <= frame {
        (frame - center_start(text_w, frame) - text_w) as nat
    } else {
        0
    }
}

/// The row with `text` in its middle.
pub open spec fn center_text(text: Seq<char>, frame: nat) -> Seq<char> {
    blanks(center_start(text_width(text), frame)) + text + blanks(
        center_tail(text_width(text), frame),
    )
}

/// `s` without its leading blanks.
pub open spec fn trim_start(s: Seq<char>) -> Seq<char>
    decreases s.len(),
{
    if s.len() > 0 && s.first() == BLANK {
        trim_start(s.drop_first())
    } else {
        s
    }
}

/// `s` without its trailing blanks.
pub open spec fn trim_end(s: Seq<char>) -> Seq<char>
    decreases s.len(),
{
    if s.len() > 0 && s.last() == BLANK {
        trim_end(s.drop_last())
    } else {
        s
    }
}

/// `s` without the blanks at either end.
pub open spec fn trim_blanks(s: Seq<char>) -> Seq<char> {
    trim_end(trim_start(s))
}

/// The padding never takes more than half the frame on either side.
pub proof fn lemma_side_padding_bound(coverage: nat, frame: nat)
    requires
        coverage <= 100,
    ensures
        2 * side_padding(coverage, frame) <= frame,
        coverage == 100 ==> side_padding(coverage, frame) == 0,
{
    assert(0 <= frame * (100 - coverage) <= frame * 100) by (nonlinear_arith)
        requires
            coverage <= 100,
    ;
    if coverage == 100 {
        assert(frame * (100 - coverage) == 0) by (nonlinear_arith)
            requires
                coverage == 100,
        ;
    }
}

/// The width of a composed row: the frame's where the two texts fit, and the
/// paddings and both texts where they do not.
pub proof fn lemma_compose_width(left: Seq<char>, right: Seq<char>, coverage: nat, frame: nat)
    requires
        1 <= coverage <= 100,
    ensures
        fits_between(left, right, coverage, frame) ==> text_width(
            compose_text(left, right, coverage, frame),
        ) == frame,
        !fits_between(left, right, coverage, frame) ==> text_width(
            compose_text(left, right, coverage, frame),
        ) == 2 * side_padding(coverage, frame) + text_width(left) + text_width(right),
{
    let pad = side_padding(coverage, frame);
    let gap = gap_between(left, right, coverage, frame);
    lemma_side_padding_bound(coverage, frame);
    lemma_text_width_blanks(pad);
    lemma_text_width_blanks(gap);
    lemma_text_width_concat(blanks(pad), left);
    lemma_text_width_concat(blanks(pad) + left, blanks(gap));
    lemma_text_width_concat(blanks(pad) + left + blanks(gap), right);
    lemma_text_width_concat(blanks(pad) + left + blanks(gap) + right, blanks(pad));
}

/// A row composed at full coverage from two texts that hold no escape character
/// and together are no wider than the frame shows exactly as many cells as the
/// frame has.
pub proof fn lemma_full_coverage_fills_frame(left: Seq<char>, right: Seq<char>, frame: nat)
    requires
        text_width(left) + text_width(right) <= frame,
        !left.contains(ESC),
        !right.contains(ESC),
    ensures
        visible_width(compose_text(left, right, 100, frame)) == frame,
{
    lemma_side_padding_bound(100, frame);
    lemma_compose_visible(left, right, 100, frame);
    lemma_compose_width(left, right, 100, frame);
}

/// A row composed from two texts that hold no escape character holds none.
pub proof fn lemma_compose_plain(left: Seq<char>, right: Seq<char>, coverage: nat, frame: nat)
    requires
        !left.contains(ESC),
        !right.contains(ESC),
    ensures
        !compose_text(left, right, coverage, frame).contains(ESC),
{
    let row = compose_text(left, right, coverage, frame);
    if row.contains(ESC) {
        let i: int = choose|i: int| 0 <= i < row.len() && row[i] == ESC;
        let pad = side_padding(coverage, frame);
        let gap = gap_between(left, right, coverage, frame);
        if pad <= i < pad + left.len() {
            assert(left[i - pad] == ESC);
        } else if pad + left.len() + gap <= i < pad + left.len() + gap + right.len() {
            assert(right[i - pad - left.len() - gap] == ESC);
        }
    }
}

/// A row with a centered text that holds no escape character holds none.
pub proof fn lemma_center_plain(text: Seq<char>, frame: nat)
    requires
        !text.contains(ESC),
    ensures
        !center_text(text, frame).contains(ESC),
{
    let row = center_text(text, frame);
    if row.contains(ESC) {
        let i: int = choose|i: int| 0 <= i < row.len() && row[i] == ESC;
        let start = center_start(text_width(text), frame);
        if start <= i < start + text.len() {
            assert(text[i - start] == ESC);
        }
    }
}

/// A row composed from two texts that hold no escape character is visible as it
/// stands.
pub proof fn lemma_compose_visible(left: Seq<char>, right: Seq<char>, coverage: nat, frame: nat)
    requires
        !left.contains(ESC),
        !right.contains(ESC),
    ensures
        visible_text(compose_text(left, right, coverage, frame)) == compose_text(
            left,
            right,
            coverage,
            frame,
        ),
        visible_width(compose_text(left, right, coverage, frame)) == text_width(
            compose_text(left, right, coverage, frame),
        ),
{
    lemma_compose_plain(left, right, coverage, frame);
    lemma_plain_text_visible(compose_text(left, right, coverage, frame));
}

/// The width of the terminal in cells: read once, before anything is laid out,
/// and the same for every row of one report.
#[derive(Clone, Copy, Debug, PartialEq, Eq, Structural)]
pub struct TerminalFrame {
    pub columns: u16,
}

/// A text together with its display width. The width is measured when the run
/// is made and cannot be set apart from the text.
pub struct StyledRun<'a> {
    text: &'a str,
    display_width: usize,
}

impl<'a> View for StyledRun<'a> {
    type V = Seq<char>;

    closed spec fn view(&self) -> Seq<char> {
        self.text@
    }
}

impl<'a> StyledRun<'a> {
    #[verifier::type_invariant]
    spec fn measured(&self) -> bool {
        self.display_width == saturated(text_width(self.text@))
    }

    /// Measures `text`.
    pub fn new(text: &'a str) -> (run: StyledRun<'a>)
        ensures
            run@ == text@,
    {
        StyledRun { text, display_width: width(text) }
    }

    /// The text of the run.
    pub fn text(&self) -> (text: &'a str)
        ensures
            text@ == self@,
    {
        self.text
    }

    /// The cells that the run occupies. A width beyond `usize::MAX` is reported
    /// as `usize::MAX`.
    pub fn display_width(&self) -> (w: usize)
        ensures
            w == saturated(text_width(self@)),
    {
        proof {
            use_type_invariant(self);
        }
        self.display_width
    }
}

impl TerminalFrame {
    /// Places `left` and `right` at opposite ends of a row of this frame.
    /// `coverage_percent` percent of the frame belong to the two and the blanks
    /// between them; the rest is blank padding, half of it at either edge.
    ///
    /// A percentage of zero gives the empty row. Two texts that are wider than
    /// their share are written out in full, one behind the other, and the row is
    /// then wider than the frame.
    pub fn compose(&self, left: &StyledRun, right: &StyledRun, coverage_percent: u16) -> (line:
        String)
        requires
            coverage_percent <= 100,
        ensures
            line@ == compose_text(left@, right@, coverage_percent as nat, self.columns as nat),
            coverage_percent == 0 ==> line@.len() == 0,
            coverage_percent > 0 && fits_between(
                left@,
                right@,
                coverage_percent as nat,
                self.columns as nat,
            ) ==> text_width(line@) == self.columns,
            coverage_percent > 0 && !fits_between(
                left@,
                right@,
                coverage_percent as nat,
                self.columns as nat,
            ) ==> text_width(line@) == 2 * side_padding(
                coverage_percent as nat,
                self.columns as nat,
            ) + text_width(left@) + text_width(right@),
            !left@.contains(ESC) && !right@.contains(ESC) ==> visible_width(line@) == text_width(
                line@,
            ),
    {
        proof {
            if coverage_percent > 0 {
                lemma_compose_width(left@, right@, coverage_percent as nat, self.columns as nat);
            }
            if !left@.contains(ESC) && !right@.contains(ESC) {
                lemma_compose_visible(left@, right@, coverage_percent as nat, self.columns as nat);
            }
            lemma_side_padding_bound(coverage_percent as nat, self.columns as nat);
        }
        if coverage_percent == 0 {
            return String::new();
        }
        let frame: usize = self.columns as usize;
        let share: u32 = (100 - coverage_percent) as u32;
        assert(self.columns * share <= 65535 * 100) by (nonlinear_arith)
            requires
                self.columns <= 65535,
                share <= 100,
        ;
        let pad: usize = (self.columns as u32 * share / 200) as usize;
        let inner: usize = frame - 2 * pad;
        let left_w: usize = left.display_width();
        let right_w: usize = right.display_width();
        let gap: usize = if left_w >= inner {
            0
        } else if right_w >= inner - left_w {
            0
        } else {
            inner - left_w - right_w
        };
        let mut line = String::new();
        push_blanks(&mut line, pad);
        line.append(left.text());
        push_blanks(&mut line, gap);
        line.append(right.text());
        push_blanks(&mut line, pad);
        line
    }

    /// Centers `text` in a row of this frame: as many blanks in front of it as
    /// behind it, and one more behind it where they cannot be shared evenly. A
    /// text wider than the frame is returned as it stands.
    pub fn center(&self, text: &StyledRun) -> (line: String)
        ensures
            line@ == center_text(text@, self.columns as nat),
            text_width(text@) <= self.columns ==> text_width(line@) == self.columns,
            text_width(text@) > self.columns ==> line@ == text@,
            !text@.contains(ESC) ==> visible_width(line@) == text_width(line@),
    {
        proof {
            lemma_center_width(text@, self.columns as nat);
            if !text@.contains(ESC) {
                lemma_center_plain(text@, self.columns as nat);
                lemma_plain_text_visible(center_text(text@, self.columns as nat));
            }
        }
        let frame: usize = self.columns as usize;
        let text_w: usize = text.display_width();
        let mut line = String::new();
        if text_w <= frame {
            let start: usize = (frame - text_w) / 2;
            push_blanks(&mut line, start);
            line.append(text.text());
            push_blanks(&mut line, frame - start - text_w);
        } else {
            line.append(text.text());
        }
        line
    }
}

/// Places `str1` and `str2` at opposite ends of a row of `console_width` cells,
/// `width_in_percent` percent of which belong to the two and the blanks between
/// them: `TerminalFrame::compose` on texts that are yet to be measured.
pub fn flex_between(
    str1: &str,
    str2: &str,
    width_in_percent: u16,
    console_width: u16,
) -> (line: String)
    requires
        width_in_percent <= 100,
    ensures
        line@ == compose_text(str1@, str2@, width_in_percent as nat, console_width as nat),
        width_in_percent == 0 ==> line@.len() == 0,
        width_in_percent > 0 && fits_between(
            str1@,
            str2@,
            width_in_percent as nat,
            console_width as nat,
        ) ==> text_width(line@) == console_width,
        width_in_percent > 0 && !fits_between(
            str1@,
            str2@,
            width_in_percent as nat,
            console_width as nat,
        ) ==> text_width(line@) == 2 * side_padding(
            width_in_percent as nat,
            console_width as nat,
        ) + text_width(str1@) + text_width(str2@),
        !str1@.contains(ESC) && !str2@.contains(ESC) ==> visible_width(line@) == text_width(line@),
{
    let frame = TerminalFrame { columns: console_width };
    frame.compose(&StyledRun::new(str1), &StyledRun::new(str2), width_in_percent)
}

/// Centers `string` in a row of `console_width` cells: `TerminalFrame::center`
/// on a text that is yet to be measured.
pub fn subtitle(string: &str, console_width: u16) -> (line: String)
    ensures
        line@ == center_text(string@, console_width as nat),
        text_width(string@) <= console_width ==> text_width(line@) == console_width,
        text_width(string@) > console_width ==> line@ == string@,
        !string@.contains(ESC) ==> visible_width(line@) == text_width(line@),
{
    let frame = TerminalFrame { columns: console_width };
    frame.center(&StyledRun::new(string))
}

/// `line` without the blanks at either end.
pub fn strip_padding(line: &str) -> (text: String)
    ensures
        text@ == trim_blanks(line@),
{
    let chars = chars_of(line);
    let n: usize = chars.len();
    let mut start: usize = 0;
    assert(chars@.skip(0) == chars@);
    while start < n && chars[start] == BLANK
        invariant
            start <= n,
            n == chars.len(),
            trim_start(chars@) == trim_start(chars@.skip(start as int)),
        decreases n - start,
    {
        proof {
            assert(chars@.skip(start as int).drop_first() == chars@.skip(start + 1));
        }
        start += 1;
    }
    let mut end: usize = n;
    while end > start && chars[end - 1] == BLANK
        invariant
            start <= end <= n,
            n == chars.len(),
            trim_blanks(chars@) == trim_end(chars@.subrange(start as int, end as int)),
        decreases end,
    {
        proof {
            let part = chars@.subrange(start as int, end as int);
            assert(part.drop_last() == chars@.subrange(start as int, end - 1));
        }
        end -= 1;
    }
    let mut text = String::new();
    let mut i: usize = start;
    while i < end
        invariant
            start <= i <= end <= n,
            n == chars.len(),
            text@ == chars@.subrange(start as int, i as int),
        decreases end - i,
    {
        push_char(&mut text, chars[i]);
        i += 1;
    }
    text
}

/// A centered text that fits fills the frame; one that does not is returned as
/// it stands.
pub proof fn lemma_center_width(text: Seq<char>, frame: nat)
    ensures
        text_width(text) <= frame ==> text_width(center_text(text, frame)) == frame,
        text_width(text) > frame ==> center_text(text, frame) == text,
{
    let w = text_width(text);
    let start = center_start(w, frame);
    let tail = center_tail(w, frame);
    lemma_text_width_blanks(start);
    lemma_text_width_blanks(tail);
    lemma_text_width_concat(blanks(start), text);
    lemma_text_width_concat(blanks(start) + text, blanks(tail));
}

/// Blanks in front of a text do not survive `trim_start`.
pub proof fn lemma_trim_start_blanks(n: nat, s: Seq<char>)
    ensures
        trim_start(blanks(n) + s) == trim_start(s),
    decreases n,
{
    if n > 0 {
        assert((blanks(n) + s).drop_first() == blanks((n - 1) as nat) + s);
        lemma_trim_start_blanks((n - 1) as nat, s);
    }
}

/// Blanks behind a text do not survive `trim_end`.
pub proof fn lemma_trim_end_blanks(s: Seq<char>, n: nat)
    ensures
        trim_end(s + blanks(n)) == trim_end(s),
    decreases n,
{
    if n > 0 {
        assert((s + blanks(n)).drop_last() == s + blanks((n - 1) as nat));
        lemma_trim_end_blanks(s, (n - 1) as nat);
    }
}

/// Blanks behind a text do not show in what `trim_blanks` leaves of it.
proof fn lemma_trim_blanks_behind(s: Seq<char>, n: nat)
    ensures
        trim_blanks(s + blanks(n)) == trim_blanks(s),
    decreases s.len(),
{
    if s.len() == 0 {
        lemma_trim_start_blanks(n, s);
    } else if s.first() == BLANK {
        assert((s + blanks(n)).drop_first() == s.drop_first() + blanks(n));
        lemma_trim_blanks_behind(s.drop_first(), n);
    } else {
        lemma_trim_end_blanks(s, n);
    }
}

/// Padding a text with blanks on either side does not change what
/// `trim_blanks` leaves of it.
pub proof fn lemma_trim_blanks_padded(before: nat, s: Seq<char>, behind: nat)
    ensures
        trim_blanks(blanks(before) + s + blanks(behind)) == trim_blanks(s),
{
    assert(blanks(before) + s + blanks(behind) == blanks(before) + (s + blanks(behind)));
    lemma_trim_start_blanks(before, s + blanks(behind));
    lemma_trim_blanks_behind(s, behind);
}

/// Centering is idempotent: a centered row, stripped of the blanks at its ends
/// and centered again in the same frame, is the row that centering the stripped
/// text gives. For a text that neither starts nor ends with a blank, that is the
/// centered row itself.
pub proof fn lemma_center_idempotent(text: Seq<char>, frame: nat)
    ensures
        trim_blanks(center_text(text, frame)) == trim_blanks(text),
        center_text(trim_blanks(center_text(text, frame)), frame) == center_text(
            trim_blanks(text),
            frame,
        ),
        trim_blanks(text) == text ==> center_text(trim_blanks(center_text(text, frame)), frame)
            == center_text(text, frame),
{
    lemma_trim_blanks_padded(
        center_start(text_width(text), frame),
        text,
        center_tail(text_width(text), frame),
    );
}

} // verus!
