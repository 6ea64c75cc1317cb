//! Select-graphic-rendition escape sequences: emitting them, and finding the
//! visible text of a line that holds them.
//!
//! An escape sequence is the escape character, `[`, any run of characters that
//! are not final bytes, and one final byte (`@` up to `~`). An escape character
//! that is not followed by `[` is dropped on its own. Everything else is visible.

use crate::color::ColorRGB;
use crate::measure::{saturated, text_width, width};
use crate::text::{decimal, push_char, push_decimal};
use vstd::prelude::*;
use vstd::string::StringExecFns;

verus! {

/// The escape character.
pub const ESC: char = '\x1b';

/// Where a left-to-right scan of a line stands.
#[derive(Clone, Copy, Debug, PartialEq, Eq, Structural)]
pub enum ScanState {
    /// Outside any escape sequence.
    Text,
    /// Just behind an escape character.
    Escape,
    /// Inside the parameters of an escape sequence.
    Params,
}

/// Whether `c` ends the parameters of an escape sequence.
pub open spec fn is_final_byte(c: char) -> bool {
    0x40 <= (c as u32) && (c as u32) <= 0x7E
}

/// The state behind `c`, read in `state`.
pub open spec fn next_state(state: ScanState, c: char) -> ScanState {
    match state {
        ScanState::Params => if is_final_byte(c) {
            ScanState::Text
        } else {
            ScanState::Params
        },
        ScanState::Escape => if c == '[' {
            ScanState::Params
        } else if c == ESC {
            ScanState::Escape
        } else {
            ScanState::Text
        },
        ScanState::Text => if c == ESC {
            ScanState::Escape
        } else {
            ScanState::Text
        },
    }
}

/// Whether `c`, read in `state`, is shown on the terminal.
pub open spec fn is_shown(state: ScanState, c: char) -> bool {
    match state {
        ScanState::Params => false,
        ScanState::Escape => c != '[' && c != ESC,
        ScanState::Text => c != ESC,
    }
}

/// The state behind `s`, when the scan enters it in `state`.
pub open spec fn scan_state(state: ScanState, s: Seq<char>) -> ScanState
    decreases s.len(),
{
    if s.len() == 0 {
        state
    } else {
        next_state(scan_state(state, s.drop_last()), s.last())
    }
}

/// The characters of `s` that are shown, when the scan enters it in `state`.
pub open spec fn scan_shown(state: ScanState, s: Seq<char>) -> Seq<char>
    decreases s.len(),
{
    if s.len() == 0 {
        Seq::empty()
    } else {
        let before = scan_shown(state, s.drop_last());
        if is_shown(scan_state(state, s.drop_last()), s.last()) {
            before.push(s.last())
        } else {
            before
        }
    }
}

/// The line with its escape sequences taken out.
pub open spec fn visible_text(s: Seq<char>) -> Seq<char> {
    scan_shown(ScanState::Text, s)
}

/// The cells that the line occupies on the terminal.
pub open spec fn visible_width(s: Seq<char>) -> nat {
    text_width(visible_text(s))
}

/// The escape sequence with the parameters `params`.
pub open spec fn sgr(params: Seq<char>) -> Seq<char> {
    seq![ESC, '['] + params + seq!['m']
}

/// The parameters that select `color` as the foreground.
pub open spec fn fg_params(color: ColorRGB) -> Seq<char> {
    seq!['3', '8', ';', '2', ';'] + decimal(color.r as nat) + seq![';'] + decimal(color.g as nat)
        + seq![';'] + decimal(color.b as nat)
}

/// The sequence that selects `color` as the foreground.
pub open spec fn fg_escape(color: ColorRGB) -> Seq<char> {
    sgr(fg_params(color))
}

/// The sequence that selects bold type and `color` as the foreground.
pub open spec fn bold_fg_escape(color: ColorRGB) -> Seq<char> {
    sgr(seq!['1', ';'] + fg_params(color))
}

/// The sequence that resets all attributes.
pub open spec fn reset_escape() -> Seq<char> {
    sgr(seq!['0'])
}

/// `text` in `color`: the foreground sequence, the text, the reset.
pub open spec fn painted(text: Seq<char>, color: ColorRGB) -> Seq<char> {
    fg_escape(color) + text + reset_escape()
}

/// `text` in bold `color`: the bold foreground sequence, the text, the reset.
pub open spec fn painted_bold(text: Seq<char>, color: ColorRGB) -> Seq<char> {
    bold_fg_escape(color) + text + reset_escape()
}

fn push_fg_params(out: &mut String, color: ColorRGB)
    ensures
        final(out)@ == old(out)@ + fg_params(color),
{
    proof {
        reveal_strlit("38;2;");
    }
    out.append("38;2;");
    push_decimal(out, color.r as u64);
    push_char(out, ';');
    push_decimal(out, color.g as u64);
    push_char(out, ';');
    push_decimal(out, color.b as u64);
}

/// Appends the sequence that selects `color` as the foreground.
pub fn push_fg(out: &mut String, color: ColorRGB)
    ensures
        final(out)@ == old(out)@ + fg_escape(color),
{
    push_char(out, ESC);
    push_char(out, '[');
    push_fg_params(out, color);
    push_char(out, 'm');
}

/// Appends the sequence that selects bold type and `color` as the foreground.
pub fn push_bold_fg(out: &mut String, color: ColorRGB)
    ensures
        final(out)@ == old(out)@ + bold_fg_escape(color),
{
    push_char(out, ESC);
    push_char(out, '[');
    push_char(out, '1');
    push_char(out, ';');
    push_fg_params(out, color);
    push_char(out, 'm');
}

/// Appends the sequence that resets all attributes.
pub fn push_reset(out: &mut String)
    ensures
        final(out)@ == old(out)@ + reset_escape(),
{
    push_char(out, ESC);
    push_char(out, '[');
    push_char(out, '0');
    push_char(out, 'm');
}

/// The line with its escape sequences taken out.
pub fn strip_escapes(line: &str) -> (text: String)
    ensures
        text@ == visible_text(line@),
{
    broadcast use vstd::string::axiom_spec_iter;

    let mut text = String::new();
    let mut state = ScanState::Text;
    for c in it: line.chars()
        invariant
            it.seq() == line@,
            state == scan_state(ScanState::Text, line@.take(it.index())),
            text@ == scan_shown(ScanState::Text, line@.take(it.index())),
    {
        proof {
            let i: int = it.index();
            assert(line@.take(i + 1).drop_last() == line@.take(i));
        }
        match state {
            ScanState::Params => {
                let code: u32 = c as u32;
                if 0x40 <= code && code <= 0x7E {
                    state = ScanState::Text;
                }
            },
            ScanState::Escape => {
                if c == '[' {
                    state = ScanState::Params;
                } else if c != ESC {
                    state = ScanState::Text;
                    push_char(&mut text, c);
                }
            },
            ScanState::Text => {
                if c == ESC {
                    state = ScanState::Escape;
                } else {
                    push_char(&mut text, c);
                }
            },
        }
    }
    proof {
        assert(line@.take(line@.len() as int) == line@);
    }
    text
}

/// The cells that `line` occupies on the terminal, escape sequences not
/// counted. A sum beyond `usize::MAX` is reported as `usize::MAX`.
pub fn visible_cells(line: &str) -> (w: usize)
    ensures
        w == saturated(visible_width(line@)),
{
    let text = strip_escapes(line);
    width(text.as_str())
}

/// `text` in `color`, with a reset behind it.
pub fn paint(text: &str, color: ColorRGB) -> (line: String)
    ensures
        line@ == painted(text@, color),
{
    let mut line = String::new();
    push_fg(&mut line, color);
    line.append(text);
    push_reset(&mut line);
    line
}

/// `text` in bold `color`, with a reset behind it.
pub fn paint_bold(text: &str, color: ColorRGB) -> (line: String)
    ensures
        line@ == painted_bold(text@, color),
{
    let mut line = String::new();
    push_bold_fg(&mut line, color);
    line.append(text);
    push_reset(&mut line);
    line
}

/// Scanning a concatenation is scanning its first part, then its second from
/// where the first left off.
pub proof fn lemma_scan_concat(state: ScanState, a: Seq<char>, b: Seq<char>)
    ensures
        scan_state(state, a + b) == scan_state(scan_state(state, a), b),
        scan_shown(state, a + b) == scan_shown(state, a) + scan_shown(scan_state(state, a), b),
    decreases b.len(),
{
    if b.len() > 0 {
        assert((a + b).drop_last() == a + b.drop_last());
        lemma_scan_concat(state, a, b.drop_last());
    }
}

/// A text without an escape character is visible as it stands.
pub proof fn lemma_plain_text_visible(s: Seq<char>)
    requires
        !s.contains(ESC),
    ensures
        scan_state(ScanState::Text, s) == ScanState::Text,
        visible_text(s) == s,
    decreases s.len(),
{
    if s.len() > 0 {
        let head = s.drop_last();
        assert(!head.contains(ESC)) by {
            if head.contains(ESC) {
                let i: int = choose|i: int| 0 <= i < head.len() && head[i] == ESC;
                assert(s[i] == ESC);
            }
        }
        assert(s.last() != ESC);
        lemma_plain_text_visible(head);
    }
}

/// Whether no character of `params` is a final byte.
pub open spec fn all_params(params: Seq<char>) -> bool {
    forall|i: int| 0 <= i < params.len() ==> !is_final_byte(#[trigger] params[i])
}

/// Whether every character of `s` is a decimal digit.
pub open spec fn all_digits(s: Seq<char>) -> bool {
    forall|i: int| 0 <= i < s.len() ==> '0' <= #[trigger] s[i] <= '9'
}

/// A decimal numeral holds decimal digits only.
pub proof fn lemma_decimal_digits(n: nat)
    ensures
        all_digits(decimal(n)),
        decimal(n).len() >= 1,
    decreases n,
{
    if n >= 10 {
        lemma_decimal_digits(n / 10);
    }
}

proof fn lemma_params_hidden(params: Seq<char>)
    requires
        all_params(params),
    ensures
        scan_state(ScanState::Params, params) == ScanState::Params,
        scan_shown(ScanState::Params, params) == Seq::<char>::empty(),
    decreases params.len(),
{
    if params.len() > 0 {
        let head = params.drop_last();
        assert(all_params(head)) by {
            assert forall|i: int| 0 <= i < head.len() implies !is_final_byte(#[trigger] head[i]) by {
                assert(head[i] == params[i]);
            }
        }
        lemma_params_hidden(head);
    }
}

/// A whole escape sequence shows nothing, wherever the scan stood outside the
/// parameters of another, and leaves the scan in the text.
pub proof fn lemma_sgr_hidden(state: ScanState, params: Seq<char>)
    requires
        all_params(params),
        state != ScanState::Params,
    ensures
        scan_state(state, sgr(params)) == ScanState::Text,
        scan_shown(state, sgr(params)) == Seq::<char>::empty(),
{
    let intro = seq![ESC, '['];
    let end = seq!['m'];
    assert(scan_state(state, intro) == ScanState::Params && scan_shown(state, intro)
        == Seq::<char>::empty()) by {
        reveal_with_fuel(scan_state, 3);
        reveal_with_fuel(scan_shown, 3);
    }
    lemma_params_hidden(params);
    lemma_scan_concat(state, intro, params);
    assert(scan_state(ScanState::Params, end) == ScanState::Text && scan_shown(
        ScanState::Params,
        end,
    ) == Seq::<char>::empty()) by {
        reveal_with_fuel(scan_state, 2);
        reveal_with_fuel(scan_shown, 2);
    }
    lemma_scan_concat(state, intro + params, end);
}

/// The parameters of a foreground selection hold no final byte.
pub proof fn lemma_fg_params(color: ColorRGB)
    ensures
        all_params(fg_params(color)),
{
    lemma_decimal_digits(color.r as nat);
    lemma_decimal_digits(color.g as nat);
    lemma_decimal_digits(color.b as nat);
}

/// Painting a text changes nothing of what is visible, provided the text does
/// not break off inside an escape sequence of its own.
pub proof fn lemma_painted_visible(text: Seq<char>, color: ColorRGB)
    requires
        scan_state(ScanState::Text, text) != ScanState::Params,
    ensures
        scan_state(ScanState::Text, painted(text, color)) == ScanState::Text,
        scan_state(ScanState::Text, painted_bold(text, color)) == ScanState::Text,
        visible_text(painted(text, color)) == visible_text(text),
        visible_text(painted_bold(text, color)) == visible_text(text),
        visible_width(painted(text, color)) == visible_width(text),
        visible_width(painted_bold(text, color)) == visible_width(text),
{
    lemma_fg_params(color);
    let bold = seq!['1', ';'] + fg_params(color);
    lemma_sgr_hidden(ScanState::Text, fg_params(color));
    lemma_sgr_hidden(ScanState::Text, bold);
    lemma_sgr_hidden(scan_state(ScanState::Text, text), seq!['0']);
    lemma_scan_concat(ScanState::Text, fg_escape(color), text);
    lemma_scan_concat(ScanState::Text, fg_escape(color) + text, reset_escape());
    lemma_scan_concat(ScanState::Text, bold_fg_escape(color), text);
    lemma_scan_concat(ScanState::Text, bold_fg_escape(color) + text, reset_escape());
}

} // verus!
