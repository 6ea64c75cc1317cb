//! A horizontal rule whose color runs from one end color to the other.
//!
//! The rule is laid out column by column. Every column inside the colored span
//! holds the glyph once, in the color interpolated for that column; every other
//! column holds a blank. A glyph that is wider than one cell therefore makes the
//! row wider than the frame: the colors are sampled per column, not per cell
//! that the glyph covers.

use crate::color::{lemma_mix_ends, lemma_mix_flat, mix, unpack_hex, ColorRGB};
use crate::escape::{
    fg_escape, fg_params, lemma_fg_params, lemma_scan_concat, lemma_sgr_hidden, push_fg,
    push_reset, reset_escape, scan_shown, scan_state, visible_text, visible_width, ScanState, ESC,
};
use crate::layout::TerminalFrame;
use crate::measure::{char_width, lemma_text_width_blanks, lemma_text_width_concat, text_width};
use crate::text::{blanks, push_char, BLANK};
use vstd::prelude::*;

verus! {

/// The glyph of the rule that `gradient_delim` draws: the upper half block.
pub const RULE_GLYPH: char = '\u{2580}';

/// The columns of the colored span: `coverage` percent of the frame, rounded to
/// the nearest column, a tie going up.
pub open spec fn rule_length(coverage: nat, frame: nat) -> nat {
    (frame * coverage + 50) / 100
}

/// The blank columns in front of the colored span, which is centered; where the
/// blanks cannot be shared evenly, the one more stands behind the span.
pub open spec fn rule_padding(coverage: nat, frame: nat) -> nat {
    ((frame - rule_length(coverage, frame)) / 2) as nat
}

/// The color of `column`, or `None` where the column is blank.
pub open spec fn rule_color(
    start: ColorRGB,
    end: ColorRGB,
    coverage: nat,
    frame: nat,
    column: nat,
) -> Option<ColorRGB> {
    let length = rule_length(coverage, frame);
    let padding = rule_padding(coverage, frame);
    if padding <= column < padding + length {
        Some(mix(start, end, (column - padding) as nat, length))
    } else {
        None
    }
}

/// The glyph in `color`, with a reset behind it.
pub open spec fn colored_cell(glyph: char, color: ColorRGB) -> Seq<char> {
    fg_escape(color) + seq![glyph] + reset_escape()
}

/// What is written for `column`.
pub open spec fn rule_cell(
    glyph: char,
    start: ColorRGB,
    end: ColorRGB,
    coverage: nat,
    frame: nat,
    column: nat,
) -> Seq<char> {
    match rule_color(start, end, coverage, frame, column) {
        Some(color) => colored_cell(glyph, color),
        None => seq![BLANK],
    }
}

/// What is written for the first `columns` columns.
pub open spec fn rule_prefix(
    glyph: char,
    start: ColorRGB,
    end: ColorRGB,
    coverage: nat,
    frame: nat,
    columns: nat,
) -> Seq<char>
    decreases columns,
{
    if columns == 0 {
        Seq::empty()
    } else {
        rule_prefix(glyph, start, end, coverage, frame, (columns - 1) as nat) + rule_cell(
            glyph,
            start,
            end,
            coverage,
            frame,
            (columns - 1) as nat,
        )
    }
}

/// The whole rule: what is written for every column of the frame.
pub open spec fn gradient_text(
    glyph: char,
    start: ColorRGB,
    end: ColorRGB,
    coverage: nat,
    frame: nat,
) -> Seq<char> {
    rule_prefix(glyph, start, end, coverage, frame, frame)
}

/// `n` times the glyph.
pub open spec fn glyphs(glyph: char, n: nat) -> Seq<char> {
    Seq::new(n, |i: int| glyph)
}

/// What the rule shows: blanks, the glyph once per colored column, blanks.
pub open spec fn rule_shown(glyph: char, coverage: nat, frame: nat) -> Seq<char> {
    blanks(rule_padding(coverage, frame)) + glyphs(glyph, rule_length(coverage, frame)) + blanks(
        (frame - rule_padding(coverage, frame) - rule_length(coverage, frame)) as nat,
    )
}

/// The colored span is never longer than the frame.
pub proof fn lemma_rule_length_bound(coverage: nat, frame: nat)
    requires
        coverage <= 100,
    ensures
        rule_length(coverage, frame) <= frame,
        rule_padding(coverage, frame) + rule_length(coverage, frame) <= frame,
{
    assert(frame * coverage <= frame * 100) by (nonlinear_arith)
        requires
            coverage <= 100,
    ;
}

/// Padding and length of the colored span, in this order.
pub fn rule_extent(width_in_percent: u16, total_width: u16) -> (extent: (u16, u16))
    requires
        width_in_percent <= 100,
    ensures
        extent.0 == rule_padding(width_in_percent as nat, total_width as nat),
        extent.1 == rule_length(width_in_percent as nat, total_width as nat),
        extent.0 + extent.1 <= total_width,
{
    proof {
        lemma_rule_length_bound(width_in_percent as nat, total_width as nat);
    }
    assert(total_width * width_in_percent <= 65535 * 100) by (nonlinear_arith)
        requires
            total_width <= 65535,
            width_in_percent <= 100,
    ;
    let length: u32 = (total_width as u32 * width_in_percent as u32 + 50) / 100;
    let padding: u32 = (total_width as u32 - length) / 2;
    (padding as u16, length as u16)
}

/// The color of `column` in a rule from `start` to `end`, or `None` where the
/// column is blank.
pub fn column_color(
    start: ColorRGB,
    end: ColorRGB,
    width_in_percent: u16,
    total_width: u16,
    column: u16,
) -> (color: Option<ColorRGB>)
    requires
        width_in_percent <= 100,
    ensures
        color == rule_color(
            start,
            end,
            width_in_percent as nat,
            total_width as nat,
            column as nat,
        ),
{
    let (padding, length) = rule_extent(width_in_percent, total_width);
    if column < padding || column >= padding + length {
        None
    } else {
        Some(start.mix(&end, column - padding, length))
    }
}

/// Draws a rule of `total_width` columns. The colored span takes
/// `width_in_percent` percent of them and is centered. Each of its columns holds
/// `glyph` once, in the color interpolated between `start`, at its first column,
/// and `end`, at its last; a span of one column shows `start`.
pub fn gradient_rule(
    glyph: char,
    start: ColorRGB,
    end: ColorRGB,
    width_in_percent: u16,
    total_width: u16,
) -> (line: String)
    requires
        width_in_percent <= 100,
    ensures
        line@ == gradient_text(glyph, start, end, width_in_percent as nat, total_width as nat),
        glyph != ESC ==> visible_text(line@) == rule_shown(
            glyph,
            width_in_percent as nat,
            total_width as nat,
        ),
        glyph != ESC ==> visible_width(line@) == total_width - rule_length(
            width_in_percent as nat,
            total_width as nat,
        ) + rule_length(width_in_percent as nat, total_width as nat) * char_width(glyph),
        glyph != ESC && char_width(glyph) == 1 ==> visible_width(line@) == total_width,
{
    let ghost coverage = width_in_percent as nat;
    let ghost frame = total_width as nat;
    let (padding, length) = rule_extent(width_in_percent, total_width);
    let mut line = String::new();
    let mut column: u16 = 0;
    while column < total_width
        invariant
            column <= total_width,
            width_in_percent <= 100,
            coverage == width_in_percent as nat,
            frame == total_width as nat,
            padding == rule_padding(coverage, frame),
            length == rule_length(coverage, frame),
            padding + length <= total_width,
            line@ == rule_prefix(glyph, start, end, coverage, frame, column as nat),
        decreases total_width - column,
    {
        if column < padding || column >= padding + length {
            push_char(&mut line, BLANK);
            assert(line@ == rule_prefix(glyph, start, end, coverage, frame, column as nat) + seq![
                BLANK,
            ]);
        } else {
            let color = start.mix(&end, column - padding, length);
            push_fg(&mut line, color);
            push_char(&mut line, glyph);
            push_reset(&mut line);
            assert(line@ == rule_prefix(glyph, start, end, coverage, frame, column as nat)
                + colored_cell(glyph, color));
        }
        column += 1;
    }
    proof {
        if glyph != ESC {
            lemma_rule_shown(glyph, start, end, coverage, frame, frame);
            lemma_rule_shown_width(glyph, coverage, frame);
        }
    }
    line
}

/// A gradient: the two colors that it runs between, and the share of the frame
/// that it covers, in percent and never more than 100.
pub struct GradientSpec {
    start: ColorRGB,
    end: ColorRGB,
    coverage_percent: u16,
}

impl GradientSpec {
    #[verifier::type_invariant]
    spec fn in_range(&self) -> bool {
        self.coverage_percent <= 100
    }

    pub closed spec fn spec_start(&self) -> ColorRGB {
        self.start
    }

    pub closed spec fn spec_end(&self) -> ColorRGB {
        self.end
    }

    pub closed spec fn spec_coverage_percent(&self) -> u16 {
        self.coverage_percent
    }

    /// The gradient from `start` to `end` over `coverage_percent` percent of the
    /// frame; `None` where the percentage is more than 100.
    pub fn new(start: ColorRGB, end: ColorRGB, coverage_percent: u16) -> (gradient: Option<
        GradientSpec,
    >)
        ensures
            gradient is Some <==> coverage_percent <= 100,
            gradient matches Some(g) ==> g.start() == start && g.end() == end
                && g.coverage_percent() == coverage_percent,
    {
        if coverage_percent <= 100 {
            Some(GradientSpec { start, end, coverage_percent })
        } else {
            None
        }
    }

    /// The color of the first colored column.
    #[verifier::when_used_as_spec(spec_start)]
    pub fn start(&self) -> (color: ColorRGB)
        ensures
            color == self.start(),
    {
        self.start
    }

    /// The color of the last colored column.
    #[verifier::when_used_as_spec(spec_end)]
    pub fn end(&self) -> (color: ColorRGB)
        ensures
            color == self.end(),
    {
        self.end
    }

    /// The share of the frame that the gradient covers, in percent.
    #[verifier::when_used_as_spec(spec_coverage_percent)]
    pub fn coverage_percent(&self) -> (percent: u16)
        ensures
            percent == self.coverage_percent(),
            percent <= 100,
    {
        proof {
            use_type_invariant(self);
        }
        self.coverage_percent
    }
}

impl TerminalFrame {
    /// Draws `gradient` as a rule across this frame, with `glyph` in every
    /// colored column.
    pub fn gradient_rule(&self, glyph: char, gradient: &GradientSpec) -> (line: String)
        ensures
            line@ == gradient_text(
                glyph,
                gradient.start(),
                gradient.end(),
                gradient.coverage_percent() as nat,
                self.columns as nat,
            ),
            glyph != ESC ==> visible_text(line@) == rule_shown(
                glyph,
                gradient.coverage_percent() as nat,
                self.columns as nat,
            ),
            glyph != ESC && char_width(glyph) == 1 ==> visible_width(line@) == self.columns,
    {
        gradient_rule(
            glyph,
            gradient.start(),
            gradient.end(),
            gradient.coverage_percent(),
            self.columns,
        )
    }
}

/// Draws the rule of upper half blocks from the color packed in `start_hex` to
/// the one packed in `end_hex`, both as `0xRRGGBB`.
pub fn gradient_delim(
    start_hex: u32,
    end_hex: u32,
    width_in_percent: u16,
    total_width: u16,
) -> (line: String)
    requires
        width_in_percent <= 100,
    ensures
        line@ == gradient_text(
            RULE_GLYPH,
            unpack_hex(start_hex),
            unpack_hex(end_hex),
            width_in_percent as nat,
            total_width as nat,
        ),
        visible_text(line@) == rule_shown(RULE_GLYPH, width_in_percent as nat, total_width as nat),
        char_width(RULE_GLYPH) == 1 ==> visible_width(line@) == total_width,
{
    gradient_rule(
        RULE_GLYPH,
        ColorRGB::from_hex(start_hex),
        ColorRGB::from_hex(end_hex),
        width_in_percent,
        total_width,
    )
}

/// What the first `columns` columns of `rule_shown` are.
pub open spec fn shown_prefix(glyph: char, coverage: nat, frame: nat, columns: nat) -> Seq<char> {
    Seq::new(
        columns,
        |i: int|
            if rule_padding(coverage, frame) <= i < rule_padding(coverage, frame) + rule_length(
                coverage,
                frame,
            ) {
                glyph
            } else {
                BLANK
            },
    )
}

/// A colored cell shows its glyph and nothing else.
pub proof fn lemma_colored_cell_shown(glyph: char, color: ColorRGB)
    requires
        glyph != ESC,
    ensures
        scan_state(ScanState::Text, colored_cell(glyph, color)) == ScanState::Text,
        visible_text(colored_cell(glyph, color)) == seq![glyph],
{
    lemma_fg_params(color);
    lemma_sgr_hidden(ScanState::Text, fg_params(color));
    lemma_sgr_hidden(ScanState::Text, seq!['0']);
    let one = seq![glyph];
    assert(scan_state(ScanState::Text, one) == ScanState::Text && scan_shown(ScanState::Text, one)
        == one) by {
        reveal_with_fuel(scan_state, 2);
        reveal_with_fuel(scan_shown, 2);
    }
    lemma_scan_concat(ScanState::Text, fg_escape(color), one);
    lemma_scan_concat(ScanState::Text, fg_escape(color) + one, reset_escape());
}

/// The first `columns` columns show a blank for every blank column and the
/// glyph for every colored one.
pub proof fn lemma_rule_shown(
    glyph: char,
    start: ColorRGB,
    end: ColorRGB,
    coverage: nat,
    frame: nat,
    columns: nat,
)
    requires
        glyph != ESC,
        coverage <= 100,
        columns <= frame,
    ensures
        scan_state(ScanState::Text, rule_prefix(glyph, start, end, coverage, frame, columns))
            == ScanState::Text,
        visible_text(rule_prefix(glyph, start, end, coverage, frame, columns)) == shown_prefix(
            glyph,
            coverage,
            frame,
            columns,
        ),
        columns == frame ==> shown_prefix(glyph, coverage, frame, columns) == rule_shown(
            glyph,
            coverage,
            frame,
        ),
    decreases columns,
{
    lemma_rule_length_bound(coverage, frame);
    if columns > 0 {
        let last = (columns - 1) as nat;
        let head = rule_prefix(glyph, start, end, coverage, frame, last);
        let cell = rule_cell(glyph, start, end, coverage, frame, last);
        lemma_rule_shown(glyph, start, end, coverage, frame, last);
        lemma_scan_concat(ScanState::Text, head, cell);
        match rule_color(start, end, coverage, frame, last) {
            Some(color) => {
                lemma_colored_cell_shown(glyph, color);
            },
            None => {
                let one = seq![BLANK];
                assert(scan_state(ScanState::Text, one) == ScanState::Text && scan_shown(
                    ScanState::Text,
                    one,
                ) == one) by {
                    reveal_with_fuel(scan_state, 2);
                    reveal_with_fuel(scan_shown, 2);
                }
            },
        }
        assert(shown_prefix(glyph, coverage, frame, last) + scan_shown(ScanState::Text, cell)
            == shown_prefix(glyph, coverage, frame, columns));
    }
}

/// `n` glyphs are `n` times as wide as one.
pub proof fn lemma_text_width_glyphs(glyph: char, n: nat)
    ensures
        text_width(glyphs(glyph, n)) == n * char_width(glyph),
    decreases n,
{
    if n > 0 {
        assert(glyphs(glyph, n).drop_last() == glyphs(glyph, (n - 1) as nat));
        lemma_text_width_glyphs(glyph, (n - 1) as nat);
        assert(n * char_width(glyph) == (n - 1) * char_width(glyph) + char_width(glyph))
            by (nonlinear_arith);
    } else {
        assert(0 * char_width(glyph) == 0) by (nonlinear_arith);
    }
}

/// The cells that the rule shows: one for every blank column, the glyph's width
/// for every colored one.
pub proof fn lemma_rule_shown_width(glyph: char, coverage: nat, frame: nat)
    requires
        coverage <= 100,
    ensures
        text_width(rule_shown(glyph, coverage, frame)) == frame - rule_length(coverage, frame)
            + rule_length(coverage, frame) * char_width(glyph),
        char_width(glyph) == 1 ==> text_width(rule_shown(glyph, coverage, frame)) == frame,
{
    let padding = rule_padding(coverage, frame);
    let length = rule_length(coverage, frame);
    let rest = (frame - padding - length) as nat;
    lemma_rule_length_bound(coverage, frame);
    lemma_text_width_blanks(padding);
    lemma_text_width_blanks(rest);
    lemma_text_width_glyphs(glyph, length);
    lemma_text_width_concat(blanks(padding), glyphs(glyph, length));
    lemma_text_width_concat(blanks(padding) + glyphs(glyph, length), blanks(rest));
}

/// A rule between two equal colors shows that color in every colored column.
pub proof fn lemma_flat_rule(color: ColorRGB, coverage: nat, frame: nat, column: nat)
    ensures
        rule_color(color, color, coverage, frame, column) matches Some(shown) ==> shown == color,
{
    let length = rule_length(coverage, frame);
    let padding = rule_padding(coverage, frame);
    if padding <= column < padding + length {
        lemma_mix_flat(color, (column - padding) as nat, length);
    }
}

/// The first colored column of a rule shows `start`; the last one shows `end`
/// where the colored span has more than one column.
pub proof fn lemma_rule_ends(start: ColorRGB, end: ColorRGB, coverage: nat, frame: nat)
    requires
        rule_length(coverage, frame) >= 1,
    ensures
        rule_color(start, end, coverage, frame, rule_padding(coverage, frame)) == Some(start),
        rule_length(coverage, frame) > 1 ==> rule_color(
            start,
            end,
            coverage,
            frame,
            (rule_padding(coverage, frame) + rule_length(coverage, frame) - 1) as nat,
        ) == Some(end),
{
    lemma_mix_ends(start, end, rule_length(coverage, frame));
}

} // verus!
