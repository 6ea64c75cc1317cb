//! The report: a header, a gradient rule, and titled sections of label and value
//! rows, all laid out for one frame width.
//!
//! Rows arrive as pairs of strings, the label first. Where they come from is
//! not this module's business.

use crate::color::{unpack_hex, ColorRGB};
use crate::escape::{
    bold_fg_escape, lemma_painted_visible, lemma_plain_text_visible, paint, paint_bold, painted,
    painted_bold, push_bold_fg, push_reset, reset_escape, visible_text, ESC,
};
use crate::gradient::{gradient_delim, gradient_text, RULE_GLYPH};
use crate::layout::{
    center_text, compose_text, flex_between, lemma_center_plain, lemma_compose_plain, subtitle,
};
use crate::text::push_char;
use vstd::prelude::*;
use vstd::string::StringExecFns;

verus! {

/// The color of the rows, as `0xRRGGBB`.
pub const ROW_HEX: u32 = 0xffcfef;

/// The color of the header and of the section titles, as `0xRRGGBB`.
pub const TITLE_HEX: u32 = 0xff99dd;

/// The color at which the rule under the header starts, as `0xRRGGBB`.
pub const RULE_START_HEX: u32 = 0xffcbee;

/// The color at which the rule under the header ends, as `0xRRGGBB`.
pub const RULE_END_HEX: u32 = 0xff6bce;

/// The share of the frame, in percent, that rows, header and rule take.
pub const COVERAGE: u16 = 50;

/// The glyph in front of the user in the header.
pub const USER_ICON: char = '\u{e62a}';

/// The glyph of the system section.
pub const SYSTEM_ICON: char = '\u{f108}';

/// The glyph of the battery section.
pub const BATTERY_ICON: char = '\u{f240}';

/// The glyph of the processor section.
pub const PROCESSOR_ICON: char = '\u{f4bc}';

/// The glyph of the disk section.
pub const DISK_ICON: char = '\u{f0a0}';

/// The line break.
pub const NEWLINE: char = '\n';

/// One row: the label at the left, the value at the right, in the row color,
/// with a line break behind it.
pub open spec fn row_text(label: Seq<char>, value: Seq<char>, frame: nat) -> Seq<char> {
    painted(compose_text(label, value, COVERAGE as nat, frame), unpack_hex(ROW_HEX)).push(NEWLINE)
}

/// The rows, one behind the other.
pub open spec fn rows_text(rows: Seq<(String, String)>, frame: nat) -> Seq<char>
    decreases rows.len(),
{
    if rows.len() == 0 {
        Seq::empty()
    } else {
        rows_text(rows.drop_last(), frame) + row_text(rows.last().0@, rows.last().1@, frame)
    }
}

/// What a title shows: the glyph, two blanks, the name.
pub open spec fn title_label(icon: char, name: Seq<char>) -> Seq<char> {
    seq![icon, ' ', ' '] + name
}

/// A section title: its label, centered, in the bold title color, with a line
/// break behind it.
pub open spec fn title_text(icon: char, name: Seq<char>, frame: nat) -> Seq<char> {
    painted_bold(center_text(title_label(icon, name), frame), unpack_hex(TITLE_HEX)).push(NEWLINE)
}

/// The line that closes a section: a reset and a line break.
pub open spec fn section_end() -> Seq<char> {
    reset_escape().push(NEWLINE)
}

/// Who is logged in, and where: the glyph, a blank, the user, `@`, the machine.
pub open spec fn user_label(username: Seq<char>, pc_name: Seq<char>) -> Seq<char> {
    seq![USER_ICON, ' '] + username + seq!['@'] + pc_name
}

/// The header: the user at the left, the system's version at the right, in the
/// bold title color. It ends neither with a reset nor with a line break.
pub open spec fn header_text(
    username: Seq<char>,
    pc_name: Seq<char>,
    os_version: Seq<char>,
    frame: nat,
) -> Seq<char> {
    bold_fg_escape(unpack_hex(TITLE_HEX)) + compose_text(
        user_label(username, pc_name),
        os_version,
        COVERAGE as nat,
        frame,
    )
}

/// The rows of all the blocks, one block behind the other.
pub open spec fn blocks_text(blocks: Seq<Vec<(String, String)>>, frame: nat) -> Seq<char>
    decreases blocks.len(),
{
    if blocks.len() == 0 {
        Seq::empty()
    } else {
        blocks_text(blocks.drop_last(), frame) + rows_text(blocks.last()@, frame)
    }
}

/// The rows of all the blocks, each block closed by `section_end`.
pub open spec fn closed_blocks_text(blocks: Seq<Vec<(String, String)>>, frame: nat) -> Seq<char>
    decreases blocks.len(),
{
    if blocks.len() == 0 {
        Seq::empty()
    } else {
        closed_blocks_text(blocks.drop_last(), frame) + rows_text(blocks.last()@, frame)
            + section_end()
    }
}

/// The system section: its title, its rows, an empty line.
pub open spec fn system_text(rows: Seq<(String, String)>, frame: nat) -> Seq<char> {
    title_text(SYSTEM_ICON, "System"@, frame) + rows_text(rows, frame) + seq![NEWLINE]
}

/// The battery section: nothing where there is no battery; else its title, the
/// rows of every battery, and one closing line.
pub open spec fn battery_text(batteries: Seq<Vec<(String, String)>>, frame: nat) -> Seq<char> {
    if batteries.len() == 0 {
        Seq::empty()
    } else {
        title_text(BATTERY_ICON, "Battery"@, frame) + blocks_text(batteries, frame) + section_end()
    }
}

/// The processor section: its title, its rows, the closing line.
pub open spec fn processor_text(rows: Seq<(String, String)>, frame: nat) -> Seq<char> {
    title_text(PROCESSOR_ICON, "Processor"@, frame) + rows_text(rows, frame) + section_end()
}

/// The disk section: its title, then the rows of every disk, each disk closed
/// by a closing line of its own.
pub open spec fn disk_text(disks: Seq<Vec<(String, String)>>, frame: nat) -> Seq<char> {
    title_text(DISK_ICON, "Disks"@, frame) + closed_blocks_text(disks, frame)
}

/// What there is to report.
pub struct Report {
    pub username: String,
    pub pc_name: String,
    pub os_version: String,
    pub system: Vec<(String, String)>,
    pub batteries: Vec<Vec<(String, String)>>,
    pub processor: Vec<(String, String)>,
    pub disks: Vec<Vec<(String, String)>>,
}

/// The whole report: the header and the rule under it, each on a line of its
/// own, then the four sections.
pub open spec fn report_text(report: Report, frame: nat) -> Seq<char> {
    header_text(report.username@, report.pc_name@, report.os_version@, frame).push(NEWLINE)
        + gradient_text(
        RULE_GLYPH,
        unpack_hex(RULE_START_HEX),
        unpack_hex(RULE_END_HEX),
        COVERAGE as nat,
        frame,
    ).push(NEWLINE) + system_text(report.system@, frame) + battery_text(report.batteries@, frame)
        + processor_text(report.processor@, frame) + disk_text(report.disks@, frame)
}

/// A painted row with a line break behind it shows the row and the line break.
proof fn lemma_painted_line_visible(row: Seq<char>, color: ColorRGB)
    requires
        !row.contains(ESC),
    ensures
        visible_text(painted(row, color).push(NEWLINE)) == row.push(NEWLINE),
        visible_text(painted_bold(row, color).push(NEWLINE)) == row.push(NEWLINE),
{
    lemma_plain_text_visible(row);
    lemma_painted_visible(row, color);
    let plain = painted(row, color);
    assert(plain.push(NEWLINE).drop_last() == plain);
    let bold = painted_bold(row, color);
    assert(bold.push(NEWLINE).drop_last() == bold);
}

/// What a row shows, where neither label nor value holds an escape character:
/// the composed row and the line break, and nothing of the color.
pub proof fn lemma_row_visible(label: Seq<char>, value: Seq<char>, frame: nat)
    requires
        !label.contains(ESC),
        !value.contains(ESC),
    ensures
        visible_text(row_text(label, value, frame)) == compose_text(
            label,
            value,
            COVERAGE as nat,
            frame,
        ).push(NEWLINE),
{
    lemma_compose_plain(label, value, COVERAGE as nat, frame);
    lemma_painted_line_visible(
        compose_text(label, value, COVERAGE as nat, frame),
        unpack_hex(ROW_HEX),
    );
}

/// What a title shows, where neither glyph nor name holds an escape character:
/// the centered label and the line break, and nothing of the color.
pub proof fn lemma_title_visible(icon: char, name: Seq<char>, frame: nat)
    requires
        icon != ESC,
        !name.contains(ESC),
    ensures
        visible_text(title_text(icon, name, frame)) == center_text(title_label(icon, name), frame).push(
            NEWLINE,
        ),
{
    let label = title_label(icon, name);
    assert(!label.contains(ESC)) by {
        if label.contains(ESC) {
            let i: int = choose|i: int| 0 <= i < label.len() && label[i] == ESC;
            if i >= 3 {
                assert(name[i - 3] == ESC);
            }
        }
    }
    lemma_center_plain(label, frame);
    lemma_painted_line_visible(center_text(label, frame), unpack_hex(TITLE_HEX));
}

/// Lays out one row: `label` at the left, `value` at the right.
pub fn info_line(label: &str, value: &str, console_width: u16) -> (line: String)
    ensures
        line@ == row_text(label@, value@, console_width as nat),
        !label@.contains(ESC) && !value@.contains(ESC) ==> visible_text(line@) == compose_text(
            label@,
            value@,
            COVERAGE as nat,
            console_width as nat,
        ).push(NEWLINE),
{
    proof {
        if !label@.contains(ESC) && !value@.contains(ESC) {
            lemma_row_visible(label@, value@, console_width as nat);
        }
    }
    let row = flex_between(label, value, COVERAGE, console_width);
    let mut line = paint(row.as_str(), ColorRGB::from_hex(ROW_HEX));
    push_char(&mut line, NEWLINE);
    line
}

/// Lays out the rows, one behind the other.
pub fn info_lines(rows: &Vec<(String, String)>, console_width: u16) -> (text: String)
    ensures
        text@ == rows_text(rows@, console_width as nat),
{
    let mut text = String::new();
    let mut i: usize = 0;
    while i < rows.len()
        invariant
            i <= rows.len(),
            text@ == rows_text(rows@.take(i as int), console_width as nat),
        decreases rows.len() - i,
    {
        let line = info_line(rows[i].0.as_str(), rows[i].1.as_str(), console_width);
        proof {
            assert(rows@.take(i + 1).drop_last() == rows@.take(i as int));
        }
        text.append(line.as_str());
        i += 1;
    }
    proof {
        assert(rows@.take(rows.len() as int) == rows@);
    }
    text
}

/// Lays out a section title: `icon`, two blanks and `name`, centered.
pub fn section_title(icon: char, name: &str, console_width: u16) -> (line: String)
    ensures
        line@ == title_text(icon, name@, console_width as nat),
        icon != ESC && !name@.contains(ESC) ==> visible_text(line@) == center_text(
            title_label(icon, name@),
            console_width as nat,
        ).push(NEWLINE),
{
    proof {
        if icon != ESC && !name@.contains(ESC) {
            lemma_title_visible(icon, name@, console_width as nat);
        }
    }
    let mut label = String::new();
    push_char(&mut label, icon);
    push_char(&mut label, ' ');
    push_char(&mut label, ' ');
    label.append(name);
    assert(label@ == title_label(icon, name@));
    let row = subtitle(label.as_str(), console_width);
    let mut line = paint_bold(row.as_str(), ColorRGB::from_hex(TITLE_HEX));
    push_char(&mut line, NEWLINE);
    line
}

/// Lays out the header: user and machine at the left, the system's version at
/// the right.
pub fn format_header(
    username: &str,
    pc_name: &str,
    os_version: &str,
    console_width: u16,
) -> (line: String)
    ensures
        line@ == header_text(username@, pc_name@, os_version@, console_width as nat),
{
    let mut label = String::new();
    push_char(&mut label, USER_ICON);
    push_char(&mut label, ' ');
    label.append(username);
    push_char(&mut label, '@');
    label.append(pc_name);
    assert(label@ == user_label(username@, pc_name@));
    let row = flex_between(label.as_str(), os_version, COVERAGE, console_width);
    let mut line = String::new();
    push_bold_fg(&mut line, ColorRGB::from_hex(TITLE_HEX));
    line.append(row.as_str());
    line
}

/// Appends the line that closes a section.
pub fn push_section_end(out: &mut String)
    ensures
        final(out)@ == old(out)@ + section_end(),
{
    push_reset(out);
    push_char(out, NEWLINE);
}

/// Lays out the system section.
pub fn system_section(rows: &Vec<(String, String)>, console_width: u16) -> (text: String)
    ensures
        text@ == system_text(rows@, console_width as nat),
{
    let mut text = section_title(SYSTEM_ICON, "System", console_width);
    let lines = info_lines(rows, console_width);
    text.append(lines.as_str());
    push_char(&mut text, NEWLINE);
    text
}

/// Lays out the battery section; without a battery there is none.
pub fn battery_section(batteries: &Vec<Vec<(String, String)>>, console_width: u16) -> (text: String)
    ensures
        text@ == battery_text(batteries@, console_width as nat),
{
    if batteries.len() == 0 {
        return String::new();
    }
    let mut text = section_title(BATTERY_ICON, "Battery", console_width);
    let ghost title = text@;
    let mut i: usize = 0;
    while i < batteries.len()
        invariant
            i <= batteries.len(),
            text@ == title + blocks_text(batteries@.take(i as int), console_width as nat),
        decreases batteries.len() - i,
    {
        let lines = info_lines(&batteries[i], console_width);
        proof {
            assert(batteries@.take(i + 1).drop_last() == batteries@.take(i as int));
        }
        text.append(lines.as_str());
        i += 1;
    }
    proof {
        assert(batteries@.take(batteries.len() as int) == batteries@);
    }
    push_section_end(&mut text);
    text
}

/// Lays out the processor section.
pub fn processor_section(rows: &Vec<(String, String)>, console_width: u16) -> (text: String)
    ensures
        text@ == processor_text(rows@, console_width as nat),
{
    let mut text = section_title(PROCESSOR_ICON, "Processor", console_width);
    let lines = info_lines(rows, console_width);
    text.append(lines.as_str());
    push_section_end(&mut text);
    text
}

/// Lays out the disk section.
pub fn disk_section(disks: &Vec<Vec<(String, String)>>, console_width: u16) -> (text: String)
    ensures
        text@ == disk_text(disks@, console_width as nat),
{
    let mut text = section_title(DISK_ICON, "Disks", console_width);
    let ghost title = text@;
    let mut i: usize = 0;
    while i < disks.len()
        invariant
            i <= disks.len(),
            text@ == title + closed_blocks_text(disks@.take(i as int), console_width as nat),
        decreases disks.len() - i,
    {
        let lines = info_lines(&disks[i], console_width);
        proof {
            assert(disks@.take(i + 1).drop_last() == disks@.take(i as int));
        }
        text.append(lines.as_str());
        push_section_end(&mut text);
        i += 1;
    }
    proof {
        assert(disks@.take(disks.len() as int) == disks@);
    }
    text
}

/// Lays out the whole report for a frame of `console_width` cells.
pub fn render_report(report: &Report, console_width: u16) -> (text: String)
    ensures
        text@ == report_text(*report, console_width as nat),
{
    let mut text = format_header(
        report.username.as_str(),
        report.pc_name.as_str(),
        report.os_version.as_str(),
        console_width,
    );
    push_char(&mut text, NEWLINE);
    let rule = gradient_delim(RULE_START_HEX, RULE_END_HEX, COVERAGE, console_width);
    text.append(rule.as_str());
    push_char(&mut text, NEWLINE);
    let system = system_section(&report.system, console_width);
    text.append(system.as_str());
    let battery = battery_section(&report.batteries, console_width);
    text.append(battery.as_str());
    let processor = processor_section(&report.processor, console_width);
    text.append(processor.as_str());
    let disk = disk_section(&report.disks, console_width);
    text.append(disk.as_str());
    text
}

} // verus!
