use fastfetch::color::ColorRGB;
use fastfetch::escape::{
    paint, paint_bold, push_bold_fg, push_fg, push_reset, strip_escapes, visible_cells,
};
use fastfetch::text::{chars_of, push_blanks, push_decimal};

#[test]
fn paint_wraps_text_in_color_and_reset() {
    let line = paint("hi", ColorRGB::new(255, 207, 239));
    assert_eq!(line, "\x1b[38;2;255;207;239mhi\x1b[0m");
    assert_eq!(paint("", ColorRGB::new(0, 0, 0)), "\x1b[38;2;0;0;0m\x1b[0m");
    assert_eq!(paint("x", ColorRGB::new(1, 20, 100)), "\x1b[38;2;1;20;100mx\x1b[0m");
}

#[test]
fn paint_bold_puts_bold_in_front_of_the_color() {
    let line = paint_bold("hi", ColorRGB::new(255, 153, 221));
    assert_eq!(line, "\x1b[1;38;2;255;153;221mhi\x1b[0m");
}

#[test]
fn escape_sequences_are_appended_to_what_is_there() {
    let mut out = String::from("a");
    push_fg(&mut out, ColorRGB::new(9, 10, 11));
    assert_eq!(out, "a\x1b[38;2;9;10;11m");
    push_bold_fg(&mut out, ColorRGB::new(0, 99, 255));
    assert_eq!(out, "a\x1b[38;2;9;10;11m\x1b[1;38;2;0;99;255m");
    push_reset(&mut out);
    assert_eq!(out, "a\x1b[38;2;9;10;11m\x1b[1;38;2;0;99;255m\x1b[0m");
}

#[test]
fn strip_escapes_removes_color_bold_and_reset() {
    assert_eq!(strip_escapes(""), "");
    assert_eq!(strip_escapes("plain"), "plain");
    assert_eq!(strip_escapes("\x1b[38;2;1;2;3mab\x1b[0m"), "ab");
    assert_eq!(strip_escapes("\x1b[1mbold\x1b[0m text"), "bold text");
    assert_eq!(strip_escapes("a\x1b[1;38;2;255;153;221mb\x1b[0mc"), "abc");
    assert_eq!(strip_escapes("\x1b[0m\x1b[0m"), "");
}

#[test]
fn strip_escapes_handles_broken_sequences() {
    // an escape character that opens nothing is dropped on its own
    assert_eq!(strip_escapes("a\x1bb"), "ab");
    assert_eq!(strip_escapes("\x1b"), "");
    assert_eq!(strip_escapes("\x1b\x1b[0mx"), "x");
    // a sequence that is never closed hides what follows it
    assert_eq!(strip_escapes("a\x1b[38;2;"), "a");
    // the first final byte closes the sequence
    assert_eq!(strip_escapes("\x1b[2Jx"), "x");
    assert_eq!(strip_escapes("\x1b[[x"), "x");
    assert_eq!(strip_escapes("\x1b[@x"), "x");
    assert_eq!(strip_escapes("\x1b[~x"), "x");
    assert_eq!(strip_escapes("\x1b[?x"), "");
    assert_eq!(strip_escapes("\x1b[\x7fmx"), "x");
}

#[test]
fn painting_does_not_change_the_visible_width() {
    let texts = ["", "a", "two words", "\u{4e2d}\u{6587}", "e\u{301}", "  padded  "];
    for t in texts {
        let plain = visible_cells(t);
        assert_eq!(visible_cells(&paint(t, ColorRGB::new(1, 22, 255))), plain);
        assert_eq!(visible_cells(&paint_bold(t, ColorRGB::new(1, 22, 255))), plain);
        assert_eq!(strip_escapes(&paint(t, ColorRGB::new(0, 0, 0))), t);
        assert_eq!(strip_escapes(&paint_bold(t, ColorRGB::new(0, 0, 0))), t);
    }
    assert_eq!(visible_cells("\x1b[38;2;1;2;3m\u{4e2d}\x1b[0m"), 2);
}

#[test]
fn painting_a_painted_text_shows_the_same_text() {
    let inner = paint("x", ColorRGB::new(1, 2, 3));
    let outer = paint_bold(&inner, ColorRGB::new(4, 5, 6));
    assert_eq!(strip_escapes(&outer), "x");
}

#[test]
fn decimal_numbers_have_no_leading_zeros() {
    let mut out = String::new();
    push_decimal(&mut out, 0);
    out.push(',');
    push_decimal(&mut out, 7);
    out.push(',');
    push_decimal(&mut out, 10);
    out.push(',');
    push_decimal(&mut out, 255);
    out.push(',');
    push_decimal(&mut out, 1000);
    out.push(',');
    push_decimal(&mut out, u64::MAX);
    assert_eq!(out, "0,7,10,255,1000,18446744073709551615");
}

#[test]
fn blanks_are_appended() {
    let mut out = String::from("ab");
    push_blanks(&mut out, 0);
    assert_eq!(out, "ab");
    push_blanks(&mut out, 3);
    assert_eq!(out, "ab   ");
}

#[test]
fn chars_of_lists_the_scalar_values() {
    assert_eq!(chars_of(""), Vec::<char>::new());
    assert_eq!(chars_of("a\u{4e2d}\u{301}"), vec!['a', '\u{4e2d}', '\u{301}']);
}
