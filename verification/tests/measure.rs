use fastfetch::measure::{char_cells, width};
use unicode_width::{UnicodeWidthChar, UnicodeWidthStr};

#[test]
fn width_of_empty_text_is_zero() {
    assert_eq!(width(""), 0);
}

#[test]
fn width_of_ascii_letter_is_one() {
    assert_eq!(width("a"), 1);
    assert_eq!(width("hello, world"), 12);
}

#[test]
fn width_of_wide_glyph_is_two() {
    assert_eq!(width("\u{4e2d}"), 2);
    assert_eq!(width("\u{ff21}"), 2);
    assert_eq!(width("a\u{4e2d}b"), 4);
}

#[test]
fn width_of_combining_mark_is_zero() {
    assert_eq!(width("\u{301}"), 0);
    assert_eq!(width("e\u{301}"), 1);
}

#[test]
fn width_of_joiner_sequence_is_sum_of_components() {
    // man, zero-width joiner, woman: 2 + 0 + 2, not the 2 of the joined glyph
    let family = "\u{1f468}\u{200d}\u{1f469}";
    assert_eq!(width(family), 4);
    assert_eq!(UnicodeWidthStr::width(family), 2);
}

#[test]
fn width_counts_control_codes_as_one_cell() {
    assert_eq!(width("\n"), 1);
    assert_eq!(width("\x1b"), 1);
    assert_eq!(width("\u{85}"), 1);
    assert_eq!(width("\r\n"), 2);
}

#[test]
fn width_of_private_use_glyphs_is_two() {
    assert_eq!(width("\u{f240}"), 2);
    assert_eq!(width("\u{e62a}"), 2);
    assert_eq!(width("\u{f108}  System"), 10);
    assert_eq!(char_cells('\u{e000}'), 2);
    assert_eq!(char_cells('\u{f8ff}'), 2);
    assert_eq!(char_cells('\u{f0000}'), 2);
    assert_eq!(char_cells('\u{ffffd}'), 2);
    assert_eq!(char_cells('\u{100000}'), 2);
    assert_eq!(char_cells('\u{10fffd}'), 2);
    // the table alone takes them for narrow
    assert_eq!(UnicodeWidthChar::width('\u{f240}'), Some(1));
}

#[test]
fn neighbours_of_the_private_use_areas_follow_the_table() {
    for c in ['\u{d7ff}', '\u{f900}', '\u{effff}', '\u{ffffe}', '\u{fffff}', '\u{10fffe}', '\u{10ffff}'] {
        assert_eq!(char_cells(c), UnicodeWidthChar::width(c).unwrap_or(1).min(2));
    }
}

#[test]
fn width_of_block_glyph_is_one() {
    assert_eq!(width("\u{2580}"), 1);
    assert_eq!(width("\u{2580}\u{2580}\u{2580}"), 3);
}

#[test]
fn char_cells_follows_the_table() {
    assert_eq!(char_cells('a'), 1);
    assert_eq!(char_cells(' '), 1);
    assert_eq!(char_cells('~'), 1);
    assert_eq!(char_cells('\u{4e2d}'), 2);
    assert_eq!(char_cells('\u{301}'), 0);
    assert_eq!(char_cells('\u{200d}'), 0);
    // the table gives this sign three cells; it counts as wide
    assert_eq!(UnicodeWidthChar::width('\u{17d8}'), Some(3));
    assert_eq!(char_cells('\u{17d8}'), 2);
    assert_eq!(char_cells('\0'), 1);
    assert_eq!(char_cells('\u{7f}'), 1);
    assert_eq!(char_cells('\u{9f}'), 1);
    assert_eq!(char_cells('\u{a0}'), 1);
}

#[test]
fn char_cells_classifies_every_scalar_value() {
    let mut code: u32 = 0;
    while code <= 0x10ffff {
        if let Some(c) = char::from_u32(code) {
            let private = (0xe000..=0xf8ff).contains(&code)
                || (0xf0000..=0xffffd).contains(&code)
                || (0x100000..=0x10fffd).contains(&code);
            let expected = if private {
                2
            } else {
                UnicodeWidthChar::width(c).unwrap_or(1).min(2)
            };
            assert_eq!(char_cells(c), expected);
        }
        code += 1;
    }
}

#[test]
fn control_codes_are_the_scalar_values_without_a_table_entry() {
    let mut code: u32 = 0;
    while code <= 0x10ffff {
        if let Some(c) = char::from_u32(code) {
            let control = code < 0x20 || (0x7f..0xa0).contains(&code);
            assert_eq!(UnicodeWidthChar::width(c).is_none(), control);
            if (0x20..0x7f).contains(&code) {
                assert_eq!(UnicodeWidthChar::width(c), Some(1));
            }
        }
        code += 1;
    }
}

#[test]
fn width_is_additive_over_concatenation() {
    let parts = ["", "a", "\u{4e2d}\u{6587}", "e\u{301}", "\u{1f468}\u{200d}", "x y"];
    for a in parts {
        for b in parts {
            let joined = format!("{}{}", a, b);
            assert_eq!(width(&joined), width(a) + width(b));
        }
    }
}
