use fastfetch::color::{mix_u8, ColorRGB};
use fastfetch::escape::{strip_escapes, visible_cells};
use fastfetch::gradient::{column_color, gradient_delim, gradient_rule, rule_extent};

#[test]
fn rule_extent_rounds_the_length_and_floors_the_padding() {
    assert_eq!(rule_extent(50, 10), (2, 5));
    assert_eq!(rule_extent(50, 80), (20, 40));
    assert_eq!(rule_extent(100, 80), (0, 80));
    assert_eq!(rule_extent(0, 80), (40, 0));
    // 7 * 50 / 100 = 3.5 rounds up to 4; the 3 blanks left are shared 1 and 2
    assert_eq!(rule_extent(50, 7), (1, 4));
    // 3 * 49 / 100 = 1.47 rounds down to 1
    assert_eq!(rule_extent(49, 3), (1, 1));
    assert_eq!(rule_extent(33, 1), (0, 0));
    assert_eq!(rule_extent(50, 1), (0, 1));
    assert_eq!(rule_extent(100, 65535), (0, 65535));
    assert_eq!(rule_extent(50, 0), (0, 0));
}

#[test]
fn interpolated_channel_is_rounded_to_nearest() {
    assert_eq!(mix_u8(255, 49, 0, 5), 255);
    assert_eq!(mix_u8(255, 49, 1, 5), 204); // 203.5
    assert_eq!(mix_u8(255, 49, 2, 5), 152);
    assert_eq!(mix_u8(255, 49, 3, 5), 101); // 100.5
    assert_eq!(mix_u8(255, 49, 4, 5), 49);
    assert_eq!(mix_u8(0, 255, 1, 4), 85);
    assert_eq!(mix_u8(0, 1, 1, 3), 1); // 0.5
    assert_eq!(mix_u8(0, 1, 1, 4), 0); // 0.333
    assert_eq!(mix_u8(7, 200, 0, 1), 7);
}

#[test]
fn gradient_scenario_of_five_columns_in_ten() {
    let start = ColorRGB::new(255, 255, 255);
    let end = ColorRGB::new(255, 49, 187);
    assert_eq!(rule_extent(50, 10), (2, 5));
    assert_eq!(column_color(start, end, 50, 10, 0), None);
    assert_eq!(column_color(start, end, 50, 10, 1), None);
    assert_eq!(column_color(start, end, 50, 10, 2), Some(ColorRGB::new(255, 255, 255)));
    assert_eq!(column_color(start, end, 50, 10, 3), Some(ColorRGB::new(255, 204, 238)));
    assert_eq!(column_color(start, end, 50, 10, 4), Some(ColorRGB::new(255, 152, 221)));
    assert_eq!(column_color(start, end, 50, 10, 5), Some(ColorRGB::new(255, 101, 204)));
    assert_eq!(column_color(start, end, 50, 10, 6), Some(ColorRGB::new(255, 49, 187)));
    assert_eq!(column_color(start, end, 50, 10, 7), None);
    assert_eq!(column_color(start, end, 50, 10, 9), None);
    assert_eq!(column_color(start, end, 50, 10, 10), None);
    let line = gradient_rule('\u{2580}', start, end, 50, 10);
    let expected = [
        "  ",
        "\x1b[38;2;255;255;255m\u{2580}\x1b[0m",
        "\x1b[38;2;255;204;238m\u{2580}\x1b[0m",
        "\x1b[38;2;255;152;221m\u{2580}\x1b[0m",
        "\x1b[38;2;255;101;204m\u{2580}\x1b[0m",
        "\x1b[38;2;255;49;187m\u{2580}\x1b[0m",
        "   ",
    ]
    .concat();
    assert_eq!(line, expected);
    assert_eq!(strip_escapes(&line), "  \u{2580}\u{2580}\u{2580}\u{2580}\u{2580}   ");
    assert_eq!(visible_cells(&line), 10);
}

#[test]
fn flat_gradient_shows_one_color_in_every_column() {
    let c = ColorRGB::new(12, 200, 99);
    for w in [1u16, 2, 7, 10, 80, 333] {
        for p in [1u16, 33, 50, 99, 100] {
            for i in 0..w {
                if let Some(shown) = column_color(c, c, p, w, i) {
                    assert_eq!(shown, c);
                }
            }
        }
    }
    let line = gradient_rule('=', c, c, 100, 3);
    assert_eq!(line, "\x1b[38;2;12;200;99m=\x1b[0m".repeat(3));
}

#[test]
fn gradient_starts_and_ends_at_its_two_colors() {
    let start = ColorRGB::new(3, 250, 128);
    let end = ColorRGB::new(201, 0, 127);
    for w in [2u16, 3, 10, 80, 255, 1000, 65535] {
        for p in [10u16, 50, 77, 100] {
            let (padding, length) = rule_extent(p, w);
            if length >= 1 {
                assert_eq!(column_color(start, end, p, w, padding), Some(start));
            }
            if length > 1 {
                assert_eq!(column_color(start, end, p, w, padding + length - 1), Some(end));
            }
        }
    }
}

#[test]
fn gradient_of_one_column_shows_the_start_color() {
    let start = ColorRGB::new(1, 2, 3);
    let end = ColorRGB::new(200, 100, 50);
    assert_eq!(rule_extent(50, 2), (0, 1));
    assert_eq!(column_color(start, end, 50, 2, 0), Some(start));
    assert_eq!(gradient_rule('-', start, end, 50, 2), "\x1b[38;2;1;2;3m-\x1b[0m ");
}

#[test]
fn gradient_of_no_column_is_blank() {
    let c = ColorRGB::new(1, 2, 3);
    assert_eq!(gradient_rule('-', c, c, 0, 5), "     ");
    assert_eq!(gradient_rule('-', c, c, 100, 0), "");
}

#[test]
fn gradient_channels_stay_between_their_ends() {
    let start = ColorRGB::new(10, 240, 77);
    let end = ColorRGB::new(250, 20, 77);
    for i in 0..80u16 {
        if let Some(c) = column_color(start, end, 100, 80, i) {
            assert!(10 <= c.r && c.r <= 250);
            assert!(20 <= c.g && c.g <= 240);
            assert_eq!(c.b, 77);
        }
    }
}

#[test]
fn wide_glyph_is_drawn_once_per_column() {
    let c = ColorRGB::new(0, 0, 0);
    let line = gradient_rule('\u{4e2d}', c, c, 50, 4);
    assert_eq!(strip_escapes(&line), " \u{4e2d}\u{4e2d} ");
    assert_eq!(visible_cells(&line), 6);
}

#[test]
fn gradient_delim_unpacks_its_colors() {
    let line = gradient_delim(0xffcbee, 0xff6bce, 50, 4);
    assert_eq!(
        line,
        " \x1b[38;2;255;203;238m\u{2580}\x1b[0m\x1b[38;2;255;107;206m\u{2580}\x1b[0m "
    );
    assert_eq!(visible_cells(&gradient_delim(0xffcbee, 0xff6bce, 50, 80)), 80);
    assert_eq!(ColorRGB::from_hex(0xffcbee), ColorRGB::new(255, 203, 238));
    assert_eq!(ColorRGB::from_hex(0x12_00_01_02), ColorRGB::new(0, 1, 2));
    assert_eq!(ColorRGB::from_hex(0), ColorRGB::new(0, 0, 0));
}

#[test]
fn mix_method_interpolates_every_channel() {
    let start = ColorRGB::new(0, 100, 255);
    let end = ColorRGB::new(255, 100, 0);
    assert_eq!(start.mix(&end, 0, 3), start);
    assert_eq!(start.mix(&end, 1, 3), ColorRGB::new(128, 100, 128));
    assert_eq!(start.mix(&end, 2, 3), end);
}
