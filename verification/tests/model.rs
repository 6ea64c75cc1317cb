use fastfetch::color::ColorRGB;
use fastfetch::gradient::{gradient_rule, GradientSpec};
use fastfetch::layout::{flex_between, subtitle, StyledRun, TerminalFrame};

#[test]
fn styled_run_measures_its_text() {
    let run = StyledRun::new("a\u{4e2d}e\u{301}");
    assert_eq!(run.text(), "a\u{4e2d}e\u{301}");
    assert_eq!(run.display_width(), 4);
    assert_eq!(StyledRun::new("").display_width(), 0);
    assert_eq!(StyledRun::new("\u{f240}  Battery").display_width(), 11);
}

#[test]
fn frame_composes_two_runs() {
    let frame = TerminalFrame { columns: 20 };
    let row = frame.compose(&StyledRun::new("A"), &StyledRun::new("B"), 100);
    assert_eq!(row, format!("A{}B", " ".repeat(18)));
    assert_eq!(frame.compose(&StyledRun::new("A"), &StyledRun::new("B"), 0), "");
    let narrow = TerminalFrame { columns: 10 };
    assert_eq!(narrow.compose(&StyledRun::new("X"), &StyledRun::new("Y"), 50), "  X    Y  ");
    assert_eq!(
        narrow.compose(&StyledRun::new("abcdef"), &StyledRun::new("ghijk"), 100),
        flex_between("abcdef", "ghijk", 100, 10)
    );
}

#[test]
fn frame_centers_a_run() {
    let frame = TerminalFrame { columns: 7 };
    assert_eq!(frame.center(&StyledRun::new("ab")), "  ab   ");
    assert_eq!(frame.center(&StyledRun::new("abcdefgh")), "abcdefgh");
    assert_eq!(frame.center(&StyledRun::new("\u{4e2d}")), subtitle("\u{4e2d}", 7));
}

#[test]
fn gradient_spec_refuses_more_than_the_whole_frame() {
    let a = ColorRGB::new(1, 2, 3);
    let b = ColorRGB::new(4, 5, 6);
    assert!(GradientSpec::new(a, b, 101).is_none());
    assert!(GradientSpec::new(a, b, u16::MAX).is_none());
    assert!(GradientSpec::new(a, b, 100).is_some());
    assert!(GradientSpec::new(a, b, 0).is_some());
}

#[test]
fn gradient_spec_keeps_what_it_was_made_of() {
    let a = ColorRGB::new(1, 2, 3);
    let b = ColorRGB::new(4, 5, 6);
    let g = GradientSpec::new(a, b, 42).unwrap();
    assert_eq!(g.start(), a);
    assert_eq!(g.end(), b);
    assert_eq!(g.coverage_percent(), 42);
}

#[test]
fn frame_draws_a_gradient() {
    let start = ColorRGB::new(255, 255, 255);
    let end = ColorRGB::new(255, 49, 187);
    let frame = TerminalFrame { columns: 10 };
    let g = GradientSpec::new(start, end, 50).unwrap();
    let line = frame.gradient_rule('\u{2580}', &g);
    assert_eq!(line, gradient_rule('\u{2580}', start, end, 50, 10));
    assert!(line.starts_with("  \x1b[38;2;255;255;255m\u{2580}\x1b[0m"));
    assert!(line.ends_with("\x1b[38;2;255;49;187m\u{2580}\x1b[0m   "));
}
