//! Lays out label and value rows on a terminal grid of fixed width, with text
//! measured in display cells and rules drawn in truecolor gradients.
//!
//! Every function here is a pure function of its arguments: the width of the
//! frame is read once by the caller and handed in.
//!
//! - [`measure`]: the display width of characters and texts.
//! - [`layout`]: the frame, measured runs of text, two runs at opposite ends of
//!   a row, or one run in its middle.
//! - [`color`]: 24-bit colors and the interpolation between two of them.
//! - [`gradient`]: a horizontal rule that runs from one color to another.
//! - [`escape`]: the escape sequences for color, bold and reset, and the visible
//!   text of a line that holds them.
//! - [`report`]: the header, the section titles and the rows of the report.
//! - [`clock`]: durations as clock readings.
//! - [`cpu`]: processor time counters and the busy time between two readings.
//! - [`packages`]: counting the lines of a package listing.
//! - [`text`]: blank runs and decimal numerals.

pub mod clock;
pub mod color;
pub mod cpu;
pub mod escape;
pub mod gradient;
pub mod layout;
pub mod measure;
pub mod packages;
pub mod report;
pub mod text;
