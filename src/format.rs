//! Rendering of accepted events: colored fields joined into one line.
use vstd::prelude::*;
use colored::Colorize;
use crate::level::Level;
use crate::logger::Logger;

verus! {

/// The terminal colors the logger uses.
#[derive(Clone, Copy, Debug, PartialEq, Eq, Structural)]
pub enum Color {
    Black,
    Red,
    Green,
    Yellow,
    Blue,
    Purple,
    BrightBlack,
    BrightRed,
    BrightBlue,
}

/// The ANSI foreground code of a color.
pub open spec fn color_code(c: Color) -> Seq<char> {
    match c {
        Color::Black => seq!['3', '0'],
        Color::Red => seq!['3', '1'],
        Color::Green => seq!['3', '2'],
        Color::Yellow => seq!['3', '3'],
        Color::Blue => seq!['3', '4'],
        Color::Purple => seq!['3', '5'],
        Color::BrightBlack => seq!['9', '0'],
        Color::BrightRed => seq!['9', '1'],
        Color::BrightBlue => seq!['9', '4'],
    }
}

/// The escape sequence that starts text in color `c`.
pub open spec fn color_start(c: Color) -> Seq<char> {
    seq!['\x1b', '['] + color_code(c) + seq!['m']
}

/// The escape sequence that ends colored text.
pub open spec fn color_reset() -> Seq<char> {
    seq!['\x1b', '[', '0', 'm']
}

/// `text` holds a reset sequence somewhere.
pub open spec fn holds_reset(text: Seq<char>) -> bool {
    exists|i: int| 0 <= i && i + 4 <= text.len() && #[trigger] text.subrange(i, i + 4) == color_reset()
}

/// `out` is `text` painted in color `c`: either unchanged, when coloring is
/// off, or wrapped in the color's start and reset sequences (a reset inside
/// `text` is followed by the start sequence again).
pub open spec fn painted(c: Color, text: Seq<char>, out: Seq<char>) -> bool {
    ||| out == text
    ||| {
        &&& color_start(c).is_prefix_of(out)
        &&& color_reset().is_suffix_of(out)
        &&& !holds_reset(text) ==> out == color_start(c) + text + color_reset()
    }
}

/// The color of each level's tag.
pub open spec fn level_color(level: Level) -> Color {
    match level {
        Level::Error => Color::Red,
        Level::Warn => Color::Yellow,
        Level::Info => Color::Green,
        Level::Debug => Color::Blue,
        Level::Trace => Color::Purple,
    }
}

/// The layout of one line: `"{ts} {tag}: {target} - {message}"`.
pub open spec fn line_of(ts: Seq<char>, tag: Seq<char>, target: Seq<char>, message: Seq<char>) -> Seq<
    char,
> {
    ts + seq![' '] + tag + seq![':', ' '] + target + seq![' ', '-', ' '] + message
}

/// Relies on `colored::Colorize::color` and `ColoredString`'s `Display`: the
/// text comes back plain when coloring is off, and otherwise between the
/// color's start sequence and a reset.
#[verifier::external_body]
pub(crate) fn paint(text: &str, color: Color) -> (r: String)
    ensures
        painted(color, text@, r@),
{
    let c = match color {
        Color::Black => colored::Color::Black,
        Color::Red => colored::Color::Red,
        Color::Green => colored::Color::Green,
        Color::Yellow => colored::Color::Yellow,
        Color::Blue => colored::Color::Blue,
        Color::Purple => colored::Color::Magenta,
        Color::BrightBlack => colored::Color::BrightBlack,
        Color::BrightRed => colored::Color::BrightRed,
        Color::BrightBlue => colored::Color::BrightBlue,
    };
    text.color(c).to_string()
}

/// Relies on `chrono::Local::now` and `format`: the local time now, to the
/// second, as `"%Y-%m-%d %H:%M:%S"`. Nothing is promised of the text.
#[verifier::external_body]
fn timestamp_now() -> String {
    chrono::Local::now().format("%Y-%m-%d %H:%M:%S").to_string()
}

/// Joins the four fields of a line: `"{ts} {tag}: {target} - {message}"`.
pub fn format_line(ts: &str, tag: &str, target: &str, message: &str) -> (r: String)
    ensures
        r@ == line_of(ts@, tag@, target@, message@),
{
    let mut line = ts.to_owned();
    line.append(" ");
    line.append(tag);
    line.append(": ");
    line.append(target);
    line.append(" - ");
    line.append(message);
    proof {
        reveal_strlit(" ");
        reveal_strlit(": ");
        reveal_strlit(" - ");
    }
    assert(line@ =~= line_of(ts@, tag@, target@, message@));
    line
}

impl Logger {
    /// The tag of `level`: its name painted in the level's color.
    pub fn colorize(&self, level: Level) -> (r: String)
        ensures
            painted(level_color(level), level.spec_name(), r@),
    {
        let color = match level {
            Level::Error => Color::Red,
            Level::Warn => Color::Yellow,
            Level::Info => Color::Green,
            Level::Debug => Color::Blue,
            Level::Trace => Color::Purple,
        };
        paint(level.as_str(), color)
    }

    /// The line to write for an event at `level` from `target` stamped with
    /// `ts`, or `None` when the event is filtered out.
    pub fn render_at(&self, ts: &str, level: Level, target: &str, message: &str) -> (r: Option<
        String,
    >)
        ensures
            r is Some <==> self@.shows(level, target@),
            r matches Some(line) ==> exists|a: Seq<char>, b: Seq<char>, c: Seq<char>|
                painted(Color::BrightBlack, ts@, a) && painted(level_color(level), level.spec_name(), b)
                    && painted(Color::BrightBlue, target@, c) && line@ == line_of(a, b, c, message@),
    {
        if !self.enabled(level, target) {
            return None;
        }
        let a = paint(ts, Color::BrightBlack);
        let b = self.colorize(level);
        let c = paint(target, Color::BrightBlue);
        let line = format_line(a.as_str(), b.as_str(), c.as_str(), message);
        assert(painted(Color::BrightBlack, ts@, a@) && painted(level_color(level), level.spec_name(), b@)
            && painted(Color::BrightBlue, target@, c@) && line@ == line_of(a@, b@, c@, message@));
        Some(line)
    }

    /// The line to write for an event at `level` from `target`, stamped with
    /// the local time now, or `None` when the event is filtered out.
    pub fn render(&self, level: Level, target: &str, message: &str) -> (r: Option<String>)
        ensures
            r is Some <==> self@.shows(level, target@),
            r matches Some(line) ==> exists|ts: Seq<char>, a: Seq<char>, b: Seq<char>, c: Seq<char>|
                painted(Color::BrightBlack, ts, a) && painted(level_color(level), level.spec_name(), b)
                    && painted(Color::BrightBlue, target@, c) && line@ == line_of(a, b, c, message@),
    {
        if !self.enabled(level, target) {
            return None;
        }
        let ts = timestamp_now();
        let r = self.render_at(ts.as_str(), level, target, message);
        r
    }
}

} // verus!
