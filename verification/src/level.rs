use vstd::prelude::*;

use crate::palette::Hue;
use crate::palette::Style;
use crate::text::esc_free;

verus! {

/// The severity of a log record, most severe first.
#[derive(Clone, Copy, Debug, PartialEq, Eq)]
pub enum Level {
    Error,
    Warn,
    Info,
    Debug,
    Trace,
}

/// The upper-case label of a level, as it stands between brackets in an
/// uncolored line.
pub open spec fn level_label_spec(l: Level) -> Seq<char> {
    match l {
        Level::Error => "ERROR"@,
        Level::Warn => "WARN"@,
        Level::Info => "INFO"@,
        Level::Debug => "DEBUG"@,
        Level::Trace => "TRACE"@,
    }
}

/// Returns the upper-case label of a level.
pub fn level_label(l: Level) -> (r: &'static str)
    ensures
        r@ == level_label_spec(l),
{
    match l {
        Level::Error => "ERROR",
        Level::Warn => "WARN",
        Level::Info => "INFO",
        Level::Debug => "DEBUG",
        Level::Trace => "TRACE",
    }
}

/// The fixed style that conveys a level when coloring is active: errors in
/// bold bright red, warnings in bold bright yellow, information in bold
/// bright white, debug output in plain white, traces dimmed.
pub open spec fn level_style_spec(l: Level) -> Style {
    match l {
        Level::Error => Style { italic: false, bold: true, dimmed: false, hue: Some(Hue::BrightRed) },
        Level::Warn => Style {
            italic: false,
            bold: true,
            dimmed: false,
            hue: Some(Hue::BrightYellow),
        },
        Level::Info => Style {
            italic: false,
            bold: true,
            dimmed: false,
            hue: Some(Hue::BrightWhite),
        },
        Level::Debug => Style { italic: false, bold: false, dimmed: false, hue: Some(Hue::White) },
        Level::Trace => Style { italic: false, bold: false, dimmed: true, hue: None },
    }
}

/// Builds the fixed style that conveys a level when coloring is active.
pub fn level_style(l: Level) -> (r: Style)
    ensures
        r == level_style_spec(l),
{
    match l {
        Level::Error => Style { italic: false, bold: true, dimmed: false, hue: Some(Hue::BrightRed) },
        Level::Warn => Style {
            italic: false,
            bold: true,
            dimmed: false,
            hue: Some(Hue::BrightYellow),
        },
        Level::Info => Style {
            italic: false,
            bold: true,
            dimmed: false,
            hue: Some(Hue::BrightWhite),
        },
        Level::Debug => Style { italic: false, bold: false, dimmed: false, hue: Some(Hue::White) },
        Level::Trace => Style { italic: false, bold: false, dimmed: true, hue: None },
    }
}

/// A level label holds no escape character.
pub proof fn lemma_level_label_esc_free(l: Level)
    ensures
        esc_free(level_label_spec(l)),
{
    reveal_strlit("ERROR");
    reveal_strlit("WARN");
    reveal_strlit("INFO");
    reveal_strlit("DEBUG");
    reveal_strlit("TRACE");
}

} // verus!
