use vstd::prelude::*;
use vstd::string::StringExecFns;

use crate::palette::Hue;
use crate::palette::Style;

verus! {

/// The escape sequence that selects a hue of the basic ANSI foreground
/// palette (the plain white code, or a bright code).
pub open spec fn hue_escape(h: Hue) -> Seq<char> {
    match h {
        Hue::White => "\u{1b}[37m"@,
        Hue::BrightWhite => "\u{1b}[97m"@,
        Hue::BrightBlue => "\u{1b}[94m"@,
        Hue::BrightYellow => "\u{1b}[93m"@,
        Hue::BrightCyan => "\u{1b}[96m"@,
        Hue::BrightPurple => "\u{1b}[95m"@,
        Hue::BrightGreen => "\u{1b}[92m"@,
        Hue::BrightRed => "\u{1b}[91m"@,
    }
}

/// The escape sequences that switch on every attribute a style sets, in a
/// fixed order: weight, dimming, emphasis, hue.
pub open spec fn style_prefix(s: Style) -> Seq<char> {
    (if s.bold {
        "\u{1b}[1m"@
    } else {
        Seq::<char>::empty()
    }) + (if s.dimmed {
        "\u{1b}[2m"@
    } else {
        Seq::<char>::empty()
    }) + (if s.italic {
        "\u{1b}[3m"@
    } else {
        Seq::<char>::empty()
    }) + (match s.hue {
        Some(h) => hue_escape(h),
        None => Seq::<char>::empty(),
    })
}

/// The escape sequence that returns the terminal to its default rendition.
pub open spec fn style_reset() -> Seq<char> {
    "\u{1b}[0m"@
}

/// A span of text under a style: the text itself when the style sets
/// nothing, else the style's escape sequences, the text, and a reset.
pub open spec fn styled_span(s: Style, text: Seq<char>) -> Seq<char> {
    if s.is_plain() {
        text
    } else {
        style_prefix(s) + text + style_reset()
    }
}

/// Renders a span of text under a style.
pub fn paint(s: &Style, text: &str) -> (r: String)
    ensures
        r@ == styled_span(*s, text@),
{
    let plain = !s.italic && !s.bold && !s.dimmed && (match s.hue {
        Option::None => true,
        Option::Some(_) => false,
    });
    if plain {
        String::from_str(text)
    } else {
        let mut out = String::new();
        if s.bold {
            out.append("\u{1b}[1m");
        }
        if s.dimmed {
            out.append("\u{1b}[2m");
        }
        if s.italic {
            out.append("\u{1b}[3m");
        }
        match s.hue {
            Option::Some(h) => {
                let code = match h {
                    Hue::White => "\u{1b}[37m",
                    Hue::BrightWhite => "\u{1b}[97m",
                    Hue::BrightBlue => "\u{1b}[94m",
                    Hue::BrightYellow => "\u{1b}[93m",
                    Hue::BrightCyan => "\u{1b}[96m",
                    Hue::BrightPurple => "\u{1b}[95m",
                    Hue::BrightGreen => "\u{1b}[92m",
                    Hue::BrightRed => "\u{1b}[91m",
                };
                out.append(code);
            },
            Option::None => {},
        }
        out.append(text);
        out.append("\u{1b}[0m");
        proof {
            assert(out@ =~= styled_span(*s, text@));
        }
        out
    }
}

} // verus!
