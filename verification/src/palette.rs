use vstd::prelude::*;

verus! {

/// One of the named hues a style may carry. The seven bright hues are the
/// palette used for per-thread coloring; the plain white hue is used only by
/// the level styles.
#[derive(Clone, Copy, Debug, PartialEq, Eq)]
pub enum Hue {
    White,
    BrightWhite,
    BrightBlue,
    BrightYellow,
    BrightCyan,
    BrightPurple,
    BrightGreen,
    BrightRed,
}

/// A bundle of text-rendering attributes: emphasis (italic), weight (bold),
/// dimming, and an optional hue.
#[derive(Clone, Copy, Debug, PartialEq, Eq)]
pub struct Style {
    pub italic: bool,
    pub bold: bool,
    pub dimmed: bool,
    pub hue: Option<Hue>,
}

impl Style {
    /// A style with no attributes set: text rendered with it is left as it is.
    pub open spec fn plain_spec() -> Style {
        Style { italic: false, bold: false, dimmed: false, hue: None }
    }

    /// True when no attribute of the style is set.
    pub open spec fn is_plain(self) -> bool {
        self == Style::plain_spec()
    }

    /// Builds the style with no attributes set.
    pub fn plain() -> (r: Style)
        ensures
            r == Style::plain_spec(),
    {
        Style { italic: false, bold: false, dimmed: false, hue: None }
    }
}

/// The bright hue at position `h` of the fixed ordered list of seven hues.
pub open spec fn hue_of_spec(h: nat) -> Hue {
    if h == 0 {
        Hue::BrightWhite
    } else if h == 1 {
        Hue::BrightBlue
    } else if h == 2 {
        Hue::BrightYellow
    } else if h == 3 {
        Hue::BrightCyan
    } else if h == 4 {
        Hue::BrightPurple
    } else if h == 5 {
        Hue::BrightGreen
    } else {
        Hue::BrightRed
    }
}

/// The style assigned to style index `i`: the index is reduced modulo the 28
/// distinct styles (2 emphases x 2 weights x 7 hues); the hue is the
/// low-order component, the weight next, and the emphasis the highest-order,
/// so consecutive indices walk every combination once before repeating.
pub open spec fn style_of_spec(i: nat) -> Style {
    let k = i % 28;
    Style {
        italic: k / 14 == 1,
        bold: (k % 14) / 7 == 1,
        dimmed: false,
        hue: Some(hue_of_spec((k % 14) % 7)),
    }
}

/// Builds the style assigned to style index `i`; pure and total, wrapping
/// silently for indices at or above 28.
pub fn style_of(i: u64) -> (r: Style)
    ensures
        r == style_of_spec(i as nat),
{
    let k: u64 = i % 28;
    let italic: bool = k / 14 == 1;
    let k2: u64 = k % 14;
    let bold: bool = k2 / 7 == 1;
    let h: u64 = k2 % 7;
    let hue = if h == 0 {
        Hue::BrightWhite
    } else if h == 1 {
        Hue::BrightBlue
    } else if h == 2 {
        Hue::BrightYellow
    } else if h == 3 {
        Hue::BrightCyan
    } else if h == 4 {
        Hue::BrightPurple
    } else if h == 5 {
        Hue::BrightGreen
    } else {
        Hue::BrightRed
    };
    Style { italic, bold, dimmed: false, hue: Some(hue) }
}

/// The palette repeats with period 28: any index and its successor 28 places
/// on receive the identical style.
pub proof fn lemma_palette_period(i: nat)
    ensures
        style_of_spec(i + 28) == style_of_spec(i),
{
    assert((i + 28) % 28 == i % 28) by {
        vstd::arithmetic::div_mod::lemma_mod_add_multiples_vanish(i as int, 28);
    };
}

/// The palette is injective on 0..27: two distinct indices below 28 receive
/// distinct styles.
pub proof fn lemma_palette_injective(a: nat, b: nat)
    requires
        a < 28,
        b < 28,
        a != b,
    ensures
        style_of_spec(a) != style_of_spec(b),
{
    assert(a % 28 == a && b % 28 == b);
    let ka = a % 28;
    let kb = b % 28;
    assert(ka == 14 * (ka / 14) + 7 * ((ka % 14) / 7) + (ka % 14) % 7);
    assert(kb == 14 * (kb / 14) + 7 * ((kb % 14) / 7) + (kb % 14) % 7);
    if style_of_spec(a) == style_of_spec(b) {
        assert(hue_of_spec((ka % 14) % 7) == hue_of_spec((kb % 14) % 7));
        assert((ka % 14) % 7 == (kb % 14) % 7);
        assert(ka / 14 == kb / 14 && (ka % 14) / 7 == (kb % 14) / 7);
        assert(ka == kb);
    }
}

} // verus!
