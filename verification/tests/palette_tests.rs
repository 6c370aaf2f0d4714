use logfmt::Hue;
use logfmt::Level;
use logfmt::Style;
use logfmt::level_label;
use logfmt::level_style;
use logfmt::style_of;

#[test]
fn first_styles_walk_hues() {
    let s0 = style_of(0);
    assert_eq!(s0, Style { italic: false, bold: false, dimmed: false, hue: Some(Hue::BrightWhite) });
    let s1 = style_of(1);
    assert_eq!(s1, Style { italic: false, bold: false, dimmed: false, hue: Some(Hue::BrightBlue) });
    let s6 = style_of(6);
    assert_eq!(s6, Style { italic: false, bold: false, dimmed: false, hue: Some(Hue::BrightRed) });
}

#[test]
fn weight_changes_before_emphasis() {
    let s7 = style_of(7);
    assert_eq!(s7, Style { italic: false, bold: true, dimmed: false, hue: Some(Hue::BrightWhite) });
    let s13 = style_of(13);
    assert_eq!(s13, Style { italic: false, bold: true, dimmed: false, hue: Some(Hue::BrightRed) });
    let s14 = style_of(14);
    assert_eq!(s14, Style { italic: true, bold: false, dimmed: false, hue: Some(Hue::BrightWhite) });
    let s27 = style_of(27);
    assert_eq!(s27, Style { italic: true, bold: true, dimmed: false, hue: Some(Hue::BrightRed) });
}

#[test]
fn palette_repeats_every_28() {
    for i in 0u64..56 {
        assert_eq!(style_of(i), style_of(i + 28));
    }
    assert_eq!(style_of(29), style_of(1));
}

#[test]
fn palette_injective_below_28() {
    for a in 0u64..28 {
        for b in 0u64..28 {
            if a != b {
                assert_ne!(style_of(a), style_of(b));
            }
        }
    }
}

#[test]
fn level_styles_match_fixed_table() {
    assert_eq!(
        level_style(Level::Error),
        Style { italic: false, bold: true, dimmed: false, hue: Some(Hue::BrightRed) }
    );
    assert_eq!(
        level_style(Level::Warn),
        Style { italic: false, bold: true, dimmed: false, hue: Some(Hue::BrightYellow) }
    );
    assert_eq!(
        level_style(Level::Info),
        Style { italic: false, bold: true, dimmed: false, hue: Some(Hue::BrightWhite) }
    );
    assert_eq!(
        level_style(Level::Debug),
        Style { italic: false, bold: false, dimmed: false, hue: Some(Hue::White) }
    );
    assert_eq!(
        level_style(Level::Trace),
        Style { italic: false, bold: false, dimmed: true, hue: None }
    );
}

#[test]
fn level_labels_are_upper_case() {
    assert_eq!(level_label(Level::Error), "ERROR");
    assert_eq!(level_label(Level::Warn), "WARN");
    assert_eq!(level_label(Level::Info), "INFO");
    assert_eq!(level_label(Level::Debug), "DEBUG");
    assert_eq!(level_label(Level::Trace), "TRACE");
}
