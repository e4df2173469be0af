use vibetree::colors::{indexed_to_rgb, named_to_rgb, opaque, resolve_color, theme_palette, NamedColor, Rgba, TermColor};
use vibetree::types::Theme;

fn rgb(r: u8, g: u8, b: u8) -> Rgba {
    Rgba { r, g, b, a: 255 }
}

#[test]
fn named_colours() {
    assert_eq!(named_to_rgb(NamedColor::Red), rgb(204, 0, 0));
    assert_eq!(named_to_rgb(NamedColor::BrightWhite), rgb(238, 238, 236));
    assert_eq!(named_to_rgb(NamedColor::Background), rgb(30, 30, 30));
    assert_eq!(named_to_rgb(NamedColor::Cursor), rgb(211, 215, 207));
    assert_eq!(named_to_rgb(NamedColor::DimRed), rgb(211, 215, 207));
}

#[test]
fn indexed_named_range() {
    assert_eq!(indexed_to_rgb(0), rgb(0, 0, 0));
    assert_eq!(indexed_to_rgb(9), rgb(239, 41, 41));
    assert_eq!(indexed_to_rgb(15), rgb(238, 238, 236));
}

#[test]
fn indexed_cube() {
    assert_eq!(indexed_to_rgb(16), rgb(0, 0, 0));
    assert_eq!(indexed_to_rgb(21), rgb(0, 0, 255));
    assert_eq!(indexed_to_rgb(196), rgb(255, 0, 0));
    assert_eq!(indexed_to_rgb(110), rgb(102, 153, 204));
    assert_eq!(indexed_to_rgb(231), rgb(255, 255, 255));
}

#[test]
fn indexed_greys() {
    assert_eq!(indexed_to_rgb(232), rgb(8, 8, 8));
    assert_eq!(indexed_to_rgb(244), rgb(128, 128, 128));
    assert_eq!(indexed_to_rgb(255), rgb(238, 238, 238));
}

#[test]
fn palette_shape_holds_for_every_index() {
    for i in 16..=255u8 {
        let c = indexed_to_rgb(i);
        assert_eq!(c.a, 255);
        if i < 232 {
            assert!(c.r % 51 == 0 && c.g % 51 == 0 && c.b % 51 == 0);
        } else {
            assert!(c.r == c.g && c.g == c.b && c.r <= 238);
        }
    }
}

#[test]
fn resolve_each_kind() {
    assert_eq!(resolve_color(TermColor::Spec(1, 2, 3)), rgb(1, 2, 3));
    assert_eq!(resolve_color(TermColor::Named(NamedColor::Green)), rgb(78, 154, 6));
    assert_eq!(resolve_color(TermColor::Indexed(232)), rgb(8, 8, 8));
    assert_eq!(opaque(4, 5, 6), rgb(4, 5, 6));
}

#[test]
fn theme_palettes() {
    let d = theme_palette(Theme::Dark);
    assert_eq!(d.bg, rgb(30, 30, 30));
    assert_eq!(d.fg, rgb(211, 215, 207));
    assert_eq!(d.panel_bg, rgb(37, 37, 38));
    assert_eq!(d.tab_active, rgb(45, 45, 48));
    assert_eq!(d.border, rgb(60, 60, 60));
    let l = theme_palette(Theme::Light);
    assert_eq!(l.bg, rgb(255, 255, 255));
    assert_eq!(l.fg, rgb(30, 30, 30));
    assert_eq!(l.tab_inactive, rgb(236, 236, 236));
    assert_eq!(l.accent, d.accent);
}
