use at::ui::theme::{PaletteColors, ThemeColor, ThemeName};

#[test]
fn theme_names_map_to_distinct_palette_colors() {
    assert_eq!(PaletteColors::for_theme(ThemeName::Mist).selected_bg, ThemeColor::Cyan);
    assert_eq!(PaletteColors::for_theme(ThemeName::Ink).selected_bg, ThemeColor::Blue);
    assert_eq!(
        PaletteColors::for_theme(ThemeName::Paper).selected_bg,
        ThemeColor::Yellow
    );
}

#[test]
fn theme_names_are_stored_in_lower_case() {
    assert_eq!(ThemeName::Mist.as_str(), "mist");
    assert_eq!(ThemeName::Ink.as_str(), "ink");
    assert_eq!(ThemeName::Paper.as_str(), "paper");
}

#[test]
fn each_theme_sets_every_color() {
    let ink = PaletteColors::for_theme(ThemeName::Ink);
    assert_eq!(ink.title_fg, ThemeColor::LightCyan);
    assert_eq!(ink.query_fg, ThemeColor::LightYellow);
    assert_eq!(ink.filter_fg, ThemeColor::LightBlue);
    assert_eq!(ink.muted_fg, ThemeColor::DarkGray);
    assert_eq!(ink.selected_fg, ThemeColor::White);
    let paper = PaletteColors::for_theme(ThemeName::Paper);
    assert_eq!(paper.query_fg, ThemeColor::LightMagenta);
    assert_eq!(paper.muted_fg, ThemeColor::Gray);
}
