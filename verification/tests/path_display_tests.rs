use at::path_display::{clip_middle, display_path};

#[test]
fn leaves_short_text_unchanged() {
    assert_eq!(clip_middle("src/main.rs", 30), "src/main.rs");
}

#[test]
fn clips_long_text_in_the_middle() {
    assert_eq!(
        clip_middle("/home/congke/work/ntl-imputation/data/nightlight", 28),
        "/home/congke...ta/nightlight"
    );
}

#[test]
fn expanded_display_returns_full_path() {
    let path = "/home/congke/work/ntl-imputation/data/nightlight".to_owned();
    assert_eq!(
        display_path(&path, true, 20),
        "/home/congke/work/ntl-imputation/data/nightlight"
    );
}

#[test]
fn collapsed_display_uses_width_limit() {
    let path = "/home/congke/work/ntl-imputation/data/nightlight".to_owned();
    assert_eq!(display_path(&path, false, 20), "/home/co...ightlight");
}

#[test]
fn narrow_widths_use_dots_only() {
    assert_eq!(clip_middle("abcdef", 0), ".");
    assert_eq!(clip_middle("abcdef", 1), ".");
    assert_eq!(clip_middle("abcdef", 2), "..");
    assert_eq!(clip_middle("abcdef", 3), "...");
    assert_eq!(clip_middle("abcdef", 4), "...f");
    assert_eq!(clip_middle("abcdef", 5), "a...f");
    assert_eq!(clip_middle("abcdef", 6), "abcdef");
}

#[test]
fn clipping_counts_characters_not_bytes() {
    assert_eq!(clip_middle("ééééé", 5), "ééééé");
    assert_eq!(clip_middle("ééééééé", 5), "é...é");
    assert_eq!(clip_middle("ééééééé", 5).chars().count(), 5);
}
