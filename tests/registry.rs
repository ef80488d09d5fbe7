use std::str::FromStr;

use themes::{ColorScheme, InvalidSchemeSelector, Theme};

fn fields(t: &Theme) -> Vec<&String> {
    vec![
        &t.background,
        &t.text_color,
        &t.directory_link_color,
        &t.file_link_color,
        &t.symlink_link_color,
        &t.table_background,
        &t.table_text_color,
        &t.table_header_background,
        &t.table_header_text_color,
        &t.table_header_active_color,
        &t.active_row_color,
        &t.odd_row_background,
        &t.even_row_background,
        &t.root_link_color,
        &t.download_button_background,
        &t.download_button_background_hover,
        &t.download_button_link_color,
        &t.download_button_link_color_hover,
        &t.back_button_background,
        &t.back_button_background_hover,
        &t.back_button_link_color,
        &t.back_button_link_color_hover,
        &t.date_text_color,
        &t.at_color,
        &t.switch_theme_background,
        &t.switch_theme_link_color,
        &t.switch_theme_active,
        &t.switch_theme_border,
        &t.change_theme_link_color,
        &t.change_theme_link_color_hover,
        &t.upload_text_color,
        &t.upload_form_border_color,
        &t.upload_form_background,
        &t.upload_button_background,
        &t.upload_button_text_color,
        &t.drag_background,
        &t.drag_border_color,
        &t.drag_text_color,
        &t.size_background_color,
        &t.size_text_color,
    ]
}

fn is_color(s: &str) -> bool {
    let b = s.as_bytes();
    (b.len() == 7 || b.len() == 9) && b[0] == b'#' && b[1..].iter().all(|c| c.is_ascii_hexdigit())
}

#[test]
fn slug_round_trip() {
    for s in ColorScheme::all_schemes() {
        assert_eq!(ColorScheme::parse_slug(&s.to_slug()), Some(s));
    }
}

#[test]
fn slugs_are_lowercase_names() {
    assert_eq!(ColorScheme::Archlinux.to_slug(), "archlinux");
    assert_eq!(ColorScheme::Zenburn.to_slug(), "zenburn");
    assert_eq!(ColorScheme::Monokai.to_slug(), "monokai");
    assert_eq!(ColorScheme::Squirrel.to_slug(), "squirrel");
}

#[test]
fn every_field_is_a_color() {
    for s in ColorScheme::all_schemes() {
        let t = s.get_theme();
        let f = fields(&t);
        assert_eq!(f.len(), 40);
        for c in f {
            assert!(is_color(c), "{:?}: {}", s, c);
        }
    }
}

#[test]
fn slugs_are_distinct() {
    let all = ColorScheme::all_schemes();
    for a in &all {
        for b in &all {
            if a != b {
                assert_ne!(a.to_slug(), b.to_slug());
            }
        }
    }
}

#[test]
fn parse_ignores_case() {
    assert_eq!(ColorScheme::parse_slug("ARCHLINUX"), Some(ColorScheme::Archlinux));
    assert_eq!(ColorScheme::parse_slug("MonoKai"), Some(ColorScheme::Monokai));
    assert_eq!(ColorScheme::parse_slug("zenBURN"), Some(ColorScheme::Zenburn));
    assert_eq!(ColorScheme::parse_slug("Squirrel"), Some(ColorScheme::Squirrel));
}

#[test]
fn parse_rejects_other_text() {
    assert_eq!(ColorScheme::parse_slug("not-a-theme"), None);
    assert_eq!(ColorScheme::parse_slug(""), None);
    assert_eq!(ColorScheme::parse_slug("archlinux "), None);
    assert_eq!(ColorScheme::parse_slug("monoka"), None);
    assert_eq!(ColorScheme::parse_slug("squirrels"), None);
    assert_eq!(ColorScheme::parse_slug("zenbürn"), None);
}

#[test]
fn dark_classification() {
    assert!(ColorScheme::Archlinux.is_dark());
    assert!(ColorScheme::Zenburn.is_dark());
    assert!(ColorScheme::Monokai.is_dark());
    assert!(!ColorScheme::Squirrel.is_dark());
    assert_eq!(ColorScheme::Archlinux.is_dark(), ColorScheme::Archlinux.is_dark());
}

#[test]
fn listing_is_stable_and_complete() {
    let first = ColorScheme::all_schemes();
    let second = ColorScheme::all_schemes();
    assert_eq!(first, second);
    assert_eq!(
        first,
        vec![
            ColorScheme::Archlinux,
            ColorScheme::Zenburn,
            ColorScheme::Monokai,
            ColorScheme::Squirrel
        ]
    );
}

#[test]
fn monokai_selected_by_name() {
    let s = ColorScheme::parse_slug("monokai").unwrap();
    let t = s.get_theme();
    assert_eq!(t.background, "#272822");
    assert_eq!(t.directory_link_color, "#F92672");
}

#[test]
fn unknown_selector_is_rejected() {
    assert_eq!(ColorScheme::from_str("nord"), Err(InvalidSchemeSelector));
    assert_eq!(ColorScheme::parse_slug("nord"), None);
    let chosen = ColorScheme::from_str("nord").unwrap_or(ColorScheme::Squirrel);
    assert_eq!(chosen, ColorScheme::Squirrel);
    assert_eq!(ColorScheme::from_str("Zenburn"), Ok(ColorScheme::Zenburn));
}

#[test]
fn archlinux_palette() {
    let t = ColorScheme::Archlinux.get_theme();
    assert_eq!(t.background, "#383c4a");
    assert_eq!(t.text_color, "#fefefe");
    assert_eq!(t.active_row_color, "#5194e259");
    assert_eq!(t.drag_background, "#3333338f");
    assert_eq!(t.size_text_color, "#fefefe");
}

#[test]
fn zenburn_palette() {
    let t = ColorScheme::Zenburn.get_theme();
    assert_eq!(t.background, "#3f3f3f");
    assert_eq!(t.file_link_color, "#87D6D5");
    assert_eq!(t.active_row_color, "#7e9f7f9c");
    assert_eq!(t.size_background_color, "#7f9f7f");
}

#[test]
fn squirrel_palette() {
    let t = ColorScheme::Squirrel.get_theme();
    assert_eq!(t.background, "#FFFFFF");
    assert_eq!(t.text_color, "#323232");
    assert_eq!(t.active_row_color, "#f6f8fa");
    assert_eq!(t.switch_theme_border, "#49483E");
    assert_eq!(t.upload_form_border_color, "#d2d2d2");
}

#[test]
fn declared_names_in_order() {
    assert_eq!(
        ColorScheme::variants(),
        ["Archlinux", "Zenburn", "Monokai", "Squirrel"]
    );
}

#[test]
fn from_str_agrees_with_slugs() {
    assert_eq!(ColorScheme::from_str("MONOKAI"), Ok(ColorScheme::Monokai));
    assert_eq!(ColorScheme::from_str("squirrel"), Ok(ColorScheme::Squirrel));
    assert_eq!(ColorScheme::from_str("archlinux"), Ok(ColorScheme::Archlinux));
    assert_eq!(ColorScheme::from_str(""), Err(InvalidSchemeSelector));
    assert_eq!(ColorScheme::from_str("not-a-theme"), Err(InvalidSchemeSelector));
}
