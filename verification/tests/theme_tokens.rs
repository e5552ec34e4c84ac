use seasons::theme::{css_properties, ThemeMode, ThemePalette, ThemePreference};

fn preference(palette: ThemePalette, mode: ThemeMode) -> ThemePreference {
    ThemePreference { palette, mode }
}

#[test]
fn the_default_preference_follows_the_system_with_rose_pine() {
    assert_eq!(ThemePreference::default(), preference(ThemePalette::RosePine, ThemeMode::System));
}

#[test]
fn mode_decides_between_dark_and_light_variants() {
    let dark = preference(ThemePalette::Gruvbox, ThemeMode::Dark).resolved_tokens(false);
    assert_eq!(dark.color_scheme, "dark");
    assert_eq!(dark.bg, "#282828");
    let light = preference(ThemePalette::Gruvbox, ThemeMode::Light).resolved_tokens(true);
    assert_eq!(light.color_scheme, "light");
    assert_ne!(light.bg, dark.bg);
    assert_eq!(preference(ThemePalette::Gruvbox, ThemeMode::System).resolved_tokens(true), dark);
    assert_eq!(preference(ThemePalette::Gruvbox, ThemeMode::System).resolved_tokens(false), light);
}

#[test]
fn native_palettes_ignore_the_mode() {
    for mode in ThemeMode::all() {
        for system in [false, true] {
            assert_eq!(preference(ThemePalette::Nordbones, mode).resolved_tokens(system).color_scheme, "dark");
            assert_eq!(preference(ThemePalette::Sonokai, mode).resolved_tokens(system).color_scheme, "dark");
            let dayfox = preference(ThemePalette::Dayfox, mode).resolved_tokens(system);
            assert_eq!(dayfox.color_scheme, "light");
            assert_eq!(dayfox.bg, "#f6f2ee");
        }
    }
}

#[test]
fn every_variant_sets_every_property() {
    for palette in ThemePalette::all() {
        for mode in ThemeMode::all() {
            let tokens = preference(palette, mode).resolved_tokens(true);
            let properties = css_properties(&tokens);
            assert_eq!(properties.len(), 35);
            assert_eq!(properties[0], ("--bg", tokens.bg));
            assert_eq!(properties[34], ("--slider-fill", tokens.slider_fill));
            assert!(properties.iter().all(|(name, value)| name.starts_with("--") && !value.is_empty()));
        }
    }
}

#[test]
fn labels_and_notes() {
    assert_eq!(ThemePalette::RosePine.label(), "Rose Pine");
    assert_eq!(ThemePalette::Dayfox.note(), "light-native");
    assert_eq!(ThemePalette::Gruvbox.note(), "light/dark");
    assert_eq!(ThemeMode::System.label(), "System");
    assert_eq!(ThemePalette::all().len(), 7);
    assert_eq!(ThemeMode::all(), vec![ThemeMode::System, ThemeMode::Dark, ThemeMode::Light]);
}
