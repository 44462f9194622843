use snappers::theme::{resolve_theme, rgb, rgba, Theme, ThemeError};

#[test]
fn default_theme_has_opaque_accent() {
    let theme = Theme::default();
    assert_eq!(theme.accent.alpha_percent, 100);
}

#[test]
fn hex_rgb_round_trips() {
    let color = rgb(0xB4, 0xBE, 0xFE);
    assert_eq!(color.to_hex_rgb(), "#B4BEFE");
}

#[test]
fn resolve_default_theme() {
    let theme = resolve_theme(None, None).unwrap();
    assert_eq!(theme.dim_mask.alpha_percent, 50);
}

#[test]
fn resolve_catppuccin_flavors() {
    for flavor in ["mocha", "macchiato", "frappe", "latte"] {
        resolve_theme(Some("catppuccin"), Some(flavor))
            .unwrap_or_else(|_| panic!("flavor {flavor} should resolve"));
    }
}

#[test]
fn resolve_unknown_theme_fails() {
    assert!(resolve_theme(Some("nope"), None).is_err());
}

#[test]
fn resolve_unknown_flavor_fails() {
    assert!(resolve_theme(Some("catppuccin"), Some("nope")).is_err());
}

#[test]
fn theme_names_select_their_palettes() {
    assert_eq!(resolve_theme(Some("default"), Some("latte")).unwrap(), Theme::default());
    assert_eq!(
        resolve_theme(Some("catppuccin"), None).unwrap(),
        Theme::catppuccin_mocha()
    );
    assert_eq!(
        resolve_theme(Some("catppuccin"), Some("latte")).unwrap(),
        Theme::catppuccin_latte()
    );
    assert_eq!(
        resolve_theme(Some("catppuccin"), Some("frappe")).unwrap().accent,
        rgb(0xBA, 0xBB, 0xF1)
    );
    assert_eq!(
        resolve_theme(Some("catppuccin"), Some("macchiato")).unwrap().panel_bg,
        rgb(0x1E, 0x20, 0x30)
    );
    assert_eq!(
        Theme::catppuccin_latte().dim_mask,
        rgba(0xFF, 0xFF, 0xFF, 40)
    );
}

#[test]
fn theme_errors_name_the_input() {
    let e = resolve_theme(Some("Catppuccin"), None).unwrap_err();
    assert_eq!(e, ThemeError::UnknownTheme("Catppuccin".to_owned()));
    assert_eq!(e.message(), "unknown theme `Catppuccin`");
    let e = resolve_theme(Some("catppuccin"), Some("Mocha")).unwrap_err();
    assert_eq!(e, ThemeError::UnknownFlavor("Mocha".to_owned()));
    assert_eq!(e.message(), "unknown catppuccin flavor `Mocha`");
}

#[test]
fn hex_uses_two_upper_case_digits_per_channel() {
    assert_eq!(rgb(0, 0x0A, 0xFF).to_hex_rgb(), "#000AFF");
    assert_eq!(Theme::default().text.to_hex_rgb(), "#E0E4F0");
}
