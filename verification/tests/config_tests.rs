use snappers::config::{
    config_path, config_path_in, default_screenshot_pattern, expand_tilde, output_path_from, parse_binding,
    AppConfig, ConfigError, FileConfig, FileKeymap, FileThemeConfig,
    KeyBinding, Keymap, Modifiers, KEY_C, KEY_DOWN, KEY_ESCAPE, KEY_LEFT, KEY_P, KEY_RETURN,
    KEY_RIGHT, KEY_SPACE, KEY_TAB, KEY_UP,
};
use snappers::theme::{Theme, ThemeError};

#[test]
fn parses_default_binding() {
    let binding = parse_binding("Ctrl+Shift+Left").expect("binding");
    assert!(binding.ctrl);
    assert!(binding.shift);
    assert_eq!(binding.key, KEY_LEFT);
}

#[test]
fn expands_tilde_paths() {
    let expanded = expand_tilde("~/Pictures/example.png", Some("/home/user"));
    assert!(expanded.contains("Pictures/example.png"));
}

#[test]
fn default_path_uses_screenshots_directory() {
    let pictures = directories::UserDirs::new()
        .and_then(|dirs| dirs.picture_dir().map(|p| p.to_string_lossy().into_owned()));
    let path = default_screenshot_pattern(pictures);
    assert!(path.contains("Screenshots"));
    assert!(path.contains("%Y-%m-%d"));
}

fn key(ctrl: bool, shift: bool, key: u32) -> KeyBinding {
    KeyBinding {
        ctrl,
        alt: false,
        shift,
        logo: false,
        key,
    }
}

#[test]
fn default_binding_strings_parse_to_the_default_keymap() {
    let k = Keymap::default();
    let pairs: Vec<(&str, &Vec<KeyBinding>, usize)> = vec![
        ("Return", &k.confirm, 0),
        ("space", &k.confirm, 1),
        ("Ctrl+C", &k.copy_only, 0),
        ("Escape", &k.cancel, 0),
        ("p", &k.toggle_pointer, 0),
        ("Left", &k.move_left, 0),
        ("Right", &k.move_right, 0),
        ("Up", &k.move_up, 0),
        ("Down", &k.move_down, 0),
        ("Shift+Left", &k.resize_left, 0),
        ("Shift+Right", &k.resize_right, 0),
        ("Shift+Up", &k.resize_up, 0),
        ("Shift+Down", &k.resize_down, 0),
        ("Tab", &k.next_output, 0),
        ("Shift+Tab", &k.previous_output, 0),
    ];
    for (raw, list, i) in pairs {
        assert_eq!(parse_binding(raw).unwrap(), list[i], "{raw}");
    }
    assert_eq!(k.confirm, vec![key(false, false, KEY_RETURN), key(false, false, KEY_SPACE)]);
    assert_eq!(k.copy_only, vec![key(true, false, KEY_C)]);
    assert_eq!(k.previous_output, vec![key(false, true, KEY_TAB)]);
}

#[test]
fn binding_words_ignore_case_and_spaces() {
    assert_eq!(
        parse_binding(" control + SHIFT +esc ").unwrap(),
        key(true, true, KEY_ESCAPE)
    );
    let b = parse_binding("Alt+Super+enter").unwrap();
    assert!(b.alt && b.logo && !b.ctrl && !b.shift);
    assert_eq!(b.key, KEY_RETURN);
    assert_eq!(parse_binding("meta+logo+P").unwrap(), KeyBinding {
        ctrl: false,
        alt: false,
        shift: false,
        logo: true,
        key: KEY_P,
    });
    assert_eq!(parse_binding("up").unwrap().key, KEY_UP);
    assert_eq!(parse_binding("DOWN").unwrap().key, KEY_DOWN);
    assert_eq!(parse_binding("right").unwrap().key, KEY_RIGHT);
    // The last key named wins.
    assert_eq!(parse_binding("Left+Right").unwrap().key, KEY_RIGHT);
}

#[test]
fn binding_errors() {
    assert_eq!(parse_binding("Ctrl+Shift"), Err(ConfigError::MissingKey));
    assert_eq!(parse_binding(""), Err(ConfigError::UnsupportedKeysym(String::new())));
    assert_eq!(
        parse_binding("Ctrl+F13"),
        Err(ConfigError::UnsupportedKeysym("F13".to_owned()))
    );
    assert_eq!(
        parse_binding("Ctrl+ F13 "),
        Err(ConfigError::UnsupportedKeysym("F13".to_owned()))
    );
    assert_eq!(
        ConfigError::UnsupportedKeysym("F13".to_owned()).message(),
        "unsupported keysym `F13`"
    );
    assert_eq!(ConfigError::MissingKey.message(), "binding is missing a key");
    assert_eq!(
        ConfigError::NoProjectDirs.message(),
        "could not resolve XDG project directories"
    );
    assert_eq!(
        ConfigError::InvalidPathPattern("%Q".to_owned()).message(),
        "invalid screenshot path pattern `%Q`"
    );
    assert_eq!(
        ConfigError::Theme(ThemeError::UnknownTheme("x".to_owned())).message(),
        "unknown theme `x`"
    );
}

#[test]
fn binding_matches_exact_modifiers() {
    let b = key(true, false, KEY_C);
    let mut m = Modifiers::default();
    assert!(!b.matches(KEY_C, m));
    m.ctrl = true;
    assert!(b.matches(KEY_C, m));
    m.caps_lock = true;
    m.num_lock = true;
    assert!(b.matches(KEY_C, m));
    m.shift = true;
    assert!(!b.matches(KEY_C, m));
    assert!(!key(true, false, KEY_P).matches(KEY_C, Modifiers { ctrl: true, ..Modifiers::default() }));
}

#[test]
fn tilde_expansion() {
    assert_eq!(expand_tilde("~/a/b.png", Some("/home/u")), "/home/u/a/b.png");
    assert_eq!(expand_tilde("~/a", None), "~/a");
    assert_eq!(expand_tilde("/abs/~/x", Some("/home/u")), "/abs/~/x");
    assert_eq!(expand_tilde("~", Some("/home/u")), "~");
    assert_eq!(expand_tilde("~user/x", Some("/home/u")), "~user/x");
}

#[test]
fn screenshot_pattern_below_pictures() {
    assert_eq!(
        default_screenshot_pattern(Some("/home/u/Pictures".to_owned())),
        "/home/u/Pictures/Screenshots/Screenshot from %Y-%m-%d %H-%M-%S.png"
    );
    assert_eq!(
        default_screenshot_pattern(Some("/pics/".to_owned())),
        "/pics/Screenshots/Screenshot from %Y-%m-%d %H-%M-%S.png"
    );
    assert_eq!(
        default_screenshot_pattern(None),
        "~/Pictures/Screenshots/Screenshot from %Y-%m-%d %H-%M-%S.png"
    );
}

#[test]
fn config_path_ends_in_config_toml() {
    if let Ok(p) = config_path() {
        assert!(p.ends_with(b"/snappers/config.toml"));
    }
}

#[test]
fn output_path_from_formatting() {
    assert_eq!(
        output_path_from("a".to_owned(), Some("bé".to_owned())),
        Ok(Some("bé".as_bytes().to_vec()))
    );
    assert_eq!(
        output_path_from("%Q".to_owned(), None),
        Err(ConfigError::InvalidPathPattern("%Q".to_owned()))
    );
}

#[test]
fn resolve_output_path_cases() {
    let mut c = AppConfig::default(None);
    assert_eq!(
        c.resolve_output_path(Some(b"/tmp/\xffx.png"), None),
        Ok(Some(b"/tmp/\xffx.png".to_vec()))
    );
    c.screenshot_path = None;
    assert_eq!(c.resolve_output_path(None, Some("/home/u")), Ok(None));
    c.screenshot_path = Some("/tmp/shot.png".to_owned());
    assert_eq!(
        c.resolve_output_path(None, Some("/home/u")),
        Ok(Some(b"/tmp/shot.png".to_vec()))
    );
    c.screenshot_path = Some("~/%Y.png".to_owned());
    let p = String::from_utf8(c.resolve_output_path(None, Some("/home/u")).unwrap().unwrap())
        .unwrap();
    assert!(p.starts_with("/home/u/"));
    assert!(p.ends_with(".png"));
    assert!(!p.contains('%'));
    c.screenshot_path = Some("~/%Q%.png".to_owned());
    assert_eq!(
        c.resolve_output_path(None, Some("/home/u")),
        Err(ConfigError::InvalidPathPattern("/home/u/%Q%.png".to_owned()))
    );
}

#[test]
fn empty_file_gives_defaults() {
    let c = AppConfig::from_file(FileConfig::default(), None).unwrap();
    assert_eq!(c.theme, Theme::default());
    assert_eq!(c.keymap.cancel, Keymap::default().cancel);
    assert!(c.screenshot_path.unwrap().contains("Screenshots"));
}

#[test]
fn file_overrides_bindings_theme_and_path() {
    let mut keymap = FileKeymap::empty();
    keymap.cancel = Some(vec!["q".to_owned(), "Escape".to_owned()]);
    keymap.confirm = Some(Vec::new());
    let file = FileConfig {
        screenshot_path: Some(None),
        keymap: Some(keymap),
        theme: Some(FileThemeConfig {
            name: Some("catppuccin".to_owned()),
            flavor: Some("latte".to_owned()),
        }),
    };
    let err = AppConfig::from_file(file, None).unwrap_err();
    assert_eq!(err, ConfigError::UnsupportedKeysym("q".to_owned()));

    let mut keymap = FileKeymap::empty();
    keymap.cancel = Some(vec!["Ctrl+C".to_owned(), "Escape".to_owned()]);
    keymap.confirm = Some(Vec::new());
    let file = FileConfig {
        screenshot_path: Some(None),
        keymap: Some(keymap),
        theme: Some(FileThemeConfig {
            name: Some("catppuccin".to_owned()),
            flavor: Some("latte".to_owned()),
        }),
    };
    let c = AppConfig::from_file(file, None).unwrap();
    assert_eq!(c.screenshot_path, None);
    assert_eq!(c.theme, Theme::catppuccin_latte());
    assert!(c.keymap.confirm.is_empty());
    assert_eq!(c.keymap.cancel, vec![key(true, false, KEY_C), key(false, false, KEY_ESCAPE)]);
    assert_eq!(c.keymap.move_left, Keymap::default().move_left);

    let file = FileConfig {
        screenshot_path: Some(Some("/x/%s.png".to_owned())),
        keymap: None,
        theme: None,
    };
    assert_eq!(
        AppConfig::from_file(file, None).unwrap().screenshot_path,
        Some("/x/%s.png".to_owned())
    );
}

#[test]
fn theme_is_checked_before_bindings() {
    let mut keymap = FileKeymap::empty();
    keymap.cancel = Some(vec!["Ctrl".to_owned()]);
    let file = FileConfig {
        screenshot_path: None,
        keymap: Some(keymap),
        theme: Some(FileThemeConfig {
            name: Some("solarized".to_owned()),
            flavor: None,
        }),
    };
    assert_eq!(
        AppConfig::from_file(file, None).unwrap_err(),
        ConfigError::Theme(ThemeError::UnknownTheme("solarized".to_owned()))
    );
    let mut keymap = FileKeymap::empty();
    keymap.cancel = Some(vec!["Ctrl".to_owned()]);
    let file = FileConfig {
        screenshot_path: None,
        keymap: Some(keymap),
        theme: None,
    };
    assert_eq!(AppConfig::from_file(file, None).unwrap_err(), ConfigError::MissingKey);
}

#[test]
fn unlisted_actions_keep_defaults() {
    let mut keymap = FileKeymap::empty();
    keymap.next_output = Some(vec!["Right".to_owned()]);
    let file = FileConfig {
        screenshot_path: None,
        keymap: Some(keymap),
        theme: None,
    };
    let c = AppConfig::from_file(file, None).unwrap();
    let d = Keymap::default();
    assert_eq!(c.keymap.next_output, vec![key(false, false, KEY_RIGHT)]);
    assert_eq!(c.keymap.previous_output, d.previous_output);
    assert_eq!(c.keymap.confirm, d.confirm);
    assert_eq!(c.keymap.resize_down, d.resize_down);
}

#[test]
fn defaults_use_the_given_pictures_directory() {
    let c = AppConfig::default(Some("/data/pics".to_owned()));
    assert_eq!(
        c.screenshot_path.as_deref(),
        Some("/data/pics/Screenshots/Screenshot from %Y-%m-%d %H-%M-%S.png")
    );
    let c = AppConfig::from_file(FileConfig::default(), Some("/p".to_owned())).unwrap();
    assert_eq!(
        c.screenshot_path.as_deref(),
        Some("/p/Screenshots/Screenshot from %Y-%m-%d %H-%M-%S.png")
    );
}

#[test]
fn config_file_is_joined_to_the_directory_bytes() {
    assert_eq!(
        config_path_in(Some(b"/home/u/.config/snappers".to_vec())),
        Ok(b"/home/u/.config/snappers/config.toml".to_vec())
    );
    assert_eq!(
        config_path_in(Some(b"/weird/\xff/".to_vec())),
        Ok(b"/weird/\xff/config.toml".to_vec())
    );
    assert_eq!(config_path_in(None), Err(ConfigError::NoProjectDirs));
}

#[test]
fn a_pattern_without_specifiers_is_the_path_itself() {
    let mut c = AppConfig::default(None);
    c.screenshot_path = Some("~/shots/latest.png".to_owned());
    assert_eq!(
        c.resolve_output_path(None, Some("/home/u")),
        Ok(Some(b"/home/u/shots/latest.png".to_vec()))
    );
}
