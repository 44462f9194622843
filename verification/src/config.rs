use vstd::prelude::*;

use std::fmt::Write;

use vstd::string::StrSliceExecFns;
use vstd::utf8::encode_utf8;

use crate::text::{
    ascii_lower_spec, chars_eq_str, chars_of, concat_str, split_plus, split_plus_spec, string_of,
    to_ascii_lowercase, trim, trim_spec,
};
use crate::theme::{opt_str_view, resolve_theme, resolve_theme_spec, Theme, ThemeError, ThemeErrorView};

verus! {

/// X11 keysym of the Escape key.
pub const KEY_ESCAPE: u32 = 0xff1b;

/// X11 keysym of the Return key.
pub const KEY_RETURN: u32 = 0xff0d;

/// X11 keysym of the space bar.
pub const KEY_SPACE: u32 = 0x20;

/// X11 keysym of the Tab key.
pub const KEY_TAB: u32 = 0xff09;

/// X11 keysym of the left arrow.
pub const KEY_LEFT: u32 = 0xff51;

/// X11 keysym of the up arrow.
pub const KEY_UP: u32 = 0xff52;

/// X11 keysym of the right arrow.
pub const KEY_RIGHT: u32 = 0xff53;

/// X11 keysym of the down arrow.
pub const KEY_DOWN: u32 = 0xff54;

/// X11 keysym of the lower-case letter c.
pub const KEY_C: u32 = 0x63;

/// X11 keysym of the lower-case letter p.
pub const KEY_P: u32 = 0x70;

/// The modifier keys held while a key is pressed.
#[derive(Debug, Clone, Copy, PartialEq, Eq, Structural, Default)]
pub struct Modifiers {
    pub ctrl: bool,
    pub alt: bool,
    pub shift: bool,
    pub caps_lock: bool,
    pub logo: bool,
    pub num_lock: bool,
}

/// A key together with the exact set of modifiers that must be held.
#[derive(Debug, Clone, Copy, PartialEq, Eq, Structural)]
pub struct KeyBinding {
    pub ctrl: bool,
    pub alt: bool,
    pub shift: bool,
    pub logo: bool,
    /// The X11 keysym of the key.
    pub key: u32,
}

/// The bindings of each overlay action; an action fires on any of its bindings.
#[derive(Debug, Clone)]
pub struct Keymap {
    pub confirm: Vec<KeyBinding>,
    pub copy_only: Vec<KeyBinding>,
    pub cancel: Vec<KeyBinding>,
    pub toggle_pointer: Vec<KeyBinding>,
    pub move_left: Vec<KeyBinding>,
    pub move_right: Vec<KeyBinding>,
    pub move_up: Vec<KeyBinding>,
    pub move_down: Vec<KeyBinding>,
    pub resize_left: Vec<KeyBinding>,
    pub resize_right: Vec<KeyBinding>,
    pub resize_up: Vec<KeyBinding>,
    pub resize_down: Vec<KeyBinding>,
    pub next_output: Vec<KeyBinding>,
    pub previous_output: Vec<KeyBinding>,
}

/// The effective configuration.
#[derive(Debug, Clone)]
pub struct AppConfig {
    /// `strftime` pattern of the file a capture is saved to; `None` disables saving.
    pub screenshot_path: Option<String>,
    pub keymap: Keymap,
    pub theme: Theme,
}

/// The configuration file as read: every entry optional. `screenshot_path` is
/// `Some(None)` when the file disables saving explicitly.
#[derive(Debug, Default)]
pub struct FileConfig {
    pub screenshot_path: Option<Option<String>>,
    pub keymap: Option<FileKeymap>,
    pub theme: Option<FileThemeConfig>,
}

/// The `[theme]` section of the configuration file.
#[derive(Debug, Default)]
pub struct FileThemeConfig {
    pub name: Option<String>,
    pub flavor: Option<String>,
}

/// The `[keymap]` section of the configuration file: binding strings per action.
#[derive(Debug, Default)]
pub struct FileKeymap {
    pub confirm: Option<Vec<String>>,
    pub copy_only: Option<Vec<String>>,
    pub cancel: Option<Vec<String>>,
    pub toggle_pointer: Option<Vec<String>>,
    pub move_left: Option<Vec<String>>,
    pub move_right: Option<Vec<String>>,
    pub move_up: Option<Vec<String>>,
    pub move_down: Option<Vec<String>>,
    pub resize_left: Option<Vec<String>>,
    pub resize_right: Option<Vec<String>>,
    pub resize_up: Option<Vec<String>>,
    pub resize_down: Option<Vec<String>>,
    pub next_output: Option<Vec<String>>,
    pub previous_output: Option<Vec<String>>,
}

/// Why the configuration could not be built.
#[derive(Debug, Clone, PartialEq, Eq)]
pub enum ConfigError {
    /// A binding names a key that is not supported.
    UnsupportedKeysym(String),
    /// A binding holds only modifiers.
    MissingKey,
    /// The `[theme]` section names an unknown theme or flavor.
    Theme(ThemeError),
    /// The platform's configuration directory could not be determined.
    NoProjectDirs,
    /// The screenshot path pattern (after `~` expansion) is not a valid `strftime` pattern.
    InvalidPathPattern(String),
}

/// The abstract value of a [`ConfigError`].
pub enum ConfigErrorView {
    UnsupportedKeysym(Seq<char>),
    MissingKey,
    Theme(ThemeErrorView),
    NoProjectDirs,
    InvalidPathPattern(Seq<char>),
}

impl View for ConfigError {
    type V = ConfigErrorView;

    open spec fn view(&self) -> ConfigErrorView {
        match self {
            ConfigError::UnsupportedKeysym(s) => ConfigErrorView::UnsupportedKeysym(s@),
            ConfigError::MissingKey => ConfigErrorView::MissingKey,
            ConfigError::Theme(e) => ConfigErrorView::Theme(e@),
            ConfigError::NoProjectDirs => ConfigErrorView::NoProjectDirs,
            ConfigError::InvalidPathPattern(s) => ConfigErrorView::InvalidPathPattern(s@),
        }
    }
}

impl ConfigError {
    /// The text of the error.
    pub fn message(&self) -> (s: String)
        ensures
            s@ == (match self@ {
                ConfigErrorView::UnsupportedKeysym(raw) => "unsupported keysym `"@ + raw + "`"@,
                ConfigErrorView::MissingKey => "binding is missing a key"@,
                ConfigErrorView::Theme(ThemeErrorView::UnknownTheme(n)) => "unknown theme `"@ + n
                    + "`"@,
                ConfigErrorView::Theme(ThemeErrorView::UnknownFlavor(f)) =>
                    "unknown catppuccin flavor `"@ + f + "`"@,
                ConfigErrorView::NoProjectDirs => "could not resolve XDG project directories"@,
                ConfigErrorView::InvalidPathPattern(p) => "invalid screenshot path pattern `"@ + p
                    + "`"@,
            }),
    {
        match self {
            ConfigError::UnsupportedKeysym(raw) => {
                let mut s = concat_str("unsupported keysym `", raw.as_str());
                s.append("`");
                s
            },
            ConfigError::MissingKey => String::from_str("binding is missing a key"),
            ConfigError::Theme(e) => e.message(),
            ConfigError::NoProjectDirs => String::from_str(
                "could not resolve XDG project directories",
            ),
            ConfigError::InvalidPathPattern(p) => {
                let mut s = concat_str("invalid screenshot path pattern `", p.as_str());
                s.append("`");
                s
            },
        }
    }
}

impl KeyBinding {
    /// The binding fires for `keysym` under exactly these modifiers (Caps Lock and Num Lock
    /// are not looked at).
    pub fn matches(&self, keysym: u32, modifiers: Modifiers) -> (r: bool)
        ensures
            r == (self.key == keysym && self.ctrl == modifiers.ctrl && self.alt == modifiers.alt
                && self.shift == modifiers.shift && self.logo == modifiers.logo),
    {
        self.key == keysym && self.ctrl == modifiers.ctrl && self.alt == modifiers.alt
            && self.shift == modifiers.shift && self.logo == modifiers.logo
    }
}

/// The keysym a (trimmed, lower-cased) key name stands for.
pub open spec fn keysym_named(lower: Seq<char>) -> Option<u32> {
    if lower == "escape"@ || lower == "esc"@ {
        Some(KEY_ESCAPE)
    } else if lower == "return"@ || lower == "enter"@ {
        Some(KEY_RETURN)
    } else if lower == "space"@ {
        Some(KEY_SPACE)
    } else if lower == "tab"@ {
        Some(KEY_TAB)
    } else if lower == "left"@ {
        Some(KEY_LEFT)
    } else if lower == "right"@ {
        Some(KEY_RIGHT)
    } else if lower == "up"@ {
        Some(KEY_UP)
    } else if lower == "down"@ {
        Some(KEY_DOWN)
    } else if lower == "c"@ {
        Some(KEY_C)
    } else if lower == "p"@ {
        Some(KEY_P)
    } else {
        None
    }
}

/// A key name, compared without surrounding whitespace and case.
pub open spec fn parse_keysym_spec(raw: Seq<char>) -> Result<u32, ConfigErrorView> {
    match keysym_named(ascii_lower_spec(trim_spec(raw))) {
        Some(k) => Ok(k),
        None => Err(ConfigErrorView::UnsupportedKeysym(raw)),
    }
}

/// What a binding string has set so far.
pub struct BindingDraft {
    pub ctrl: bool,
    pub alt: bool,
    pub shift: bool,
    pub logo: bool,
    pub key: Option<u32>,
}

/// One `+`-separated piece of a binding: a modifier word (any case, surrounding whitespace
/// ignored) sets its flag, anything else is a key name and replaces the key seen so far.
pub open spec fn apply_token(d: BindingDraft, part: Seq<char>) -> Result<BindingDraft, ConfigErrorView> {
    let token = trim_spec(part);
    let lower = ascii_lower_spec(token);
    if lower == "ctrl"@ || lower == "control"@ {
        Ok(BindingDraft { ctrl: true, ..d })
    } else if lower == "alt"@ {
        Ok(BindingDraft { alt: true, ..d })
    } else if lower == "shift"@ {
        Ok(BindingDraft { shift: true, ..d })
    } else if lower == "super"@ || lower == "logo"@ || lower == "meta"@ {
        Ok(BindingDraft { logo: true, ..d })
    } else {
        match parse_keysym_spec(token) {
            Ok(k) => Ok(BindingDraft { key: Some(k), ..d }),
            Err(e) => Err(e),
        }
    }
}

/// The pieces applied from left to right; the first refused piece decides the error.
pub open spec fn apply_tokens(parts: Seq<Seq<char>>) -> Result<BindingDraft, ConfigErrorView>
    decreases parts.len(),
{
    if parts.len() == 0 {
        Ok(BindingDraft { ctrl: false, alt: false, shift: false, logo: false, key: None })
    } else {
        match apply_tokens(parts.drop_last()) {
            Ok(d) => apply_token(d, parts.last()),
            Err(e) => Err(e),
        }
    }
}

/// A binding such as `Ctrl+Shift+Left`: modifiers and one key, joined by `+`.
pub open spec fn parse_binding_spec(raw: Seq<char>) -> Result<KeyBinding, ConfigErrorView> {
    match apply_tokens(split_plus_spec(raw)) {
        Ok(d) => match d.key {
            Some(k) => Ok(KeyBinding { ctrl: d.ctrl, alt: d.alt, shift: d.shift, logo: d.logo, key: k }),
            None => Err(ConfigErrorView::MissingKey),
        },
        Err(e) => Err(e),
    }
}

/// Once a prefix of the pieces is refused, the whole binding is refused with that error.
proof fn lemma_tokens_error_sticks(parts: Seq<Seq<char>>, i: int)
    requires
        0 <= i <= parts.len(),
        apply_tokens(parts.subrange(0, i)) is Err,
    ensures
        apply_tokens(parts) == apply_tokens(parts.subrange(0, i)),
    decreases parts.len() - i,
{
    if i == parts.len() {
        assert(parts.subrange(0, i) =~= parts);
    } else {
        assert(parts.subrange(0, i + 1).drop_last() =~= parts.subrange(0, i));
        lemma_tokens_error_sticks(parts, i + 1);
    }
}

fn parse_keysym(raw: &[char]) -> (r: Result<u32, ConfigError>)
    ensures
        match (r, parse_keysym_spec(raw@)) {
            (Ok(k), Ok(s)) => k == s,
            (Err(e), Err(s)) => e@ == s,
            _ => false,
        },
{
    let trimmed = trim(raw);
    let lower = to_ascii_lowercase(trimmed.as_slice());
    let l = lower.as_slice();
    if chars_eq_str(l, "escape") || chars_eq_str(l, "esc") {
        Ok(KEY_ESCAPE)
    } else if chars_eq_str(l, "return") || chars_eq_str(l, "enter") {
        Ok(KEY_RETURN)
    } else if chars_eq_str(l, "space") {
        Ok(KEY_SPACE)
    } else if chars_eq_str(l, "tab") {
        Ok(KEY_TAB)
    } else if chars_eq_str(l, "left") {
        Ok(KEY_LEFT)
    } else if chars_eq_str(l, "right") {
        Ok(KEY_RIGHT)
    } else if chars_eq_str(l, "up") {
        Ok(KEY_UP)
    } else if chars_eq_str(l, "down") {
        Ok(KEY_DOWN)
    } else if chars_eq_str(l, "c") {
        Ok(KEY_C)
    } else if chars_eq_str(l, "p") {
        Ok(KEY_P)
    } else {
        Err(ConfigError::UnsupportedKeysym(string_of(raw)))
    }
}

/// Parses a binding such as `Ctrl+Shift+Left`.
pub fn parse_binding(raw: &str) -> (r: Result<KeyBinding, ConfigError>)
    ensures
        match (r, parse_binding_spec(raw@)) {
            (Ok(b), Ok(s)) => b == s,
            (Err(e), Err(s)) => e@ == s,
            _ => false,
        },
{
    let chars = chars_of(raw);
    let parts = split_plus(chars.as_slice());
    let ghost spec_parts = split_plus_spec(raw@);
    let mut ctrl = false;
    let mut alt = false;
    let mut shift = false;
    let mut logo = false;
    let mut key: Option<u32> = None;
    let mut i: usize = 0;
    proof {
        assert(spec_parts.subrange(0, 0) =~= Seq::<Seq<char>>::empty());
    }
    while i < parts.len()
        invariant
            i <= parts@.len(),
            parts@.len() == spec_parts.len(),
            spec_parts == split_plus_spec(raw@),
            forall|k: int| 0 <= k < parts@.len() ==> #[trigger] parts@[k]@ == spec_parts[k],
            apply_tokens(spec_parts.subrange(0, i as int)) == Ok::<BindingDraft, ConfigErrorView>(
                BindingDraft { ctrl, alt, shift, logo, key },
            ),
        decreases parts@.len() - i,
    {
        proof {
            assert(spec_parts.subrange(0, i + 1).drop_last() =~= spec_parts.subrange(0, i as int));
            assert(spec_parts.subrange(0, i + 1).last() == parts@[i as int]@);
        }
        let token = trim(parts[i].as_slice());
        let lower = to_ascii_lowercase(token.as_slice());
        let l = lower.as_slice();
        if chars_eq_str(l, "ctrl") || chars_eq_str(l, "control") {
            ctrl = true;
        } else if chars_eq_str(l, "alt") {
            alt = true;
        } else if chars_eq_str(l, "shift") {
            shift = true;
        } else if chars_eq_str(l, "super") || chars_eq_str(l, "logo") || chars_eq_str(l, "meta") {
            logo = true;
        } else {
            match parse_keysym(token.as_slice()) {
                Ok(k) => {
                    key = Some(k);
                },
                Err(e) => {
                    proof {
                        lemma_tokens_error_sticks(spec_parts, i + 1);
                    }
                    return Err(e);
                },
            }
        }
        i = i + 1;
    }
    proof {
        assert(spec_parts.subrange(0, parts@.len() as int) =~= spec_parts);
    }
    match key {
        Some(key) => Ok(KeyBinding { ctrl, alt, shift, logo, key }),
        None => Err(ConfigError::MissingKey),
    }
}

/// The characters of each string.
pub open spec fn strings_view(v: Seq<String>) -> Seq<Seq<char>> {
    v.map_values(|s: String| s@)
}

pub open spec fn opt_strings_view(v: Option<Vec<String>>) -> Option<Seq<Seq<char>>> {
    match v {
        Some(v) => Some(strings_view(v@)),
        None => None,
    }
}

/// Every binding of a list parsed, left to right; the first refused one decides the error.
pub open spec fn parse_all_spec(raws: Seq<Seq<char>>) -> Result<Seq<KeyBinding>, ConfigErrorView>
    decreases raws.len(),
{
    if raws.len() == 0 {
        Ok(Seq::empty())
    } else {
        match parse_all_spec(raws.drop_last()) {
            Ok(bs) => match parse_binding_spec(raws.last()) {
                Ok(b) => Ok(bs.push(b)),
                Err(e) => Err(e),
            },
            Err(e) => Err(e),
        }
    }
}

/// An action's bindings: the defaults when the file does not list any, else the listed ones.
pub open spec fn parse_bindings_spec(raw: Option<Seq<Seq<char>>>, default: Seq<KeyBinding>) -> Result<Seq<KeyBinding>, ConfigErrorView> {
    match raw {
        None => Ok(default),
        Some(raws) => parse_all_spec(raws),
    }
}

proof fn lemma_parse_all_error_sticks(raws: Seq<Seq<char>>, i: int)
    requires
        0 <= i <= raws.len(),
        parse_all_spec(raws.subrange(0, i)) is Err,
    ensures
        parse_all_spec(raws) == parse_all_spec(raws.subrange(0, i)),
    decreases raws.len() - i,
{
    if i == raws.len() {
        assert(raws.subrange(0, i) =~= raws);
    } else {
        assert(raws.subrange(0, i + 1).drop_last() =~= raws.subrange(0, i));
        lemma_parse_all_error_sticks(raws, i + 1);
    }
}

fn copy_bindings(v: &Vec<KeyBinding>) -> (r: Vec<KeyBinding>)
    ensures
        r@ == v@,
{
    let mut r: Vec<KeyBinding> = Vec::new();
    let mut i: usize = 0;
    while i < v.len()
        invariant
            i <= v@.len(),
            r@ == v@.subrange(0, i as int),
        decreases v@.len() - i,
    {
        r.push(v[i]);
        proof {
            assert(r@ =~= v@.subrange(0, i + 1));
        }
        i = i + 1;
    }
    proof {
        assert(v@.subrange(0, v@.len() as int) =~= v@);
    }
    r
}

fn parse_bindings(raw: &Option<Vec<String>>, default: &Vec<KeyBinding>) -> (r: Result<Vec<KeyBinding>, ConfigError>)
    ensures
        match (r, parse_bindings_spec(opt_strings_view(*raw), default@)) {
            (Ok(b), Ok(s)) => b@ == s,
            (Err(e), Err(s)) => e@ == s,
            _ => false,
        },
{
    let raws = match raw {
        None => {
            return Ok(copy_bindings(default));
        },
        Some(raws) => raws,
    };
    let ghost spec_raws = strings_view(raws@);
    assert(opt_strings_view(*raw) == Some(spec_raws));
    let mut out: Vec<KeyBinding> = Vec::new();
    let mut i: usize = 0;
    proof {
        assert(spec_raws.subrange(0, 0) =~= Seq::<Seq<char>>::empty());
    }
    while i < raws.len()
        invariant
            i <= raws@.len(),
            spec_raws == strings_view(raws@),
            opt_strings_view(*raw) == Some(spec_raws),
            parse_all_spec(spec_raws.subrange(0, i as int)) == Ok::<Seq<KeyBinding>, ConfigErrorView>(out@),
        decreases raws@.len() - i,
    {
        proof {
            assert(spec_raws.subrange(0, i + 1).drop_last() =~= spec_raws.subrange(0, i as int));
            assert(spec_raws.subrange(0, i + 1).last() == raws@[i as int]@);
        }
        match parse_binding(raws[i].as_str()) {
            Ok(b) => {
                out.push(b);
            },
            Err(e) => {
                proof {
                    let pre = spec_raws.subrange(0, i + 1);
                    assert(pre.drop_last() =~= spec_raws.subrange(0, i as int));
                    assert(parse_all_spec(pre) == Err::<Seq<KeyBinding>, ConfigErrorView>(e@));
                    lemma_parse_all_error_sticks(spec_raws, i + 1);
                }
                return Err(e);
            },
        }
        i = i + 1;
    }
    proof {
        assert(spec_raws.subrange(0, raws@.len() as int) =~= spec_raws);
    }
    Ok(out)
}

/// A key without modifiers.
pub open spec fn plain(key: u32) -> KeyBinding {
    KeyBinding { ctrl: false, alt: false, shift: false, logo: false, key }
}

pub open spec fn with_shift(key: u32) -> KeyBinding {
    KeyBinding { shift: true, ..plain(key) }
}

pub open spec fn with_ctrl(key: u32) -> KeyBinding {
    KeyBinding { ctrl: true, ..plain(key) }
}

impl Keymap {
    /// The bindings of the actions, in the order the configuration file lists them:
    /// confirm, copy only, cancel, toggle pointer, move left/right/up/down,
    /// resize left/right/up/down, next output, previous output.
    pub open spec fn fields(&self) -> Seq<Seq<KeyBinding>> {
        seq![
            self.confirm@,
            self.copy_only@,
            self.cancel@,
            self.toggle_pointer@,
            self.move_left@,
            self.move_right@,
            self.move_up@,
            self.move_down@,
            self.resize_left@,
            self.resize_right@,
            self.resize_up@,
            self.resize_down@,
            self.next_output@,
            self.previous_output@,
        ]
    }

    /// The built-in bindings: Return/space confirm, Ctrl+C copies only, Escape cancels,
    /// p toggles the pointer, the arrows move, Shift+arrows resize, Tab and Shift+Tab cycle
    /// outputs.
    pub open spec fn default_fields() -> Seq<Seq<KeyBinding>> {
        seq![
            seq![plain(KEY_RETURN), plain(KEY_SPACE)],
            seq![with_ctrl(KEY_C)],
            seq![plain(KEY_ESCAPE)],
            seq![plain(KEY_P)],
            seq![plain(KEY_LEFT)],
            seq![plain(KEY_RIGHT)],
            seq![plain(KEY_UP)],
            seq![plain(KEY_DOWN)],
            seq![with_shift(KEY_LEFT)],
            seq![with_shift(KEY_RIGHT)],
            seq![with_shift(KEY_UP)],
            seq![with_shift(KEY_DOWN)],
            seq![plain(KEY_TAB)],
            seq![with_shift(KEY_TAB)],
        ]
    }
}

fn bind(keysym: u32, ctrl: bool, shift: bool) -> (b: KeyBinding)
    ensures
        b == (KeyBinding { ctrl, alt: false, shift, logo: false, key: keysym }),
{
    KeyBinding { ctrl, alt: false, shift, logo: false, key: keysym }
}

impl Default for Keymap {
    fn default() -> (k: Self)
        ensures
            k.fields() == Keymap::default_fields(),
    {
        let k = Keymap {
            confirm: vec![bind(KEY_RETURN, false, false), bind(KEY_SPACE, false, false)],
            copy_only: vec![bind(KEY_C, true, false)],
            cancel: vec![bind(KEY_ESCAPE, false, false)],
            toggle_pointer: vec![bind(KEY_P, false, false)],
            move_left: vec![bind(KEY_LEFT, false, false)],
            move_right: vec![bind(KEY_RIGHT, false, false)],
            move_up: vec![bind(KEY_UP, false, false)],
            move_down: vec![bind(KEY_DOWN, false, false)],
            resize_left: vec![bind(KEY_LEFT, false, true)],
            resize_right: vec![bind(KEY_RIGHT, false, true)],
            resize_up: vec![bind(KEY_UP, false, true)],
            resize_down: vec![bind(KEY_DOWN, false, true)],
            next_output: vec![bind(KEY_TAB, false, false)],
            previous_output: vec![bind(KEY_TAB, false, true)],
        };
        assert(k.confirm@ =~= seq![plain(KEY_RETURN), plain(KEY_SPACE)]);
        assert(k.copy_only@ =~= seq![with_ctrl(KEY_C)]);
        assert(k.cancel@ =~= seq![plain(KEY_ESCAPE)]);
        assert(k.toggle_pointer@ =~= seq![plain(KEY_P)]);
        assert(k.move_left@ =~= seq![plain(KEY_LEFT)]);
        assert(k.move_right@ =~= seq![plain(KEY_RIGHT)]);
        assert(k.move_up@ =~= seq![plain(KEY_UP)]);
        assert(k.move_down@ =~= seq![plain(KEY_DOWN)]);
        assert(k.resize_left@ =~= seq![with_shift(KEY_LEFT)]);
        assert(k.resize_right@ =~= seq![with_shift(KEY_RIGHT)]);
        assert(k.resize_up@ =~= seq![with_shift(KEY_UP)]);
        assert(k.resize_down@ =~= seq![with_shift(KEY_DOWN)]);
        assert(k.next_output@ =~= seq![plain(KEY_TAB)]);
        assert(k.previous_output@ =~= seq![with_shift(KEY_TAB)]);
        assert(k.fields() =~= Keymap::default_fields());
        k
    }
}

impl FileKeymap {
    /// The binding lists of the actions, in the order of [`Keymap::fields`].
    pub open spec fn fields(&self) -> Seq<Option<Seq<Seq<char>>>> {
        seq![
            opt_strings_view(self.confirm),
            opt_strings_view(self.copy_only),
            opt_strings_view(self.cancel),
            opt_strings_view(self.toggle_pointer),
            opt_strings_view(self.move_left),
            opt_strings_view(self.move_right),
            opt_strings_view(self.move_up),
            opt_strings_view(self.move_down),
            opt_strings_view(self.resize_left),
            opt_strings_view(self.resize_right),
            opt_strings_view(self.resize_up),
            opt_strings_view(self.resize_down),
            opt_strings_view(self.next_output),
            opt_strings_view(self.previous_output),
        ]
    }

    /// A `[keymap]` section that lists nothing.
    pub fn empty() -> (k: Self)
        ensures
            k.fields() == Seq::new(14, |i: int| None::<Seq<Seq<char>>>),
    {
        let k = FileKeymap {
            confirm: None,
            copy_only: None,
            cancel: None,
            toggle_pointer: None,
            move_left: None,
            move_right: None,
            move_up: None,
            move_down: None,
            resize_left: None,
            resize_right: None,
            resize_up: None,
            resize_down: None,
            next_output: None,
            previous_output: None,
        };
        assert(k.fields() =~= Seq::new(14, |i: int| None::<Seq<Seq<char>>>));
        k
    }
}

/// The first `n` actions' bindings, parsed in order; the first refused action decides
/// the error.
pub open spec fn parse_fields_spec(raws: Seq<Option<Seq<Seq<char>>>>, defaults: Seq<Seq<KeyBinding>>, n: nat) -> Result<Seq<Seq<KeyBinding>>, ConfigErrorView>
    decreases n,
{
    if n == 0 {
        Ok(Seq::empty())
    } else {
        match parse_fields_spec(raws, defaults, (n - 1) as nat) {
            Ok(done) => match parse_bindings_spec(raws[n - 1], defaults[n - 1]) {
                Ok(b) => Ok(done.push(b)),
                Err(e) => Err(e),
            },
            Err(e) => Err(e),
        }
    }
}

proof fn lemma_fields_error_sticks(raws: Seq<Option<Seq<Seq<char>>>>, defaults: Seq<Seq<KeyBinding>>, n: nat, m: nat)
    requires
        n <= m,
        parse_fields_spec(raws, defaults, n) is Err,
    ensures
        parse_fields_spec(raws, defaults, m) == parse_fields_spec(raws, defaults, n),
    decreases m - n,
{
    if n < m {
        lemma_fields_error_sticks(raws, defaults, n, (m - 1) as nat);
    }
}

pub open spec fn file_keymap_fields(k: Option<FileKeymap>) -> Seq<Option<Seq<Seq<char>>>> {
    match k {
        Some(k) => k.fields(),
        None => Seq::new(14, |i: int| None::<Seq<Seq<char>>>),
    }
}

pub open spec fn opt_string_view(s: Option<String>) -> Option<Seq<char>> {
    match s {
        Some(s) => Some(s@),
        None => None,
    }
}

/// The theme a configuration file selects.
pub open spec fn file_theme_result(file: FileConfig) -> Result<Theme, ThemeErrorView> {
    match file.theme {
        Some(t) => resolve_theme_spec(opt_string_view(t.name), opt_string_view(t.flavor)),
        None => resolve_theme_spec(None, None),
    }
}

/// The bindings a configuration file selects, per action.
pub open spec fn file_keymap_result(file: FileConfig) -> Result<Seq<Seq<KeyBinding>>, ConfigErrorView> {
    parse_fields_spec(file_keymap_fields(file.keymap), Keymap::default_fields(), 14)
}

/// `base` extended by the relative path `part`, with one `/` between them, as
/// `Path::join` does on Unix.
pub open spec fn path_join_spec(base: Seq<char>, part: Seq<char>) -> Seq<char> {
    if base.len() == 0 || base.last() == '/' {
        base + part
    } else {
        base + seq!['/'] + part
    }
}

/// The default screenshot pattern below a pictures directory.
pub open spec fn screenshot_pattern_under(pictures: Seq<char>) -> Seq<char> {
    path_join_spec(
        path_join_spec(pictures, "Screenshots"@),
        "Screenshot from %Y-%m-%d %H-%M-%S.png"@,
    )
}

/// The default screenshot pattern given the user's pictures directory, if one is known.
pub open spec fn default_pattern_for(picture_dir: Option<Seq<char>>) -> Seq<char> {
    screenshot_pattern_under(
        match picture_dir {
            Some(d) => d,
            None => "~/Pictures"@,
        },
    )
}

fn path_join(base: &str, part: &str) -> (r: String)
    ensures
        r@ == path_join_spec(base@, part@),
{
    let n = base.unicode_len();
    if n == 0 || base.get_char(n - 1) == '/' {
        concat_str(base, part)
    } else {
        let mut r = concat_str(base, "/");
        r.append(part);
        proof {
            reveal_strlit("/");
        }
        r
    }
}

/// The default screenshot pattern: `Screenshots/Screenshot from %Y-%m-%d %H-%M-%S.png`
/// below the user's pictures directory `picture_dir`, or below `~/Pictures` when the
/// pictures directory is unknown.
pub fn default_screenshot_pattern(picture_dir: Option<String>) -> (r: String)
    ensures
        r@ == default_pattern_for(opt_string_view(picture_dir)),
{
    let base = match picture_dir {
        Some(d) => d,
        None => String::from_str("~/Pictures"),
    };
    let dir = path_join(base.as_str(), "Screenshots");
    path_join(dir.as_str(), "Screenshot from %Y-%m-%d %H-%M-%S.png")
}

/// The name is made of lower-case ASCII letters only.
pub open spec fn lower_ascii_word(name: Seq<char>) -> bool {
    name.len() > 0 && forall|i: int| 0 <= i < name.len() ==> 'a' <= #[trigger] name[i] <= 'z'
}

/// The bytes of an ASCII text, one per character.
pub open spec fn ascii_bytes(s: Seq<char>) -> Seq<u8> {
    s.map_values(|c: char| (c as u32) as u8)
}

/// Every character of the text is ASCII.
pub open spec fn is_ascii_text(s: Seq<char>) -> bool {
    forall|i: int| 0 <= i < s.len() ==> (#[trigger] s[i] as u32) < 128
}

/// The bytes of the path `base` extended by the relative path `part`, with one `/`
/// between them, as `PathBuf::push` does on Unix.
pub open spec fn path_join_bytes(base: Seq<u8>, part: Seq<u8>) -> Seq<u8> {
    if base.len() == 0 || base.last() == 47u8 {
        base + part
    } else {
        base + seq![47u8] + part
    }
}

/// The configuration directory of an application, from the `directories` crate:
/// `ProjectDirs::from(qualifier, organization, application)` and
/// `ProjectDirs::config_dir()`, as the path's bytes (`OsStr::as_encoded_bytes`, which on
/// Unix are the path's own bytes). `None` when no home directory is found. This states
/// what the crate's Linux implementation does, the platform this program targets: the
/// directory is `$XDG_CONFIG_HOME` (or `$HOME/.config`) joined with the application
/// name lower-cased with its whitespace removed, which for a name of lower-case ASCII
/// letters is the name itself. Which base directory it is depends on the environment and
/// is not stated.
#[verifier::external_body]
fn project_config_dir(qualifier: &str, organization: &str, application: &str) -> (r: Option<Vec<u8>>)
    requires
        lower_ascii_word(application@),
    ensures
        r matches Some(d) ==> exists|base: Seq<u8>|
            #[trigger] path_join_bytes(base, ascii_bytes(application@)) == d@,
{
    match directories::ProjectDirs::from(qualifier, organization, application) {
        Some(dirs) => Some(dirs.config_dir().as_os_str().as_encoded_bytes().to_vec()),
        None => None,
    }
}

/// Appends the bytes of the ASCII text `s`.
fn push_ascii(v: &mut Vec<u8>, s: &str)
    requires
        is_ascii_text(s@),
    ensures
        final(v)@ == old(v)@ + ascii_bytes(s@),
{
    let chars = chars_of(s);
    let ghost start = v@;
    let mut i: usize = 0;
    while i < chars.len()
        invariant
            i <= chars@.len(),
            chars@ == s@,
            is_ascii_text(s@),
            v@ == start + ascii_bytes(s@.subrange(0, i as int)),
        decreases chars@.len() - i,
    {
        let c = chars[i];
        assert((s@[i as int] as u32) < 128);
        let b = (c as u32) as u8;
        v.push(b);
        proof {
            assert(ascii_bytes(s@.subrange(0, i + 1)) =~= ascii_bytes(s@.subrange(0, i as int)).push(b));
        }
        i = i + 1;
    }
    proof {
        assert(s@.subrange(0, s@.len() as int) =~= s@);
    }
}

/// `config.toml` in `config_dir` (the bytes of a path); an error when there is no
/// configuration directory.
pub fn config_path_in(config_dir: Option<Vec<u8>>) -> (r: Result<Vec<u8>, ConfigError>)
    ensures
        match config_dir {
            Some(d) => r matches Ok(p) && p@ == path_join_bytes(d@, ascii_bytes("config.toml"@)),
            None => r matches Err(e) && e@ == ConfigErrorView::NoProjectDirs,
        },
{
    proof {
        reveal_strlit("config.toml");
    }
    match config_dir {
        Some(d) => {
            let mut p = d;
            let n = p.len();
            if n > 0 && p[n - 1] != 47u8 {
                p.push(47u8);
            }
            push_ascii(&mut p, "config.toml");
            Ok(p)
        },
        None => Err(ConfigError::NoProjectDirs),
    }
}

/// The configuration file, as the bytes of its path: `config.toml` in the `snappers`
/// directory below the XDG configuration directory (`~/.config/snappers/config.toml` by
/// default).
pub fn config_path() -> (r: Result<Vec<u8>, ConfigError>)
    ensures
        match r {
            Ok(p) => exists|base: Seq<u8>|
                #[trigger] path_join_bytes(
                    path_join_bytes(base, ascii_bytes("snappers"@)),
                    ascii_bytes("config.toml"@),
                ) == p@,
            Err(e) => e@ == ConfigErrorView::NoProjectDirs,
        },
{
    proof {
        reveal_strlit("snappers");
    }
    let dir = project_config_dir("io", "github", "snappers");
    let ghost dir_view: Option<Seq<u8>> = match &dir {
        Some(d) => Some(d@),
        None => None,
    };
    let r = config_path_in(dir);
    proof {
        if let Some(d) = dir_view {
            let base = choose|base: Seq<u8>| #[trigger] path_join_bytes(base, ascii_bytes("snappers"@)) == d;
            assert(path_join_bytes(path_join_bytes(base, ascii_bytes("snappers"@)), ascii_bytes("config.toml"@)) == r->Ok_0@);
        }
    }
    r
}

/// `~/` at the start of `path` replaced by the home directory (`~` when it is unknown).
pub open spec fn expand_tilde_spec(path: Seq<char>, home: Option<Seq<char>>) -> Seq<char> {
    if path.len() >= 2 && path[0] == '~' && path[1] == '/' {
        let h = match home {
            Some(h) => h,
            None => "~"@,
        };
        h + seq!['/'] + path.subrange(2, path.len() as int)
    } else {
        path
    }
}

/// Replaces a leading `~/` by `home` (the value of `HOME`, `~` when unset).
pub fn expand_tilde(path: &str, home: Option<&str>) -> (r: String)
    ensures
        r@ == expand_tilde_spec(path@, opt_str_view(home)),
{
    let chars = chars_of(path);
    if chars.len() >= 2 && chars[0] == '~' && chars[1] == '/' {
        let h = match home {
            Some(h) => h,
            None => "~",
        };
        let mut r = concat_str(h, "/");
        let mut i: usize = 2;
        proof {
            reveal_strlit("/");
            assert(r@ =~= h@ + seq!['/'] + path@.subrange(2, 2));
        }
        while i < chars.len()
            invariant
                2 <= i <= chars@.len(),
                chars@ == path@,
                r@ == h@ + seq!['/'] + path@.subrange(2, i as int),
            decreases chars@.len() - i,
        {
            r.push(chars[i]);
            proof {
                assert(r@ =~= h@ + seq!['/'] + path@.subrange(2, i + 1));
            }
            i = i + 1;
        }
        r
    } else {
        String::from_str(path)
    }
}

/// Whether `chrono` formats a local date-time with the `strftime` pattern without error:
/// the pattern holds no specifier that `chrono` does not know. A local date-time has its
/// date, time and offset, so this depends on the pattern alone.
pub uninterp spec fn chrono_formats(pattern: Seq<char>) -> bool;

/// The current local time formatted by `chrono` with `pattern`
/// (`chrono::Local::now().format(pattern)`), or `None` when `chrono` reports a
/// formatting error for the pattern, which it does exactly when the pattern is one it
/// cannot format. A pattern without `%` holds no specifier: `chrono` splits it into
/// literal and space items and writes them back unchanged. Otherwise the text depends on
/// the clock and the time zone, so nothing more is stated of it.
#[verifier::external_body]
fn format_local_now(pattern: &str) -> (r: Option<String>)
    ensures
        r is Some <==> chrono_formats(pattern@),
        !pattern@.contains('%') ==> opt_string_view(r) == Some(pattern@),
{
    let mut out = String::new();
    match write!(out, "{}", chrono::Local::now().format(pattern)) {
        Ok(()) => Some(out),
        Err(_) => None,
    }
}

/// The bytes of a path, if any.
pub open spec fn opt_bytes_view(p: Option<Vec<u8>>) -> Option<Seq<u8>> {
    match p {
        Some(p) => Some(p@),
        None => None,
    }
}

/// The output path once the pattern `expanded` has been formatted: the UTF-8 bytes of the
/// formatted text, or an error naming the pattern when formatting failed.
pub fn output_path_from(expanded: String, formatted: Option<String>) -> (r: Result<Option<Vec<u8>>, ConfigError>)
    ensures
        match formatted {
            Some(f) => r matches Ok(p) && opt_bytes_view(p) == Some(encode_utf8(f@)),
            None => r matches Err(e) && e@ == ConfigErrorView::InvalidPathPattern(expanded@),
        },
{
    match formatted {
        Some(f) => Ok(Some(f.as_str().as_bytes_vec())),
        None => Err(ConfigError::InvalidPathPattern(expanded)),
    }
}

impl AppConfig {
    /// Where a capture is saved, as the bytes of the path: the override when given; nothing
    /// when saving is disabled; else the screenshot pattern, `~` expanded, formatted with
    /// the current local time.
    pub fn resolve_output_path(&self, override_path: Option<&[u8]>, home: Option<&str>) -> (r: Result<Option<Vec<u8>>, ConfigError>)
        ensures
            match override_path {
                Some(o) => r matches Ok(p) && opt_bytes_view(p) == Some(o@),
                None => match self.screenshot_path {
                    None => r matches Ok(p) && p is None,
                    Some(pattern) => match r {
                        Ok(p) => {
                            let expanded = expand_tilde_spec(pattern@, opt_str_view(home));
                            &&& p is Some
                            &&& chrono_formats(expanded)
                            &&& !expanded.contains('%') ==> opt_bytes_view(p) == Some(encode_utf8(expanded))
                        },
                        Err(e) => e@ == ConfigErrorView::InvalidPathPattern(
                            expand_tilde_spec(pattern@, opt_str_view(home)),
                        ) && !chrono_formats(expand_tilde_spec(pattern@, opt_str_view(home))),
                    },
                },
            },
    {
        if let Some(path) = override_path {
            return Ok(Some(vstd::slice::slice_to_vec(path)));
        }
        let pattern = match &self.screenshot_path {
            Some(p) => p,
            None => {
                return Ok(None);
            },
        };
        let expanded = expand_tilde(pattern.as_str(), home);
        let formatted = format_local_now(expanded.as_str());
        output_path_from(expanded, formatted)
    }
}

fn opt_as_str(s: &Option<String>) -> (r: Option<&str>)
    ensures
        opt_str_view(r) == opt_string_view(*s),
{
    match s {
        Some(s) => Some(s.as_str()),
        None => None,
    }
}


pub open spec fn bindings_views(v: Seq<Vec<KeyBinding>>) -> Seq<Seq<KeyBinding>> {
    v.map_values(|b: Vec<KeyBinding>| b@)
}

impl FileKeymap {
    fn into_fields(self) -> (r: Vec<Option<Vec<String>>>)
        ensures
            r@.len() == 14,
            r@.map_values(|o: Option<Vec<String>>| opt_strings_view(o)) == self.fields(),
    {
        let ghost fields = self.fields();
        let r = vec![self.confirm, self.copy_only, self.cancel, self.toggle_pointer, self.move_left, self.move_right, self.move_up, self.move_down, self.resize_left, self.resize_right, self.resize_up, self.resize_down, self.next_output, self.previous_output];
        assert(r@.map_values(|o: Option<Vec<String>>| opt_strings_view(o)) =~= fields);
        r
    }
}

impl Keymap {
    fn into_fields(self) -> (r: Vec<Vec<KeyBinding>>)
        ensures
            r@.len() == 14,
            bindings_views(r@) == self.fields(),
    {
        let ghost fields = self.fields();
        let r = vec![self.confirm, self.copy_only, self.cancel, self.toggle_pointer, self.move_left, self.move_right, self.move_up, self.move_down, self.resize_left, self.resize_right, self.resize_up, self.resize_down, self.next_output, self.previous_output];
        assert(bindings_views(r@) =~= fields);
        r
    }

    fn from_fields(v: Vec<Vec<KeyBinding>>) -> (k: Keymap)
        requires
            v@.len() == 14,
        ensures
            k.fields() == bindings_views(v@),
    {
        let ghost all = v@;
        let mut v = v;
        let previous_output = match v.pop() {
            Some(b) => b,
            None => Vec::new(),
        };
        let next_output = match v.pop() {
            Some(b) => b,
            None => Vec::new(),
        };
        let resize_down = match v.pop() {
            Some(b) => b,
            None => Vec::new(),
        };
        let resize_up = match v.pop() {
            Some(b) => b,
            None => Vec::new(),
        };
        let resize_right = match v.pop() {
            Some(b) => b,
            None => Vec::new(),
        };
        let resize_left = match v.pop() {
            Some(b) => b,
            None => Vec::new(),
        };
        let move_down = match v.pop() {
            Some(b) => b,
            None => Vec::new(),
        };
        let move_up = match v.pop() {
            Some(b) => b,
            None => Vec::new(),
        };
        let move_right = match v.pop() {
            Some(b) => b,
            None => Vec::new(),
        };
        let move_left = match v.pop() {
            Some(b) => b,
            None => Vec::new(),
        };
        let toggle_pointer = match v.pop() {
            Some(b) => b,
            None => Vec::new(),
        };
        let cancel = match v.pop() {
            Some(b) => b,
            None => Vec::new(),
        };
        let copy_only = match v.pop() {
            Some(b) => b,
            None => Vec::new(),
        };
        let confirm = match v.pop() {
            Some(b) => b,
            None => Vec::new(),
        };
        let k = Keymap {
            confirm,
            copy_only,
            cancel,
            toggle_pointer,
            move_left,
            move_right,
            move_up,
            move_down,
            resize_left,
            resize_right,
            resize_up,
            resize_down,
            next_output,
            previous_output,
        };
        assert(k.fields() =~= bindings_views(all));
        k
    }
}

proof fn lemma_fields_step(raws: Seq<Option<Seq<Seq<char>>>>, defaults: Seq<Seq<KeyBinding>>, n: nat, done: Seq<Seq<KeyBinding>>)
    requires
        parse_fields_spec(raws, defaults, n) == Ok::<Seq<Seq<KeyBinding>>, ConfigErrorView>(done),
    ensures
        parse_fields_spec(raws, defaults, n + 1) == match parse_bindings_spec(raws[n as int], defaults[n as int]) {
            Ok(b) => Ok(done.push(b)),
            Err(e) => Err(e),
        },
{
}

/// Every action's bindings parsed in order, defaults where the file lists none.
fn parse_keymap(file_keymap: FileKeymap, defaults: Keymap) -> (r: Result<Keymap, ConfigError>)
    ensures
        match (r, parse_fields_spec(file_keymap.fields(), defaults.fields(), 14)) {
            (Ok(k), Ok(s)) => k.fields() == s,
            (Err(e), Err(s)) => e@ == s,
            _ => false,
        },
{
    let ghost raws = file_keymap.fields();
    let ghost defs = defaults.fields();
    let raw_fields = file_keymap.into_fields();
    let default_fields = defaults.into_fields();
    let mut parsed: Vec<Vec<KeyBinding>> = Vec::new();
    let mut i: usize = 0;
    assert(bindings_views(parsed@) =~= Seq::<Seq<KeyBinding>>::empty());
    while i < 14
        invariant
            i <= 14,
            parsed@.len() == i,
            raws == file_keymap.fields(),
            defs == defaults.fields(),
            raw_fields@.len() == 14,
            default_fields@.len() == 14,
            raw_fields@.map_values(|o: Option<Vec<String>>| opt_strings_view(o)) == raws,
            bindings_views(default_fields@) == defs,
            parse_fields_spec(raws, defs, i as nat) == Ok::<Seq<Seq<KeyBinding>>, ConfigErrorView>(
                bindings_views(parsed@),
            ),
        decreases 14 - i,
    {
        proof {
            lemma_fields_step(raws, defs, i as nat, bindings_views(parsed@));
            assert(raws[i as int] == opt_strings_view(raw_fields@[i as int]));
            assert(defs[i as int] == default_fields@[i as int]@);
        }
        match parse_bindings(&raw_fields[i], &default_fields[i]) {
            Ok(b) => {
                let ghost before = bindings_views(parsed@);
                parsed.push(b);
                assert(bindings_views(parsed@) =~= before.push(parsed@.last()@));
            },
            Err(e) => {
                proof {
                    lemma_fields_error_sticks(raws, defs, (i + 1) as nat, 14);
                }
                return Err(e);
            },
        }
        i = i + 1;
    }
    Ok(Keymap::from_fields(parsed))
}

impl AppConfig {
    /// The configuration a file describes: every missing entry takes its default (the
    /// screenshot pattern below `picture_dir`). The theme is checked first, then the
    /// bindings of each action in order.
    pub fn from_file(file: FileConfig, picture_dir: Option<String>) -> (r: Result<AppConfig, ConfigError>)
        ensures
            match r {
                Ok(c) => {
                    &&& file_theme_result(file) == Ok::<Theme, ThemeErrorView>(c.theme)
                    &&& file_keymap_result(file) == Ok::<Seq<Seq<KeyBinding>>, ConfigErrorView>(c.keymap.fields())
                    &&& match file.screenshot_path {
                        Some(p) => c.screenshot_path == p,
                        None => c.screenshot_path matches Some(p) && p@ == default_pattern_for(
                            opt_string_view(picture_dir),
                        ),
                    }
                },
                Err(e) => match file_theme_result(file) {
                    Err(te) => e@ == ConfigErrorView::Theme(te),
                    Ok(_) => file_keymap_result(file) == Err::<Seq<Seq<KeyBinding>>, ConfigErrorView>(e@),
                },
            },
    {
        let ghost file_copy = file;
        let defaults = Keymap::default();
        let FileConfig { screenshot_path, keymap, theme } = file;
        let file_keymap = match keymap {
            Some(k) => k,
            None => FileKeymap::empty(),
        };
        let (name, flavor) = match theme {
            Some(t) => (t.name, t.flavor),
            None => (None, None),
        };
        let theme = match resolve_theme(opt_as_str(&name), opt_as_str(&flavor)) {
            Ok(t) => t,
            Err(e) => {
                return Err(ConfigError::Theme(e));
            },
        };
        let screenshot_path = match screenshot_path {
            Some(p) => p,
            None => Some(default_screenshot_pattern(picture_dir)),
        };
        assert(file_keymap.fields() == file_keymap_fields(file_copy.keymap));
        let keymap = match parse_keymap(file_keymap, defaults) {
            Ok(k) => k,
            Err(e) => {
                return Err(e);
            },
        };
        Ok(AppConfig { screenshot_path, keymap, theme })
    }
}

impl AppConfig {
    /// The configuration without a file: the default screenshot pattern below
    /// `picture_dir`, the built-in bindings and the default theme.
    pub fn default(picture_dir: Option<String>) -> (c: Self)
        ensures
            c.screenshot_path matches Some(p) && p@ == default_pattern_for(opt_string_view(picture_dir)),
            c.keymap.fields() == Keymap::default_fields(),
            c.theme == crate::theme::default_theme_spec(),
    {
        AppConfig {
            screenshot_path: Some(default_screenshot_pattern(picture_dir)),
            keymap: Keymap::default(),
            theme: Theme::default(),
        }
    }
}

proof fn lemma_fields_entries(raws: Seq<Option<Seq<Seq<char>>>>, defaults: Seq<Seq<KeyBinding>>, n: nat)
    requires
        parse_fields_spec(raws, defaults, n) is Ok,
    ensures
        ({
            let done = parse_fields_spec(raws, defaults, n)->Ok_0;
            &&& done.len() == n
            &&& forall|i: int|
                0 <= i < n ==> parse_bindings_spec(raws[i], defaults[i]) == Ok::<
                    Seq<KeyBinding>,
                    ConfigErrorView,
                >(#[trigger] done[i])
        }),
    decreases n,
{
    if n > 0 {
        lemma_fields_entries(raws, defaults, (n - 1) as nat);
    }
}

/// Each action that the configuration file leaves out keeps its built-in bindings; each
/// action that it lists gets exactly the listed bindings, parsed in order.
pub proof fn lemma_file_keymap_entries(file: FileConfig, i: int)
    requires
        0 <= i < 14,
        file_keymap_result(file) is Ok,
    ensures
        ({
            let fields = file_keymap_result(file)->Ok_0;
            &&& fields.len() == 14
            &&& match file_keymap_fields(file.keymap)[i] {
                None => fields[i] == Keymap::default_fields()[i],
                Some(raws) => parse_all_spec(raws) == Ok::<Seq<KeyBinding>, ConfigErrorView>(fields[i]),
            }
        }),
{
    lemma_fields_entries(file_keymap_fields(file.keymap), Keymap::default_fields(), 14);
}

} // verus!
