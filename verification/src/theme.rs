use vstd::prelude::*;

use crate::text::{concat_str, str_eq};

verus! {

/// An overlay color: 8-bit red, green and blue, and the opacity in percent.
#[derive(Debug, Clone, Copy, PartialEq, Eq, Structural)]
pub struct Rgba {
    pub r: u8,
    pub g: u8,
    pub b: u8,
    pub alpha_percent: u8,
}

/// All colors consumed by the overlay UI.
#[derive(Debug, Clone, Copy, PartialEq, Eq, Structural)]
pub struct Theme {
    /// Panel background.
    pub panel_bg: Rgba,
    /// Panel border (1px rounded-rect stroke).
    pub panel_border: Rgba,
    /// Primary body text.
    pub text: Rgba,
    /// Secondary / dimmed text.
    pub text_dim: Rgba,
    /// Keyboard-shortcut badge background.
    pub badge_bg: Rgba,
    /// Keyboard-shortcut badge text.
    pub badge_text: Rgba,
    /// Accent: selection border, capture button, highlights.
    pub accent: Rgba,
    /// Dim mask applied to non-selected screen areas.
    pub dim_mask: Rgba,
}

/// Why a theme name or flavor was refused.
#[derive(Debug, Clone, PartialEq, Eq)]
pub enum ThemeError {
    UnknownTheme(String),
    UnknownFlavor(String),
}

/// The abstract value of a [`ThemeError`].
pub enum ThemeErrorView {
    UnknownTheme(Seq<char>),
    UnknownFlavor(Seq<char>),
}

impl View for ThemeError {
    type V = ThemeErrorView;

    open spec fn view(&self) -> ThemeErrorView {
        match self {
            ThemeError::UnknownTheme(s) => ThemeErrorView::UnknownTheme(s@),
            ThemeError::UnknownFlavor(s) => ThemeErrorView::UnknownFlavor(s@),
        }
    }
}

pub open spec fn rgb_spec(r: u8, g: u8, b: u8) -> Rgba {
    Rgba { r, g, b, alpha_percent: 100 }
}

pub open spec fn rgba_spec(r: u8, g: u8, b: u8, alpha_percent: u8) -> Rgba {
    Rgba { r, g, b, alpha_percent }
}

/// An opaque color.
pub fn rgb(r: u8, g: u8, b: u8) -> (c: Rgba)
    ensures
        c == rgb_spec(r, g, b),
{
    Rgba { r, g, b, alpha_percent: 100 }
}

/// A color with explicit opacity in percent.
pub fn rgba(r: u8, g: u8, b: u8, alpha_percent: u8) -> (c: Rgba)
    ensures
        c == rgba_spec(r, g, b, alpha_percent),
{
    Rgba { r, g, b, alpha_percent }
}

/// Upper-case hexadecimal digit of a value below sixteen.
pub open spec fn hex_digit(v: int) -> char {
    if v < 10 {
        ('0' as int + v) as char
    } else {
        ('A' as int + v - 10) as char
    }
}

/// `#RRGGBB` with upper-case hexadecimal digits.
pub open spec fn hex_rgb_spec(c: Rgba) -> Seq<char> {
    seq![
        '#',
        hex_digit(c.r as int / 16),
        hex_digit(c.r as int % 16),
        hex_digit(c.g as int / 16),
        hex_digit(c.g as int % 16),
        hex_digit(c.b as int / 16),
        hex_digit(c.b as int % 16),
    ]
}

fn hex_char(v: u8) -> (c: char)
    requires
        v < 16,
    ensures
        c == hex_digit(v as int),
{
    if v < 10 {
        (48u8 + v) as char
    } else {
        (55u8 + v) as char
    }
}

impl Rgba {
    /// Format as `#RRGGBB` hex for use in Pango markup attributes.
    pub fn to_hex_rgb(&self) -> (s: String)
        ensures
            s@ == hex_rgb_spec(*self),
    {
        let mut s = String::new();
        s.push('#');
        s.push(hex_char(self.r / 16));
        s.push(hex_char(self.r % 16));
        s.push(hex_char(self.g / 16));
        s.push(hex_char(self.g % 16));
        s.push(hex_char(self.b / 16));
        s.push(hex_char(self.b % 16));
        proof {
            assert(s@ =~= hex_rgb_spec(*self));
        }
        s
    }
}

pub open spec fn default_theme_spec() -> Theme {
    Theme {
        panel_bg: rgb_spec(0x22, 0x22, 0x33),
        panel_border: rgb_spec(0x44, 0x44, 0x55),
        text: rgb_spec(0xE0, 0xE4, 0xF0),
        text_dim: rgb_spec(0x99, 0x9D, 0xAA),
        badge_bg: rgb_spec(0x33, 0x33, 0x44),
        badge_text: rgb_spec(0x7A, 0xA2, 0xF7),
        accent: rgb_spec(0x7A, 0xA2, 0xF7),
        dim_mask: rgba_spec(0, 0, 0, 50),
    }
}

/// Catppuccin Mocha: Mantle, Surface1, Subtext1, Subtext0, Surface0, Lavender, Crust.
pub open spec fn mocha_spec() -> Theme {
    Theme {
        panel_bg: rgb_spec(0x18, 0x18, 0x25),
        panel_border: rgb_spec(0x45, 0x47, 0x5A),
        text: rgb_spec(0xBA, 0xC2, 0xDE),
        text_dim: rgb_spec(0xA6, 0xAD, 0xC8),
        badge_bg: rgb_spec(0x31, 0x32, 0x44),
        badge_text: rgb_spec(0xB4, 0xBE, 0xFE),
        accent: rgb_spec(0xB4, 0xBE, 0xFE),
        dim_mask: rgba_spec(0x11, 0x11, 0x1B, 50),
    }
}

/// Catppuccin Macchiato.
pub open spec fn macchiato_spec() -> Theme {
    Theme {
        panel_bg: rgb_spec(0x1E, 0x20, 0x30),
        panel_border: rgb_spec(0x49, 0x4D, 0x64),
        text: rgb_spec(0xB8, 0xC0, 0xE0),
        text_dim: rgb_spec(0xA5, 0xAD, 0xCB),
        badge_bg: rgb_spec(0x36, 0x3A, 0x4F),
        badge_text: rgb_spec(0xB7, 0xBD, 0xF8),
        accent: rgb_spec(0xB7, 0xBD, 0xF8),
        dim_mask: rgba_spec(0x18, 0x19, 0x26, 50),
    }
}

/// Catppuccin Frappé.
pub open spec fn frappe_spec() -> Theme {
    Theme {
        panel_bg: rgb_spec(0x29, 0x2C, 0x3C),
        panel_border: rgb_spec(0x51, 0x57, 0x6D),
        text: rgb_spec(0xB5, 0xBF, 0xE2),
        text_dim: rgb_spec(0xA5, 0xAD, 0xCE),
        badge_bg: rgb_spec(0x41, 0x45, 0x59),
        badge_text: rgb_spec(0xBA, 0xBB, 0xF1),
        accent: rgb_spec(0xBA, 0xBB, 0xF1),
        dim_mask: rgba_spec(0x23, 0x26, 0x34, 50),
    }
}

/// Catppuccin Latte, with a light wash as dim mask.
pub open spec fn latte_spec() -> Theme {
    Theme {
        panel_bg: rgb_spec(0xE6, 0xE9, 0xEF),
        panel_border: rgb_spec(0xBC, 0xC0, 0xCC),
        text: rgb_spec(0x5C, 0x5F, 0x77),
        text_dim: rgb_spec(0x6C, 0x6F, 0x85),
        badge_bg: rgb_spec(0xCC, 0xD0, 0xDA),
        badge_text: rgb_spec(0x72, 0x87, 0xFD),
        accent: rgb_spec(0x72, 0x87, 0xFD),
        dim_mask: rgba_spec(0xFF, 0xFF, 0xFF, 40),
    }
}

impl Default for Theme {
    fn default() -> (t: Self)
        ensures
            t == default_theme_spec(),
    {
        Theme {
            panel_bg: rgb(0x22, 0x22, 0x33),
            panel_border: rgb(0x44, 0x44, 0x55),
            text: rgb(0xE0, 0xE4, 0xF0),
            text_dim: rgb(0x99, 0x9D, 0xAA),
            badge_bg: rgb(0x33, 0x33, 0x44),
            badge_text: rgb(0x7A, 0xA2, 0xF7),
            accent: rgb(0x7A, 0xA2, 0xF7),
            dim_mask: rgba(0, 0, 0, 50),
        }
    }
}

impl Theme {
    pub fn catppuccin_mocha() -> (t: Self)
        ensures
            t == mocha_spec(),
    {
        Theme {
            panel_bg: rgb(0x18, 0x18, 0x25),
            panel_border: rgb(0x45, 0x47, 0x5A),
            text: rgb(0xBA, 0xC2, 0xDE),
            text_dim: rgb(0xA6, 0xAD, 0xC8),
            badge_bg: rgb(0x31, 0x32, 0x44),
            badge_text: rgb(0xB4, 0xBE, 0xFE),
            accent: rgb(0xB4, 0xBE, 0xFE),
            dim_mask: rgba(0x11, 0x11, 0x1B, 50),
        }
    }

    pub fn catppuccin_macchiato() -> (t: Self)
        ensures
            t == macchiato_spec(),
    {
        Theme {
            panel_bg: rgb(0x1E, 0x20, 0x30),
            panel_border: rgb(0x49, 0x4D, 0x64),
            text: rgb(0xB8, 0xC0, 0xE0),
            text_dim: rgb(0xA5, 0xAD, 0xCB),
            badge_bg: rgb(0x36, 0x3A, 0x4F),
            badge_text: rgb(0xB7, 0xBD, 0xF8),
            accent: rgb(0xB7, 0xBD, 0xF8),
            dim_mask: rgba(0x18, 0x19, 0x26, 50),
        }
    }

    pub fn catppuccin_frappe() -> (t: Self)
        ensures
            t == frappe_spec(),
    {
        Theme {
            panel_bg: rgb(0x29, 0x2C, 0x3C),
            panel_border: rgb(0x51, 0x57, 0x6D),
            text: rgb(0xB5, 0xBF, 0xE2),
            text_dim: rgb(0xA5, 0xAD, 0xCE),
            badge_bg: rgb(0x41, 0x45, 0x59),
            badge_text: rgb(0xBA, 0xBB, 0xF1),
            accent: rgb(0xBA, 0xBB, 0xF1),
            dim_mask: rgba(0x23, 0x26, 0x34, 50),
        }
    }

    pub fn catppuccin_latte() -> (t: Self)
        ensures
            t == latte_spec(),
    {
        Theme {
            panel_bg: rgb(0xE6, 0xE9, 0xEF),
            panel_border: rgb(0xBC, 0xC0, 0xCC),
            text: rgb(0x5C, 0x5F, 0x77),
            text_dim: rgb(0x6C, 0x6F, 0x85),
            badge_bg: rgb(0xCC, 0xD0, 0xDA),
            badge_text: rgb(0x72, 0x87, 0xFD),
            accent: rgb(0x72, 0x87, 0xFD),
            dim_mask: rgba(0xFF, 0xFF, 0xFF, 40),
        }
    }
}

/// The theme that a `[theme]` section names: no name means `default`; the `catppuccin`
/// theme takes a flavor, `mocha` when none is given.
pub open spec fn resolve_theme_spec(name: Option<Seq<char>>, flavor: Option<Seq<char>>) -> Result<Theme, ThemeErrorView> {
    let n = match name {
        Some(s) => s,
        None => "default"@,
    };
    if n == "default"@ {
        Ok(default_theme_spec())
    } else if n == "catppuccin"@ {
        let f = match flavor {
            Some(s) => s,
            None => "mocha"@,
        };
        if f == "mocha"@ {
            Ok(mocha_spec())
        } else if f == "macchiato"@ {
            Ok(macchiato_spec())
        } else if f == "frappe"@ {
            Ok(frappe_spec())
        } else if f == "latte"@ {
            Ok(latte_spec())
        } else {
            Err(ThemeErrorView::UnknownFlavor(f))
        }
    } else {
        Err(ThemeErrorView::UnknownTheme(n))
    }
}

pub open spec fn opt_str_view(s: Option<&str>) -> Option<Seq<char>> {
    match s {
        Some(s) => Some(s@),
        None => None,
    }
}

pub fn resolve_theme(name: Option<&str>, flavor: Option<&str>) -> (r: Result<Theme, ThemeError>)
    ensures
        match (r, resolve_theme_spec(opt_str_view(name), opt_str_view(flavor))) {
            (Ok(t), Ok(s)) => t == s,
            (Err(e), Err(s)) => e@ == s,
            _ => false,
        },
{
    let n = match name {
        Some(s) => s,
        None => "default",
    };
    if str_eq(n, "default") {
        Ok(Theme::default())
    } else if str_eq(n, "catppuccin") {
        let f = match flavor {
            Some(s) => s,
            None => "mocha",
        };
        if str_eq(f, "mocha") {
            Ok(Theme::catppuccin_mocha())
        } else if str_eq(f, "macchiato") {
            Ok(Theme::catppuccin_macchiato())
        } else if str_eq(f, "frappe") {
            Ok(Theme::catppuccin_frappe())
        } else if str_eq(f, "latte") {
            Ok(Theme::catppuccin_latte())
        } else {
            Err(ThemeError::UnknownFlavor(String::from_str(f)))
        }
    } else {
        Err(ThemeError::UnknownTheme(String::from_str(n)))
    }
}

impl ThemeError {
    /// The text of the error.
    pub fn message(&self) -> (s: String)
        ensures
            s@ == (match self@ {
                ThemeErrorView::UnknownTheme(n) => "unknown theme `"@ + n + "`"@,
                ThemeErrorView::UnknownFlavor(f) => "unknown catppuccin flavor `"@ + f + "`"@,
            }),
    {
        match self {
            ThemeError::UnknownTheme(name) => {
                let mut s = concat_str("unknown theme `", name.as_str());
                s.append("`");
                s
            },
            ThemeError::UnknownFlavor(flavor) => {
                let mut s = concat_str("unknown catppuccin flavor `", flavor.as_str());
                s.append("`");
                s
            },
        }
    }
}

/// Leaving out the theme name selects the default theme, and naming `catppuccin` without
/// a flavor selects Mocha.
pub proof fn lemma_theme_defaults()
    ensures
        resolve_theme_spec(None, None) == Ok::<Theme, ThemeErrorView>(default_theme_spec()),
        resolve_theme_spec(Some("catppuccin"@), None) == Ok::<Theme, ThemeErrorView>(mocha_spec()),
{
    assert("catppuccin"@ != "default"@) by {
        reveal_strlit("catppuccin");
        reveal_strlit("default");
        assert("catppuccin"@.len() != "default"@.len());
    }
}

/// Naming the `mocha` flavor gives the same palette as naming no flavor.
pub proof fn lemma_named_mocha_is_default_flavor()
    ensures
        resolve_theme_spec(Some("catppuccin"@), Some("mocha"@)) == resolve_theme_spec(
            Some("catppuccin"@),
            None,
        ),
{
    assert("catppuccin"@ != "default"@) by {
        reveal_strlit("catppuccin");
        reveal_strlit("default");
        assert("catppuccin"@.len() != "default"@.len());
    }
}

/// Different catppuccin flavors that are accepted give different palettes: each flavor
/// selects a palette of its own.
pub proof fn lemma_flavors_give_distinct_palettes(f1: Seq<char>, f2: Seq<char>)
    requires
        f1 != f2,
        resolve_theme_spec(Some("catppuccin"@), Some(f1)) is Ok,
        resolve_theme_spec(Some("catppuccin"@), Some(f2)) is Ok,
    ensures
        resolve_theme_spec(Some("catppuccin"@), Some(f1)) != resolve_theme_spec(
            Some("catppuccin"@),
            Some(f2),
        ),
{
    assert("catppuccin"@ != "default"@) by {
        reveal_strlit("catppuccin");
        reveal_strlit("default");
        assert("catppuccin"@.len() != "default"@.len());
    }
}

/// The default theme ignores the flavor: leaving the name out or naming `default` gives
/// the default palette whatever flavor is given.
pub proof fn lemma_default_theme_ignores_flavor(flavor: Option<Seq<char>>)
    ensures
        resolve_theme_spec(None, flavor) == Ok::<Theme, ThemeErrorView>(default_theme_spec()),
        resolve_theme_spec(Some("default"@), flavor) == Ok::<Theme, ThemeErrorView>(
            default_theme_spec(),
        ),
{
}

} // verus!
