//! The colour themes of the terminal interface, by name.
use vstd::prelude::*;

verus! {

/// The colour themes the interface offers.
#[derive(Debug, Clone, Copy, PartialEq, Eq, Structural)]
pub enum ThemeName {
    DarkPlus,
    Light,
    Monokai,
    SolarizedDark,
    SolarizedLight,
    Dracula,
    OneDark,
    Nord,
    Gruvbox,
    Peacocks,
}

impl Default for ThemeName {
    /// `DarkPlus`.
    fn default() -> (r: ThemeName)
        ensures
            r == ThemeName::DarkPlus,
    {
        ThemeName::DarkPlus
    }
}

/// The theme a lower-case name stands for: its name written in lower case
/// without spaces.
pub open spec fn theme_of_lowercase(s: Seq<char>) -> Option<ThemeName> {
    if s == "darkplus"@ {
        Some(ThemeName::DarkPlus)
    } else if s == "light"@ {
        Some(ThemeName::Light)
    } else if s == "monokai"@ {
        Some(ThemeName::Monokai)
    } else if s == "solarizeddark"@ {
        Some(ThemeName::SolarizedDark)
    } else if s == "solarizedlight"@ {
        Some(ThemeName::SolarizedLight)
    } else if s == "dracula"@ {
        Some(ThemeName::Dracula)
    } else if s == "onedark"@ {
        Some(ThemeName::OneDark)
    } else if s == "nord"@ {
        Some(ThemeName::Nord)
    } else if s == "gruvbox"@ {
        Some(ThemeName::Gruvbox)
    } else if s == "peacocks"@ {
        Some(ThemeName::Peacocks)
    } else {
        None
    }
}


/// A colour of the terminal palette, or a true colour.
#[derive(Debug, Clone, Copy, PartialEq, Eq, Structural)]
pub enum ThemeColor {
    Black,
    White,
    Gray,
    DarkGray,
    Blue,
    Cyan,
    Green,
    LightGreen,
    Magenta,
    Rgb(u8, u8, u8),
}

/// How titles are drawn: in a colour, bold or not.
#[derive(Debug, Clone, Copy, PartialEq, Eq, Structural)]
pub struct TitleStyle {
    pub fg: ThemeColor,
    pub bold: bool,
}

/// The colours of a theme.
#[derive(Debug, Clone, Copy)]
pub struct AppTheme {
    pub name: &'static str,
    pub accent: ThemeColor,
    pub text: ThemeColor,
    pub muted_text: ThemeColor,
    pub title_style: TitleStyle,
}

/// The accent, text and muted-text colours of each theme.
pub open spec fn theme_colors(theme: ThemeName) -> (ThemeColor, ThemeColor, ThemeColor) {
    match theme {
        ThemeName::DarkPlus => (ThemeColor::Cyan, ThemeColor::White, ThemeColor::Gray),
        ThemeName::Light => (ThemeColor::Blue, ThemeColor::Black, ThemeColor::DarkGray),
        ThemeName::Monokai => (ThemeColor::Green, ThemeColor::White, ThemeColor::LightGreen),
        ThemeName::SolarizedDark => (ThemeColor::Rgb(38, 139, 210), ThemeColor::Rgb(131, 148, 150), ThemeColor::Rgb(88, 110, 117)),
        ThemeName::SolarizedLight => (ThemeColor::Rgb(38, 139, 210), ThemeColor::Rgb(88, 110, 117), ThemeColor::Rgb(147, 161, 161)),
        ThemeName::Dracula => (ThemeColor::Magenta, ThemeColor::Rgb(248, 248, 242), ThemeColor::Rgb(98, 114, 164)),
        ThemeName::OneDark => (ThemeColor::Rgb(97, 175, 239), ThemeColor::Rgb(171, 178, 191), ThemeColor::Rgb(92, 99, 112)),
        ThemeName::Nord => (ThemeColor::Rgb(136, 192, 208), ThemeColor::Rgb(216, 222, 233), ThemeColor::Rgb(129, 161, 193)),
        ThemeName::Gruvbox => (ThemeColor::Rgb(215, 153, 33), ThemeColor::Rgb(235, 219, 178), ThemeColor::Rgb(146, 131, 116)),
        ThemeName::Peacocks => (ThemeColor::Rgb(80, 220, 150), ThemeColor::Rgb(220, 240, 235), ThemeColor::Rgb(120, 160, 150)),
    }
}

/// The display name of each theme.
pub open spec fn theme_title(theme: ThemeName) -> Seq<char> {
    match theme {
        ThemeName::DarkPlus => "DarkPlus"@,
        ThemeName::Light => "Light"@,
        ThemeName::Monokai => "Monokai"@,
        ThemeName::SolarizedDark => "SolarizedDark"@,
        ThemeName::SolarizedLight => "SolarizedLight"@,
        ThemeName::Dracula => "Dracula"@,
        ThemeName::OneDark => "OneDark"@,
        ThemeName::Nord => "Nord"@,
        ThemeName::Gruvbox => "Gruvbox"@,
        ThemeName::Peacocks => "Peacocks"@,
    }
}

/// Resolves theme names to their colours.
#[derive(Debug, Clone, Copy, Default)]
pub struct ThemeCatalog;

impl ThemeCatalog {
    /// The colours of `theme`; titles are bold in the accent colour.
    pub fn resolve(&self, theme: &ThemeName) -> (r: AppTheme)
        ensures
            r.name@ == theme_title(*theme),
            (r.accent, r.text, r.muted_text) == theme_colors(*theme),
            r.title_style == (TitleStyle { fg: r.accent, bold: true }),
    {
        let (name, accent, text, muted_text) = match theme {
            ThemeName::DarkPlus => ("DarkPlus", ThemeColor::Cyan, ThemeColor::White, ThemeColor::Gray),
            ThemeName::Light => ("Light", ThemeColor::Blue, ThemeColor::Black, ThemeColor::DarkGray),
            ThemeName::Monokai => ("Monokai", ThemeColor::Green, ThemeColor::White, ThemeColor::LightGreen),
            ThemeName::SolarizedDark => ("SolarizedDark", ThemeColor::Rgb(38, 139, 210), ThemeColor::Rgb(131, 148, 150), ThemeColor::Rgb(88, 110, 117)),
            ThemeName::SolarizedLight => ("SolarizedLight", ThemeColor::Rgb(38, 139, 210), ThemeColor::Rgb(88, 110, 117), ThemeColor::Rgb(147, 161, 161)),
            ThemeName::Dracula => ("Dracula", ThemeColor::Magenta, ThemeColor::Rgb(248, 248, 242), ThemeColor::Rgb(98, 114, 164)),
            ThemeName::OneDark => ("OneDark", ThemeColor::Rgb(97, 175, 239), ThemeColor::Rgb(171, 178, 191), ThemeColor::Rgb(92, 99, 112)),
            ThemeName::Nord => ("Nord", ThemeColor::Rgb(136, 192, 208), ThemeColor::Rgb(216, 222, 233), ThemeColor::Rgb(129, 161, 193)),
            ThemeName::Gruvbox => ("Gruvbox", ThemeColor::Rgb(215, 153, 33), ThemeColor::Rgb(235, 219, 178), ThemeColor::Rgb(146, 131, 116)),
            ThemeName::Peacocks => ("Peacocks", ThemeColor::Rgb(80, 220, 150), ThemeColor::Rgb(220, 240, 235), ThemeColor::Rgb(120, 160, 150)),
        };
        AppTheme { name, accent, text, muted_text, title_style: TitleStyle { fg: accent, bold: true } }
    }
}

} // verus!
