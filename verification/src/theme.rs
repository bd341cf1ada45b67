//! Application colour themes: the persisted form of a theme and the names of
//! the themes the application ships.

use vstd::prelude::*;

use crate::text::str_equal;

verus! {

/// The colours of an application theme, as stored.
#[derive(Debug, Clone, PartialEq, Eq)]
pub struct AppThemePersisted {
    /// Theme name
    pub name: String,
    /// Application background
    pub background: String,
    /// Main font color
    pub foreground: String,
    /// Color of borders when not focused
    pub border_unfocused: String,
    /// Color of borders when focused
    pub border_focused: String,
    /// Color of top bar background
    pub top_bar_background: String,
    /// Color of top bar font color
    pub top_bar_foreground: String,
    /// Color of bottom bar background
    pub bottom_bar_background: String,
    /// Color of bottom bar font color
    pub bottom_bar_foreground: String,
    /// Color of background for menu options
    pub menu_opt_background: String,
    /// Color of foreground for menu options
    pub menu_opt_foreground: String,
    /// Color of project name top bar background
    pub project_name_background: String,
    /// Color of project name top bar title
    pub project_name_foreground: String,
    /// Color of endpoint name top bar background
    pub endpoint_name_background: String,
    /// Color of endpoint name top bar title
    pub endpoint_name_foreground: String,
    pub menu_color_1: String,
    pub menu_color_2: String,
    pub menu_color_3: String,
    pub menu_color_4: String,
    pub menu_color_5: String,
    pub overlay_background: String,
    pub overlay_foreground: String,
    pub overlay_heading: String,
    pub overlay_submit_background: String,
    pub overlay_submit_foreground: String,
    pub overlay_cancel_background: String,
    pub overlay_cancel_foreground: String,
}

/// The application themes that ship with the application.
#[derive(Debug, Clone, Copy, PartialEq, Eq)]
pub enum AppThemeKey {
    Catppuccin,
    Gruvbox,
}

/// The shipped theme of a given name, if there is one.
pub open spec fn spec_app_theme_key(name: Seq<char>) -> Option<AppThemeKey> {
    if name == "catppuccin"@ {
        Some(AppThemeKey::Catppuccin)
    } else if name == "gruvbox"@ {
        Some(AppThemeKey::Gruvbox)
    } else {
        None
    }
}

/// The shipped theme of a given name, if there is one.
pub fn app_theme_key(name: &str) -> (key: Option<AppThemeKey>)
    ensures
        key == spec_app_theme_key(name@),
{
    if str_equal(name, "catppuccin") {
        Some(AppThemeKey::Catppuccin)
    } else if str_equal(name, "gruvbox") {
        Some(AppThemeKey::Gruvbox)
    } else {
        None
    }
}

} // verus!
