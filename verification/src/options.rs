//! User options: the syntax-highlighting theme and the application theme,
//! with their defaults, and the list of syntax themes the application offers.

use vstd::prelude::*;

use crate::messages::AppLayoutMessages;
use crate::keys::{KeyCode, KeyEvent};
use crate::text::{chars_of, lines, replace, spec_lines, spec_replace, str_equal, string_from_chars};

verus! {

/// Syntax theme used when no options were saved.
pub const DEFAULT_SYNTAX_THEME: &'static str = "monokai";

/// Application theme used when no options were saved.
pub const DEFAULT_APP_THEME: &'static str = "gruvbox";

/// The syntax themes the application offers, one name per line.
pub const SYNTAX_THEMES_LIST: &'static str = "[ Argonaut ]\nBespin\nBlackboard Mod\nBlackLight\nCobalt\nfake\nGlitterBomb\nJuicy\nMidnight\nMonokai Dark\nSpectacular\n";

/// The options a user can save.
#[derive(Debug, Clone, PartialEq, Eq)]
pub struct Options {
    pub syntax_theme: String,
    pub app_theme: String,
}

/// The names of the offered syntax themes, one per line of the list.
pub fn get_syntax_themes() -> (themes: Vec<String>)
    ensures
        themes@.len() == spec_lines(SYNTAX_THEMES_LIST@).len(),
        forall|i: int| 0 <= i < themes@.len() ==> #[trigger] themes@[i]@ == spec_lines(SYNTAX_THEMES_LIST@)[i],
{
    let chars = chars_of(SYNTAX_THEMES_LIST);
    let names = lines(chars.as_slice());
    let mut themes: Vec<String> = Vec::new();
    let mut i: usize = 0;
    while i < names.len()
        invariant
            i <= names@.len(),
            names@.len() == spec_lines(SYNTAX_THEMES_LIST@).len(),
            forall|k: int| 0 <= k < names@.len() ==> #[trigger] names@[k]@ == spec_lines(SYNTAX_THEMES_LIST@)[k],
            themes@.len() == i,
            forall|k: int| 0 <= k < i ==> #[trigger] themes@[k]@ == spec_lines(SYNTAX_THEMES_LIST@)[k],
        decreases names@.len() - i,
    {
        let name = string_from_chars(names[i].as_slice());
        themes.push(name);
        i = i + 1;
    }
    themes
}

/// The default options: the monokai syntax theme and the gruvbox
/// application theme.
pub fn get_default_options() -> (options: Options)
    ensures
        options.syntax_theme@ == DEFAULT_SYNTAX_THEME@,
        options.app_theme@ == DEFAULT_APP_THEME@,
{
    Options {
        syntax_theme: String::from_str(DEFAULT_SYNTAX_THEME),
        app_theme: String::from_str(DEFAULT_APP_THEME),
    }
}

/// The options in force: the saved ones when they could be read, else the
/// defaults.
pub open spec fn effective_options(saved: Option<Options>) -> (Seq<char>, Seq<char>) {
    match saved {
        Some(o) => (o.syntax_theme@, o.app_theme@),
        None => (DEFAULT_SYNTAX_THEME@, DEFAULT_APP_THEME@),
    }
}

/// The options in force, given the saved options if they could be read.
pub fn get_options(saved: Option<Options>) -> (options: Options)
    ensures
        (options.syntax_theme@, options.app_theme@) == effective_options(saved),
{
    match saved {
        Some(o) => o,
        None => get_default_options(),
    }
}

/// The syntax theme in force, given the saved options if they could be read.
pub fn get_syntax_theme(saved: Option<Options>) -> (theme: String)
    ensures
        theme@ == effective_options(saved).0,
{
    get_options(saved).syntax_theme
}

/// The application theme in force, given the saved options if they could be
/// read.
pub fn get_app_theme_name(saved: Option<Options>) -> (theme: String)
    ensures
        theme@ == effective_options(saved).1,
{
    get_options(saved).app_theme
}

/// The window open over the options screen.
#[derive(Debug, Clone, Copy, PartialEq, Eq)]
pub enum OptionsWindows {
    Closed,
    SyntaxThemeSelector,
    AppThemeSelector,
}

/// What the options screen asks of its surroundings.
#[derive(Debug, Clone, PartialEq, Eq)]
pub enum OptionsEffect {
    /// Send a message to the application layout.
    Layout(AppLayoutMessages),
    /// Hand the focus to the component with this identifier.
    Focus(&'static str),
    /// Save these options, then report through `options_saved`; the flag
    /// tells an application-theme selection from a syntax-theme one.
    SaveOptions(Options, bool),
    /// Tell the other components that the application theme changed.
    ThemeChanged,
}

/// The options screen: the options shown and the window open over them.
#[derive(Debug, Clone, PartialEq, Eq)]
pub struct OptionsView {
    pub options: Options,
    pub options_window: OptionsWindows,
}

/// The syntax theme a theme file name stands for: the name without any
/// `.tmTheme`.
pub open spec fn spec_theme_from_file(file: Seq<char>) -> Seq<char> {
    spec_replace(file, ".tmTheme"@, seq![])
}

/// What the options screen does with an event of one of its windows. A
/// selection is saved first (over the options in force); the screen shows
/// it once the save succeeded.
pub open spec fn options_receive_post(
    pre: OptionsView,
    ident: Seq<char>,
    value: Seq<char>,
    saved: Option<Options>,
    post: OptionsView,
    effects: Seq<OptionsEffect>,
) -> bool {
    let in_force = effective_options(saved);
    if ident == "syntax_theme_selector__selection"@ {
        &&& post == pre
        &&& effects.len() == 1
        &&& effects[0] matches OptionsEffect::SaveOptions(o, app)
        &&& !app
        &&& o.syntax_theme@ == spec_theme_from_file(value)
        &&& o.app_theme@ == in_force.1
    } else if ident == "syntax_theme_selector__cancel"@ || ident == "app_theme_selector__cancel"@ {
        post == (OptionsView { options_window: OptionsWindows::Closed, ..pre }) && effects.len() == 1
            && effects[0] == OptionsEffect::Focus("options")
    } else if ident == "app_theme_selector__selection"@ {
        &&& post == pre
        &&& effects.len() == 1
        &&& effects[0] matches OptionsEffect::SaveOptions(o, app)
        &&& app
        &&& o.syntax_theme@ == in_force.0
        &&& o.app_theme@ == value
    } else {
        post == pre && effects.len() == 0
    }
}

impl OptionsView {
    /// The options screen showing the options in force, no window open.
    pub fn new(options: Options) -> (view: OptionsView)
        ensures
            view.options == options,
            view.options_window == OptionsWindows::Closed,
    {
        OptionsView { options, options_window: OptionsWindows::Closed }
    }

    /// Handles a key press: `b` and Esc go back to the dashboard, `x` opens
    /// the syntax theme selector, `a` the application theme selector.
    pub fn on_key(&mut self, event: KeyEvent) -> (effects: Vec<OptionsEffect>)
        ensures
            match event.code {
                KeyCode::Char(c) => if c == 'b' {
                    *final(self) == *old(self) && effects@ == seq![OptionsEffect::Layout(AppLayoutMessages::OpenDashboard)]
                } else if c == 'x' {
                    *final(self) == (OptionsView { options_window: OptionsWindows::SyntaxThemeSelector, ..*old(self) })
                        && effects@.len() == 1 && effects@[0] == OptionsEffect::Focus("syntax_theme_selector")
                } else if c == 'a' {
                    *final(self) == (OptionsView { options_window: OptionsWindows::AppThemeSelector, ..*old(self) })
                        && effects@.len() == 1 && effects@[0] == OptionsEffect::Focus("app_theme_selector")
                } else {
                    *final(self) == *old(self) && effects@.len() == 0
                },
                KeyCode::Esc => *final(self) == *old(self) && effects@ == seq![
                    OptionsEffect::Layout(AppLayoutMessages::OpenDashboard),
                ],
                _ => *final(self) == *old(self) && effects@.len() == 0,
            },
    {
        let mut effects: Vec<OptionsEffect> = Vec::new();
        match event.code {
            KeyCode::Char(c) => {
                if c == 'b' {
                    effects.push(OptionsEffect::Layout(AppLayoutMessages::OpenDashboard));
                } else if c == 'x' {
                    self.options_window = OptionsWindows::SyntaxThemeSelector;
                    effects.push(OptionsEffect::Focus("syntax_theme_selector"));
                } else if c == 'a' {
                    self.options_window = OptionsWindows::AppThemeSelector;
                    effects.push(OptionsEffect::Focus("app_theme_selector"));
                }
            },
            KeyCode::Esc => {
                effects.push(OptionsEffect::Layout(AppLayoutMessages::OpenDashboard));
            },
            _ => {},
        }
        proof {
            assert(effects@ =~= seq![OptionsEffect::Layout(AppLayoutMessages::OpenDashboard)] || effects@.len() <= 1);
        }
        effects
    }

    /// Handles an event of a theme selector. `saved` are the options saved
    /// before, if they could be read.
    pub fn receive(&mut self, ident: &str, value: &str, saved: Option<Options>) -> (effects: Vec<OptionsEffect>)
        ensures
            options_receive_post(*old(self), ident@, value@, saved, *final(self), effects@),
    {
        let mut effects: Vec<OptionsEffect> = Vec::new();
        if str_equal(ident, "syntax_theme_selector__selection") {
            let mut options = get_options(saved);
            let file = chars_of(value);
            let ext = chars_of(".tmTheme");
            let empty: Vec<char> = Vec::new();
            proof {
                reveal_strlit(".tmTheme");
                assert(empty@ =~= seq![]);
            }
            let theme = replace(file.as_slice(), ext.as_slice(), empty.as_slice());
            options.syntax_theme = string_from_chars(theme.as_slice());
            effects.push(OptionsEffect::SaveOptions(options, false));
        } else if str_equal(ident, "syntax_theme_selector__cancel") || str_equal(ident, "app_theme_selector__cancel") {
            self.options_window = OptionsWindows::Closed;
            effects.push(OptionsEffect::Focus("options"));
        } else if str_equal(ident, "app_theme_selector__selection") {
            let mut options = get_options(saved);
            options.app_theme = value.to_owned();
            effects.push(OptionsEffect::SaveOptions(options, true));
        }
        effects
    }

    /// Reports the save of a selection: once saved, the screen shows the
    /// selected theme, and a selected application theme is announced to the
    /// other components.
    pub fn options_saved(&mut self, options: Options, app_theme_selected: bool, saved: bool) -> (effects: Vec<OptionsEffect>)
        ensures
            !saved ==> *final(self) == *old(self) && effects@.len() == 0,
            saved && app_theme_selected ==> final(self).options.app_theme@ == options.app_theme@
                && final(self).options.syntax_theme == old(self).options.syntax_theme
                && final(self).options_window == old(self).options_window
                && effects@ == seq![OptionsEffect::ThemeChanged],
            saved && !app_theme_selected ==> final(self).options.syntax_theme@ == options.syntax_theme@
                && final(self).options.app_theme == old(self).options.app_theme
                && final(self).options_window == old(self).options_window
                && effects@.len() == 0,
    {
        let mut effects: Vec<OptionsEffect> = Vec::new();
        if saved {
            if app_theme_selected {
                self.options.app_theme = options.app_theme;
                effects.push(OptionsEffect::ThemeChanged);
                proof {
                    assert(effects@ =~= seq![OptionsEffect::ThemeChanged]);
                }
            } else {
                self.options.syntax_theme = options.syntax_theme;
            }
        }
        effects
    }
}

/// Whether `effect` saves options under which `in_force` are the themes
/// in force.
pub open spec fn saves_in_force(effect: OptionsEffect, in_force: (Seq<char>, Seq<char>)) -> bool {
    match effect {
        OptionsEffect::SaveOptions(o, _) => effective_options(Some(o)) == in_force,
        _ => false,
    }
}

/// Selecting a theme saves options that, read back, put the selected theme
/// in force and keep the other theme that was in force.
pub proof fn lemma_selection_is_read_back(
    pre: OptionsView,
    ident: Seq<char>,
    value: Seq<char>,
    saved: Option<Options>,
    post: OptionsView,
    effects: Seq<OptionsEffect>,
)
    requires
        ident == "syntax_theme_selector__selection"@ || ident == "app_theme_selector__selection"@,
        options_receive_post(pre, ident, value, saved, post, effects),
    ensures
        effects.len() == 1,
        ident == "syntax_theme_selector__selection"@ ==> saves_in_force(
            effects[0],
            (spec_theme_from_file(value), effective_options(saved).1),
        ),
        ident == "app_theme_selector__selection"@ ==> saves_in_force(
            effects[0],
            (effective_options(saved).0, value),
        ),
{
    reveal_strlit("syntax_theme_selector__selection");
    reveal_strlit("app_theme_selector__selection");
    reveal_strlit("syntax_theme_selector__cancel");
    reveal_strlit("app_theme_selector__cancel");
    assert("syntax_theme_selector__selection"@[0] != "app_theme_selector__selection"@[0]);
    assert("syntax_theme_selector__cancel"@[0] != "app_theme_selector__selection"@[0]);
    assert("app_theme_selector__cancel"@.len() != "app_theme_selector__selection"@.len());
}

/// The options in force are the options that were saved and read back;
/// when none could be read (no file, an unreadable one, or one that holds
/// no options), they are the defaults.
pub proof fn lemma_options_read_back(o: Options)
    ensures
        effective_options(Some(o)) == (o.syntax_theme@, o.app_theme@),
        effective_options(None) == (DEFAULT_SYNTAX_THEME@, DEFAULT_APP_THEME@),
{
}

} // verus!
