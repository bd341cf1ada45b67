//! The smaller components of the screen: the confirmation window, the
//! section frames, the request panes, the value input of the header editor
//! and the application layout.

use vstd::prelude::*;

use crate::keys::{KeyCode, KeyEvent};
use crate::messages::{AppLayoutMessages, ComponentMessage, ConfirmDeleteProject};
use crate::text::str_equal;
use crate::theme::AppThemePersisted;
use crate::textinput::{
    is_unhandled_input_key, spec_input_on_key, spec_on_blur, spec_on_focus, InputState, TextInput,
    TextInputOutcome,
};

verus! {

/// The window that asks the user to confirm a deletion.
#[derive(Debug, Clone, Copy, PartialEq, Eq)]
pub struct ConfirmActionWindow;

/// What the confirmation window shows.
#[derive(Debug, Clone, PartialEq, Eq)]
pub struct ConfirmActionWindowState {
    pub title: String,
    pub message: String,
}

impl ConfirmActionWindow {
    /// The confirmation window.
    pub fn new() -> (w: ConfirmActionWindow)
        ensures
            w == ConfirmActionWindow,
    {
        ConfirmActionWindow
    }

    /// Takes the title and the question of a request to confirm a project's
    /// deletion.
    pub fn message(&self, request: &ConfirmDeleteProject, state: &mut ConfirmActionWindowState)
        ensures
            final(state).title@ == request.title@,
            final(state).message@ == request.message@,
    {
        let message_type = request.get_message_type();
        if str_equal(message_type.as_str(), "confirm_delete_project") {
            state.title = request.title.clone();
            state.message = request.message.clone();
        }
    }
}

impl ConfirmActionWindowState {
    /// Nothing to confirm yet.
    pub fn new() -> (s: ConfirmActionWindowState)
        ensures
            s.title@.len() == 0,
            s.message@.len() == 0,
    {
        ConfirmActionWindowState { title: String::new(), message: String::new() }
    }
}

/// The pane that lists the request's headers.
#[derive(Debug, Clone, Copy, PartialEq, Eq)]
pub struct RequestHeadersEditor;

/// The headers pane keeps no state of its own.
#[derive(Debug, Clone, Copy, PartialEq, Eq)]
pub struct RequestHeadersEditorState {}

impl RequestHeadersEditorState {
    /// The (empty) state of the headers pane.
    pub fn new() -> (s: RequestHeadersEditorState)
        ensures
            s == (RequestHeadersEditorState {}),
    {
        RequestHeadersEditorState {}
    }
}

/// The pane around the request-body editor.
#[derive(Debug, Clone, Copy, PartialEq, Eq)]
pub struct RequestBodySection;

/// The body pane keeps no state of its own.
#[derive(Debug, Clone, Copy, PartialEq, Eq)]
pub struct RequestBodySectionState {}

impl RequestBodySection {
    /// The colour the pane's border takes when the editor's focus changes:
    /// when the editor loses the focus, the border colour the layout gives,
    /// if it gives one; nothing changes when the editor gains the focus.
    pub fn border_color(focused: bool, border_color: Option<String>) -> (color: Option<String>)
        ensures
            color == (if focused { None } else { border_color }),
    {
        if focused {
            None
        } else {
            border_color
        }
    }
}

/// A framed section of the screen, whose frame shows whether its input has
/// the focus.
#[derive(Debug, Clone, Copy, PartialEq, Eq)]
pub struct AppSection;

/// The identifiers of a section's frame and text, once the layout gave them.
#[derive(Debug, Clone, PartialEq, Eq)]
pub struct AppSectionState {
    pub section_id: Option<String>,
    pub section_text_id: Option<String>,
}

/// Frame colour of a section whose input has the focus.
pub const FOCUSED_SECTION_COLOR: &'static str = "#ffff00";

/// Frame colour of a section whose input lost the focus.
pub const UNFOCUSED_SECTION_COLOR: &'static str = "#ff0000";

/// What a section does when its input gains or loses the focus.
#[derive(Debug, Clone, PartialEq, Eq)]
pub struct SectionFocusChange {
    /// Whether the focus goes back to the application.
    pub focus_app: bool,
    /// The frame to recolour and its new colour.
    pub recolor: Option<(String, &'static str)>,
}

impl AppSectionState {
    /// A section whose identifiers are not known yet.
    pub fn new() -> (s: AppSectionState)
        ensures
            s.section_id is None,
            s.section_text_id is None,
    {
        AppSectionState { section_id: None, section_text_id: None }
    }

    /// Takes the identifiers the layout gives, the first time they are
    /// available.
    pub fn tick(&mut self, section_id: Option<String>, section_text_id: Option<String>)
        ensures
            old(self).section_id is None ==> final(self).section_id == section_id
                && final(self).section_text_id == (match section_id {
                    Some(_) => section_text_id,
                    None => old(self).section_text_id,
                }),
            old(self).section_id is Some ==> *final(self) == *old(self),
    {
        if self.section_id.is_none() {
            match section_id {
                Some(id) => {
                    self.section_id = Some(id);
                    self.section_text_id = section_text_id;
                },
                None => {},
            }
        }
    }
}

impl AppSection {
    /// The section's input gained or lost the focus: losing it hands the
    /// focus back to the application, and the frame (once known) turns
    /// yellow or red.
    pub fn input_focus(&self, focused: bool, state: &AppSectionState) -> (change: SectionFocusChange)
        ensures
            change.focus_app == !focused,
            match state.section_id {
                Some(id) => change.recolor matches Some((i, c)) && i == id
                    && c@ == (if focused { FOCUSED_SECTION_COLOR@ } else { UNFOCUSED_SECTION_COLOR@ }),
                None => change.recolor is None,
            },
    {
        let recolor = match &state.section_id {
            Some(id) => Some((id.clone(), if focused { FOCUSED_SECTION_COLOR } else { UNFOCUSED_SECTION_COLOR })),
            None => None,
        };
        SectionFocusChange { focus_app: !focused, recolor }
    }
}

/// The input that edits a header's value: a plain text input.
#[derive(Debug, Clone, Copy, PartialEq, Eq)]
pub struct EditValueTextInput;

impl EditValueTextInput {
    /// Handles a key press as a text input does.
    pub fn on_key(&mut self, event: KeyEvent, state: &mut InputState) -> (outcome: TextInputOutcome)
        requires
            old(state)@.wf(),
            old(state)@.focused ==> !is_unhandled_input_key(event.code),
        ensures
            (final(state)@, outcome) == spec_input_on_key(old(state)@, event.code),
            final(state)@.wf(),
    {
        let mut input = TextInput;
        input.on_key(event, state)
    }

    /// Gaining focus shows the cursor.
    pub fn on_focus(&mut self, state: &mut InputState)
        requires
            old(state)@.wf(),
        ensures
            final(state)@ == spec_on_focus(old(state)@),
            final(state)@.wf(),
    {
        let mut input = TextInput;
        input.on_focus(state)
    }

    /// Losing focus hides the cursor.
    pub fn on_blur(&mut self, state: &mut InputState)
        requires
            old(state)@.wf(),
        ensures
            final(state)@ == spec_on_blur(old(state)@),
            final(state)@.wf(),
    {
        let mut input = TextInput;
        input.on_blur(state)
    }
}

/// What the application layout shows.
#[derive(Debug, Clone, Copy, PartialEq, Eq)]
pub enum AppDisplay {
    Dashboard,
    Options,
}

/// The application layout: the dashboard or the options screen.
#[derive(Debug, Clone, Copy, PartialEq, Eq)]
pub struct AppLayout {
    pub display: AppDisplay,
}

impl AppLayout {
    /// The layout at start: the dashboard.
    pub fn new() -> (layout: AppLayout)
        ensures
            layout.display == AppDisplay::Dashboard,
    {
        AppLayout { display: AppDisplay::Dashboard }
    }

    /// Switches screens; returns the identifier of the component that gets
    /// the focus.
    pub fn message(&mut self, message: AppLayoutMessages) -> (focus: &'static str)
        ensures
            match message {
                AppLayoutMessages::OpenOptions => final(self).display == AppDisplay::Options && focus@ == "options"@,
                AppLayoutMessages::OpenDashboard => final(self).display == AppDisplay::Dashboard && focus@ == "app"@,
            },
    {
        match message {
            AppLayoutMessages::OpenOptions => {
                self.display = AppDisplay::Options;
                "options"
            },
            AppLayoutMessages::OpenDashboard => {
                self.display = AppDisplay::Dashboard;
                "app"
            },
        }
    }
}

/// A section whose border shows whether the URL input inside it has the
/// focus.
#[derive(Debug, Clone, Copy, PartialEq, Eq)]
pub struct FocusableSection;

/// The section's target (once the layout gave it), its border colour and
/// the theme the colours come from.
#[derive(Debug, Clone, PartialEq, Eq)]
pub struct FocusableSectionState {
    pub target: Option<String>,
    pub active_border_color: String,
    pub app_theme: AppThemePersisted,
}

impl FocusableSectionState {
    /// A section without target, with the unfocused border colour.
    pub fn new(app_theme: AppThemePersisted) -> (s: FocusableSectionState)
        ensures
            s.target is None,
            s.active_border_color == app_theme.border_unfocused,
            s.app_theme == app_theme,
    {
        FocusableSectionState {
            target: None,
            active_border_color: app_theme.border_unfocused.clone(),
            app_theme,
        }
    }
}

impl FocusableSection {
    /// A message for the section: `unfocus` gives the border the unfocused
    /// colour; `theme_update` takes the given theme.
    pub fn message(&self, message: &str, state: &mut FocusableSectionState, theme: AppThemePersisted)
        ensures
            message@ == "unfocus"@ ==> *final(state) == (FocusableSectionState {
                active_border_color: old(state).app_theme.border_unfocused,
                ..*old(state)
            }),
            message@ != "unfocus"@ && message@ == "theme_update"@ ==> *final(state) == (FocusableSectionState {
                app_theme: theme,
                ..*old(state)
            }),
            message@ != "unfocus"@ && message@ != "theme_update"@ ==> *final(state) == *old(state),
    {
        if str_equal(message, "unfocus") {
            state.active_border_color = state.app_theme.border_unfocused.clone();
        } else if str_equal(message, "theme_update") {
            state.app_theme = theme;
        }
    }

    /// Takes the target the layout gives, the first time it is available.
    pub fn tick(&self, state: &mut FocusableSectionState, target: Option<String>)
        ensures
            old(state).target is None && target is Some ==> *final(state) == (FocusableSectionState {
                target,
                ..*old(state)
            }),
            old(state).target is Some || target is None ==> *final(state) == *old(state),
    {
        if state.target.is_none() {
            match target {
                Some(t) => {
                    state.target = Some(t);
                },
                None => {},
            }
        }
    }

    /// The URL input gained or lost the focus: once the section knows its
    /// target, its border takes the focused or unfocused colour.
    pub fn url_input_focus(&self, focused: bool, state: &mut FocusableSectionState)
        ensures
            old(state).target is None ==> *final(state) == *old(state),
            old(state).target is Some ==> *final(state) == (FocusableSectionState {
                active_border_color: if focused {
                    old(state).app_theme.border_focused
                } else {
                    old(state).app_theme.border_unfocused
                },
                ..*old(state)
            }),
    {
        if state.target.is_none() {
            return;
        }
        state.active_border_color = if focused {
            state.app_theme.border_focused.clone()
        } else {
            state.app_theme.border_unfocused.clone()
        };
    }
}

/// What a key asks of a window with a form (header windows, name windows).
#[derive(Debug, Clone, Copy, PartialEq, Eq)]
pub enum FormKey {
    /// Submit the form.
    Submit,
    /// Leave the window.
    Cancel,
    /// Move the focus to the form's first input.
    FocusFirst,
    /// Move the focus to the form's second input.
    FocusSecond,
    /// Nothing.
    Nothing,
}

/// What a key does in the header windows: `s` submits, Esc cancels, `n`
/// goes to the name input and `v` to the value input.
pub fn header_window_key(event: KeyEvent) -> (action: FormKey)
    ensures
        action == (match event.code {
            KeyCode::Esc => FormKey::Cancel,
            KeyCode::Char(c) => if c == 's' {
                FormKey::Submit
            } else if c == 'n' {
                FormKey::FocusFirst
            } else if c == 'v' {
                FormKey::FocusSecond
            } else {
                FormKey::Nothing
            },
            _ => FormKey::Nothing,
        }),
{
    match event.code {
        KeyCode::Esc => FormKey::Cancel,
        KeyCode::Char(c) => {
            if c == 's' {
                FormKey::Submit
            } else if c == 'n' {
                FormKey::FocusFirst
            } else if c == 'v' {
                FormKey::FocusSecond
            } else {
                FormKey::Nothing
            }
        },
        _ => FormKey::Nothing,
    }
}

/// What a key does in a rename window: `s` submits, `c` and Esc cancel,
/// and `focus_key` (`e` for the endpoint, `p` for the project) goes to the
/// name input.
pub fn name_window_key(event: KeyEvent, focus_key: char) -> (action: FormKey)
    ensures
        action == (match event.code {
            KeyCode::Esc => FormKey::Cancel,
            KeyCode::Char(c) => if c == focus_key {
                FormKey::FocusFirst
            } else if c == 's' {
                FormKey::Submit
            } else if c == 'c' {
                FormKey::Cancel
            } else {
                FormKey::Nothing
            },
            _ => FormKey::Nothing,
        }),
{
    match event.code {
        KeyCode::Esc => FormKey::Cancel,
        KeyCode::Char(c) => {
            if c == focus_key {
                FormKey::FocusFirst
            } else if c == 's' {
                FormKey::Submit
            } else if c == 'c' {
                FormKey::Cancel
            } else {
                FormKey::Nothing
            }
        },
        _ => FormKey::Nothing,
    }
}

/// What a key does in the header selector: a digit selects the header at
/// that position (as text), Esc cancels.
#[derive(Debug, Clone, PartialEq, Eq)]
pub enum HeaderSelectorKey {
    Select(String),
    Cancel,
    Nothing,
}

/// What a key does in the header selector.
pub fn header_selector_key(event: KeyEvent) -> (action: HeaderSelectorKey)
    ensures
        match event.code {
            KeyCode::Char(c) => if '0' <= c && c <= '9' {
                action matches HeaderSelectorKey::Select(s) && s@ == seq![c]
            } else {
                action == HeaderSelectorKey::Nothing
            },
            KeyCode::Esc => action == HeaderSelectorKey::Cancel,
            _ => action == HeaderSelectorKey::Nothing,
        },
{
    match event.code {
        KeyCode::Char(c) => {
            if '0' <= c && c <= '9' {
                let mut s = String::new();
                s.push(c);
                proof {
                    assert(s@ =~= seq![c]);
                }
                HeaderSelectorKey::Select(s)
            } else {
                HeaderSelectorKey::Nothing
            }
        },
        KeyCode::Esc => HeaderSelectorKey::Cancel,
        _ => HeaderSelectorKey::Nothing,
    }
}

} // verus!
