//! The dashboard: the state behind the main screen and the decisions taken
//! on each key press and each message from the windows it hosts.
//!
//! Each handler changes the state and returns the effects the host must
//! carry out (moving the focus, sending a message to another component,
//! writing a project, making the request, ...). Where an effect's outcome
//! matters (a write that may fail), the host reports it back through the
//! method that takes the outcome (`project_saved`, `endpoint_saved`,
//! `response_yanked`, ...).

use vstd::prelude::*;

use crate::code_gen::WebType;
use crate::keys::{KeyCode, KeyEvent};
use crate::messages::{
    ConfirmDeleteEndpoint, ConfirmDeleteProject, EditEndpointNameMessages, EditProjectNameMessages,
    EndpointsSelectorMessages, TextAreaMessages, TextInputMessages,
};
use crate::projects::{
    copy_header, default_headers_view, headers_view, save_endpoint, spec_endpoints_after_save,
    Endpoint, Header, HeaderView, PersistedEndpoint, PersistedProject, Project, DEFAULT_ENDPOINT_NAME, DEFAULT_PROJECT_NAME,
    DEFAULT_ROW_COLOR,
};
use crate::text::{
    chars_of, decimal_string, find, first_occurrence, parse_usize, push_all, replace, spec_decimal,
    spec_parse_usize, spec_replace, spec_trim, str_equal, string_from_chars, trim,
};
use crate::syntax::{spec_to_uppercase, to_uppercase};
use crate::theme::AppThemePersisted;

verus! {

/// What the main area of the dashboard shows.
#[derive(Debug, Clone, Copy, PartialEq, Eq)]
pub enum DashboardDisplay {
    RequestBody,
    RequestHeadersEditor,
    ResponseBody,
    ResponseHeaders,
}

/// The floating window shown over the dashboard, if any.
#[derive(Debug, Clone, Copy, PartialEq, Eq)]
pub enum FloatingWindow {
    Closed,
    Method,
    AddHeader,
    EditHeader,
    Error,
    EditHeaderSelector,
    Project,
    ConfirmProject,
    Message,
    ChangeEndpointName,
    ChangeProjectName,
    EndpointsSelector,
    Commands,
    CodeGen,
}

/// The components the dashboard can hand the focus to.
#[derive(Debug, Clone, Copy, PartialEq, Eq)]
pub enum FocusTarget {
    App,
    UrlInput,
    Textarea,
    ResponseRenderer,
    CommandsWindow,
    CodegenWindow,
    EditProjectName,
    EditEndpointName,
    EndpointsSelectorWindow,
    ProjectSelector,
    EditHeaderSelector,
    EditHeaderWindow,
    MethodSelector,
    AddHeaderWindow,
}

/// The identifier of a focus target in the layout.
pub open spec fn spec_focus_id(target: FocusTarget) -> Seq<char> {
    match target {
        FocusTarget::App => "app"@,
        FocusTarget::UrlInput => "url_input"@,
        FocusTarget::Textarea => "textarea"@,
        FocusTarget::ResponseRenderer => "response_renderer"@,
        FocusTarget::CommandsWindow => "commands_window"@,
        FocusTarget::CodegenWindow => "codegen_window"@,
        FocusTarget::EditProjectName => "edit_project_name"@,
        FocusTarget::EditEndpointName => "edit_endpoint_name"@,
        FocusTarget::EndpointsSelectorWindow => "endpoints_selector_window"@,
        FocusTarget::ProjectSelector => "project_selector"@,
        FocusTarget::EditHeaderSelector => "edit_header_selector"@,
        FocusTarget::EditHeaderWindow => "edit_header_window"@,
        FocusTarget::MethodSelector => "method_selector"@,
        FocusTarget::AddHeaderWindow => "add_header_window"@,
    }
}

impl FocusTarget {
    /// The identifier of this target in the layout.
    pub fn id(&self) -> (id: &'static str)
        ensures
            id@ == spec_focus_id(*self),
    {
        match self {
            FocusTarget::App => "app",
            FocusTarget::UrlInput => "url_input",
            FocusTarget::Textarea => "textarea",
            FocusTarget::ResponseRenderer => "response_renderer",
            FocusTarget::CommandsWindow => "commands_window",
            FocusTarget::CodegenWindow => "codegen_window",
            FocusTarget::EditProjectName => "edit_project_name",
            FocusTarget::EditEndpointName => "edit_endpoint_name",
            FocusTarget::EndpointsSelectorWindow => "endpoints_selector_window",
            FocusTarget::ProjectSelector => "project_selector",
            FocusTarget::EditHeaderSelector => "edit_header_selector",
            FocusTarget::EditHeaderWindow => "edit_header_window",
            FocusTarget::MethodSelector => "method_selector",
            FocusTarget::AddHeaderWindow => "add_header_window",
        }
    }
}

/// The languages code can be generated for.
#[derive(Debug, Clone, Copy, PartialEq, Eq)]
pub enum CodeLanguage {
    Rust,
    Web(WebType),
}

/// What the host must do after the dashboard took a decision.
#[derive(Debug, Clone, PartialEq, Eq)]
pub enum DashboardEffect {
    /// Hand the focus to a component.
    Focus(FocusTarget),
    /// Send a message to the endpoint-name window.
    SendEditEndpointName(EditEndpointNameMessages),
    /// Send a message to the project-name window.
    SendEditProjectName(EditProjectNameMessages),
    /// Send a message to the endpoints selector; if that window cannot be
    /// found, report the error through `show_error`.
    SendEndpointsSelector(EndpointsSelectorMessages),
    /// Ask the project selector to load the saved projects.
    LoadProjects,
    /// Replace the text of the URL input.
    SetUrlInput(String),
    /// Send a message to the request-body editor.
    SendRequestBody(TextAreaMessages),
    /// Ask the application layout to open the options screen.
    OpenOptions,
    /// Ask the URL input to give up the focus.
    UnfocusUrlInput,
    /// Put a header's name and value in the header-editing inputs.
    SetEditHeaderInputs(String, String),
    /// Ask for confirmation before deleting an endpoint.
    ConfirmDeleteEndpoint(ConfirmDeleteEndpoint),
    /// Ask for confirmation before deleting a project.
    ConfirmDeleteProject(ConfirmDeleteProject),
    /// Decode the project carried by the event and pass it to
    /// `select_project` (or `request_project_delete` when `delete`).
    DecodeProject(bool),
    /// Decode the endpoint carried by the event and pass it to
    /// `select_endpoint` (or `request_endpoint_delete` when `delete`).
    DecodeEndpoint(bool),
    /// Write a project to disk, then report through `project_saved`.
    WriteProject(PersistedProject, bool),
    /// Write a project holding a newly saved endpoint, then report through
    /// `endpoint_saved`.
    WriteEndpoint(PersistedProject, bool),
    /// Save the response body to a file named by `response_file_name`.
    SaveResponseBody,
    /// Copy the response body to the clipboard.
    YankResponse,
    /// Send the current request.
    SendRequest,
    /// Show a response body, highlighted for the given file extension.
    RenderResponse(String, String),
    /// Generate code for the current project.
    GenerateCode(CodeLanguage),
    /// Export the current project as a Postman collection.
    ExportPostman,
    /// Quit the application.
    Quit,
}

/// An entry of the dashboard's menus.
#[derive(Debug, Clone, PartialEq, Eq)]
pub struct MenuItem {
    pub label: String,
    pub color: String,
}

/// Messages other components send the dashboard.
#[derive(Debug, PartialEq, Eq)]
pub enum DashboardMessages {
    TextInput(TextInputMessages),
    TextArea(TextAreaMessages),
    ThemeUpdate,
    ShowSucces((String, String)),
    ShowError(String),
}

/// Everything the dashboard shows and edits.
#[derive(Debug, Clone, PartialEq, Eq)]
pub struct DashboardState {
    pub main_display: DashboardDisplay,
    pub floating_window: FloatingWindow,
    pub endpoint: Endpoint,
    pub response_headers: Vec<Header>,
    pub response: String,
    pub response_body_window_label: String,
    pub error_message: String,
    pub message: String,
    pub message_label: String,
    pub menu_items: Vec<MenuItem>,
    pub top_menu_items: Vec<MenuItem>,
    pub logs: String,
    pub new_header_name: String,
    pub new_header_value: String,
    pub edit_header_name: String,
    pub edit_header_value: String,
    pub header_being_edited: Option<Header>,
    pub project: Project,
    pub endpoint_count: u8,
    pub filter_indexes: Vec<usize>,
    pub filter_total: usize,
    pub filter_nav_index: usize,
    pub app_bg: String,
    pub app_theme: AppThemePersisted,
}

/// Whether a menu entry has the given label and colour.
pub open spec fn menu_item_is(item: MenuItem, label: Seq<char>, color: Seq<char>) -> bool {
    item.label@ == label && item.color@ == color
}

fn menu_item(label: &str, color: &String) -> (item: MenuItem)
    ensures
        menu_item_is(item, label@, color@),
{
    MenuItem { label: label.to_owned(), color: color.clone() }
}

/// The state of a freshly opened dashboard with the given theme.
pub open spec fn is_initial_state(s: DashboardState, theme: AppThemePersisted) -> bool {
    &&& s.main_display == DashboardDisplay::RequestBody
    &&& s.floating_window == FloatingWindow::Closed
    &&& s.project.name@ == DEFAULT_PROJECT_NAME@
    &&& s.project.endpoints@.len() == 0
    &&& s.endpoint.name@ == DEFAULT_ENDPOINT_NAME@
    &&& s.endpoint.url@.len() == 0
    &&& s.endpoint.method@ == "GET"@
    &&& s.endpoint.body@.len() == 0
    &&& s.endpoint_count == 0
    &&& s.response_headers@.len() == 0
    &&& s.response@.len() == 0
    &&& s.response_body_window_label@.len() == 0
    &&& s.error_message@.len() == 0
    &&& s.message@.len() == 0
    &&& s.message_label@.len() == 0
    &&& s.logs@.len() == 0
    &&& s.new_header_name@.len() == 0
    &&& s.new_header_value@.len() == 0
    &&& s.edit_header_name@.len() == 0
    &&& s.edit_header_value@.len() == 0
    &&& s.header_being_edited is None
    &&& s.filter_indexes@.len() == 0
    &&& s.filter_total == 0
    &&& s.filter_nav_index == 0
    &&& s.app_bg@ == "#000000"@
    &&& s.app_theme == theme
    &&& s.menu_items@.len() == 5
    &&& menu_item_is(s.menu_items@[0], "(S)ave Project"@, theme.menu_color_1@)
    &&& menu_item_is(s.menu_items@[1], "Save Endpo(i)nt"@, theme.menu_color_2@)
    &&& menu_item_is(s.menu_items@[2], "Swap (P)roject"@, theme.menu_color_3@)
    &&& menu_item_is(s.menu_items@[3], "Swap (E)ndpoint"@, theme.menu_color_4@)
    &&& menu_item_is(s.menu_items@[4], "(O)ptions"@, theme.menu_color_5@)
    &&& s.top_menu_items@.len() == 1
    &&& menu_item_is(s.top_menu_items@[0], "(P)rojects"@, theme.menu_color_1@)
}

impl DashboardState {
    /// A fresh dashboard: an unnamed project, a new endpoint, the request
    /// body shown, no window open, and the menus coloured by the theme.
    pub fn new(app_theme: AppThemePersisted) -> (s: DashboardState)
        ensures
            is_initial_state(s, app_theme),
    {
        let menu_items = vec![
            menu_item("(S)ave Project", &app_theme.menu_color_1),
            menu_item("Save Endpo(i)nt", &app_theme.menu_color_2),
            menu_item("Swap (P)roject", &app_theme.menu_color_3),
            menu_item("Swap (E)ndpoint", &app_theme.menu_color_4),
            menu_item("(O)ptions", &app_theme.menu_color_5),
        ];
        let top_menu_items = vec![menu_item("(P)rojects", &app_theme.menu_color_1)];
        DashboardState {
            main_display: DashboardDisplay::RequestBody,
            floating_window: FloatingWindow::Closed,
            endpoint: Endpoint::new(),
            response_headers: Vec::new(),
            response: String::new(),
            response_body_window_label: String::new(),
            error_message: String::new(),
            message: String::new(),
            message_label: String::new(),
            menu_items,
            top_menu_items,
            logs: String::new(),
            new_header_name: String::new(),
            new_header_value: String::new(),
            edit_header_name: String::new(),
            edit_header_value: String::new(),
            header_being_edited: None,
            project: Project::new(),
            endpoint_count: 0,
            filter_indexes: Vec::new(),
            filter_total: 0,
            filter_nav_index: 0,
            app_bg: String::from_str("#000000"),
            app_theme,
        }
    }

    /// Shows a message window with the given title and text.
    pub fn show_message(&mut self, title: &str, message: &str)
        ensures
            final(self).message@ == message@,
            final(self).message_label@ == title@,
            *final(self) == (DashboardState {
                message: final(self).message,
                message_label: final(self).message_label,
                floating_window: FloatingWindow::Message,
                ..*old(self)
            }),
    {
        self.message = message.to_owned();
        self.message_label = title.to_owned();
        self.floating_window = FloatingWindow::Message;
    }

    /// Shows an error window with the given text.
    pub fn show_error(&mut self, message: &str)
        ensures
            final(self).error_message@ == message@,
            *final(self) == (DashboardState {
                error_message: final(self).error_message,
                floating_window: FloatingWindow::Error,
                ..*old(self)
            }),
    {
        self.error_message = message.to_owned();
        self.floating_window = FloatingWindow::Error;
    }
}

/// `post` is `pre` with a different floating window.
pub open spec fn with_window(pre: DashboardState, w: FloatingWindow) -> DashboardState {
    DashboardState { floating_window: w, ..pre }
}

/// `post` is `pre` showing the error `msg`.
pub open spec fn shows_error(pre: DashboardState, post: DashboardState, msg: Seq<char>) -> bool {
    &&& post.error_message@ == msg
    &&& post == DashboardState {
        error_message: post.error_message,
        floating_window: FloatingWindow::Error,
        ..pre
    }
}

/// `post` is `pre` showing the message `msg` under the title `title`.
pub open spec fn shows_message(pre: DashboardState, post: DashboardState, title: Seq<char>, msg: Seq<char>) -> bool {
    &&& post.message@ == msg
    &&& post.message_label@ == title
    &&& post == DashboardState {
        message: post.message,
        message_label: post.message_label,
        floating_window: FloatingWindow::Message,
        ..pre
    }
}

/// Nothing changes and nothing is to be done.
pub open spec fn no_op(pre: DashboardState, post: DashboardState, effects: Seq<DashboardEffect>) -> bool {
    post == pre && effects.len() == 0
}

/// `window` opens and `target` gets the focus.
pub open spec fn opens(
    pre: DashboardState,
    post: DashboardState,
    effects: Seq<DashboardEffect>,
    window: FloatingWindow,
    target: FocusTarget,
) -> bool {
    post == with_window(pre, window) && effects == seq![DashboardEffect::Focus(target)]
}

/// The main area switches to `display`.
pub open spec fn shows_display(
    pre: DashboardState,
    post: DashboardState,
    effects: Seq<DashboardEffect>,
    display: DashboardDisplay,
) -> bool {
    post == DashboardState { main_display: display, ..pre } && effects.len() == 0
}

/// The effects of saving the current project: it is written as it stands.
pub open spec fn writes_project(effects: Seq<DashboardEffect>, pre: DashboardState, show: bool) -> bool {
    &&& effects.len() == 1
    &&& effects[0] matches DashboardEffect::WriteProject(p, s) && p@ == pre.project.content() && s == show
}

/// Saving the current endpoint into the current project: refused with an
/// error while the endpoint or the project has its default name; otherwise
/// the project is written with the endpoint saved into it.
pub open spec fn saves_endpoint(
    pre: DashboardState,
    post: DashboardState,
    effects: Seq<DashboardEffect>,
    show: bool,
) -> bool {
    if pre.endpoint.name@ == DEFAULT_ENDPOINT_NAME@ {
        shows_error(pre, post, "Please give your endpoint a name to save"@) && effects.len() == 0
    } else if pre.project.name@ == DEFAULT_PROJECT_NAME@ {
        shows_error(pre, post, "Please give your project a name to save"@) && effects.len() == 0
    } else {
        &&& post == pre
        &&& effects.len() == 1
        &&& effects[0] matches DashboardEffect::WriteEndpoint(p, s)
            && p@.name == pre.project.name@
            && p@.endpoints == spec_endpoints_after_save(pre.project.content().endpoints, pre.endpoint.content())
            && s == show
    }
}

/// A new, unnamed GET endpoint with the default headers.
pub open spec fn is_new_endpoint(e: Endpoint) -> bool {
    &&& e.name@ == DEFAULT_ENDPOINT_NAME@
    &&& e.url@.len() == 0
    &&& e.method@ == "GET"@
    &&& e.body@.len() == 0
    &&& headers_view(e.headers@) == default_headers_view()
    &&& e.row_color@ == DEFAULT_ROW_COLOR@
}

/// A new, unnamed project without endpoints.
pub open spec fn is_new_project(p: Project) -> bool {
    &&& p.name@ == DEFAULT_PROJECT_NAME@
    &&& p.endpoints@.len() == 0
    &&& p.row_color@ == DEFAULT_ROW_COLOR@
}

/// The effects that empty the URL input and the request-body editor.
pub open spec fn clears_inputs(effects: Seq<DashboardEffect>) -> bool {
    &&& effects.len() == 2
    &&& effects[0] matches DashboardEffect::SetUrlInput(u) && u@.len() == 0
    &&& effects[1] matches DashboardEffect::SendRequestBody(m)
        && m matches TextAreaMessages::SetInput(b) && b@.len() == 0
}

/// The value a name window opens with: the name, or nothing while the name
/// is still the default.
pub open spec fn name_input_value(name: Seq<char>, default_name: Seq<char>) -> Seq<char> {
    if name == default_name {
        seq![]
    } else {
        name
    }
}

/// What a key press does to the dashboard.
pub open spec fn on_key_post(
    pre: DashboardState,
    event: KeyEvent,
    post: DashboardState,
    effects: Seq<DashboardEffect>,
) -> bool {
    match event.code {
        KeyCode::Char(c) => {
            if c == 'c' {
                opens(pre, post, effects, FloatingWindow::Commands, FocusTarget::CommandsWindow)
            } else if c == 's' {
                post == pre && writes_project(effects, pre, true)
            } else if c == 'n' {
                &&& post == with_window(pre, FloatingWindow::ChangeEndpointName)
                &&& effects.len() == 2
                &&& effects[0] == DashboardEffect::Focus(FocusTarget::EditEndpointName)
                &&& effects[1] matches DashboardEffect::SendEditEndpointName(m)
                    && m matches EditEndpointNameMessages::InputValue(v)
                    && v@ == name_input_value(pre.endpoint.name@, DEFAULT_ENDPOINT_NAME@)
            } else if c == 'j' {
                &&& post == with_window(pre, FloatingWindow::ChangeProjectName)
                &&& effects.len() == 2
                &&& effects[0] == DashboardEffect::Focus(FocusTarget::EditProjectName)
                &&& effects[1] matches DashboardEffect::SendEditProjectName(m)
                    && m matches EditProjectNameMessages::InputValue(v)
                    && v@ == name_input_value(pre.project.name@, DEFAULT_PROJECT_NAME@)
            } else if c == 'i' {
                saves_endpoint(pre, post, effects, true)
            } else if c == 'o' {
                post == pre && effects == seq![DashboardEffect::OpenOptions]
            } else if c == 't' {
                &&& is_new_endpoint(post.endpoint)
                &&& effects.len() >= 2
                &&& saves_endpoint(
                    pre,
                    DashboardState { endpoint: pre.endpoint, ..post },
                    effects.take(effects.len() - 2),
                    false,
                )
                &&& clears_inputs(effects.skip(effects.len() - 2))
            } else if c == 'w' {
                &&& post == DashboardState { project: post.project, endpoint: post.endpoint, ..pre }
                &&& is_new_project(post.project)
                &&& is_new_endpoint(post.endpoint)
                &&& effects.len() == 3
                &&& writes_project(effects.take(1), pre, false)
                &&& clears_inputs(effects.skip(1))
            } else if c == 'v' {
                if pre.main_display == DashboardDisplay::ResponseBody {
                    post == pre && effects == seq![DashboardEffect::SaveResponseBody]
                } else {
                    no_op(pre, post, effects)
                }
            } else if c == 'u' {
                if !event.ctrl {
                    post == pre && effects == seq![DashboardEffect::Focus(FocusTarget::UrlInput)]
                } else {
                    no_op(pre, post, effects)
                }
            } else if c == 'q' {
                post == pre && effects == seq![DashboardEffect::Quit]
            } else if c == 'r' {
                post == pre && effects == seq![DashboardEffect::SendRequest]
            } else if c == 'b' {
                match pre.main_display {
                    DashboardDisplay::RequestBody => post == pre && effects == seq![
                        DashboardEffect::Focus(FocusTarget::Textarea),
                    ],
                    DashboardDisplay::RequestHeadersEditor => shows_display(
                        pre,
                        post,
                        effects,
                        DashboardDisplay::RequestBody,
                    ),
                    DashboardDisplay::ResponseBody => post == pre && effects == seq![
                        DashboardEffect::Focus(FocusTarget::ResponseRenderer),
                    ],
                    DashboardDisplay::ResponseHeaders => shows_display(
                        pre,
                        post,
                        effects,
                        DashboardDisplay::ResponseBody,
                    ),
                }
            } else if c == 'd' {
                if !event.ctrl {
                    shows_display(pre, post, effects, DashboardDisplay::RequestHeadersEditor)
                } else {
                    no_op(pre, post, effects)
                }
            } else if c == 'e' {
                &&& post == with_window(pre, FloatingWindow::EndpointsSelector)
                &&& effects.len() == 2
                &&& effects[0] == DashboardEffect::Focus(FocusTarget::EndpointsSelectorWindow)
                &&& effects[1] matches DashboardEffect::SendEndpointsSelector(m)
                    && m matches EndpointsSelectorMessages::EndpointsList(list)
                    && crate::projects::endpoints_view(list@) == pre.project.content().endpoints
            } else if c == 'p' {
                &&& post == with_window(pre, FloatingWindow::Project)
                &&& effects == seq![
                    DashboardEffect::Focus(FocusTarget::ProjectSelector),
                    DashboardEffect::LoadProjects,
                ]
            } else if c == 'h' {
                match pre.main_display {
                    DashboardDisplay::RequestHeadersEditor => opens(
                        pre,
                        post,
                        effects,
                        FloatingWindow::EditHeaderSelector,
                        FocusTarget::EditHeaderSelector,
                    ),
                    DashboardDisplay::ResponseBody => shows_display(
                        pre,
                        post,
                        effects,
                        DashboardDisplay::ResponseHeaders,
                    ),
                    _ => no_op(pre, post, effects),
                }
            } else if c == 'm' {
                opens(pre, post, effects, FloatingWindow::Method, FocusTarget::MethodSelector)
            } else if c == 'a' {
                if pre.main_display == DashboardDisplay::RequestHeadersEditor {
                    opens(pre, post, effects, FloatingWindow::AddHeader, FocusTarget::AddHeaderWindow)
                } else {
                    no_op(pre, post, effects)
                }
            } else if c == 'y' {
                if pre.main_display == DashboardDisplay::ResponseBody {
                    post == pre && effects == seq![DashboardEffect::YankResponse]
                } else {
                    no_op(pre, post, effects)
                }
            } else {
                no_op(pre, post, effects)
            }
        },
        KeyCode::Esc => {
            &&& effects == seq![DashboardEffect::Focus(FocusTarget::App)]
            &&& post == (if pre.floating_window != FloatingWindow::Closed {
                with_window(pre, FloatingWindow::Closed)
            } else {
                DashboardState { main_display: DashboardDisplay::RequestBody, ..pre }
            })
        },
        _ => no_op(pre, post, effects),
    }
}

/// The keys that open a floating window whatever the main area shows:
/// commands, renaming the endpoint or the project, the endpoints, the
/// projects and the method.
pub open spec fn opens_window_key(c: char) -> bool {
    c == 'c' || c == 'n' || c == 'j' || c == 'e' || c == 'p' || c == 'm'
}

/// Opening a floating window and pressing Esc gives the dashboard back as
/// it was, with the focus on the dashboard again.
pub proof fn lemma_escape_closes_opened_window(
    s0: DashboardState,
    c: char,
    ctrl: bool,
    s1: DashboardState,
    e1: Seq<DashboardEffect>,
    esc_ctrl: bool,
    s2: DashboardState,
    e2: Seq<DashboardEffect>,
)
    requires
        s0.floating_window == FloatingWindow::Closed,
        opens_window_key(c),
        on_key_post(s0, KeyEvent { code: KeyCode::Char(c), ctrl }, s1, e1),
        on_key_post(s1, KeyEvent { code: KeyCode::Esc, ctrl: esc_ctrl }, s2, e2),
    ensures
        s1.floating_window != FloatingWindow::Closed,
        s2 == s0,
        e2 == seq![DashboardEffect::Focus(FocusTarget::App)],
{
}

fn single(e: DashboardEffect) -> (effects: Vec<DashboardEffect>)
    ensures
        effects@ == seq![e],
{
    let effects = vec![e];
    assert(effects@ =~= seq![e]);
    effects
}

fn pair(a: DashboardEffect, b: DashboardEffect) -> (effects: Vec<DashboardEffect>)
    ensures
        effects@ == seq![a, b],
{
    let effects = vec![a, b];
    assert(effects@ =~= seq![a, b]);
    effects
}

impl DashboardState {
    fn open_window(&mut self, window: FloatingWindow, target: FocusTarget) -> (effects: Vec<DashboardEffect>)
        ensures
            opens(*old(self), *final(self), effects@, window, target),
    {
        self.floating_window = window;
        single(DashboardEffect::Focus(target))
    }

    fn set_display(&mut self, display: DashboardDisplay) -> (effects: Vec<DashboardEffect>)
        ensures
            shows_display(*old(self), *final(self), effects@, display),
    {
        self.main_display = display;
        Vec::new()
    }

    fn save_project_effects(&self, show: bool) -> (effects: Vec<DashboardEffect>)
        ensures
            writes_project(effects@, *self, show),
    {
        single(DashboardEffect::WriteProject(self.project.to_persisted(), show))
    }

    fn save_endpoint_effects(&mut self, show: bool) -> (effects: Vec<DashboardEffect>)
        ensures
            saves_endpoint(*old(self), *final(self), effects@, show),
    {
        let persisted = self.project.to_persisted();
        match save_endpoint(&persisted, &self.endpoint) {
            Ok(project) => single(DashboardEffect::WriteEndpoint(project, show)),
            Err(error) => {
                self.show_error(error.message());
                Vec::new()
            },
        }
    }

    fn clear_inputs_effects() -> (effects: Vec<DashboardEffect>)
        ensures
            clears_inputs(effects@),
    {
        pair(
            DashboardEffect::SetUrlInput(String::new()),
            DashboardEffect::SendRequestBody(TextAreaMessages::SetInput(String::new())),
        )
    }

    fn name_input(name: &String, default_name: &str) -> (value: String)
        ensures
            value@ == name_input_value(name@, default_name@),
    {
        if str_equal(name.as_str(), default_name) {
            String::new()
        } else {
            name.clone()
        }
    }

    fn new_endpoint(&mut self) -> (effects: Vec<DashboardEffect>)
        ensures
            is_new_endpoint(final(self).endpoint),
            effects@.len() >= 2,
            saves_endpoint(
                *old(self),
                DashboardState { endpoint: old(self).endpoint, ..*final(self) },
                effects@.take(effects@.len() - 2),
                false,
            ),
            clears_inputs(effects@.skip(effects@.len() - 2)),
    {
        let mut effects = self.save_endpoint_effects(false);
        let ghost saved = effects@;
        self.endpoint = Endpoint::new();
        let mut clears = Self::clear_inputs_effects();
        let ghost cleared = clears@;
        effects.append(&mut clears);
        proof {
            assert(effects@.take(effects@.len() - 2) =~= saved);
            assert(effects@.skip(effects@.len() - 2) =~= cleared);
        }
        effects
    }

    fn new_project(&mut self) -> (effects: Vec<DashboardEffect>)
        ensures
            *final(self) == (DashboardState {
                project: final(self).project,
                endpoint: final(self).endpoint,
                ..*old(self)
            }),
            is_new_project(final(self).project),
            is_new_endpoint(final(self).endpoint),
            effects@.len() == 3,
            writes_project(effects@.take(1), *old(self), false),
            clears_inputs(effects@.skip(1)),
    {
        let mut effects = self.save_project_effects(false);
        let ghost saved = effects@;
        self.project = Project::new();
        self.endpoint = Endpoint::new();
        let mut clears = Self::clear_inputs_effects();
        let ghost cleared = clears@;
        effects.append(&mut clears);
        proof {
            assert(effects@.take(1) =~= saved);
            assert(effects@.skip(1) =~= cleared);
        }
        effects
    }

    fn on_char(&mut self, c: char, ctrl: bool) -> (effects: Vec<DashboardEffect>)
        ensures
            on_key_post(*old(self), KeyEvent { code: KeyCode::Char(c), ctrl }, *final(self), effects@),
    {
        let display = self.main_display;
        if c == 'c' {
            self.open_window(FloatingWindow::Commands, FocusTarget::CommandsWindow)
        } else if c == 's' {
            self.save_project_effects(true)
        } else if c == 'n' {
            self.floating_window = FloatingWindow::ChangeEndpointName;
            let value = Self::name_input(&self.endpoint.name, DEFAULT_ENDPOINT_NAME);
            pair(
                DashboardEffect::Focus(FocusTarget::EditEndpointName),
                DashboardEffect::SendEditEndpointName(EditEndpointNameMessages::InputValue(value)),
            )
        } else if c == 'j' {
            self.floating_window = FloatingWindow::ChangeProjectName;
            let value = Self::name_input(&self.project.name, DEFAULT_PROJECT_NAME);
            pair(
                DashboardEffect::Focus(FocusTarget::EditProjectName),
                DashboardEffect::SendEditProjectName(EditProjectNameMessages::InputValue(value)),
            )
        } else if c == 'i' {
            self.save_endpoint_effects(true)
        } else if c == 'o' {
            single(DashboardEffect::OpenOptions)
        } else if c == 't' {
            self.new_endpoint()
        } else if c == 'w' {
            self.new_project()
        } else if c == 'v' {
            match display {
                DashboardDisplay::ResponseBody => single(DashboardEffect::SaveResponseBody),
                _ => Vec::new(),
            }
        } else if c == 'u' {
            if !ctrl {
                single(DashboardEffect::Focus(FocusTarget::UrlInput))
            } else {
                Vec::new()
            }
        } else if c == 'q' {
            single(DashboardEffect::Quit)
        } else if c == 'r' {
            single(DashboardEffect::SendRequest)
        } else if c == 'b' {
            match display {
                DashboardDisplay::RequestBody => single(DashboardEffect::Focus(FocusTarget::Textarea)),
                DashboardDisplay::RequestHeadersEditor => self.set_display(DashboardDisplay::RequestBody),
                DashboardDisplay::ResponseBody => single(DashboardEffect::Focus(FocusTarget::ResponseRenderer)),
                DashboardDisplay::ResponseHeaders => self.set_display(DashboardDisplay::ResponseBody),
            }
        } else if c == 'd' {
            if !ctrl {
                self.set_display(DashboardDisplay::RequestHeadersEditor)
            } else {
                Vec::new()
            }
        } else if c == 'e' {
            self.floating_window = FloatingWindow::EndpointsSelector;
            let endpoints = self.project.to_persisted().endpoints;
            pair(
                DashboardEffect::Focus(FocusTarget::EndpointsSelectorWindow),
                DashboardEffect::SendEndpointsSelector(EndpointsSelectorMessages::EndpointsList(endpoints)),
            )
        } else if c == 'p' {
            self.floating_window = FloatingWindow::Project;
            pair(DashboardEffect::Focus(FocusTarget::ProjectSelector), DashboardEffect::LoadProjects)
        } else if c == 'h' {
            match display {
                DashboardDisplay::RequestHeadersEditor => self.open_window(
                    FloatingWindow::EditHeaderSelector,
                    FocusTarget::EditHeaderSelector,
                ),
                DashboardDisplay::ResponseBody => self.set_display(DashboardDisplay::ResponseHeaders),
                _ => Vec::new(),
            }
        } else if c == 'm' {
            self.open_window(FloatingWindow::Method, FocusTarget::MethodSelector)
        } else if c == 'a' {
            match display {
                DashboardDisplay::RequestHeadersEditor => self.open_window(
                    FloatingWindow::AddHeader,
                    FocusTarget::AddHeaderWindow,
                ),
                _ => Vec::new(),
            }
        } else if c == 'y' {
            match display {
                DashboardDisplay::ResponseBody => single(DashboardEffect::YankResponse),
                _ => Vec::new(),
            }
        } else {
            Vec::new()
        }
    }

    /// Handles a key press: opens windows, switches the main area, saves,
    /// or asks the host for the request, the clipboard, and so on. Esc
    /// closes the open window, or else goes back to the request body.
    pub fn on_key(&mut self, event: KeyEvent) -> (effects: Vec<DashboardEffect>)
        ensures
            on_key_post(*old(self), event, *final(self), effects@),
    {
        match event.code {
            KeyCode::Char(c) => {
                assert(event == KeyEvent { code: KeyCode::Char(c), ctrl: event.ctrl });
                self.on_char(c, event.ctrl)
            },
            KeyCode::Esc => {
                match self.floating_window {
                    FloatingWindow::Closed => {
                        match self.main_display {
                            DashboardDisplay::RequestBody => {},
                            _ => {
                                self.main_display = DashboardDisplay::RequestBody;
                            },
                        }
                    },
                    _ => {
                        self.floating_window = FloatingWindow::Closed;
                    },
                }
                single(DashboardEffect::Focus(FocusTarget::App))
            },
            _ => Vec::new(),
        }
    }
}

/// `post` is `pre` with the floating window closed, and the focus goes back
/// to the dashboard.
pub open spec fn closes(pre: DashboardState, post: DashboardState, effects: Seq<DashboardEffect>) -> bool {
    post == with_window(pre, FloatingWindow::Closed) && effects == seq![DashboardEffect::Focus(FocusTarget::App)]
}

/// What the commands window's events do.
pub open spec fn commands_post(
    pre: DashboardState,
    ident: Seq<char>,
    value: Seq<char>,
    post: DashboardState,
    effects: Seq<DashboardEffect>,
) -> bool {
    if ident == "commands__selection"@ {
        if value == "g"@ {
            opens(pre, post, effects, FloatingWindow::CodeGen, FocusTarget::CodegenWindow)
        } else if value == "e"@ {
            &&& post == with_window(pre, FloatingWindow::CodeGen)
            &&& effects == seq![
                DashboardEffect::Focus(FocusTarget::CodegenWindow),
                DashboardEffect::ExportPostman,
            ]
        } else {
            no_op(pre, post, effects)
        }
    } else if ident == "commands__cancel"@ {
        closes(pre, post, effects)
    } else {
        no_op(pre, post, effects)
    }
}

/// The commands window.
pub struct Commands;

impl Commands {
    /// Handles an event of the commands window: `g` opens the code
    /// generator, `e` opens it and exports the project for Postman.
    pub fn handle_message(value: &str, ident: &str, state: &mut DashboardState) -> (effects: Vec<DashboardEffect>)
        ensures
            commands_post(*old(state), ident@, value@, *final(state), effects@),
    {
        if str_equal(ident, "commands__selection") {
            if str_equal(value, "g") {
                state.open_window(FloatingWindow::CodeGen, FocusTarget::CodegenWindow)
            } else if str_equal(value, "e") {
                state.floating_window = FloatingWindow::CodeGen;
                pair(DashboardEffect::Focus(FocusTarget::CodegenWindow), DashboardEffect::ExportPostman)
            } else {
                Vec::new()
            }
        } else if str_equal(ident, "commands__cancel") {
            state.open_window(FloatingWindow::Closed, FocusTarget::App)
        } else {
            Vec::new()
        }
    }
}

/// The language a code-generator key selects: `r` Rust, `t` TypeScript,
/// `j` JavaScript, anything else Rust.
pub open spec fn spec_language_for_key(c: char) -> Seq<char> {
    if c == 't' {
        "typescript"@
    } else if c == 'j' {
        "javascript"@
    } else {
        "rust"@
    }
}

/// What the code generator's events do.
pub open spec fn code_gen_post(
    pre: DashboardState,
    ident: Seq<char>,
    value: Seq<char>,
    post: DashboardState,
    effects: Seq<DashboardEffect>,
) -> bool {
    if ident == "codegen__selection"@ {
        let language = if value == "rust"@ {
            Some(CodeLanguage::Rust)
        } else if value == "typescript"@ {
            Some(CodeLanguage::Web(WebType::TypeScript))
        } else if value == "javascript"@ {
            Some(CodeLanguage::Web(WebType::JavaScript))
        } else {
            None
        };
        match language {
            Some(l) => post == with_window(pre, FloatingWindow::Closed) && effects == seq![
                DashboardEffect::Focus(FocusTarget::App),
                DashboardEffect::GenerateCode(l),
            ],
            None => no_op(pre, post, effects),
        }
    } else if ident == "codegen__cancel"@ {
        closes(pre, post, effects)
    } else {
        no_op(pre, post, effects)
    }
}

/// The code-generator window.
pub struct CodeGen;

impl CodeGen {
    /// The language a key selects in the code-generator window.
    pub fn language_for_key(c: char) -> (language: &'static str)
        ensures
            language@ == spec_language_for_key(c),
    {
        if c == 't' {
            "typescript"
        } else if c == 'j' {
            "javascript"
        } else {
            "rust"
        }
    }

    /// Handles an event of the code-generator window: a known language
    /// closes the window and asks for the code.
    pub fn handle_message(value: &str, ident: &str, state: &mut DashboardState) -> (effects: Vec<DashboardEffect>)
        ensures
            code_gen_post(*old(state), ident@, value@, *final(state), effects@),
    {
        if str_equal(ident, "codegen__selection") {
            let language = if str_equal(value, "rust") {
                Some(CodeLanguage::Rust)
            } else if str_equal(value, "typescript") {
                Some(CodeLanguage::Web(WebType::TypeScript))
            } else if str_equal(value, "javascript") {
                Some(CodeLanguage::Web(WebType::JavaScript))
            } else {
                None
            };
            match language {
                Some(l) => {
                    state.floating_window = FloatingWindow::Closed;
                    pair(DashboardEffect::Focus(FocusTarget::App), DashboardEffect::GenerateCode(l))
                },
                None => Vec::new(),
            }
        } else if str_equal(ident, "codegen__cancel") {
            state.open_window(FloatingWindow::Closed, FocusTarget::App)
        } else {
            Vec::new()
        }
    }
}

/// What the add-header window's events do. A submitted header whose name
/// or value is blank is dropped.
pub open spec fn add_header_post(
    pre: DashboardState,
    ident: Seq<char>,
    value: Seq<char>,
    post: DashboardState,
    effects: Seq<DashboardEffect>,
) -> bool {
    if ident == "add_header__name_update"@ {
        post.new_header_name@ == value && post == DashboardState { new_header_name: post.new_header_name, ..pre }
            && effects.len() == 0
    } else if ident == "add_header__value_update"@ {
        post.new_header_value@ == value && post == DashboardState { new_header_value: post.new_header_value, ..pre }
            && effects.len() == 0
    } else if ident == "add_header__submit"@ {
        &&& effects == seq![DashboardEffect::Focus(FocusTarget::App)]
        &&& if spec_trim(pre.new_header_name@).len() == 0 || spec_trim(pre.new_header_value@).len() == 0 {
            post == with_window(pre, FloatingWindow::Closed)
        } else {
            &&& headers_view(post.endpoint.headers@) == headers_view(pre.endpoint.headers@).push(
                (pre.new_header_name@, pre.new_header_value@),
            )
            &&& post == DashboardState {
                floating_window: FloatingWindow::Closed,
                endpoint: Endpoint { headers: post.endpoint.headers, ..pre.endpoint },
                ..pre
            }
        }
    } else if ident == "add_header__cancel"@ {
        &&& post.new_header_name@.len() == 0
        &&& post.new_header_value@.len() == 0
        &&& post == DashboardState {
            floating_window: FloatingWindow::Closed,
            new_header_name: post.new_header_name,
            new_header_value: post.new_header_value,
            ..pre
        }
        &&& effects == seq![DashboardEffect::Focus(FocusTarget::App)]
    } else {
        no_op(pre, post, effects)
    }
}

proof fn lemma_push_header(headers: Seq<Header>, h: Header)
    ensures
        headers_view(headers.push(h)) == headers_view(headers).push(h@),
{
    assert(headers_view(headers.push(h)) =~= headers_view(headers).push(h@));
}

/// The window that adds a header to the endpoint.
pub struct AddHeaderWindow;

impl AddHeaderWindow {
    /// Handles an event of the add-header window: the inputs' updates, the
    /// submission of the header, and cancelling.
    pub fn handle_message(value: &str, ident: &str, state: &mut DashboardState) -> (effects: Vec<DashboardEffect>)
        ensures
            add_header_post(*old(state), ident@, value@, *final(state), effects@),
    {
        if str_equal(ident, "add_header__name_update") {
            state.new_header_name = value.to_owned();
            Vec::new()
        } else if str_equal(ident, "add_header__value_update") {
            state.new_header_value = value.to_owned();
            Vec::new()
        } else if str_equal(ident, "add_header__submit") {
            state.floating_window = FloatingWindow::Closed;
            let name_chars = chars_of(state.new_header_name.as_str());
            let value_chars = chars_of(state.new_header_value.as_str());
            let name_blank = trim(name_chars.as_slice()).len() == 0;
            let value_blank = trim(value_chars.as_slice()).len() == 0;
            if !name_blank && !value_blank {
                let header = Header { name: state.new_header_name.clone(), value: state.new_header_value.clone() };
                let ghost before = state.endpoint.headers@;
                state.endpoint.headers.push(header);
                proof {
                    lemma_push_header(before, header);
                }
            }
            single(DashboardEffect::Focus(FocusTarget::App))
        } else if str_equal(ident, "add_header__cancel") {
            state.floating_window = FloatingWindow::Closed;
            state.new_header_name = String::new();
            state.new_header_value = String::new();
            single(DashboardEffect::Focus(FocusTarget::App))
        } else {
            Vec::new()
        }
    }
}

/// What the edit-header window's events do. Cancelling puts the header that
/// was being edited back, at the end of the list.
pub open spec fn edit_header_post(
    pre: DashboardState,
    ident: Seq<char>,
    value: Seq<char>,
    post: DashboardState,
    effects: Seq<DashboardEffect>,
) -> bool {
    if ident == "edit_header__name_update"@ {
        post.edit_header_name@ == value && post == DashboardState { edit_header_name: post.edit_header_name, ..pre }
            && effects.len() == 0
    } else if ident == "edit_header__value_update"@ {
        post.edit_header_value@ == value && post == DashboardState { edit_header_value: post.edit_header_value, ..pre }
            && effects.len() == 0
    } else if ident == "edit_header__submit"@ {
        &&& headers_view(post.endpoint.headers@) == headers_view(pre.endpoint.headers@).push(
            (pre.edit_header_name@, pre.edit_header_value@),
        )
        &&& post == DashboardState {
            floating_window: FloatingWindow::Closed,
            endpoint: Endpoint { headers: post.endpoint.headers, ..pre.endpoint },
            ..pre
        }
        &&& effects == seq![DashboardEffect::Focus(FocusTarget::App)]
    } else if ident == "edit_header__cancel"@ {
        &&& post.edit_header_name@.len() == 0
        &&& post.edit_header_value@.len() == 0
        &&& headers_view(post.endpoint.headers@) == (match pre.header_being_edited {
            Some(h) => headers_view(pre.endpoint.headers@).push(h@),
            None => headers_view(pre.endpoint.headers@),
        })
        &&& post == DashboardState {
            floating_window: FloatingWindow::Closed,
            edit_header_name: post.edit_header_name,
            edit_header_value: post.edit_header_value,
            endpoint: Endpoint { headers: post.endpoint.headers, ..pre.endpoint },
            ..pre
        }
        &&& effects == seq![DashboardEffect::Focus(FocusTarget::App)]
    } else {
        no_op(pre, post, effects)
    }
}

/// The window that edits a header of the endpoint.
pub struct EditHeaderWindow;

impl EditHeaderWindow {
    /// Handles an event of the edit-header window.
    pub fn handle_message(value: &str, ident: &str, state: &mut DashboardState) -> (effects: Vec<DashboardEffect>)
        ensures
            edit_header_post(*old(state), ident@, value@, *final(state), effects@),
    {
        if str_equal(ident, "edit_header__name_update") {
            state.edit_header_name = value.to_owned();
            Vec::new()
        } else if str_equal(ident, "edit_header__value_update") {
            state.edit_header_value = value.to_owned();
            Vec::new()
        } else if str_equal(ident, "edit_header__submit") {
            let header = Header { name: state.edit_header_name.clone(), value: state.edit_header_value.clone() };
            let ghost before = state.endpoint.headers@;
            state.endpoint.headers.push(header);
            proof {
                lemma_push_header(before, header);
            }
            state.floating_window = FloatingWindow::Closed;
            single(DashboardEffect::Focus(FocusTarget::App))
        } else if str_equal(ident, "edit_header__cancel") {
            state.floating_window = FloatingWindow::Closed;
            state.edit_header_name = String::new();
            state.edit_header_value = String::new();
            match &state.header_being_edited {
                Some(h) => {
                    let header = copy_header(h);
                    let ghost before = state.endpoint.headers@;
                    state.endpoint.headers.push(header);
                    proof {
                        lemma_push_header(before, header);
                    }
                },
                None => {},
            }
            single(DashboardEffect::Focus(FocusTarget::App))
        } else {
            Vec::new()
        }
    }
}

/// What the header selector's events do. The selection names the header to
/// edit by its position; it is taken out of the list while it is edited.
/// A position past the last header does nothing; on an empty list,
/// position 0 opens the editor with no header taken out.
pub open spec fn edit_header_selector_post(
    pre: DashboardState,
    ident: Seq<char>,
    value: Seq<char>,
    post: DashboardState,
    effects: Seq<DashboardEffect>,
) -> bool {
    if ident == "edit_header_selector__cancel"@ {
        closes(pre, post, effects)
    } else if ident == "edit_header_selector__selection"@ {
        let selection = spec_parse_usize(value)->Some_0;
        let count = pre.endpoint.headers@.len();
        let last_index = if count > 0 { count - 1 } else { 0 };
        if selection > last_index {
            no_op(pre, post, effects)
        } else if selection < count {
            let removed = pre.endpoint.headers@[selection as int];
            &&& post.endpoint.headers@ == pre.endpoint.headers@.remove(selection as int)
            &&& post.header_being_edited == Some(removed)
            &&& post.edit_header_name@ == removed.name@
            &&& post.edit_header_value@ == removed.value@
            &&& post == DashboardState {
                endpoint: Endpoint { headers: post.endpoint.headers, ..pre.endpoint },
                header_being_edited: post.header_being_edited,
                edit_header_name: post.edit_header_name,
                edit_header_value: post.edit_header_value,
                floating_window: FloatingWindow::EditHeader,
                ..pre
            }
            &&& effects.len() == 2
            &&& effects[0] matches DashboardEffect::SetEditHeaderInputs(n, v) && n@ == removed.name@ && v@ == removed.value@
            &&& effects[1] == DashboardEffect::Focus(FocusTarget::EditHeaderWindow)
        } else {
            &&& post == DashboardState {
                header_being_edited: None,
                floating_window: FloatingWindow::EditHeader,
                ..pre
            }
            &&& effects.len() == 2
            &&& effects[0] matches DashboardEffect::SetEditHeaderInputs(n, v)
                && n@ == pre.edit_header_name@ && v@ == pre.edit_header_value@
            &&& effects[1] == DashboardEffect::Focus(FocusTarget::EditHeaderWindow)
        }
    } else {
        no_op(pre, post, effects)
    }
}

/// The window that picks the header to edit.
pub struct EditHeaderSelector;

impl EditHeaderSelector {
    /// Handles an event of the header selector. A selection carries the
    /// position typed by the user, a number.
    pub fn handle_message(value: &str, ident: &str, state: &mut DashboardState) -> (effects: Vec<DashboardEffect>)
        requires
            ident@ == "edit_header_selector__selection"@ ==> spec_parse_usize(value@) is Some,
        ensures
            edit_header_selector_post(*old(state), ident@, value@, *final(state), effects@),
    {
        if str_equal(ident, "edit_header_selector__cancel") {
            state.open_window(FloatingWindow::Closed, FocusTarget::App)
        } else if str_equal(ident, "edit_header_selector__selection") {
            let selection = match parse_usize(value) {
                Some(n) => n,
                None => {
                    return Vec::new();
                },
            };
            let count = state.endpoint.headers.len();
            let last_index = count.saturating_sub(1);
            if selection > last_index {
                return Vec::new();
            }
            if selection < count {
                let header = state.endpoint.headers.remove(selection);
                state.edit_header_name = header.name.clone();
                state.edit_header_value = header.value.clone();
                state.header_being_edited = Some(header);
            } else {
                state.header_being_edited = None;
            }
            state.floating_window = FloatingWindow::EditHeader;
            pair(
                DashboardEffect::SetEditHeaderInputs(state.edit_header_name.clone(), state.edit_header_value.clone()),
                DashboardEffect::Focus(FocusTarget::EditHeaderWindow),
            )
        } else {
            Vec::new()
        }
    }
}

/// The method a key selects in the method selector, by its upper-case
/// letter: G, P, U, D, H, O and C.
pub open spec fn spec_method_for_key(c: char) -> Option<Seq<char>> {
    if c == 'g' || c == 'G' {
        Some("GET"@)
    } else if c == 'p' || c == 'P' {
        Some("POST"@)
    } else if c == 'u' || c == 'U' {
        Some("PUT"@)
    } else if c == 'd' || c == 'D' {
        Some("DELETE"@)
    } else if c == 'h' || c == 'H' {
        Some("HEAD"@)
    } else if c == 'o' || c == 'O' {
        Some("OPTIONS"@)
    } else if c == 'c' || c == 'C' {
        Some("CUSTOM"@)
    } else {
        None
    }
}

/// An HTTP method as the method selector knows it.
#[derive(Debug, Clone, Copy, PartialEq, Eq)]
pub enum Method {
    Get,
    Post,
    Put,
    Delete,
    Patch,
    Options,
    Connect,
    Custom,
}

/// Reading a method never fails; the error type is there for the
/// signature's sake.
#[derive(Debug, Clone, Copy, PartialEq, Eq)]
pub struct MethodParseError;

/// The method an upper-case name stands for; any other name is a custom
/// method.
pub open spec fn spec_method_of_upper(upper: Seq<char>) -> Method {
    if upper == "GET"@ {
        Method::Get
    } else if upper == "POST"@ {
        Method::Post
    } else if upper == "PUT"@ {
        Method::Put
    } else if upper == "DELETE"@ {
        Method::Delete
    } else if upper == "PATCH"@ {
        Method::Patch
    } else if upper == "OPTIONS"@ {
        Method::Options
    } else if upper == "CONNECT"@ {
        Method::Connect
    } else {
        Method::Custom
    }
}

/// The name a method is shown with.
pub open spec fn spec_method_name(m: Method) -> Seq<char> {
    match m {
        Method::Get => "GET"@,
        Method::Post => "POST"@,
        Method::Put => "PUT"@,
        Method::Delete => "DELETE"@,
        Method::Patch => "PATCH"@,
        Method::Options => "OPTIONS"@,
        Method::Connect => "CONNECT"@,
        Method::Custom => "CUSTOM"@,
    }
}

impl Method {
    /// The method an upper-case name stands for.
    pub fn of_upper(upper: &str) -> (m: Method)
        ensures
            m == spec_method_of_upper(upper@),
    {
        if str_equal(upper, "GET") {
            Method::Get
        } else if str_equal(upper, "POST") {
            Method::Post
        } else if str_equal(upper, "PUT") {
            Method::Put
        } else if str_equal(upper, "DELETE") {
            Method::Delete
        } else if str_equal(upper, "PATCH") {
            Method::Patch
        } else if str_equal(upper, "OPTIONS") {
            Method::Options
        } else if str_equal(upper, "CONNECT") {
            Method::Connect
        } else {
            Method::Custom
        }
    }

    /// The method a name stands for, in any case.
    pub fn from_str(s: &str) -> (m: Result<Method, MethodParseError>)
        ensures
            m == Ok::<Method, MethodParseError>(spec_method_of_upper(spec_to_uppercase(s@))),
    {
        let upper = to_uppercase(s);
        Ok(Method::of_upper(upper.as_str()))
    }

    /// The name the method is shown with.
    pub fn name(&self) -> (name: &'static str)
        ensures
            name@ == spec_method_name(*self),
    {
        match self {
            Method::Get => "GET",
            Method::Post => "POST",
            Method::Put => "PUT",
            Method::Delete => "DELETE",
            Method::Patch => "PATCH",
            Method::Options => "OPTIONS",
            Method::Connect => "CONNECT",
            Method::Custom => "CUSTOM",
        }
    }
}

/// Reading back the name a method is shown with gives the method.
pub proof fn lemma_method_name_read_back(m: Method)
    ensures
        spec_method_of_upper(spec_method_name(m)) == m,
{
    reveal_strlit("GET");
    reveal_strlit("POST");
    reveal_strlit("PUT");
    reveal_strlit("DELETE");
    reveal_strlit("PATCH");
    reveal_strlit("OPTIONS");
    reveal_strlit("CONNECT");
    reveal_strlit("CUSTOM");
    let names = seq!["GET"@, "POST"@, "PUT"@, "DELETE"@, "PATCH"@, "OPTIONS"@, "CONNECT"@, "CUSTOM"@];
    assert forall|i: int, j: int| 0 <= i < j < 8 implies names[i] != names[j] by {
        if names[i].len() == names[j].len() {
            assert(names[i][0] != names[j][0]);
        }
    }
    assert(names[0] == "GET"@ && names[1] == "POST"@ && names[2] == "PUT"@ && names[3] == "DELETE"@);
    assert(names[4] == "PATCH"@ && names[5] == "OPTIONS"@ && names[6] == "CONNECT"@ && names[7] == "CUSTOM"@);
}

/// What the method selector's events do.
pub open spec fn method_selector_post(
    pre: DashboardState,
    ident: Seq<char>,
    value: Seq<char>,
    post: DashboardState,
    effects: Seq<DashboardEffect>,
) -> bool {
    if ident == "method_selector__cancel"@ {
        post == with_window(pre, FloatingWindow::Closed) && effects.len() == 0
    } else if ident == "method_selector__new"@ {
        &&& post.endpoint.method@ == value
        &&& post == DashboardState { endpoint: Endpoint { method: post.endpoint.method, ..pre.endpoint }, ..pre }
        &&& effects == seq![
            DashboardEffect::Focus(FocusTarget::UrlInput),
            DashboardEffect::Focus(FocusTarget::App),
        ]
    } else {
        no_op(pre, post, effects)
    }
}

/// The window that picks the request method.
pub struct MethodSelector;

impl MethodSelector {
    /// The method a key selects (a key that selects none leaves the window
    /// open). Only ASCII letters upper-case to G, P, U, D, H, O and C.
    pub fn method_for_key(c: char) -> (method: Option<&'static str>)
        ensures
            match spec_method_for_key(c) {
                Some(m) => method is Some && method->Some_0@ == m,
                None => method is None,
            },
    {
        if c == 'g' || c == 'G' {
            Some("GET")
        } else if c == 'p' || c == 'P' {
            Some("POST")
        } else if c == 'u' || c == 'U' {
            Some("PUT")
        } else if c == 'd' || c == 'D' {
            Some("DELETE")
        } else if c == 'h' || c == 'H' {
            Some("HEAD")
        } else if c == 'o' || c == 'O' {
            Some("OPTIONS")
        } else if c == 'c' || c == 'C' {
            Some("CUSTOM")
        } else {
            None
        }
    }

    /// Handles an event of the method selector: a new method is set on the
    /// endpoint.
    pub fn handle_message(value: &str, ident: &str, state: &mut DashboardState) -> (effects: Vec<DashboardEffect>)
        ensures
            method_selector_post(*old(state), ident@, value@, *final(state), effects@),
    {
        if str_equal(ident, "method_selector__cancel") {
            state.floating_window = FloatingWindow::Closed;
            Vec::new()
        } else if str_equal(ident, "method_selector__new") {
            state.endpoint.method = value.to_owned();
            pair(DashboardEffect::Focus(FocusTarget::UrlInput), DashboardEffect::Focus(FocusTarget::App))
        } else {
            Vec::new()
        }
    }
}

/// What the endpoint-name window's events do.
pub open spec fn edit_endpoint_name_post(
    pre: DashboardState,
    ident: Seq<char>,
    value: Seq<char>,
    post: DashboardState,
    effects: Seq<DashboardEffect>,
) -> bool {
    if ident == "edit_endpoint_name__submit"@ {
        &&& post.endpoint.name@ == value
        &&& post == DashboardState {
            endpoint: Endpoint { name: post.endpoint.name, ..pre.endpoint },
            floating_window: FloatingWindow::Closed,
            ..pre
        }
        &&& effects == seq![
            DashboardEffect::Focus(FocusTarget::App),
            DashboardEffect::SendEditEndpointName(EditEndpointNameMessages::ClearInput),
        ]
    } else if ident == "edit_endpoint_name__cancel"@ {
        closes(pre, post, effects)
    } else {
        no_op(pre, post, effects)
    }
}

/// The window that renames the endpoint.
pub struct EditEndpointName;

impl EditEndpointName {
    /// Handles an event of the endpoint-name window.
    pub fn handle_message(value: &str, ident: &str, state: &mut DashboardState) -> (effects: Vec<DashboardEffect>)
        ensures
            edit_endpoint_name_post(*old(state), ident@, value@, *final(state), effects@),
    {
        if str_equal(ident, "edit_endpoint_name__submit") {
            state.endpoint.name = value.to_owned();
            state.floating_window = FloatingWindow::Closed;
            pair(
                DashboardEffect::Focus(FocusTarget::App),
                DashboardEffect::SendEditEndpointName(EditEndpointNameMessages::ClearInput),
            )
        } else if str_equal(ident, "edit_endpoint_name__cancel") {
            state.open_window(FloatingWindow::Closed, FocusTarget::App)
        } else {
            Vec::new()
        }
    }
}

/// What the project-name window's events do.
pub open spec fn edit_project_name_post(
    pre: DashboardState,
    ident: Seq<char>,
    value: Seq<char>,
    post: DashboardState,
    effects: Seq<DashboardEffect>,
) -> bool {
    if ident == "edit_project_name__submit"@ {
        &&& post.project.name@ == value
        &&& post == DashboardState {
            project: Project { name: post.project.name, ..pre.project },
            floating_window: FloatingWindow::Closed,
            ..pre
        }
        &&& effects == seq![
            DashboardEffect::Focus(FocusTarget::App),
            DashboardEffect::SendEditProjectName(EditProjectNameMessages::ClearInput),
        ]
    } else if ident == "edit_project_name__cancel"@ {
        closes(pre, post, effects)
    } else {
        no_op(pre, post, effects)
    }
}

/// The window that renames the project.
pub struct EditProjectName;

impl EditProjectName {
    /// Handles an event of the project-name window.
    pub fn handle_message(value: &str, ident: &str, state: &mut DashboardState) -> (effects: Vec<DashboardEffect>)
        ensures
            edit_project_name_post(*old(state), ident@, value@, *final(state), effects@),
    {
        if str_equal(ident, "edit_project_name__submit") {
            state.project.name = value.to_owned();
            state.floating_window = FloatingWindow::Closed;
            pair(
                DashboardEffect::Focus(FocusTarget::App),
                DashboardEffect::SendEditProjectName(EditProjectNameMessages::ClearInput),
            )
        } else if str_equal(ident, "edit_project_name__cancel") {
            state.open_window(FloatingWindow::Closed, FocusTarget::App)
        } else {
            Vec::new()
        }
    }
}

/// What the events of a selector of `prefix` do: cancel closes it, a
/// selection closes it and has the chosen item decoded, a deletion asks
/// for confirmation once the item is decoded.
pub open spec fn selector_post(
    pre: DashboardState,
    ident: Seq<char>,
    post: DashboardState,
    effects: Seq<DashboardEffect>,
    cancel: Seq<char>,
    selection: Seq<char>,
    delete: Seq<char>,
    decode_select: DashboardEffect,
    decode_delete: DashboardEffect,
) -> bool {
    if ident == cancel {
        closes(pre, post, effects)
    } else if ident == selection {
        post == with_window(pre, FloatingWindow::Closed) && effects == seq![
            DashboardEffect::Focus(FocusTarget::App),
            decode_select,
        ]
    } else if ident == delete {
        post == with_window(pre, FloatingWindow::ConfirmProject) && effects == seq![decode_delete]
    } else {
        no_op(pre, post, effects)
    }
}

/// The window that lists the saved projects.
pub struct ProjectWindow;

impl ProjectWindow {
    /// Handles an event of the project window.
    pub fn handle_message(value: &str, ident: &str, state: &mut DashboardState) -> (effects: Vec<DashboardEffect>)
        ensures
            selector_post(
                *old(state),
                ident@,
                *final(state),
                effects@,
                "project_window__cancel"@,
                "project_window__selection"@,
                "project_window__delete"@,
                DashboardEffect::DecodeProject(false),
                DashboardEffect::DecodeProject(true),
            ),
    {
        if str_equal(ident, "project_window__cancel") {
            state.open_window(FloatingWindow::Closed, FocusTarget::App)
        } else if str_equal(ident, "project_window__selection") {
            state.floating_window = FloatingWindow::Closed;
            pair(DashboardEffect::Focus(FocusTarget::App), DashboardEffect::DecodeProject(false))
        } else if str_equal(ident, "project_window__delete") {
            state.floating_window = FloatingWindow::ConfirmProject;
            single(DashboardEffect::DecodeProject(true))
        } else {
            Vec::new()
        }
    }
}

/// The window that lists the project's endpoints.
pub struct EndpointsSelector;

impl EndpointsSelector {
    /// Handles an event of the endpoints selector.
    pub fn handle_message(value: &str, ident: &str, state: &mut DashboardState) -> (effects: Vec<DashboardEffect>)
        ensures
            selector_post(
                *old(state),
                ident@,
                *final(state),
                effects@,
                "endpoints_selector__cancel"@,
                "endpoints_selector__selection"@,
                "endpoints_selector__delete"@,
                DashboardEffect::DecodeEndpoint(false),
                DashboardEffect::DecodeEndpoint(true),
            ),
    {
        if str_equal(ident, "endpoints_selector__cancel") {
            state.open_window(FloatingWindow::Closed, FocusTarget::App)
        } else if str_equal(ident, "endpoints_selector__selection") {
            state.floating_window = FloatingWindow::Closed;
            pair(DashboardEffect::Focus(FocusTarget::App), DashboardEffect::DecodeEndpoint(false))
        } else if str_equal(ident, "endpoints_selector__delete") {
            state.floating_window = FloatingWindow::ConfirmProject;
            single(DashboardEffect::DecodeEndpoint(true))
        } else {
            Vec::new()
        }
    }
}

/// The component an event comes from: what stands before the first `__` of
/// its name (nothing when there is none).
pub open spec fn event_component(ident: Seq<char>) -> Seq<char> {
    match first_occurrence(ident, "__"@) {
        Some(i) => ident.take(i),
        None => seq![],
    }
}

/// The component an event comes from.
pub fn event_component_of(ident: &str) -> (component: String)
    ensures
        component@ == event_component(ident@),
{
    let chars = chars_of(ident);
    let sep = chars_of("__");
    let found = find(chars.as_slice(), sep.as_slice());
    match found {
        Some(i) => {
            let mut prefix: Vec<char> = Vec::new();
            let mut k: usize = 0;
            while k < i
                invariant
                    k <= i,
                    i <= chars@.len(),
                    prefix@ == chars@.take(k as int),
                decreases i - k,
            {
                prefix.push(chars[k]);
                k = k + 1;
                proof {
                    assert(prefix@ =~= chars@.take(k as int));
                }
            }
            string_from_chars(prefix.as_slice())
        },
        None => String::new(),
    }
}

/// What an event published by a hosted window does to the dashboard: it
/// goes to the window its name starts with.
pub open spec fn receive_post(
    pre: DashboardState,
    ident: Seq<char>,
    value: Seq<char>,
    post: DashboardState,
    effects: Seq<DashboardEffect>,
) -> bool {
    let component = event_component(ident);
    if ident == "url_input_focus"@ {
        post == pre && effects == seq![DashboardEffect::Focus(FocusTarget::App)]
    } else if component == "commands"@ {
        commands_post(pre, ident, value, post, effects)
    } else if component == "codegen"@ {
        code_gen_post(pre, ident, value, post, effects)
    } else if component == "add_header"@ {
        add_header_post(pre, ident, value, post, effects)
    } else if component == "edit_header"@ {
        edit_header_post(pre, ident, value, post, effects)
    } else if component == "edit_header_selector"@ {
        edit_header_selector_post(pre, ident, value, post, effects)
    } else if component == "method_selector"@ {
        method_selector_post(pre, ident, value, post, effects)
    } else if component == "project_window"@ {
        selector_post(
            pre,
            ident,
            post,
            effects,
            "project_window__cancel"@,
            "project_window__selection"@,
            "project_window__delete"@,
            DashboardEffect::DecodeProject(false),
            DashboardEffect::DecodeProject(true),
        )
    } else if component == "edit_endpoint_name"@ {
        edit_endpoint_name_post(pre, ident, value, post, effects)
    } else if component == "edit_project_name"@ {
        edit_project_name_post(pre, ident, value, post, effects)
    } else if component == "endpoints_selector"@ {
        selector_post(
            pre,
            ident,
            post,
            effects,
            "endpoints_selector__cancel"@,
            "endpoints_selector__selection"@,
            "endpoints_selector__delete"@,
            DashboardEffect::DecodeEndpoint(false),
            DashboardEffect::DecodeEndpoint(true),
        )
    } else {
        no_op(pre, post, effects)
    }
}

/// What a message from another component does to the dashboard.
pub open spec fn message_post(
    pre: DashboardState,
    message: DashboardMessages,
    post: DashboardState,
    effects: Seq<DashboardEffect>,
) -> bool {
    match message {
        DashboardMessages::ShowSucces((title, text)) => shows_message(pre, post, title@, text@)
            && effects.len() == 0,
        DashboardMessages::ShowError(text) => shows_error(pre, post, text@) && effects.len() == 0,
        DashboardMessages::ThemeUpdate => no_op(pre, post, effects),
        DashboardMessages::TextInput(TextInputMessages::Change(v)) => {
            &&& post.endpoint.url@ == v@
            &&& post.endpoint.name@ == (if pre.endpoint.url@ == pre.endpoint.name@ {
                v@
            } else {
                pre.endpoint.name@
            })
            &&& post == DashboardState {
                endpoint: Endpoint { url: post.endpoint.url, name: post.endpoint.name, ..pre.endpoint },
                ..pre
            }
            &&& effects.len() == 0
        },
        DashboardMessages::TextInput(TextInputMessages::Update(u)) => {
            if u.id@ == "endpoint_url_input"@ {
                &&& post.endpoint.url@ == u.value@
                &&& post == DashboardState { endpoint: Endpoint { url: post.endpoint.url, ..pre.endpoint }, ..pre }
                &&& effects.len() == 0
            } else {
                no_op(pre, post, effects)
            }
        },
        DashboardMessages::TextInput(TextInputMessages::Escape(u)) => {
            if u.id@ == "endpoint_url_input"@ {
                post == pre && effects == seq![
                    DashboardEffect::Focus(FocusTarget::App),
                    DashboardEffect::UnfocusUrlInput,
                ]
            } else {
                no_op(pre, post, effects)
            }
        },
        DashboardMessages::TextArea(TextAreaMessages::InputChange(v)) => {
            &&& post.endpoint.body@ == v@
            &&& post == DashboardState { endpoint: Endpoint { body: post.endpoint.body, ..pre.endpoint }, ..pre }
            &&& effects.len() == 0
        },
        DashboardMessages::TextArea(TextAreaMessages::SetInput(_)) => false,
    }
}

/// The endpoint shown after a project is opened: its first endpoint, or a
/// new one when it has none.
pub open spec fn opened_endpoint(post: DashboardState, p: PersistedProject) -> bool {
    if p@.endpoints.len() > 0 {
        post.endpoint.content() == p@.endpoints[0] && post.endpoint.row_color@ == DEFAULT_ROW_COLOR@
    } else {
        is_new_endpoint(post.endpoint)
    }
}

/// The title of the window that confirms deleting an item named `name`.
pub open spec fn delete_title(name: Seq<char>) -> Seq<char> {
    "Delete "@ + name
}

/// The file a response body is saved to: the endpoint's name with each `/`
/// made `_`, the time in seconds, and `.txt`.
pub open spec fn spec_response_file_name(endpoint_name: Seq<char>, seconds: nat) -> Seq<char> {
    spec_replace(endpoint_name, "/"@, "_"@) + "_"@ + spec_decimal(seconds) + ".txt"@
}

/// The upper-case hexadecimal digit `d` (for `0 <= d < 16`).
pub open spec fn hex_digit(d: int) -> char {
    if d < 10 {
        crate::text::digit_char(d)
    } else if d == 10 {
        'A'
    } else if d == 11 {
        'B'
    } else if d == 12 {
        'C'
    } else if d == 13 {
        'D'
    } else if d == 14 {
        'E'
    } else {
        'F'
    }
}

/// A colour as `#RRGGBB` with upper-case hexadecimal digits.
pub open spec fn spec_hex_color(r: u8, g: u8, b: u8) -> Seq<char> {
    seq![
        '#',
        hex_digit((r / 16) as int),
        hex_digit((r % 16) as int),
        hex_digit((g / 16) as int),
        hex_digit((g % 16) as int),
        hex_digit((b / 16) as int),
        hex_digit((b % 16) as int),
    ]
}

fn hex_char(d: u8) -> (c: char)
    requires
        d < 16,
    ensures
        c == hex_digit(d as int),
{
    if d == 0 { '0' } else if d == 1 { '1' } else if d == 2 { '2' } else if d == 3 { '3' }
    else if d == 4 { '4' } else if d == 5 { '5' } else if d == 6 { '6' } else if d == 7 { '7' }
    else if d == 8 { '8' } else if d == 9 { '9' } else if d == 10 { 'A' } else if d == 11 { 'B' }
    else if d == 12 { 'C' } else if d == 13 { 'D' } else if d == 14 { 'E' } else { 'F' }
}

/// Formats a colour as `#RRGGBB`, as the dashboard's background is given.
pub fn hex_color(r: u8, g: u8, b: u8) -> (color: String)
    ensures
        color@ == spec_hex_color(r, g, b),
{
    let mut color = String::new();
    color.push('#');
    color.push(hex_char(r / 16));
    color.push(hex_char(r % 16));
    color.push(hex_char(g / 16));
    color.push(hex_char(g % 16));
    color.push(hex_char(b / 16));
    color.push(hex_char(b % 16));
    proof {
        assert(color@ =~= spec_hex_color(r, g, b));
    }
    color
}

impl DashboardState {
    /// Handles an event a hosted window published. Each window's events
    /// carry its name before `__`; a header selection carries a number.
    pub fn receive(&mut self, ident: &str, value: &str) -> (effects: Vec<DashboardEffect>)
        requires
            ident@ == "edit_header_selector__selection"@ ==> spec_parse_usize(value@) is Some,
        ensures
            receive_post(*old(self), ident@, value@, *final(self), effects@),
    {
        if str_equal(ident, "url_input_focus") {
            return single(DashboardEffect::Focus(FocusTarget::App));
        }
        let component = event_component_of(ident);
        let c = component.as_str();
        if str_equal(c, "commands") {
            Commands::handle_message(value, ident, self)
        } else if str_equal(c, "codegen") {
            CodeGen::handle_message(value, ident, self)
        } else if str_equal(c, "add_header") {
            AddHeaderWindow::handle_message(value, ident, self)
        } else if str_equal(c, "edit_header") {
            EditHeaderWindow::handle_message(value, ident, self)
        } else if str_equal(c, "edit_header_selector") {
            EditHeaderSelector::handle_message(value, ident, self)
        } else if str_equal(c, "method_selector") {
            MethodSelector::handle_message(value, ident, self)
        } else if str_equal(c, "project_window") {
            ProjectWindow::handle_message(value, ident, self)
        } else if str_equal(c, "edit_endpoint_name") {
            EditEndpointName::handle_message(value, ident, self)
        } else if str_equal(c, "edit_project_name") {
            EditProjectName::handle_message(value, ident, self)
        } else if str_equal(c, "endpoints_selector") {
            EndpointsSelector::handle_message(value, ident, self)
        } else {
            Vec::new()
        }
    }

    /// Handles a message from another component. A message that replaces
    /// the request body's text is meant for the editor, not the dashboard.
    pub fn message(&mut self, message: DashboardMessages) -> (effects: Vec<DashboardEffect>)
        requires
            !(message matches DashboardMessages::TextArea(TextAreaMessages::SetInput(_))),
        ensures
            message_post(*old(self), message, *final(self), effects@),
    {
        match message {
            DashboardMessages::ShowSucces((title, text)) => {
                self.show_message(title.as_str(), text.as_str());
                Vec::new()
            },
            DashboardMessages::ShowError(text) => {
                self.show_error(text.as_str());
                Vec::new()
            },
            DashboardMessages::ThemeUpdate => Vec::new(),
            DashboardMessages::TextInput(TextInputMessages::Change(v)) => {
                let name_still_default = self.endpoint.url == self.endpoint.name;
                if name_still_default {
                    self.endpoint.name = v.clone();
                }
                self.endpoint.url = v;
                Vec::new()
            },
            DashboardMessages::TextInput(TextInputMessages::Update(u)) => {
                if str_equal(u.id.as_str(), "endpoint_url_input") {
                    self.endpoint.url = u.value;
                }
                Vec::new()
            },
            DashboardMessages::TextInput(TextInputMessages::Escape(u)) => {
                if str_equal(u.id.as_str(), "endpoint_url_input") {
                    pair(DashboardEffect::Focus(FocusTarget::App), DashboardEffect::UnfocusUrlInput)
                } else {
                    Vec::new()
                }
            },
            DashboardMessages::TextArea(TextAreaMessages::InputChange(v)) => {
                self.endpoint.body = v;
                Vec::new()
            },
            DashboardMessages::TextArea(TextAreaMessages::SetInput(_)) => Vec::new(),
        }
    }

    /// Opens a project picked in the project window: it becomes the current
    /// project, its first endpoint (or a new one) the current endpoint, and
    /// the URL input and body editor show that endpoint.
    pub fn select_project(&mut self, p: &PersistedProject) -> (effects: Vec<DashboardEffect>)
        ensures
            final(self).project.content() == p@,
            final(self).project.row_color@ == DEFAULT_ROW_COLOR@,
            forall|i: int| 0 <= i < final(self).project.endpoints@.len()
                ==> #[trigger] final(self).project.endpoints@[i].row_color@ == DEFAULT_ROW_COLOR@,
            final(self).endpoint_count == (p.endpoints@.len() as u8),
            opened_endpoint(*final(self), *p),
            *final(self) == (DashboardState {
                project: final(self).project,
                endpoint_count: final(self).endpoint_count,
                endpoint: final(self).endpoint,
                ..*old(self)
            }),
            effects@.len() == 2,
            effects@[0] matches DashboardEffect::SetUrlInput(u) && u@ == final(self).endpoint.url@,
            effects@[1] matches DashboardEffect::SendRequestBody(m)
                && m matches TextAreaMessages::SetInput(b) && b@ == final(self).endpoint.body@,
    {
        self.project = Project::from_persisted(p);
        self.endpoint_count = #[verifier::truncate] (p.endpoints.len() as u8);
        if self.project.endpoints.len() > 0 {
            self.endpoint = self.project.endpoints[0].clone_endpoint();
            proof {
                assert(self.project.content().endpoints[0] == p@.endpoints[0]);
            }
        } else {
            self.endpoint = Endpoint::new();
        }
        pair(
            DashboardEffect::SetUrlInput(self.endpoint.url.clone()),
            DashboardEffect::SendRequestBody(TextAreaMessages::SetInput(self.endpoint.body.clone())),
        )
    }

    /// Opens an endpoint picked in the endpoints selector.
    pub fn select_endpoint(&mut self, e: &PersistedEndpoint)
        ensures
            final(self).endpoint.content() == e@,
            final(self).endpoint.row_color@ == DEFAULT_ROW_COLOR@,
            *final(self) == (DashboardState { endpoint: final(self).endpoint, ..*old(self) }),
    {
        self.endpoint = Endpoint::from_persisted(e);
    }

    /// Asks for confirmation before deleting a project.
    pub fn request_project_delete(&self, p: PersistedProject) -> (effects: Vec<DashboardEffect>)
        ensures
            effects@.len() == 1,
            effects@[0] matches DashboardEffect::ConfirmDeleteProject(c) && c.title@ == delete_title(p.name@)
                && c.message@ == "Are you sure you want to delete?"@ && c.project.content() == p@,
    {
        let mut title = String::from_str("Delete ");
        title.append(p.name.as_str());
        let project = Project::from_persisted(&p);
        single(DashboardEffect::ConfirmDeleteProject(ConfirmDeleteProject {
            title,
            message: String::from_str("Are you sure you want to delete?"),
            project,
        }))
    }

    /// Asks for confirmation before deleting an endpoint.
    pub fn request_endpoint_delete(&self, e: PersistedEndpoint) -> (effects: Vec<DashboardEffect>)
        ensures
            effects@.len() == 1,
            effects@[0] matches DashboardEffect::ConfirmDeleteEndpoint(c) && c.title@ == delete_title(e.name@)
                && c.message@ == "Are you sure you want to delete?"@ && c.endpoint == e,
    {
        let mut title = String::from_str("Delete ");
        title.append(e.name.as_str());
        single(DashboardEffect::ConfirmDeleteEndpoint(ConfirmDeleteEndpoint {
            title,
            message: String::from_str("Are you sure you want to delete?"),
            endpoint: e,
        }))
    }

    /// Reports a project write: a failure shows its error, a success shows a
    /// message when asked to.
    pub fn project_saved(&mut self, result: Result<(), String>, show_message: bool)
        ensures
            match result {
                Ok(_) => if show_message {
                    shows_message(*old(self), *final(self), "Project Save"@, "Saved project successfully"@)
                } else {
                    *final(self) == *old(self)
                },
                Err(e) => shows_error(*old(self), *final(self), e@),
            },
    {
        match result {
            Ok(_) => {
                if show_message {
                    self.show_message("Project Save", "Saved project successfully");
                }
            },
            Err(e) => self.show_error(e.as_str()),
        }
    }

    /// Reports the write of a project holding a newly saved endpoint: on
    /// success that project becomes the current one.
    pub fn endpoint_saved(&mut self, project: &PersistedProject, result: Result<(), String>, show_message: bool)
        ensures
            match result {
                Ok(_) => {
                    &&& final(self).project.content() == project@
                    &&& final(self).project.row_color@ == DEFAULT_ROW_COLOR@
                    &&& forall|i: int| 0 <= i < final(self).project.endpoints@.len()
                        ==> #[trigger] final(self).project.endpoints@[i].row_color@ == DEFAULT_ROW_COLOR@
                    &&& if show_message {
                        shows_message(
                            *old(self),
                            DashboardState { project: old(self).project, ..*final(self) },
                            "Endpoint Save"@,
                            "Saved endpoint successfully"@,
                        )
                    } else {
                        *final(self) == DashboardState { project: final(self).project, ..*old(self) }
                    }
                },
                Err(e) => shows_error(*old(self), *final(self), e@),
            },
    {
        match result {
            Ok(_) => {
                if show_message {
                    self.show_message("Endpoint Save", "Saved endpoint successfully");
                }
                self.project = Project::from_persisted(project);
            },
            Err(e) => self.show_error(e.as_str()),
        }
    }

    /// Reports that the clipboard could not be opened.
    pub fn clipboard_unavailable(&mut self)
        ensures
            shows_error(*old(self), *final(self), "Error accessing your clipboard"@),
    {
        self.show_error("Error accessing your clipboard");
    }

    /// Reports the copy of the response to the clipboard.
    pub fn response_yanked(&mut self, result: Result<(), String>)
        ensures
            match result {
                Ok(_) => shows_message(*old(self), *final(self), "Clipboard"@, "Response copied to clipboard"@),
                Err(e) => shows_error(*old(self), *final(self), e@),
            },
    {
        match result {
            Ok(_) => self.show_message("Clipboard", "Response copied to clipboard"),
            Err(e) => self.show_error(e.as_str()),
        }
    }

    /// Reports the save of the response body to `path` (as the file
    /// system shows the path): `Response Saved` with where it went, or the
    /// error of the documents directory or of the write.
    pub fn response_saved(&mut self, path: &str, result: Result<(), String>)
        ensures
            match result {
                Ok(_) => shows_message(*old(self), *final(self), "Response Saved"@, "Saved to "@ + path@),
                Err(e) => shows_error(*old(self), *final(self), e@),
            },
    {
        match result {
            Ok(_) => {
                let mut text = String::from_str("Saved to ");
                text.append(path);
                self.show_message("Response Saved", text.as_str());
            },
            Err(e) => self.show_error(e.as_str()),
        }
    }

    /// The name of the file the response body is saved to, `seconds` after
    /// the Unix epoch.
    pub fn response_file_name(&self, seconds: u64) -> (name: String)
        ensures
            name@ == spec_response_file_name(self.endpoint.name@, seconds as nat),
    {
        let name_chars = chars_of(self.endpoint.name.as_str());
        let slash = chars_of("/");
        let underscore = chars_of("_");
        proof {
            reveal_strlit("/");
        }
        let mut out = replace(name_chars.as_slice(), slash.as_slice(), underscore.as_slice());
        push_all(&mut out, underscore.as_slice());
        let secs = decimal_string(seconds);
        let secs_chars = chars_of(secs.as_str());
        push_all(&mut out, secs_chars.as_slice());
        let ext = chars_of(".txt");
        push_all(&mut out, ext.as_slice());
        string_from_chars(out.as_slice())
    }

    /// Takes the colours of a theme; the theme keeps its name.
    pub fn update_theme(&mut self, theme: AppThemePersisted)
        ensures
            final(self).app_theme == (AppThemePersisted { name: old(self).app_theme.name, ..theme }),
            *final(self) == (DashboardState { app_theme: final(self).app_theme, ..*old(self) }),
    {
        let name = self.app_theme.name.clone();
        self.app_theme = AppThemePersisted { name, ..theme };
    }
}

/// The name a language is shown under.
pub open spec fn spec_language_name(language: CodeLanguage) -> Seq<char> {
    match language {
        CodeLanguage::Rust => "Rust"@,
        CodeLanguage::Web(WebType::TypeScript) => "TypeScript"@,
        CodeLanguage::Web(WebType::JavaScript) => "JavaScript"@,
    }
}

/// The name a language is shown under.
pub fn language_name(language: CodeLanguage) -> (name: &'static str)
    ensures
        name@ == spec_language_name(language),
{
    match language {
        CodeLanguage::Rust => "Rust",
        CodeLanguage::Web(WebType::TypeScript) => "TypeScript",
        CodeLanguage::Web(WebType::JavaScript) => "JavaScript",
    }
}

/// The message the dashboard shows after generating code: a success under
/// the language's title, or an error naming the language.
pub fn code_gen_result_message(language: CodeLanguage, generated: bool) -> (message: DashboardMessages)
    ensures
        generated ==> (message matches DashboardMessages::ShowSucces((t, m))
            && t@ == spec_language_name(language) + " Code Gen"@ && m@ == "Code generated successfully"@),
        !generated ==> (message matches DashboardMessages::ShowError(m)
            && m@ == "Error generating "@ + spec_language_name(language) + " code"@),
{
    let name = language_name(language);
    if generated {
        let mut title = String::from_str(name);
        title.append(" Code Gen");
        DashboardMessages::ShowSucces((title, String::from_str("Code generated successfully")))
    } else {
        let mut text = String::from_str("Error generating ");
        text.append(name);
        text.append(" code");
        DashboardMessages::ShowError(text)
    }
}

/// The message the dashboard shows after exporting the project for Postman.
pub fn postman_export_message(exported: bool) -> (message: DashboardMessages)
    ensures
        exported ==> (message matches DashboardMessages::ShowSucces((t, m))
            && t@ == "Postman Export"@ && m@ == "Postman exported successfully"@),
        !exported ==> (message matches DashboardMessages::ShowError(m) && m@ == "Postman export failed"@),
{
    if exported {
        DashboardMessages::ShowSucces(
            (String::from_str("Postman Export"), String::from_str("Postman exported successfully")),
        )
    } else {
        DashboardMessages::ShowError(String::from_str("Postman export failed"))
    }
}

} // verus!
