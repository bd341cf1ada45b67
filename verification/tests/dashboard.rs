use tome::code_gen::WebType;
use tome::components::{FocusableSection, FocusableSectionState};
use tome::dashboard::{
    code_gen_result_message, event_component_of, hex_color, postman_export_message, AddHeaderWindow, CodeGen, CodeLanguage, Commands, DashboardDisplay,
    DashboardEffect, DashboardMessages, DashboardState, EditEndpointName, EditHeaderSelector,
    EditHeaderWindow, EndpointsSelector, FloatingWindow, FocusTarget, Method, MethodSelector, ProjectWindow,
};
use tome::keys::{KeyCode, KeyEvent};
use tome::messages::{EditEndpointNameMessages, EndpointsSelectorMessages, TextAreaMessages, TextInputMessages, TextUpdate};
use tome::projects::{Header, PersistedEndpoint, PersistedProject};
use tome::theme::AppThemePersisted;

fn theme() -> AppThemePersisted {
    let c = |s: &str| s.to_string();
    AppThemePersisted {
        name: c("gruvbox"),
        background: c("#000001"),
        foreground: c("#000002"),
        border_unfocused: c("#000003"),
        border_focused: c("#000004"),
        top_bar_background: c("#000005"),
        top_bar_foreground: c("#000006"),
        bottom_bar_background: c("#000007"),
        bottom_bar_foreground: c("#000008"),
        menu_opt_background: c("#000009"),
        menu_opt_foreground: c("#00000a"),
        project_name_background: c("#00000b"),
        project_name_foreground: c("#00000c"),
        endpoint_name_background: c("#00000d"),
        endpoint_name_foreground: c("#00000e"),
        menu_color_1: c("#111111"),
        menu_color_2: c("#222222"),
        menu_color_3: c("#333333"),
        menu_color_4: c("#444444"),
        menu_color_5: c("#555555"),
        overlay_background: c("#00000f"),
        overlay_foreground: c("#000010"),
        overlay_heading: c("#000011"),
        overlay_submit_background: c("#000012"),
        overlay_submit_foreground: c("#000013"),
        overlay_cancel_background: c("#000014"),
        overlay_cancel_foreground: c("#000015"),
    }
}

fn key(c: char) -> KeyEvent {
    KeyEvent { code: KeyCode::Char(c), ctrl: false }
}

fn esc() -> KeyEvent {
    KeyEvent { code: KeyCode::Esc, ctrl: false }
}

#[test]
fn new_dashboard_has_menus_coloured_by_theme() {
    let s = DashboardState::new(theme());
    assert_eq!(s.main_display, DashboardDisplay::RequestBody);
    assert_eq!(s.floating_window, FloatingWindow::Closed);
    assert_eq!(s.project.name, "Unnamed");
    assert_eq!(s.endpoint.name, "Unnamed");
    assert_eq!(s.endpoint.method, "GET");
    assert_eq!(s.app_bg, "#000000");
    let labels: Vec<&str> = s.menu_items.iter().map(|m| m.label.as_str()).collect();
    assert_eq!(labels, vec!["(S)ave Project", "Save Endpo(i)nt", "Swap (P)roject", "Swap (E)ndpoint", "(O)ptions"]);
    assert_eq!(s.menu_items[4].color, "#555555");
    assert_eq!(s.top_menu_items[0].label, "(P)rojects");
    assert_eq!(s.top_menu_items[0].color, "#111111");
}

#[test]
fn c_opens_commands_and_esc_closes_it() {
    let mut s = DashboardState::new(theme());
    let effects = s.on_key(key('c'));
    assert_eq!(s.floating_window, FloatingWindow::Commands);
    assert_eq!(effects, vec![DashboardEffect::Focus(FocusTarget::CommandsWindow)]);
    let effects = s.on_key(esc());
    assert_eq!(s.floating_window, FloatingWindow::Closed);
    assert_eq!(effects, vec![DashboardEffect::Focus(FocusTarget::App)]);
}

#[test]
fn esc_without_window_goes_back_to_request_body() {
    let mut s = DashboardState::new(theme());
    s.on_key(key('d'));
    assert_eq!(s.main_display, DashboardDisplay::RequestHeadersEditor);
    s.on_key(esc());
    assert_eq!(s.main_display, DashboardDisplay::RequestBody);
}

#[test]
fn saving_an_unnamed_endpoint_shows_an_error() {
    let mut s = DashboardState::new(theme());
    let effects = s.on_key(key('i'));
    assert!(effects.is_empty());
    assert_eq!(s.floating_window, FloatingWindow::Error);
    assert_eq!(s.error_message, "Please give your endpoint a name to save");
    s.endpoint.name = "list".to_string();
    s.on_key(esc());
    s.on_key(key('i'));
    assert_eq!(s.error_message, "Please give your project a name to save");
}

#[test]
fn saving_a_named_endpoint_writes_the_project() {
    let mut s = DashboardState::new(theme());
    s.endpoint.name = "list".to_string();
    s.endpoint.url = "http://x".to_string();
    s.project.name = "api".to_string();
    let effects = s.on_key(key('i'));
    match &effects[..] {
        [DashboardEffect::WriteEndpoint(p, true)] => {
            assert_eq!(p.name, "api");
            assert_eq!(p.endpoints.len(), 1);
            assert_eq!(p.endpoints[0].url, "http://x");
            s.endpoint_saved(p, Ok(()), true);
        }
        other => panic!("unexpected {other:?}"),
    }
    assert_eq!(s.project.endpoints.len(), 1);
    assert_eq!(s.message_label, "Endpoint Save");
    assert_eq!(s.message, "Saved endpoint successfully");
}

#[test]
fn new_project_saves_the_old_one_and_clears_inputs() {
    let mut s = DashboardState::new(theme());
    s.project.name = "old".to_string();
    let effects = s.on_key(key('w'));
    assert_eq!(effects.len(), 3);
    match &effects[0] {
        DashboardEffect::WriteProject(p, false) => assert_eq!(p.name, "old"),
        other => panic!("unexpected {other:?}"),
    }
    assert_eq!(effects[1], DashboardEffect::SetUrlInput(String::new()));
    assert_eq!(effects[2], DashboardEffect::SendRequestBody(TextAreaMessages::SetInput(String::new())));
    assert_eq!(s.project.name, "Unnamed");
}

#[test]
fn n_opens_the_name_window_with_an_empty_default_name() {
    let mut s = DashboardState::new(theme());
    let effects = s.on_key(key('n'));
    assert_eq!(s.floating_window, FloatingWindow::ChangeEndpointName);
    assert_eq!(
        effects,
        vec![
            DashboardEffect::Focus(FocusTarget::EditEndpointName),
            DashboardEffect::SendEditEndpointName(EditEndpointNameMessages::InputValue(String::new())),
        ]
    );
}

#[test]
fn e_sends_the_project_endpoints_to_the_selector() {
    let mut s = DashboardState::new(theme());
    let project = PersistedProject {
        name: "p".to_string(),
        endpoints: vec![PersistedEndpoint {
            name: "a".to_string(),
            url: "u".to_string(),
            method: "POST".to_string(),
            headers: vec![],
            body: "b".to_string(),
        }],
    };
    s.select_project(&project);
    let effects = s.on_key(key('e'));
    assert_eq!(s.floating_window, FloatingWindow::EndpointsSelector);
    assert_eq!(
        effects[1],
        DashboardEffect::SendEndpointsSelector(EndpointsSelectorMessages::EndpointsList(project.endpoints.clone()))
    );
}

#[test]
fn selecting_a_project_opens_its_first_endpoint() {
    let mut s = DashboardState::new(theme());
    let project = PersistedProject {
        name: "p".to_string(),
        endpoints: vec![PersistedEndpoint {
            name: "a".to_string(),
            url: "http://a".to_string(),
            method: "POST".to_string(),
            headers: vec![],
            body: "{}".to_string(),
        }],
    };
    let effects = s.select_project(&project);
    assert_eq!(s.endpoint.name, "a");
    assert_eq!(s.endpoint_count, 1);
    assert_eq!(
        effects,
        vec![
            DashboardEffect::SetUrlInput("http://a".to_string()),
            DashboardEffect::SendRequestBody(TextAreaMessages::SetInput("{}".to_string())),
        ]
    );
}

#[test]
fn keys_by_display() {
    let mut s = DashboardState::new(theme());
    assert_eq!(s.on_key(key('b')), vec![DashboardEffect::Focus(FocusTarget::Textarea)]);
    assert_eq!(s.on_key(key('y')), vec![]);
    s.main_display = DashboardDisplay::ResponseBody;
    assert_eq!(s.on_key(key('y')), vec![DashboardEffect::YankResponse]);
    assert_eq!(s.on_key(key('v')), vec![DashboardEffect::SaveResponseBody]);
    s.on_key(key('h'));
    assert_eq!(s.main_display, DashboardDisplay::ResponseHeaders);
    s.on_key(key('b'));
    assert_eq!(s.main_display, DashboardDisplay::ResponseBody);
    assert_eq!(s.on_key(key('q')), vec![DashboardEffect::Quit]);
    assert_eq!(s.on_key(key('r')), vec![DashboardEffect::SendRequest]);
    assert_eq!(s.on_key(KeyEvent { code: KeyCode::Char('u'), ctrl: true }), vec![]);
}

#[test]
fn event_component_is_the_part_before_double_underscore() {
    assert_eq!(event_component_of("add_header__submit"), "add_header");
    assert_eq!(event_component_of("edit_header_selector__selection"), "edit_header_selector");
    assert_eq!(event_component_of("url_input_focus"), "");
}

#[test]
fn add_header_submits_only_non_blank_headers() {
    let mut s = DashboardState::new(theme());
    let before = s.endpoint.headers.len();
    s.floating_window = FloatingWindow::AddHeader;
    s.receive("add_header__name_update", "X-Token");
    s.receive("add_header__value_update", "   ");
    let effects = s.receive("add_header__submit", "");
    assert_eq!(effects, vec![DashboardEffect::Focus(FocusTarget::App)]);
    assert_eq!(s.floating_window, FloatingWindow::Closed);
    assert_eq!(s.endpoint.headers.len(), before);
    AddHeaderWindow::handle_message("abc", "add_header__value_update", &mut s);
    s.receive("add_header__submit", "");
    assert_eq!(s.endpoint.headers.len(), before + 1);
    assert_eq!(s.endpoint.headers[before], Header { name: "X-Token".to_string(), value: "abc".to_string() });
}

#[test]
fn editing_a_header_takes_it_out_and_cancel_puts_it_back() {
    let mut s = DashboardState::new(theme());
    s.endpoint.headers = vec![
        Header { name: "a".to_string(), value: "1".to_string() },
        Header { name: "b".to_string(), value: "2".to_string() },
    ];
    let effects = s.receive("edit_header_selector__selection", "0");
    assert_eq!(s.floating_window, FloatingWindow::EditHeader);
    assert_eq!(s.endpoint.headers.len(), 1);
    assert_eq!(s.edit_header_name, "a");
    assert_eq!(
        effects,
        vec![
            DashboardEffect::SetEditHeaderInputs("a".to_string(), "1".to_string()),
            DashboardEffect::Focus(FocusTarget::EditHeaderWindow),
        ]
    );
    EditHeaderWindow::handle_message("", "edit_header__cancel", &mut s);
    assert_eq!(s.endpoint.headers.len(), 2);
    assert_eq!(s.endpoint.headers[1].name, "a");
    assert_eq!(s.edit_header_name, "");
    // a position past the last header does nothing
    let effects = EditHeaderSelector::handle_message("5", "edit_header_selector__selection", &mut s);
    assert!(effects.is_empty());
}

#[test]
fn method_selector_sets_the_method() {
    let mut s = DashboardState::new(theme());
    let effects = MethodSelector::handle_message("DELETE", "method_selector__new", &mut s);
    assert_eq!(s.endpoint.method, "DELETE");
    assert_eq!(effects, vec![DashboardEffect::Focus(FocusTarget::UrlInput), DashboardEffect::Focus(FocusTarget::App)]);
    assert_eq!(MethodSelector::method_for_key('p'), Some("POST"));
    assert_eq!(MethodSelector::method_for_key('O'), Some("OPTIONS"));
    assert_eq!(MethodSelector::method_for_key('z'), None);
}

#[test]
fn commands_and_code_gen_windows() {
    let mut s = DashboardState::new(theme());
    let effects = Commands::handle_message("e", "commands__selection", &mut s);
    assert_eq!(s.floating_window, FloatingWindow::CodeGen);
    assert_eq!(effects, vec![DashboardEffect::Focus(FocusTarget::CodegenWindow), DashboardEffect::ExportPostman]);
    let effects = CodeGen::handle_message("typescript", "codegen__selection", &mut s);
    assert_eq!(s.floating_window, FloatingWindow::Closed);
    assert_eq!(
        effects,
        vec![DashboardEffect::Focus(FocusTarget::App), DashboardEffect::GenerateCode(CodeLanguage::Web(WebType::TypeScript))]
    );
    assert_eq!(CodeGen::language_for_key('j'), "javascript");
    assert_eq!(CodeGen::language_for_key('x'), "rust");
}

#[test]
fn name_windows_and_selectors() {
    let mut s = DashboardState::new(theme());
    let effects = EditEndpointName::handle_message("users", "edit_endpoint_name__submit", &mut s);
    assert_eq!(s.endpoint.name, "users");
    assert_eq!(effects[1], DashboardEffect::SendEditEndpointName(EditEndpointNameMessages::ClearInput));
    s.receive("edit_project_name__submit", "shop");
    assert_eq!(s.project.name, "shop");
    let effects = ProjectWindow::handle_message("{}", "project_window__delete", &mut s);
    assert_eq!(s.floating_window, FloatingWindow::ConfirmProject);
    assert_eq!(effects, vec![DashboardEffect::DecodeProject(true)]);
    let effects = EndpointsSelector::handle_message("{}", "endpoints_selector__selection", &mut s);
    assert_eq!(effects, vec![DashboardEffect::Focus(FocusTarget::App), DashboardEffect::DecodeEndpoint(false)]);
}

#[test]
fn delete_requests_carry_a_title() {
    let s = DashboardState::new(theme());
    let e = PersistedEndpoint {
        name: "old".to_string(),
        url: String::new(),
        method: "GET".to_string(),
        headers: vec![],
        body: String::new(),
    };
    match &s.request_endpoint_delete(e)[..] {
        [DashboardEffect::ConfirmDeleteEndpoint(c)] => {
            assert_eq!(c.title, "Delete old");
            assert_eq!(c.message, "Are you sure you want to delete?");
        }
        other => panic!("unexpected {other:?}"),
    }
}

#[test]
fn url_changes_rename_an_endpoint_still_named_after_its_url() {
    let mut s = DashboardState::new(theme());
    s.endpoint.name = String::new();
    s.endpoint.url = String::new();
    s.message(DashboardMessages::TextInput(TextInputMessages::Change("http://a".to_string())));
    assert_eq!(s.endpoint.url, "http://a");
    assert_eq!(s.endpoint.name, "http://a");
    s.endpoint.name = "named".to_string();
    s.message(DashboardMessages::TextInput(TextInputMessages::Change("http://b".to_string())));
    assert_eq!(s.endpoint.name, "named");
    let effects = s.message(DashboardMessages::TextInput(TextInputMessages::Escape(TextUpdate {
        id: "endpoint_url_input".to_string(),
        value: String::new(),
    })));
    assert_eq!(effects, vec![DashboardEffect::Focus(FocusTarget::App), DashboardEffect::UnfocusUrlInput]);
    s.message(DashboardMessages::TextArea(TextAreaMessages::InputChange("body".to_string())));
    assert_eq!(s.endpoint.body, "body");
    s.message(DashboardMessages::ShowError("boom".to_string()));
    assert_eq!(s.floating_window, FloatingWindow::Error);
    assert_eq!(s.error_message, "boom");
}

#[test]
fn hex_color_is_upper_case() {
    assert_eq!(hex_color(255, 0, 16), "#FF0010");
    assert_eq!(hex_color(0x2b, 0x30, 0x3b), "#2B303B");
}

#[test]
fn response_file_name_replaces_slashes() {
    let mut s = DashboardState::new(theme());
    s.endpoint.name = "users/list".to_string();
    assert_eq!(s.response_file_name(1700000000), "users_list_1700000000.txt");
    assert_eq!(s.response_file_name(0), "users_list_0.txt");
}

#[test]
fn save_reports() {
    let mut s = DashboardState::new(theme());
    s.project_saved(Ok(()), false);
    assert_eq!(s.floating_window, FloatingWindow::Closed);
    s.project_saved(Ok(()), true);
    assert_eq!(s.message, "Saved project successfully");
    s.project_saved(Err("disk full".to_string()), true);
    assert_eq!(s.error_message, "disk full");
    s.response_yanked(Ok(()));
    assert_eq!(s.message, "Response copied to clipboard");
    s.clipboard_unavailable();
    assert_eq!(s.error_message, "Error accessing your clipboard");
}

#[test]
fn theme_update_keeps_the_name() {
    let mut s = DashboardState::new(theme());
    let mut other = theme();
    other.name = "catppuccin".to_string();
    other.background = "#ffffff".to_string();
    s.update_theme(other);
    assert_eq!(s.app_theme.name, "gruvbox");
    assert_eq!(s.app_theme.background, "#ffffff");
}

#[test]
fn result_messages() {
    assert_eq!(
        code_gen_result_message(CodeLanguage::Web(WebType::TypeScript), true),
        DashboardMessages::ShowSucces(("TypeScript Code Gen".to_string(), "Code generated successfully".to_string()))
    );
    assert_eq!(
        code_gen_result_message(CodeLanguage::Rust, false),
        DashboardMessages::ShowError("Error generating Rust code".to_string())
    );
    assert_eq!(postman_export_message(false), DashboardMessages::ShowError("Postman export failed".to_string()));
    assert_eq!(
        postman_export_message(true),
        DashboardMessages::ShowSucces(("Postman Export".to_string(), "Postman exported successfully".to_string()))
    );
}

#[test]
fn responses_are_shown() {
    let mut s = DashboardState::new(theme());
    let headers = vec![
        Header { name: "content-type".to_string(), value: "application/json; charset=utf-8".to_string() },
        Header { name: "x-id".to_string(), value: "7".to_string() },
    ];
    let effects = s.response_received(200, headers, Some("{}".to_string()));
    assert_eq!(s.main_display, DashboardDisplay::ResponseBody);
    assert_eq!(s.response, "{}");
    assert_eq!(s.response_body_window_label, "Response Body (Status Code: 200)");
    assert_eq!(s.response_headers.len(), 2);
    assert_eq!(
        effects,
        vec![
            DashboardEffect::Focus(FocusTarget::ResponseRenderer),
            DashboardEffect::RenderResponse("{}".to_string(), "json; charset=utf-8".to_string()),
        ]
    );
    let effects = s.error_status_received(404, None);
    assert_eq!(s.response, "Could not read error response body");
    assert_eq!(s.response_body_window_label, "Response Body (Status Code: 404)");
    assert_eq!(effects[1], DashboardEffect::RenderResponse("Could not read error response body".to_string(), "txt".to_string()));
    s.response_received(204, vec![], None);
    assert_eq!(s.response, "Could not read response body");
    s.request_failed(None);
    assert_eq!(s.error_message, "Network error");
    assert_eq!(s.floating_window, FloatingWindow::Error);
}

#[test]
fn escape_gives_back_the_dashboard_before_the_window() {
    for c in ['c', 'n', 'j', 'e', 'p', 'm'] {
        let before = DashboardState::new(theme());
        let mut s = DashboardState::new(theme());
        s.on_key(key(c));
        assert_ne!(s.floating_window, FloatingWindow::Closed);
        let effects = s.on_key(esc());
        assert_eq!(effects, vec![DashboardEffect::Focus(FocusTarget::App)]);
        assert_eq!(s, before);
    }
}

#[test]
fn methods_read_in_any_case() {
    assert_eq!(Method::from_str("post"), Ok(Method::Post));
    assert_eq!(Method::from_str("Options"), Ok(Method::Options));
    assert_eq!(Method::from_str("head"), Ok(Method::Custom));
    assert_eq!(Method::Patch.name(), "PATCH");
    assert_eq!(Method::of_upper("CONNECT"), Method::Connect);
    assert_eq!(Method::of_upper("connect"), Method::Custom);
}

#[test]
fn focusable_section_takes_its_target_once() {
    let section = FocusableSection;
    let mut state = FocusableSectionState::new(theme());
    section.url_input_focus(true, &mut state);
    assert_eq!(state.active_border_color, "#000003");
    section.tick(&mut state, Some("url".to_string()));
    section.tick(&mut state, Some("other".to_string()));
    assert_eq!(state.target, Some("url".to_string()));
    section.url_input_focus(true, &mut state);
    assert_eq!(state.active_border_color, "#000004");
}

#[test]
fn refused_requests_show_the_library_error() {
    let mut s = DashboardState::new(theme());
    let before = s.clone();
    let mut plan = tome::requests::plan_request(&s.endpoint);
    plan.url = "http://example.com/items".to_string();
    assert!(s.check_request(&plan));
    assert_eq!(s, before);
    plan.url = "http://exa mple.com".to_string();
    assert!(!s.check_request(&plan));
    assert_eq!(s.floating_window, FloatingWindow::Error);
    assert!(!s.error_message.is_empty());
}

#[test]
fn saved_response_is_reported() {
    let mut s = DashboardState::new(theme());
    s.response_saved("\"/docs/a_1.txt\"", Ok(()));
    assert_eq!(s.floating_window, FloatingWindow::Message);
    assert_eq!(s.message_label, "Response Saved");
    assert_eq!(s.message, "Saved to \"/docs/a_1.txt\"");
    let mut t = DashboardState::new(theme());
    t.response_saved("", Err("disk full".to_string()));
    assert_eq!(t.floating_window, FloatingWindow::Error);
    assert_eq!(t.error_message, "disk full");
}
