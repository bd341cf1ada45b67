use tome::code_gen::{generate_web, WebType};
use tome::components::{AppDisplay, AppLayout, ConfirmActionWindow, ConfirmActionWindowState, RequestHeadersEditorState};
use tome::keys::{KeyCode, KeyEvent};
use tome::messages::{AppLayoutMessages, ComponentMessage, ConfirmDeleteEndpoint, ConfirmDeleteProject};
use tome::options::{get_app_theme_name, get_default_options, get_options, get_syntax_theme, get_syntax_themes, Options, OptionsEffect, OptionsView, OptionsWindows};
use tome::postman::{declared_content_type, export_file_name, postman_from_project, PostmanBodyMode};
use tome::projects::{save_endpoint, save_project, Endpoint, Header, PersistedEndpoint, PersistedProject, Project, SaveError};
use tome::renderer::{fit_line, scroll_offset, viewable_lines, viewport_height, RenderBuffer, ScrollDirection, TextFilter};
use tome::requests::plan_request;
use tome::selector::{ListWindowState, SelectorOutcome};
use tome::syntax::{
    constant_from_upper, get_constant_from_name, get_highlight_theme, highlight, lines_with_endings, split_spans,
    syntax_extension, theme_to_load, Instruction, Line, Parser, Rgb, Span,
};
use tome::text::{decimal_string, find, parse_usize, replace, trim};
use tome::textarea::{TextArea, TextAreaInputState};
use tome::theme::{app_theme_key, AppThemeKey};

fn chars(s: &str) -> Vec<char> {
    s.chars().collect()
}

fn endpoint(name: &str, headers: Vec<(&str, &str)>, body: &str) -> PersistedEndpoint {
    PersistedEndpoint {
        name: name.to_string(),
        url: format!("http://example.com/{name}"),
        method: "POST".to_string(),
        headers: headers
            .into_iter()
            .map(|(n, v)| Header { name: n.to_string(), value: v.to_string() })
            .collect(),
        body: body.to_string(),
    }
}

#[test]
fn default_options() {
    let o = get_default_options();
    assert_eq!(o.syntax_theme, "monokai");
    assert_eq!(o.app_theme, "gruvbox");
    assert_eq!(get_syntax_theme(None), "monokai");
    assert_eq!(get_app_theme_name(None), "gruvbox");
    let saved = Options { syntax_theme: "Cobalt".to_string(), app_theme: "catppuccin".to_string() };
    assert_eq!(get_syntax_theme(Some(saved.clone())), "Cobalt");
    assert_eq!(get_options(Some(saved.clone())), saved);
}

#[test]
fn syntax_theme_list() {
    let themes = get_syntax_themes();
    assert_eq!(themes.len(), 11);
    assert_eq!(themes[0], "[ Argonaut ]");
    assert_eq!(themes[9], "Monokai Dark");
}

#[test]
fn theme_constants() {
    assert_eq!(get_constant_from_name("Monokai Dark"), "MONOKAI_DARK");
    assert_eq!(get_constant_from_name("[ Argonaut ]"), "ARGONAUT");
    assert_eq!(get_constant_from_name("Boys & Girls 0.1"), "BOYS_GIRLS_0.1");
    assert_eq!(get_constant_from_name("All Hallow's Eve"), "ALL_HALLOWS_EVE");
    assert_eq!(constant_from_upper(" (A-B) "), "AB");
    assert_eq!(theme_to_load("COBALT"), "COBALT");
    assert_eq!(theme_to_load("MONOKAI"), "PLUM_DUMB");
    assert_eq!(get_highlight_theme(Some("Blackboard Mod".to_string()), None), "BLACKBOARD_MOD");
    assert_eq!(get_highlight_theme(None, None), "PLUM_DUMB");
    assert_eq!(app_theme_key("gruvbox"), Some(AppThemeKey::Gruvbox));
    assert_eq!(app_theme_key("solarized"), None);
}

#[test]
fn syntax_extension_ignores_parameters() {
    assert_eq!(syntax_extension("json; charset=utf-8"), "json");
    assert_eq!(syntax_extension("html"), "html");
}

#[test]
fn lines_keep_their_endings() {
    let ls = lines_with_endings(&chars("a\n\nbc"));
    assert_eq!(ls, vec![chars("a\n"), chars("\n"), chars("bc")]);
    assert!(lines_with_endings(&[]).is_empty());
}

fn span(src: &str, fg: Rgb, bold: bool) -> Span {
    Span { src: src.to_string(), fg, bg: Rgb { r: 0, g: 0, b: 0 }, bold }
}

#[test]
fn parser_instructions() {
    let red = Rgb { r: 255, g: 0, b: 0 };
    let white = Rgb { r: 255, g: 255, b: 255 };
    let lines = vec![
        Line { head: span("a", red, false), tail: vec![span("b\n", white, true)] },
        Line { head: span("  x\n", white, false), tail: vec![] },
    ];
    let instructions = Parser::new(lines).instructions();
    assert_eq!(
        instructions,
        vec![
            Instruction::SetX(0),
            Instruction::SetForeground(red),
            Instruction::Type('a', false),
            Instruction::SetForeground(white),
            Instruction::Type('b', true),
            Instruction::Newline { x: 0 },
            Instruction::Type(' ', false),
            Instruction::Type(' ', false),
        ]
    );
    let (count, rest, bold) = span("  x", white, true).take_space();
    assert_eq!((count, rest.as_str(), bold), (Some(2), "x", true));
    assert_eq!(split_spans(vec![]), None);
}

#[test]
fn highlight_json_with_syntect() {
    let theme = plain_theme();
    let lines = highlight("{\"a\": 1}\n[]", "json", &theme).expect("json is highlighted");
    assert_eq!(lines.len(), 2);
    assert!(!lines[0].tail.is_empty(), "the line is split into styled pieces");
    let first: String = std::iter::once(&lines[0].head).chain(lines[0].tail.iter()).map(|s| s.src.as_str()).collect();
    assert_eq!(first, "{\"a\": 1}\n");
    let second: String = std::iter::once(&lines[1].head).chain(lines[1].tail.iter()).map(|s| s.src.as_str()).collect();
    assert_eq!(second, "[]");
    assert!(highlight("x", "no-such-extension", &theme).is_none());
}

#[test]
fn text_helpers() {
    assert_eq!(parse_usize("7"), Some(7));
    assert_eq!(parse_usize("+12"), Some(12));
    assert_eq!(parse_usize(""), None);
    assert_eq!(parse_usize("+"), None);
    assert_eq!(parse_usize("1a"), None);
    assert_eq!(parse_usize("-1"), None);
    assert_eq!(parse_usize("99999999999999999999999999"), None);
    assert_eq!(decimal_string(0), "0");
    assert_eq!(decimal_string(1234), "1234");
    assert_eq!(find(&chars("a__b__c"), &chars("__")), Some(1));
    assert_eq!(find(&chars("abc"), &chars("__")), None);
    assert_eq!(replace(&chars("a/b/c"), &chars("/"), &chars("_")), chars("a_b_c"));
    assert_eq!(trim(&chars("\t x y \n")), chars("x y"));
}

#[test]
fn saving_projects_and_endpoints() {
    let blank = PersistedProject { name: "  ".to_string(), endpoints: vec![] };
    assert_eq!(save_project(&blank), Err(SaveError::ProjectWithoutName));
    let named = PersistedProject { name: "shop".to_string(), endpoints: vec![] };
    assert_eq!(save_project(&named), Ok("shop.project".to_string()));
    assert_eq!(SaveError::ProjectWithoutName.message(), "Project must have name");
    let mut e = Endpoint::new();
    assert_eq!(save_endpoint(&named, &e), Err(SaveError::EndpointNotNamed));
    e.name = "list".to_string();
    let unnamed = PersistedProject { name: "Unnamed".to_string(), endpoints: vec![] };
    assert_eq!(save_endpoint(&unnamed, &e), Err(SaveError::ProjectNotNamed));
}

#[test]
fn saving_an_endpoint_twice_stores_it_once() {
    let mut e = Endpoint::new();
    e.name = "list".to_string();
    let project = PersistedProject {
        name: "shop".to_string(),
        endpoints: vec![endpoint("list", vec![], "old"), endpoint("other", vec![], "")],
    };
    let once = save_endpoint(&project, &e).unwrap();
    assert_eq!(once.endpoints.len(), 2);
    assert_eq!(once.endpoints[0].name, "other");
    assert_eq!(once.endpoints[1].name, "list");
    assert_eq!(once.endpoints[1].body, "");
    let twice = save_endpoint(&once, &e).unwrap();
    assert_eq!(twice, once);
}

#[test]
fn project_round_trip() {
    let p = PersistedProject { name: "shop".to_string(), endpoints: vec![endpoint("a", vec![("x", "1")], "b")] };
    assert_eq!(Project::from_persisted(&p).to_persisted(), p);
}

#[test]
fn list_window_navigation() {
    let mut w = ListWindowState::new();
    w.reset(7);
    assert_eq!((w.cursor, w.current_first_index, w.current_last_index), (0, 0, 4));
    let down = KeyEvent { code: KeyCode::Char('j'), ctrl: false };
    for _ in 0..5 {
        assert_eq!(w.on_key(7, true, down), SelectorOutcome::Nothing);
    }
    assert_eq!((w.cursor, w.current_first_index, w.current_last_index), (5, 1, 5));
    w.on_key(7, true, down);
    w.on_key(7, true, down);
    assert_eq!(w.cursor, 6);
    assert_eq!(w.on_key(7, true, KeyEvent { code: KeyCode::Enter, ctrl: false }), SelectorOutcome::Select(6));
    assert_eq!(w.on_key(7, true, KeyEvent { code: KeyCode::Char('d'), ctrl: false }), SelectorOutcome::Delete(6));
    assert_eq!(w.on_key(7, false, KeyEvent { code: KeyCode::Char('d'), ctrl: false }), SelectorOutcome::Nothing);
    assert_eq!(w.on_key(7, true, KeyEvent { code: KeyCode::Esc, ctrl: false }), SelectorOutcome::Cancel);
    let mut empty = ListWindowState::new();
    empty.reset(0);
    assert_eq!(empty.on_key(0, true, KeyEvent { code: KeyCode::Enter, ctrl: false }), SelectorOutcome::Cancel);
}

#[test]
fn postman_export() {
    let project = PersistedProject {
        name: "shop".to_string(),
        endpoints: vec![
            endpoint("json", vec![("Content-Type", "application/json")], "{}"),
            endpoint("none", vec![("CONTENT-TYPE", "")], "ignored"),
            endpoint("plain", vec![], "text"),
        ],
    };
    assert_eq!(declared_content_type(&project.endpoints[0]), "application/json");
    assert_eq!(declared_content_type(&project.endpoints[2]), "text/plain");
    let json = postman_from_project(&project, "now");
    assert_eq!(json.info.name, "shop");
    assert_eq!(json.info.description, "Postman collection exported from Tome on: now");
    assert_eq!(json.info.schema, "https://schema.getpostman.com/json/collection/v2.1.0/collection.json");
    assert_eq!(json.item.len(), 3);
    let expected_id = uuid::Uuid::new_v5(&uuid::Uuid::NAMESPACE_URL, b"json").to_string();
    assert_eq!(json.item[0].id, expected_id);
    assert_eq!(json.item[0].request.header[0].key, "Content-Type");
    let body = json.item[0].request.body.as_ref().unwrap();
    assert_eq!(body.mode, PostmanBodyMode::Raw);
    assert_eq!(body.raw.as_deref(), Some("{}"));
    assert!(json.item[1].request.body.is_none());
    assert_eq!(json.item[2].request.body.as_ref().unwrap().raw.as_deref(), Some("text"));
    assert_eq!(export_file_name(&json), "shop.json");
}

#[test]
fn request_body_only_for_json() {
    let mut e = Endpoint::new();
    e.body = "{\"a\":1}".to_string();
    let plan = plan_request(&e);
    assert_eq!(plan.body, "{\"a\":1}");
    assert_eq!(plan.method, "GET");
    e.headers.push(Header { name: "content-type".to_string(), value: "x".to_string() });
    let plan = plan_request(&e);
    assert_eq!(plan.body, "");
}

#[test]
fn text_filter_navigation() {
    let mut f = TextFilter { indexes: vec![3, 8, 12], total: 3, nav_index: 0, filter: "a".to_string() };
    assert_eq!(f.first_line(), 3);
    assert_eq!(f.previous_match(), 12);
    assert_eq!(f.nav_index, 2);
    assert_eq!(f.previous_match(), 8);
    let mut g = TextFilter { indexes: vec![3, 8, 12], total: 3, nav_index: 0, filter: "a".to_string() };
    assert_eq!(g.next_match(), 8);
    assert_eq!(g.nav_index, 1);
    assert_eq!(g.next_match(), 12);
    assert_eq!(g.nav_index, 2);
    assert_eq!(g.previous_match(), 8);
    assert_eq!(g.nav_index, 1);
    let mut h = TextFilter { indexes: vec![3, 8, 12], total: 3, nav_index: 2, filter: "a".to_string() };
    assert_eq!(h.next_match(), 3);
    assert_eq!(h.nav_index, 0);
    assert_eq!(TextFilter::new().first_line(), 0);
}

#[test]
fn response_view_lines() {
    let lines = vec![chars("short"), chars("a much longer line"), chars("x"), chars("y")];
    let shown = viewable_lines(&lines, 1, 2, 10);
    assert_eq!(shown, vec![chars("a muc..."), chars("x")]);
    assert_eq!(fit_line(&chars("abcdef"), 3), chars("..."));
    assert!(viewable_lines(&lines, 9, 2, 10).is_empty());
    assert_eq!(viewport_height(30), 23);
    assert_eq!(scroll_offset(5, 10, ScrollDirection::Up), 0);
    assert_eq!(scroll_offset(5, 10, ScrollDirection::Down), 15);
}

#[test]
fn render_buffer_types_and_pads() {
    let mut b = RenderBuffer::new();
    let red = Rgb { r: 255, g: 0, b: 0 };
    b.apply(Instruction::SetForeground(red));
    b.apply(Instruction::Type('a', true));
    b.apply(Instruction::Newline { x: 2 });
    assert_eq!(b.lines.len(), 2);
    assert_eq!(b.lines[0].len(), 1);
    assert_eq!(b.lines[0][0].text, "a");
    assert_eq!(b.lines[0][0].foreground, red);
    assert_eq!(b.lines[1].len(), 2);
    assert_eq!(b.lines[1][0].text, " ");
    b.apply(Instruction::Type('z', false));
    assert_eq!(b.lines[1][2].text, "z");
    assert_eq!((b.cursor_x, b.cursor_y), (3, 1));
    b.clear();
    b.apply(Instruction::Type('q', false));
    assert!(b.lines.is_empty());
}

#[test]
fn components() {
    let w = ConfirmActionWindow::new();
    let mut state = ConfirmActionWindowState::new();
    let request = ConfirmDeleteProject {
        project: Project::new(),
        title: "Delete shop".to_string(),
        message: "Sure?".to_string(),
    };
    w.message(&request, &mut state);
    assert_eq!(state.title, "Delete shop");
    assert_eq!(state.message, "Sure?");
    assert_eq!(request.get_message_type(), "confirm_delete_project");
    let e = ConfirmDeleteEndpoint { endpoint: endpoint("a", vec![], ""), title: String::new(), message: String::new() };
    assert_eq!(e.get_message_type(), "confirm_delete_endpoint");
    let _ = RequestHeadersEditorState::new();
    let mut layout = AppLayout::new();
    assert_eq!(layout.message(AppLayoutMessages::OpenOptions), "options");
    assert_eq!(layout.display, AppDisplay::Options);
}

#[test]
fn options_view() {
    let mut view = OptionsView::new(get_default_options());
    let effects = view.on_key(KeyEvent { code: KeyCode::Char('x'), ctrl: false });
    assert_eq!(view.options_window, OptionsWindows::SyntaxThemeSelector);
    assert_eq!(effects, vec![OptionsEffect::Focus("syntax_theme_selector")]);
    let effects = view.receive("syntax_theme_selector__selection", "Cobalt.tmTheme", None);
    match &effects[..] {
        [OptionsEffect::SaveOptions(o, false)] => {
            assert_eq!(o.syntax_theme, "Cobalt");
            assert_eq!(o.app_theme, "gruvbox");
            let effects = view.options_saved(o.clone(), false, true);
            assert!(effects.is_empty());
        }
        other => panic!("unexpected {other:?}"),
    }
    assert_eq!(view.options.syntax_theme, "Cobalt");
    view.receive("app_theme_selector__cancel", "", None);
    assert_eq!(view.options_window, OptionsWindows::Closed);
}

#[test]
fn generate_javascript_module() {
    let project = PersistedProject {
        name: "my shop".to_string(),
        endpoints: vec![endpoint("get items", vec![("content-type", "application/json")], "")],
    };
    let code = generate_web(&project, WebType::JavaScript, "[NAME] [METHOD] [URL] [RESPONSE_FUNC] {[HEADERS]}[BODY_VAR];");
    assert_eq!(code.file_name, "my_shop.js");
    assert_eq!(
        code.contents,
        "get_items POST http://example.com/get items json {\"content-type\": \"application/json\"};"
    );
}

#[test]
fn decimal_numbers_read_back() {
    for n in [0u64, 7, 10, 4096, 18446744073709551615] {
        assert_eq!(parse_usize(&decimal_string(n)), Some(n as usize));
    }
}

#[test]
fn lines_with_endings_put_back_together() {
    let text = "a\r\nbb\n\nlast";
    let joined: String = lines_with_endings(&chars(text)).into_iter().flatten().collect();
    assert_eq!(joined, text);
}

#[test]
fn search_matches_are_highlighted() {
    let mut b = RenderBuffer::new();
    for c in "abab".chars() {
        b.apply(Instruction::Type(c, false));
    }
    b.apply(Instruction::Newline { x: 0 });
    for c in "xx".chars() {
        b.apply(Instruction::Type(c, false));
    }
    let black = Rgb { r: 0, g: 0, b: 0 };
    let yellow = Rgb { r: 255, g: 255, b: 0 };
    b.highlight_matches("abab\nxx", &vec![0], "ab");
    assert_eq!(b.lines[0][0].background, yellow);
    assert_eq!(b.lines[0][1].background, yellow);
    assert_eq!(b.lines[0][2].background, yellow);
    assert_eq!(b.lines[0][0].original_background, Some(black));
    assert_eq!(b.lines[1][0].background, black);
    b.highlight_matches("abab\nxx", &vec![1], "x");
    assert_eq!(b.lines[0][0].background, black);
    assert_eq!(b.lines[0][0].original_background, None);
    assert_eq!(b.lines[1][1].background, yellow);
    assert_eq!(tome::renderer::match_cover(&chars("aaa"), &chars("aa")), vec![true, true, false]);
}

#[test]
fn selection_moves_down_and_back_up() {
    let mut w = ListWindowState::new();
    w.reset(9);
    for _ in 0..6 {
        w.move_cursor_down(9);
    }
    assert_eq!(w.cursor, 6);
    w.move_cursor_down(9);
    w.move_cursor_up();
    assert_eq!(w.cursor, 6);
    w.move_cursor_up();
    w.move_cursor_down(9);
    assert_eq!(w.cursor, 6);
}

#[test]
fn selected_app_theme_is_read_back() {
    let mut view = OptionsView::new(get_default_options());
    let saved = Options { syntax_theme: "Bespin".to_string(), app_theme: "gruvbox".to_string() };
    let effects = view.receive("app_theme_selector__selection", "catppuccin", Some(saved));
    match &effects[..] {
        [OptionsEffect::SaveOptions(o, true)] => {
            let in_force = get_options(Some(o.clone()));
            assert_eq!(in_force.app_theme, "catppuccin");
            assert_eq!(in_force.syntax_theme, "Bespin");
            assert_eq!(view.options_saved(o.clone(), true, true), vec![OptionsEffect::ThemeChanged]);
            assert_eq!(view.options.app_theme, "catppuccin");
        }
        other => panic!("unexpected {other:?}"),
    }
}

#[test]
fn clearing_highlights_gives_back_the_cells() {
    let mut b = RenderBuffer::new();
    b.apply(Instruction::SetBackground(Rgb { r: 1, g: 2, b: 3 }));
    for c in "find me".chars() {
        b.apply(Instruction::Type(c, false));
    }
    let before = b.lines.clone();
    b.highlight_matches("find me", &vec![0], "me");
    assert_ne!(b.lines, before);
    b.clear_highlights();
    assert_eq!(b.lines, before);
}

#[test]
fn previous_match_cycles_through_all_matches() {
    let mut f = tome::renderer::TextFilter { indexes: vec![3, 8, 12], total: 3, nav_index: 1, filter: "x".to_string() };
    assert_eq!(f.previous_match(), 3);
    assert_eq!(f.previous_match(), 12);
    assert_eq!(f.previous_match(), 8);
    assert_eq!(f.nav_index, 1);
}

#[test]
fn text_area_takes_what_the_layout_gives() {
    let area = TextArea { input_for: None, listeners: vec![] };
    let mut state = TextAreaInputState::new();
    area.tick(&mut state, Some("{}".to_string()), None);
    assert_eq!(state.input, vec!['{', '}']);
    assert_eq!(state.text_color, "white");
    area.tick(&mut state, None, Some("#123456".to_string()));
    assert_eq!(state.input, vec!['{', '}']);
    assert_eq!(state.text_color, "#123456");
}

#[test]
fn kept_theme_names_give_their_constants() {
    let names = ["Bespin", "Blackboard Mod", "BlackLight", "Cobalt", "fake", "GlitterBomb", "Juicy", "Midnight", "Monokai Dark", "Spectacular"];
    let constants = ["BESPIN", "BLACKBOARD_MOD", "BLACKLIGHT", "COBALT", "FAKE", "GLITTERBOMB", "JUICY", "MIDNIGHT", "MONOKAI_DARK", "SPECTACULAR"];
    for (name, constant) in names.iter().zip(constants.iter()) {
        assert_eq!(get_constant_from_name(name), *constant);
        assert_eq!(theme_to_load(constant), *constant);
    }
    assert_eq!(get_constant_from_name("Slush & Poppies"), "SLUSH_POPPIES");
    assert_eq!(get_constant_from_name("[ Argonaut ]"), "ARGONAUT");
}

#[test]
fn font_style_bits_decide_boldness() {
    use_pieces();
}

fn use_pieces() {
    let piece = |bits: u8| tome::syntax::StyledPiece {
        text: "x".to_string(),
        fg: Rgb { r: 1, g: 2, b: 3 },
        bg: Rgb { r: 4, g: 5, b: 6 },
        font_style: bits,
    };
    assert!(tome::syntax::span_from_piece(piece(1)).bold);
    assert!(tome::syntax::span_from_piece(piece(5)).bold);
    assert!(!tome::syntax::span_from_piece(piece(6)).bold);
    let spans = tome::syntax::spans_from_pieces(vec![piece(0), piece(1)]);
    assert_eq!(spans.len(), 2);
    assert_eq!(spans[1].src, "x");
    assert!(spans[1].bold && !spans[0].bold);
}

#[test]
fn form_data_projects_are_not_exported() {
    let ok = PersistedProject { name: "p".to_string(), endpoints: vec![endpoint("a", vec![("content-type", "application/json")], "{}")] };
    let json = tome::postman::export_project(&ok, "now").expect("exportable");
    assert_eq!(json.item.len(), 1);
    let form = PersistedProject { name: "q".to_string(), endpoints: vec![endpoint("b", vec![("Content-Type", "urlencoded")], "")] };
    assert!(tome::postman::export_project(&form, "now").is_none());
}

#[test]
fn unicode_whitespace_is_trimmed() {
    assert_eq!(trim(&chars("\u{3000}a b\u{a0}\u{85}")), chars("a b"));
    assert_eq!(trim(&chars("\u{200b}a")), chars("\u{200b}a"));
}

#[test]
fn empty_text_highlights_to_no_lines() {
    let theme = plain_theme();
    assert_eq!(highlight("", "json", &theme).map(|l| l.len()), Some(0));
    assert!(highlight("", "no-such-extension", &theme).is_none());
}

fn theme_text(foreground: &str, background: &str) -> String {
    format!(
        "<?xml version=\"1.0\" encoding=\"UTF-8\"?>\n<plist version=\"1.0\"><dict><key>name</key><string>T</string>\
<key>settings</key><array><dict><key>settings</key><dict><key>background</key><string>{background}</string>\
<key>foreground</key><string>{foreground}</string></dict></dict></array></dict></plist>\n"
    )
}

fn plain_theme() -> tome::syntax::ParsedTheme {
    tome::syntax::parse_theme(theme_text("#FFFFFF", "#000000").as_bytes()).expect("a theme")
}

#[test]
fn highlighting_takes_the_theme_colours() {
    let theme = tome::syntax::parse_theme(theme_text("#112233", "#445566").as_bytes()).expect("a theme");
    assert_eq!(tome::syntax::theme_background(&theme), Some(Rgb { r: 0x44, g: 0x55, b: 0x66 }));
    let lines = highlight("plain words\n", "txt", &theme).expect("text is highlighted");
    assert_eq!(lines.len(), 1);
    assert_eq!(lines[0].head.fg, Rgb { r: 0x11, g: 0x22, b: 0x33 });
    assert_eq!(lines[0].head.bg, Rgb { r: 0x44, g: 0x55, b: 0x66 });
    assert!(!lines[0].head.bold);
    assert!(tome::syntax::parse_theme(b"not a theme").is_none());
}
