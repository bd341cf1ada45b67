use tome::keys::{KeyCode, KeyEvent};
use tome::textarea::{
    cursor_down, cursor_up, get_cursor_data_left, get_cursor_down_x_y, get_cursor_up_x_y, get_update_index,
    is_at_end_of_input, CursorData, LineLayout, TextArea, TextAreaInputState, TextAreaKeyOutcome,
};

fn chars(s: &str) -> Vec<char> {
    s.chars().collect()
}

#[test]
fn test_get_cursor_data_left_1() {
    // Cursor on 'g' test
    let chars = chars("ab\ncde\nfg");

    let cursor_data = get_cursor_data_left(&chars, 1, 2, 3, 8);

    assert_eq!(
        cursor_data,
        CursorData {
            x: 0,
            y: 2,
            cursor_index: 7,
            cursor_prefix: "ab\ncde\n".to_string()
        }
    )
}

#[test]
fn test_get_cursor_data_left_2() {
    // Cursor after 'g' test
    let chars = chars("ab\ncde\nfg");

    let cursor_data = get_cursor_data_left(&chars, 2, 2, 3, 9);

    assert_eq!(
        cursor_data,
        CursorData {
            x: 1,
            y: 2,
            cursor_index: 8,
            cursor_prefix: "ab\ncde\nf".to_string()
        }
    )
}

#[test]
fn test_get_cursor_data_left_3() {
    // Cursor after g on single line text
    let chars = chars("abcdefg");

    let cursor_data = get_cursor_data_left(&chars, 7, 0, 0, 7);

    assert_eq!(
        cursor_data,
        CursorData {
            x: 6,
            y: 0,
            cursor_index: 6,
            cursor_prefix: "abcdef".to_string()
        }
    )
}

#[test]
fn test_get_cursor_data_left_4() {
    // Cursor on e on single line text
    let chars = chars("abcdefg");

    let cursor_data = get_cursor_data_left(&chars, 4, 0, 0, 4);

    assert_eq!(
        cursor_data,
        CursorData {
            x: 3,
            y: 0,
            cursor_index: 3,
            cursor_prefix: "abc".to_string()
        }
    )
}

#[test]
fn test_get_update_index() {
    let lengths: Vec<usize> = vec![10, 20, 3, 5, 8];
    let update_index = get_update_index(&lengths, 1, 2);

    assert_eq!(update_index, 34);
}

#[test]
fn test_is_at_end_of_input_false() {
    let lengths: Vec<usize> = vec![10, 20, 3, 5, 8];
    let at_the_end = is_at_end_of_input(&lengths, 7, 1);

    assert!(!at_the_end);
}

#[test]
fn test_is_at_end_of_input_true() {
    let lengths: Vec<usize> = vec![10, 20, 3, 5, 8, 5];
    let at_the_end = is_at_end_of_input(&lengths, 7, 4);

    assert!(at_the_end);
}

#[test]
fn test_is_at_end_of_input_false_for_first_char() {
    let lengths: Vec<usize> = vec![0, 0];
    let at_the_end = is_at_end_of_input(&lengths, 0, 0);

    assert!(at_the_end);
}

#[test]
fn test_get_cursor_down_x_y_target_shorter() {
    let coordinates = get_cursor_down_x_y(3, 2, 2);

    let x = coordinates.x;
    let y = coordinates.y;

    assert_eq!(
        (x, y),
        (2, 3),
        "Expected x,y to equal {:?} but got {:?}",
        (2, 3),
        (x, y)
    );
}

#[test]
fn test_get_cursor_down_x_y_target_longer() {
    let coordinates = get_cursor_down_x_y(3, 5, 6);

    let x = coordinates.x;
    let y = coordinates.y;

    assert_eq!(
        (x, y),
        (3, 6),
        "Expected x,y to equal {:?} but got {:?}",
        (3, 6),
        (x, y)
    );
}

#[test]
fn test_get_cursor_down_x_y_target_same_length() {
    let coordinates = get_cursor_down_x_y(3, 5, 3);

    let x = coordinates.x;
    let y = coordinates.y;

    assert_eq!(
        (x, y),
        (3, 6),
        "Expected x,y to equal {:?} but got {:?}",
        (3, 6),
        (x, y)
    );
}

#[test]
fn test_get_cursor_up_x_y_target_shorter() {
    let coordinates = get_cursor_up_x_y(3, 2, 2);

    let x = coordinates.x;
    let y = coordinates.y;

    assert_eq!(
        (x, y),
        (2, 1),
        "Expected x,y to equal {:?} but got {:?}",
        (2, 1),
        (x, y)
    );
}

#[test]
fn test_get_cursor_up_x_y_target_longer() {
    let coordinates = get_cursor_up_x_y(3, 5, 6);

    let x = coordinates.x;
    let y = coordinates.y;

    assert_eq!(
        (x, y),
        (3, 4),
        "Expected x,y to equal {:?} but got {:?}",
        (3, 4),
        (x, y)
    );
}

#[test]
fn test_get_cursor_up_x_y_target_same_length() {
    let coordinates = get_cursor_up_x_y(3, 5, 3);

    let x = coordinates.x;
    let y = coordinates.y;

    assert_eq!(
        (x, y),
        (3, 4),
        "Expected x,y to equal {:?} but got {:?}",
        (3, 4),
        (x, y)
    );
}

#[test]
fn text_area_refuses_the_keys_it_does_not_handle() {
    let area = TextArea { input_for: None, listeners: vec![] };
    let mut state = TextAreaInputState::new();
    let lines = vec![LineLayout { width: 0, segment_lengths: vec![0] }];
    let key = |code| KeyEvent { code, ctrl: false };
    assert!(!area.key_fits(key(KeyCode::Insert), &state, None, &lines, 20));
    assert!(!area.key_fits(key(KeyCode::CtrlC), &state, None, &lines, 20));
    assert!(area.key_fits(key(KeyCode::Char('a')), &state, None, &lines, 20));
    assert!(area.key_fits(key(KeyCode::Backspace), &state, None, &lines, 20));
    assert!(!area.key_fits(key(KeyCode::Backspace), &state, None, &[], 20));
    assert!(area.key_fits(key(KeyCode::Down), &state, None, &lines, 20));
    state.line_count = 0;
    assert!(!area.key_fits(key(KeyCode::Down), &state, None, &lines, 20));
    state.scroll_position = usize::MAX;
    assert!(!area.key_fits(KeyEvent { code: KeyCode::Char('d'), ctrl: true }, &state, None, &lines, 20));
    assert!(area.key_fits(KeyEvent { code: KeyCode::Char('u'), ctrl: true }, &state, None, &lines, 20));
}

#[test]
fn typing_then_backspace_gives_back_the_text() {
    let area = TextArea { input_for: None, listeners: vec![] };
    let mut state = TextAreaInputState::new();
    state.input = chars("abc");
    state.cursor_x = 1;
    let lines = vec![LineLayout { width: 3, segment_lengths: vec![3] }];
    area.add_character('z', &mut state, false, None, None, &lines);
    assert_eq!(state.input, chars("abzc"));
    let longer = vec![LineLayout { width: 4, segment_lengths: vec![4] }];
    assert!(area.backspace(&mut state, &longer));
    assert_eq!(state.input, chars("abc"));
}

#[test]
fn left_then_right_puts_the_cursor_back() {
    let area = TextArea { input_for: None, listeners: vec![] };
    let mut state = TextAreaInputState::new();
    state.input = chars("abc");
    state.cursor_prefix = "ab".to_string();
    state.cursor_x = 2;
    let lines = vec![LineLayout { width: 3, segment_lengths: vec![3] }];
    area.move_cursor_left(&mut state, &lines);
    assert_eq!((state.cursor_x, state.cursor_prefix.as_str()), (1, "a"));
    area.move_cursor_right(&mut state, &lines);
    assert_eq!((state.cursor_x, state.cursor_y, state.cursor_prefix.as_str()), (2, 0, "ab"));
}

#[test]
fn up_then_down_puts_the_cursor_back() {
    let mut state = TextAreaInputState::new();
    state.input = chars("abc\ndef");
    state.line_count = 2;
    state.cursor_x = 1;
    state.cursor_y = 1;
    let lines = vec![
        LineLayout { width: 3, segment_lengths: vec![3] },
        LineLayout { width: 3, segment_lengths: vec![3] },
    ];
    cursor_up(&lines, &mut state);
    assert_eq!((state.cursor_x, state.cursor_y, state.cursor_prefix.as_str()), (1, 0, "a"));
    cursor_down(&lines, &mut state);
    assert_eq!((state.cursor_x, state.cursor_y, state.cursor_prefix.as_str()), (1, 1, "abc\nd"));
}

#[test]
fn text_area_publishes_the_text_when_it_changes() {
    let mut area = TextArea { input_for: None, listeners: vec![] };
    let key = |code| KeyEvent { code, ctrl: false };
    let mut state = TextAreaInputState::new();
    let empty = vec![LineLayout { width: 0, segment_lengths: vec![0] }];
    assert_eq!(area.on_key(key(KeyCode::Backspace), &mut state, None, &empty, 20), TextAreaKeyOutcome::Nothing);
    assert_eq!(area.on_key(key(KeyCode::Tab), &mut state, None, &empty, 20), TextAreaKeyOutcome::TextChanged);
    assert_eq!(state.input, chars("\t"));
    let one = vec![LineLayout { width: 1, segment_lengths: vec![1] }];
    assert_eq!(area.on_key(key(KeyCode::Char('x')), &mut state, None, &one, 20), TextAreaKeyOutcome::Typed);
    let mut state = TextAreaInputState::new();
    assert_eq!(area.on_key(key(KeyCode::Enter), &mut state, None, &empty, 20), TextAreaKeyOutcome::TextChanged);
    assert_eq!(state.input, chars("\n"));
    state.input = chars("abc");
    state.cursor_x = 1;
    state.cursor_y = 0;
    let three = vec![LineLayout { width: 3, segment_lengths: vec![3] }];
    assert_eq!(area.on_key(key(KeyCode::Backspace), &mut state, None, &three, 20), TextAreaKeyOutcome::TextChanged);
    assert_eq!(state.input, chars("ac"));
}

#[test]
fn update_index_moves_with_the_cursor() {
    let lengths: Vec<usize> = vec![10, 20, 3, 5, 8];
    assert_eq!(get_update_index(&lengths, 2, 2), get_update_index(&lengths, 1, 2) + 1);
    assert_eq!(get_update_index(&lengths, 1, 3), get_update_index(&lengths, 1, 2) + 3 + 1);
    assert_eq!(get_update_index(&lengths, 1, 9), get_update_index(&lengths, 1, 5));
}
