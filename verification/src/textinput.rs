//! The single-line text input: the text, a cursor position within it, the
//! text before the cursor and the character shown under the cursor.

use vstd::prelude::*;

use crate::keys::{KeyCode, KeyEvent};
use crate::text::string_from_chars;
use crate::textarea::cursor_char_at;

verus! {

/// The abstract state of a text input.
pub struct InputView {
    pub input: Seq<char>,
    pub cursor_position: nat,
    pub cursor_prefix: Seq<char>,
    pub cursor_char: Seq<char>,
    pub fg_color: Seq<char>,
    pub bg_color: Seq<char>,
    pub focused: bool,
}

impl InputView {
    /// The cursor never leaves the text and the prefix is the text before it.
    pub open spec fn wf(self) -> bool {
        &&& self.cursor_position <= self.input.len()
        &&& self.cursor_prefix == self.input.take(self.cursor_position as int)
    }

    /// The view with text `input` and the cursor at `pos`, the rest kept.
    pub open spec fn with_cursor(self, input: Seq<char>, pos: nat, cursor_char: Seq<char>) -> InputView {
        InputView {
            input,
            cursor_position: pos,
            cursor_prefix: input.take(pos as int),
            cursor_char,
            ..self
        }
    }
}

/// The state a fresh input starts in: empty, unfocused.
pub open spec fn initial_input_view() -> InputView {
    InputView {
        input: seq![],
        cursor_position: 0,
        cursor_prefix: seq![],
        cursor_char: seq![],
        fg_color: "white"@,
        bg_color: seq![],
        focused: false,
    }
}

/// Typing `c`: inserted at the cursor, which moves past it.
pub open spec fn spec_add_character(v: InputView, c: char) -> InputView {
    let pos = v.cursor_position;
    let input = v.input.insert(pos as int, c);
    v.with_cursor(input, pos + 1, cursor_char_at(input, pos + 1int))
}

/// Delete: removes the character under the cursor, if any.
pub open spec fn spec_delete(v: InputView) -> InputView {
    let pos = v.cursor_position;
    if pos == v.input.len() {
        v
    } else {
        let input = v.input.remove(pos as int);
        v.with_cursor(input, pos, cursor_char_at(input, pos as int))
    }
}

/// Backspace: removes the character before the cursor, if any.
pub open spec fn spec_backspace(v: InputView) -> InputView {
    let pos = v.cursor_position;
    if pos == 0 {
        v
    } else {
        let input = v.input.remove(pos - 1);
        v.with_cursor(input, (pos - 1) as nat, cursor_char_at(input, pos - 1))
    }
}

/// Left arrow: one character back, unless at the start.
pub open spec fn spec_move_left(v: InputView) -> InputView {
    let pos = v.cursor_position;
    if pos == 0 {
        v
    } else {
        v.with_cursor(v.input, (pos - 1) as nat, seq![v.input[pos - 1]])
    }
}

/// Right arrow: one character forward, unless at the end.
pub open spec fn spec_move_right(v: InputView) -> InputView {
    let pos = v.cursor_position;
    if pos == v.input.len() {
        v
    } else {
        v.with_cursor(v.input, pos + 1, cursor_char_at(v.input, pos + 1int))
    }
}

/// Up arrow: to the end of the text.
pub open spec fn spec_move_up(v: InputView) -> InputView {
    v.with_cursor(v.input, v.input.len(), seq![' '])
}

/// Down arrow: to the start of the text.
pub open spec fn spec_move_down(v: InputView) -> InputView {
    v.with_cursor(v.input, 0, cursor_char_at(v.input, 0))
}

/// A new text from the surroundings: the cursor goes to its end.
pub open spec fn spec_set_input(v: InputView, value: Seq<char>) -> InputView {
    v.with_cursor(value, value.len(), if v.focused { seq![' '] } else { v.cursor_char })
}

/// Gaining focus: highlights the input and shows the character under the cursor.
pub open spec fn spec_on_focus(v: InputView) -> InputView {
    InputView {
        cursor_char: cursor_char_at(v.input, v.cursor_position as int),
        fg_color: "black"@,
        bg_color: "white"@,
        focused: true,
        ..v
    }
}

/// Losing focus: hides the cursor and restores the colours.
pub open spec fn spec_on_blur(v: InputView) -> InputView {
    InputView { cursor_char: seq![], fg_color: "white"@, bg_color: seq![], focused: false, ..v }
}

/// Keys the input does not handle yet: pressing them while focused is
/// refused.
pub open spec fn is_unhandled_input_key(code: KeyCode) -> bool {
    code is Enter || code is Insert || code is BackTab || code is CtrlC
}

/// What a key press does to a focused or unfocused input, and what it asks
/// of the surroundings.
pub open spec fn spec_input_on_key(v: InputView, code: KeyCode) -> (InputView, TextInputOutcome) {
    if !v.focused {
        (v, TextInputOutcome::Nothing)
    } else {
        match code {
            KeyCode::Tab => (spec_add_character(v, '\t'), TextInputOutcome::TextChanged),
            KeyCode::Char(c) => (spec_add_character(v, c), TextInputOutcome::TextChanged),
            KeyCode::Backspace => (
                spec_backspace(v),
                if v.cursor_position > 0 { TextInputOutcome::TextChanged } else { TextInputOutcome::Nothing },
            ),
            KeyCode::Delete => (
                spec_delete(v),
                if v.cursor_position < v.input.len() { TextInputOutcome::TextChanged } else { TextInputOutcome::Nothing },
            ),
            KeyCode::Left => (spec_move_left(v), TextInputOutcome::Nothing),
            KeyCode::Right => (spec_move_right(v), TextInputOutcome::Nothing),
            KeyCode::Up => (spec_move_up(v), TextInputOutcome::Nothing),
            KeyCode::Down => (spec_move_down(v), TextInputOutcome::Nothing),
            KeyCode::Esc => (v, TextInputOutcome::Escape),
            _ => (v, TextInputOutcome::Nothing),
        }
    }
}

/// State of a text input.
pub struct InputState {
    input: Vec<char>,
    cursor_prefix: Vec<char>,
    cursor_char: String,
    cursor_position: usize,
    fg_color: String,
    bg_color: String,
    focused: bool,
}

impl View for InputState {
    type V = InputView;

    closed spec fn view(&self) -> InputView {
        InputView {
            input: self.input@,
            cursor_position: self.cursor_position as nat,
            cursor_prefix: self.cursor_prefix@,
            cursor_char: self.cursor_char@,
            fg_color: self.fg_color@,
            bg_color: self.bg_color@,
            focused: self.focused,
        }
    }
}

/// A one-character string.
fn char_string(c: char) -> (s: String)
    ensures
        s@ == seq![c],
{
    let mut s = String::new();
    s.push(c);
    s
}

/// The character at `index` as a string, or a space past the end.
fn char_at_or_space(input: &Vec<char>, index: usize) -> (s: String)
    ensures
        s@ == cursor_char_at(input@, index as int),
{
    if index < input.len() {
        char_string(input[index])
    } else {
        char_string(' ')
    }
}

/// The first `n` characters (`n` at most the length).
fn prefix_of(input: &Vec<char>, n: usize) -> (prefix: Vec<char>)
    requires
        n <= input@.len(),
    ensures
        prefix@ == input@.take(n as int),
{
    let mut prefix: Vec<char> = Vec::new();
    let mut i: usize = 0;
    while i < n
        invariant
            n <= input@.len(),
            i <= n,
            prefix@ == input@.take(i as int),
        decreases n - i,
    {
        prefix.push(input[i]);
        i = i + 1;
        proof {
            assert(prefix@ =~= input@.take(i as int));
        }
    }
    prefix
}

impl InputState {
    /// An empty, unfocused input.
    pub fn new() -> (state: InputState)
        ensures
            state@ == initial_input_view(),
            state@.wf(),
    {
        let state = InputState {
            input: Vec::new(),
            cursor_prefix: Vec::new(),
            cursor_char: String::new(),
            cursor_position: 0,
            fg_color: String::from_str("white"),
            bg_color: String::new(),
            focused: false,
        };
        proof {
            assert(state@.input.take(0) =~= state@.cursor_prefix);
            assert(state@ =~= initial_input_view());
        }
        state
    }

    pub fn input(&self) -> (input: &Vec<char>)
        ensures
            input@ == self@.input,
    {
        &self.input
    }

    pub fn cursor_position(&self) -> (pos: usize)
        ensures
            pos == self@.cursor_position,
    {
        self.cursor_position
    }

    pub fn cursor_prefix(&self) -> (prefix: String)
        ensures
            prefix@ == self@.cursor_prefix,
    {
        string_from_chars(self.cursor_prefix.as_slice())
    }

    pub fn cursor_char(&self) -> (c: &String)
        ensures
            c@ == self@.cursor_char,
    {
        &self.cursor_char
    }

    pub fn fg_color(&self) -> (c: &String)
        ensures
            c@ == self@.fg_color,
    {
        &self.fg_color
    }

    pub fn bg_color(&self) -> (c: &String)
        ensures
            c@ == self@.bg_color,
    {
        &self.bg_color
    }

    pub fn focused(&self) -> (f: bool)
        ensures
            f == self@.focused,
    {
        self.focused
    }
}

/// The single-line text input component.
#[derive(Debug, Clone, Copy, PartialEq, Eq)]
pub struct TextInput;

/// What a key press asks of the input's surroundings.
#[derive(Debug, Clone, Copy, PartialEq, Eq)]
pub enum TextInputOutcome {
    /// Nothing to tell.
    Nothing,
    /// The text changed: publish it.
    TextChanged,
    /// Escape: hand the focus back to the application.
    Escape,
}

impl TextInput {
    /// Handles a key press; a key is only handled while the input has focus.
    pub fn on_key(&mut self, event: KeyEvent, state: &mut InputState) -> (outcome: TextInputOutcome)
        requires
            old(state)@.wf(),
            old(state)@.focused ==> !is_unhandled_input_key(event.code),
        ensures
            (final(state)@, outcome) == spec_input_on_key(old(state)@, event.code),
            final(state)@.wf(),
    {
        if !state.focused {
            return TextInputOutcome::Nothing;
        }
        match event.code {
            KeyCode::Tab => {
                self.add_character('\t', state);
                TextInputOutcome::TextChanged
            },
            KeyCode::Char(c) => {
                self.add_character(c, state);
                TextInputOutcome::TextChanged
            },
            KeyCode::Backspace => {
                if self.backspace(state) {
                    TextInputOutcome::TextChanged
                } else {
                    TextInputOutcome::Nothing
                }
            },
            KeyCode::Delete => {
                if self.delete(state) {
                    TextInputOutcome::TextChanged
                } else {
                    TextInputOutcome::Nothing
                }
            },
            KeyCode::Left => {
                self.move_cursor_left(state);
                TextInputOutcome::Nothing
            },
            KeyCode::Right => {
                self.move_cursor_right(state);
                TextInputOutcome::Nothing
            },
            KeyCode::Up => {
                self.move_cursor_up(state);
                TextInputOutcome::Nothing
            },
            KeyCode::Down => {
                self.move_cursor_down(state);
                TextInputOutcome::Nothing
            },
            KeyCode::Esc => TextInputOutcome::Escape,
            _ => TextInputOutcome::Nothing,
        }
    }

    /// Gaining focus shows the cursor.
    pub fn on_focus(&mut self, state: &mut InputState)
        requires
            old(state)@.wf(),
        ensures
            final(state)@ == spec_on_focus(old(state)@),
            final(state)@.wf(),
    {
        state.cursor_char = char_at_or_space(&state.input, state.cursor_position);
        state.fg_color = String::from_str("black");
        state.bg_color = String::from_str("white");
        state.focused = true;
    }

    /// Losing focus hides the cursor.
    pub fn on_blur(&mut self, state: &mut InputState)
        requires
            old(state)@.wf(),
        ensures
            final(state)@ == spec_on_blur(old(state)@),
            final(state)@.wf(),
    {
        state.cursor_char = String::new();
        state.fg_color = String::from_str("white");
        state.bg_color = String::new();
        state.focused = false;
    }

    /// Types `c` at the cursor.
    pub fn add_character(&mut self, c: char, state: &mut InputState)
        requires
            old(state)@.wf(),
        ensures
            final(state)@ == spec_add_character(old(state)@, c),
            final(state)@.wf(),
    {
        let pos = state.cursor_position;
        state.input.insert(pos, c);
        let len = state.input.len();
        assert(pos < len);
        let new_position = pos + 1;
        state.cursor_position = new_position;
        state.cursor_prefix = prefix_of(&state.input, new_position);
        state.cursor_char = char_at_or_space(&state.input, new_position);
    }

    /// Deletes the character under the cursor. Returns whether the text changed.
    pub fn delete(&self, state: &mut InputState) -> (changed: bool)
        requires
            old(state)@.wf(),
        ensures
            final(state)@ == spec_delete(old(state)@),
            final(state)@.wf(),
            changed == (old(state)@.cursor_position < old(state)@.input.len()),
    {
        let pos = state.cursor_position;
        if pos == state.input.len() {
            return false;
        }
        state.input.remove(pos);
        state.cursor_char = char_at_or_space(&state.input, pos);
        state.cursor_prefix = prefix_of(&state.input, pos);
        true
    }

    /// Deletes the character before the cursor. Returns whether the text changed.
    pub fn backspace(&mut self, state: &mut InputState) -> (changed: bool)
        requires
            old(state)@.wf(),
        ensures
            final(state)@ == spec_backspace(old(state)@),
            final(state)@.wf(),
            changed == (old(state)@.cursor_position > 0),
    {
        let pos = state.cursor_position;
        if pos == 0 {
            return false;
        }
        let new_pos = pos - 1;
        state.input.remove(new_pos);
        state.cursor_position = new_pos;
        state.cursor_char = char_at_or_space(&state.input, new_pos);
        state.cursor_prefix = prefix_of(&state.input, new_pos);
        true
    }

    /// Moves the cursor one character to the left.
    pub fn move_cursor_left(&self, state: &mut InputState)
        requires
            old(state)@.wf(),
        ensures
            final(state)@ == spec_move_left(old(state)@),
            final(state)@.wf(),
    {
        let pos = state.cursor_position;
        if pos == 0 {
            return;
        }
        let new_pos = pos - 1;
        state.cursor_position = new_pos;
        state.cursor_prefix = prefix_of(&state.input, new_pos);
        state.cursor_char = char_string(state.input[new_pos]);
    }

    /// Moves the cursor one character to the right.
    pub fn move_cursor_right(&self, state: &mut InputState)
        requires
            old(state)@.wf(),
        ensures
            final(state)@ == spec_move_right(old(state)@),
            final(state)@.wf(),
    {
        let pos = state.cursor_position;
        if pos == state.input.len() {
            return;
        }
        let new_pos = pos + 1;
        state.cursor_position = new_pos;
        state.cursor_prefix = prefix_of(&state.input, new_pos);
        state.cursor_char = char_at_or_space(&state.input, new_pos);
    }

    /// Moves the cursor to the end of the text.
    pub fn move_cursor_up(&self, state: &mut InputState)
        requires
            old(state)@.wf(),
        ensures
            final(state)@ == spec_move_up(old(state)@),
            final(state)@.wf(),
    {
        let len = state.input.len();
        state.cursor_position = len;
        state.cursor_char = char_string(' ');
        state.cursor_prefix = prefix_of(&state.input, len);
        proof {
            assert(state@.input.take(len as int) =~= state@.cursor_prefix);
        }
    }

    /// Moves the cursor to the start of the text.
    pub fn move_cursor_down(&self, state: &mut InputState)
        requires
            old(state)@.wf(),
        ensures
            final(state)@ == spec_move_down(old(state)@),
            final(state)@.wf(),
    {
        state.cursor_position = 0;
        state.cursor_char = char_at_or_space(&state.input, 0);
        state.cursor_prefix = Vec::new();
        proof {
            assert(state@.input.take(0) =~= state@.cursor_prefix);
        }
    }

    /// Replaces the text with `value` and puts the cursor at its end; a
    /// focused input shows the cursor there.
    pub fn set_input(&self, value: Vec<char>, state: &mut InputState)
        requires
            old(state)@.wf(),
        ensures
            final(state)@ == spec_set_input(old(state)@, value@),
            final(state)@.wf(),
    {
        let len = value.len();
        state.cursor_prefix = prefix_of(&value, len);
        state.input = value;
        state.cursor_position = len;
        if state.focused {
            state.cursor_char = char_string(' ');
        }
        proof {
            assert(state@.input.take(len as int) =~= state@.cursor_prefix);
        }
    }
}

/// Typing a character and then pressing Backspace gives back the text and
/// the cursor position that were there before.
pub proof fn lemma_add_then_backspace(v: InputView, c: char)
    requires
        v.wf(),
    ensures
        spec_backspace(spec_add_character(v, c)).input == v.input,
        spec_backspace(spec_add_character(v, c)).cursor_position == v.cursor_position,
        spec_backspace(spec_add_character(v, c)).cursor_prefix == v.cursor_prefix,
{
    let a = spec_add_character(v, c);
    assert(a.input.remove(v.cursor_position as int) =~= v.input);
}

/// Delete before the end of the text takes out exactly the character under
/// the cursor: the text is one shorter, what stands before the cursor is
/// kept, what stands after it moves one place back, and the cursor stays.
pub proof fn lemma_delete_removes_one(v: InputView)
    requires
        v.wf(),
        v.cursor_position < v.input.len(),
    ensures
        spec_delete(v).input.len() == v.input.len() - 1,
        forall|k: int| 0 <= k < v.cursor_position ==> #[trigger] spec_delete(v).input[k] == v.input[k],
        forall|k: int|
            v.cursor_position <= k < v.input.len() - 1 ==> #[trigger] spec_delete(v).input[k] == v.input[k + 1],
        spec_delete(v).input.insert(v.cursor_position as int, v.input[v.cursor_position as int]) == v.input,
        spec_delete(v).cursor_position == v.cursor_position,
{
    let d = spec_delete(v).input;
    let pos = v.cursor_position as int;
    assert(d =~= v.input.take(pos) + v.input.skip(pos + 1));
    assert(d.insert(pos, v.input[pos]) =~= v.input);
}

/// Typing a character, moving left onto it and pressing Delete gives back
/// the text that was there before.
pub proof fn lemma_add_left_delete(v: InputView, c: char)
    requires
        v.wf(),
    ensures
        spec_delete(spec_move_left(spec_add_character(v, c))).input == v.input,
        spec_delete(spec_move_left(spec_add_character(v, c))).cursor_position == v.cursor_position,
{
    let a = spec_add_character(v, c);
    assert(a.input.remove(v.cursor_position as int) =~= v.input);
}

/// Moving left and then right returns the cursor to where it was, whenever
/// it was not at the start of the text.
pub proof fn lemma_left_then_right(v: InputView)
    requires
        v.wf(),
        v.cursor_position > 0,
    ensures
        spec_move_right(spec_move_left(v)).cursor_position == v.cursor_position,
        spec_move_right(spec_move_left(v)).cursor_prefix == v.cursor_prefix,
        spec_move_right(spec_move_left(v)).input == v.input,
{
}

/// Every operation keeps the cursor within the text and the prefix equal to
/// the text before the cursor.
pub proof fn lemma_operations_keep_wf(v: InputView, c: char)
    requires
        v.wf(),
    ensures
        spec_add_character(v, c).wf(),
        spec_delete(v).wf(),
        spec_backspace(v).wf(),
        spec_move_left(v).wf(),
        spec_move_right(v).wf(),
        spec_move_up(v).wf(),
        spec_move_down(v).wf(),
        spec_on_focus(v).wf(),
        spec_on_blur(v).wf(),
{
    assert(v.input.take(v.input.len() as int) =~= v.input);
}

} // verus!
