//! Cursor arithmetic and editing operations of the multi-line text area.
//!
//! The text layout (how the input wraps into lines) is computed by the
//! terminal UI; here it arrives as plain values: one width per laid-out line.

use vstd::prelude::*;

use crate::keys::{KeyCode, KeyEvent};
use crate::messages::TextAreaMessages;
use crate::text::{chars_of, string_from_chars, take_at_most, take_chars};

verus! {

/// Sum of the first `n` entries of `s`.
pub open spec fn sum_prefix(s: Seq<usize>, n: int) -> int
    decreases n,
{
    if n <= 0 || s.len() == 0 {
        0
    } else if n > s.len() {
        sum_prefix(s, s.len() as int)
    } else {
        sum_prefix(s, n - 1) + s[n - 1]
    }
}

/// Partial sums grow with the number of summed entries.
pub proof fn lemma_sum_prefix_monotone(s: Seq<usize>, i: int, j: int)
    requires
        0 <= i <= j <= s.len(),
    ensures
        0 <= sum_prefix(s, i) <= sum_prefix(s, j),
    decreases j,
{
    if j > 0 {
        if j > i {
            lemma_sum_prefix_monotone(s, i, j - 1);
        } else {
            lemma_sum_prefix_monotone(s, j - 1, j - 1);
        }
    }
}

pub open spec fn min_int(a: int, b: int) -> int {
    if a <= b { a } else { b }
}

/// Index in the input that the cursor `(x, y)` updates: the lengths of the
/// lines above, one newline for each of them, and the column counted from
/// one (for lines of 10 and 20 characters, column 1 of the third line is
/// index 34).
pub open spec fn spec_update_index(line_lengths: Seq<usize>, x: int, y: int) -> int {
    let n = min_int(y, line_lengths.len() as int);
    sum_prefix(line_lengths, n) + n + x + 1
}

/// Whether the cursor sits on the last character of the last line.
/// The last entry of `line_lengths` counts the newlines and is skipped.
pub open spec fn spec_is_at_end_of_input(line_lengths: Seq<usize>, x: int, y: int) -> bool {
    let last_line = if line_lengths.len() >= 2 { line_lengths.len() - 2 } else { 0 };
    let last_line_length: int = if line_lengths.len() >= 2 {
        line_lengths[line_lengths.len() - 2] as int
    } else {
        0
    };
    let target_x = if last_line_length >= 1 { last_line_length - 1 } else { 0 };
    y == last_line && target_x == x
}

/// Whether the cursor `(x, y)` is at the end of the input whose per-line
/// lengths are `line_lengths` (last entry: the number of newlines).
pub fn is_at_end_of_input(line_lengths: &[usize], x: usize, y: usize) -> (at_end: bool)
    ensures
        at_end == spec_is_at_end_of_input(line_lengths@, x as int, y as int),
{
    let on_last_line = y == line_lengths.len().saturating_sub(2);
    if !on_last_line {
        return false;
    }
    let last_line_length: usize = if line_lengths.len() >= 2 {
        line_lengths[line_lengths.len() - 2]
    } else {
        0
    };
    last_line_length.saturating_sub(1) == x
}

/// Index in the input of the character under the cursor `(x, y)`.
pub fn get_update_index(line_lengths: &[usize], x: usize, y: usize) -> (index: usize)
    requires
        spec_update_index(line_lengths@, x as int, y as int) <= usize::MAX,
    ensures
        index == spec_update_index(line_lengths@, x as int, y as int),
{
    let n: usize = if y < line_lengths.len() { y } else { line_lengths.len() };
    proof {
        lemma_sum_prefix_monotone(line_lengths@, 0, n as int);
    }
    let mut sum: usize = 0;
    let mut i: usize = 0;
    while i < n
        invariant
            n <= line_lengths@.len(),
            n == min_int(y as int, line_lengths@.len() as int),
            i <= n,
            sum == sum_prefix(line_lengths@, i as int),
            sum_prefix(line_lengths@, n as int) + n + x + 1 <= usize::MAX,
        decreases n - i,
    {
        proof {
            lemma_sum_prefix_monotone(line_lengths@, (i + 1) as int, n as int);
        }
        sum = sum + line_lengths[i];
        i = i + 1;
    }
    sum + n + x + 1
}

/// The character under the cursor, shown by the editor: the character at
/// `index`, or a space past the end of the input.
pub open spec fn cursor_char_at(input: Seq<char>, index: int) -> Seq<char> {
    if 0 <= index < input.len() {
        seq![input[index]]
    } else {
        seq![' ']
    }
}

/// The character at `update_index` as a one-character string, or a space
/// when the input is shorter.
pub fn update_cursor_char(input: &[char], update_index: usize) -> (cursor_char: String)
    ensures
        cursor_char@ == cursor_char_at(input@, update_index as int),
{
    let mut s = String::new();
    if update_index < input.len() {
        s.push(input[update_index]);
    } else {
        s.push(' ');
    }
    proof {
        assert(s@ =~= cursor_char_at(input@, update_index as int));
    }
    s
}

/// Cursor position and text before the cursor after moving one character
/// to the left.
#[derive(Debug, PartialEq, Eq)]
pub struct CursorData {
    pub x: usize,
    pub y: usize,
    pub cursor_index: usize,
    pub cursor_prefix: String,
}

/// Where the cursor lands after deleting the character before it: one
/// column to the left, or past the end of the previous line (of width
/// `prev_line_width`) when it was in the first column.
pub fn get_cursor_data_left(
    chars: &[char],
    prev_x: usize,
    prev_y: usize,
    prev_line_width: usize,
    prev_cursor_index: usize,
) -> (data: CursorData)
    requires
        prev_line_width < usize::MAX,
    ensures
        data.cursor_index == (if prev_cursor_index > 0 { prev_cursor_index - 1 } else { 0 }),
        data.cursor_prefix@ == take_at_most(chars@, data.cursor_index as int),
        data.x == (if prev_x > 0 { prev_x - 1 } else { prev_line_width + 1 }),
        data.y == (if prev_x > 0 { prev_y as int } else if prev_y > 0 { prev_y - 1 } else { 0 }),
{
    let cursor_index = prev_cursor_index.saturating_sub(1);
    let prefix = take_chars(chars, cursor_index);
    let cursor_prefix = string_from_chars(prefix.as_slice());
    let mut x = prev_line_width + 1;
    let mut y = prev_y.saturating_sub(1);
    if prev_x > 0 {
        x = prev_x - 1;
        y = prev_y;
    }
    CursorData { x, y, cursor_index, cursor_prefix }
}

/// A cursor position: column `x` on line `y`.
#[derive(Debug, Clone, Copy, PartialEq, Eq)]
pub struct Coordinates {
    pub x: usize,
    pub y: usize,
}

impl Coordinates {
    pub fn new(x_pos: usize, y_pos: usize) -> (c: Coordinates)
        ensures
            c.x == x_pos,
            c.y == y_pos,
    {
        Coordinates { x: x_pos, y: y_pos }
    }
}

/// Column kept when moving to a line of width `target_line_width`: the same
/// column, or the end of the target line when that line is shorter.
pub open spec fn clamp_column(x: int, target_line_width: int) -> int {
    if x <= target_line_width {
        x
    } else {
        target_line_width
    }
}

/// Position after moving the cursor up one line.
pub fn get_cursor_up_x_y(x: usize, y: usize, target_line_width: u16) -> (c: Coordinates)
    requires
        y >= 1,
    ensures
        c.x == clamp_column(x as int, target_line_width as int),
        c.y == y - 1,
{
    let last_target_line_index: usize = target_line_width as usize;
    let target_x_position = if x <= last_target_line_index {
        x
    } else {
        last_target_line_index
    };
    Coordinates::new(target_x_position, y - 1)
}

/// Position after moving the cursor down one line.
pub fn get_cursor_down_x_y(x: usize, y: usize, target_line_width: u16) -> (c: Coordinates)
    requires
        y < usize::MAX,
    ensures
        c.x == clamp_column(x as int, target_line_width as int),
        c.y == y + 1,
{
    let last_target_line_index: usize = target_line_width as usize;
    let target_x_position = if x <= last_target_line_index {
        x
    } else {
        last_target_line_index
    };
    Coordinates::new(target_x_position, y + 1)
}

/// One laid-out line of the text area, as the terminal UI measured it: its
/// display width and the lengths of its text segments.
pub struct LineLayout {
    pub width: u16,
    pub segment_lengths: Vec<usize>,
}

/// The display widths of the laid-out lines.
pub open spec fn line_widths(lines: Seq<LineLayout>) -> Seq<usize> {
    Seq::new(lines.len(), |i: int| lines[i].width as usize)
}

/// Total text length of one laid-out line.
pub open spec fn line_text_length(line: LineLayout) -> int {
    sum_prefix(line.segment_lengths@, line.segment_lengths@.len() as int)
}

/// Per-line text lengths followed by the number of newlines (one less than
/// the number of lines).
pub open spec fn spec_line_lengths(lines: Seq<LineLayout>) -> Seq<usize> {
    Seq::new(lines.len(), |i: int| line_text_length(lines[i]) as usize).push(
        (lines.len() - 1) as usize,
    )
}

/// Whether `get_line_lengths` can measure `lines` without overflow: there is
/// at least one line and every line's length fits in a `usize`.
pub open spec fn line_lengths_fit(lines: Seq<LineLayout>) -> bool {
    &&& lines.len() >= 1
    &&& forall|i: int| 0 <= i < lines.len() ==> line_text_length(#[trigger] lines[i]) <= usize::MAX
}

/// Text length of every laid-out line, followed by the number of newlines.
pub fn get_line_lengths(lines: &[LineLayout]) -> (line_lengths: Vec<usize>)
    requires
        line_lengths_fit(lines@),
    ensures
        line_lengths@ == spec_line_lengths(lines@),
{
    let mut line_lengths: Vec<usize> = Vec::new();
    let mut i: usize = 0;
    while i < lines.len()
        invariant
            line_lengths_fit(lines@),
            i <= lines@.len(),
            line_lengths@.len() == i,
            forall|k: int|
                0 <= k < i ==> #[trigger] line_lengths@[k] == line_text_length(lines@[k]),
        decreases lines@.len() - i,
    {
        let segments = &lines[i].segment_lengths;
        let ghost segs = segments@;
        let mut length_of_line: usize = 0;
        let mut j: usize = 0;
        proof {
            assert(line_text_length(lines@[i as int]) <= usize::MAX);
            lemma_sum_prefix_monotone(segs, 0, segs.len() as int);
        }
        while j < segments.len()
            invariant
                segs == segments@,
                j <= segs.len(),
                length_of_line == sum_prefix(segs, j as int),
                sum_prefix(segs, segs.len() as int) <= usize::MAX,
            decreases segs.len() - j,
        {
            proof {
                lemma_sum_prefix_monotone(segs, (j + 1) as int, segs.len() as int);
            }
            length_of_line = length_of_line + segments[j];
            j = j + 1;
        }
        line_lengths.push(length_of_line);
        i = i + 1;
    }
    line_lengths.push(line_lengths.len() - 1);
    proof {
        assert(line_lengths@ =~= spec_line_lengths(lines@));
    }
    line_lengths
}

/// Index in the input of the character at column `x` of line `y`: the widths
/// of the lines above it, one newline per line above, and `x`.
pub open spec fn spec_cursor_index(x: int, y: int, lines: Seq<LineLayout>) -> int {
    sum_prefix(line_widths(lines), min_int(y, lines.len() as int)) + y + x
}

/// Index in the input of the character at column `x` of line `y`.
pub fn get_cursor_index(x: usize, y: usize, lines: &[LineLayout]) -> (index: usize)
    requires
        spec_cursor_index(x as int, y as int, lines@) <= usize::MAX,
    ensures
        index == spec_cursor_index(x as int, y as int, lines@),
{
    let ghost ws = line_widths(lines@);
    let n: usize = if y < lines.len() { y } else { lines.len() };
    proof {
        lemma_sum_prefix_monotone(ws, 0, n as int);
    }
    let mut previous_lines_width: usize = 0;
    let mut i: usize = 0;
    while i < n
        invariant
            ws == line_widths(lines@),
            n <= lines@.len(),
            n == min_int(y as int, lines@.len() as int),
            i <= n,
            previous_lines_width == sum_prefix(ws, i as int),
            sum_prefix(ws, n as int) + y + x <= usize::MAX,
        decreases n - i,
    {
        proof {
            lemma_sum_prefix_monotone(ws, (i + 1) as int, n as int);
        }
        previous_lines_width = previous_lines_width + lines[i].width as usize;
        i = i + 1;
    }
    previous_lines_width + y + x
}

/// Sum of all entries of `values`.
fn sum_all(values: &[usize]) -> (total: usize)
    requires
        sum_prefix(values@, values@.len() as int) <= usize::MAX,
    ensures
        total == sum_prefix(values@, values@.len() as int),
{
    proof {
        lemma_sum_prefix_monotone(values@, 0, values@.len() as int);
    }
    let mut total: usize = 0;
    let mut i: usize = 0;
    while i < values.len()
        invariant
            i <= values@.len(),
            total == sum_prefix(values@, i as int),
            sum_prefix(values@, values@.len() as int) <= usize::MAX,
        decreases values@.len() - i,
    {
        proof {
            lemma_sum_prefix_monotone(values@, (i + 1) as int, values@.len() as int);
        }
        total = total + values[i];
        i = i + 1;
    }
    total
}

/// State of a multi-line text area: the text, the cursor (as a position and
/// as the text before it), the character shown under the cursor, and the
/// number of lines the last layout produced.
pub struct TextAreaInputState {
    pub input: Vec<char>,
    pub cursor_prefix: String,
    pub cursor_char: String,
    pub cursor_x: usize,
    pub cursor_y: usize,
    pub line_count: usize,
    pub text_color: String,
    pub fg_color: String,
    pub bg_color: String,
    pub focused: bool,
    pub scroll_position: usize,
}

impl TextAreaInputState {
    /// An empty, unfocused text area with the cursor at the origin.
    pub fn new() -> (state: TextAreaInputState)
        ensures
            state.input@.len() == 0,
            state.cursor_prefix@.len() == 0,
            state.cursor_char@.len() == 0,
            state.cursor_x == 0,
            state.cursor_y == 0,
            state.line_count == 1,
            state.text_color@ == "white"@,
            state.fg_color@ == "white"@,
            state.bg_color@.len() == 0,
            !state.focused,
            state.scroll_position == 0,
    {
        TextAreaInputState {
            input: Vec::new(),
            cursor_prefix: String::new(),
            cursor_char: String::new(),
            cursor_x: 0,
            cursor_y: 0,
            line_count: 1,
            text_color: String::from_str("white"),
            fg_color: String::from_str("white"),
            bg_color: String::new(),
            focused: false,
            scroll_position: 0,
        }
    }
}

/// The per-line lengths `add_character` works with: the width of every line,
/// then the number of newlines.
pub open spec fn typing_line_lengths(lines: Seq<LineLayout>) -> Seq<usize> {
    line_widths(lines).push(if lines.len() >= 1 { (lines.len() - 1) as usize } else { 0 })
}

/// Where a typed character goes: at the end of the text when the cursor is
/// on the last character, else at the cursor; never past the end.
pub open spec fn spec_typing_index(
    line_lengths: Seq<usize>,
    x: int,
    y: int,
    input_len: int,
) -> int {
    let raw = if spec_is_at_end_of_input(line_lengths, x, y) {
        sum_prefix(line_lengths, line_lengths.len() as int)
    } else {
        spec_update_index(line_lengths, x, y)
    };
    if raw > input_len {
        input_len
    } else {
        raw
    }
}

/// Whether a keystroke takes the ordinary typing path (neither refused as
/// read-only nor turned into a clipboard paste).
pub open spec fn types_character(
    ch: char,
    ctrl: bool,
    editable: Option<bool>,
    clipboard_text: Option<Vec<char>>,
) -> bool {
    editable != Some(false) && !(ctrl && ch == 'c' && clipboard_text.is_some())
}

/// Whether typing a character with this layout and cursor stays within
/// machine integers.
pub open spec fn typing_fits(state: TextAreaInputState, lines: Seq<LineLayout>) -> bool {
    let ll = typing_line_lengths(lines);
    &&& sum_prefix(ll, ll.len() as int) <= usize::MAX
    &&& !spec_is_at_end_of_input(ll, state.cursor_x as int, state.cursor_y as int)
        ==> spec_update_index(ll, state.cursor_x as int, state.cursor_y as int) <= usize::MAX
    &&& lines.len() > state.line_count ==> state.cursor_y < usize::MAX
    &&& lines.len() <= state.line_count ==> state.cursor_x < usize::MAX
}

/// The condition under which `add_character` stays within machine integers.
pub open spec fn add_character_pre(pre: TextAreaInputState, ch: char, ctrl: bool, editable: Option<bool>, clipboard_text: Option<Vec<char>>, lines: Seq<LineLayout>) -> bool {
    &&& types_character(ch, ctrl, editable, clipboard_text) ==> typing_fits(pre, lines)
}

/// What `add_character` does to the text area's state.
pub open spec fn add_character_post(pre: TextAreaInputState, post: TextAreaInputState, ch: char, ctrl: bool, editable: Option<bool>, clipboard_text: Option<Vec<char>>, lines: Seq<LineLayout>) -> bool {
    &&& editable == Some(false) ==> post == pre
    &&& editable != Some(false) && ctrl && ch == 'c' && clipboard_text.is_some() ==> {
        &&& post.input@ == clipboard_text.unwrap()@
        &&& post.cursor_prefix == pre.cursor_prefix
        &&& post.cursor_char == pre.cursor_char
        &&& post.cursor_x == pre.cursor_x
        &&& post.cursor_y == pre.cursor_y
        &&& post.line_count == pre.line_count
    }
    &&& types_character(ch, ctrl, editable, clipboard_text) ==> {
        let ll = typing_line_lengths(lines);
        let grew = lines.len() > pre.line_count;
        let idx = spec_typing_index(
            ll,
            pre.cursor_x as int,
            pre.cursor_y as int,
            pre.input@.len() as int,
        );
        &&& post.line_count == lines.len()
        &&& post.cursor_x == (if grew { 0 } else { pre.cursor_x + 1 })
        &&& post.cursor_y == (if grew { pre.cursor_y + 1 } else { pre.cursor_y as int })
        &&& post.input@ == pre.input@.insert(idx, ch)
        &&& post.cursor_prefix@ == take_at_most(post.input@, idx + 1)
        &&& post.cursor_char@ == cursor_char_at(post.input@, idx + 1)
    }
    &&& post.text_color == pre.text_color
    &&& post.fg_color == pre.fg_color
    &&& post.bg_color == pre.bg_color
    &&& post.focused == pre.focused
    &&& post.scroll_position == pre.scroll_position
}

/// The condition under which `backspace` stays within machine integers.
pub open spec fn backspace_pre(pre: TextAreaInputState, lines: Seq<LineLayout>) -> bool {
    &&& line_lengths_fit(lines)
    &&& !spec_is_at_end_of_input(spec_line_lengths(lines), pre.cursor_x as int, pre.cursor_y as int)
        ==> spec_update_index(spec_line_lengths(lines), pre.cursor_x as int, pre.cursor_y as int) <= usize::MAX
    &&& spec_cursor_index(pre.cursor_x as int, pre.cursor_y as int, lines) <= usize::MAX
}

/// Whether Backspace removes a character: the index it removes at is
/// inside the text.
pub open spec fn backspace_removes(pre: TextAreaInputState, lines: Seq<LineLayout>) -> bool {
    spec_backspace_index(
        spec_line_lengths(lines),
        pre.cursor_x as int,
        pre.cursor_y as int,
        pre.input@.len() as int,
    ) < pre.input@.len()
}

/// What `backspace` does to the text area's state.
pub open spec fn backspace_post(pre: TextAreaInputState, post: TextAreaInputState, removed: bool, lines: Seq<LineLayout>) -> bool {
    &&& ({
        let ll = spec_line_lengths(lines);
        let x = pre.cursor_x as int;
        let y = pre.cursor_y as int;
        let n = pre.input@.len() as int;
        let index = spec_backspace_index(ll, x, y, n);
        &&& removed == (index < n)
        &&& removed ==> post.input@ == pre.input@.remove(index)
        &&& !removed ==> post.input@ == pre.input@
        &&& (removed && (if y > 0 { y - 1 } else { 0 }) < lines.len()) ==> {
            let prev_width = lines[if y > 0 { y - 1 } else { 0 }].width as int;
            let cursor_index = spec_cursor_index(x, y, lines);
            let new_index = if cursor_index > 0 { cursor_index - 1 } else { 0 };
            &&& post.cursor_x == (if x > 0 { x - 1 } else { prev_width + 1 })
            &&& post.cursor_y == (if x > 0 { y } else if y > 0 { y - 1 } else { 0 })
            &&& post.cursor_prefix@ == take_at_most(post.input@, new_index)
            &&& post.cursor_char@ == cursor_char_at(post.input@, new_index)
        }
        &&& !(removed && (if y > 0 { y - 1 } else { 0 }) < lines.len()) ==> {
            &&& post.cursor_x == pre.cursor_x
            &&& post.cursor_y == pre.cursor_y
            &&& post.cursor_prefix == pre.cursor_prefix
            &&& post.cursor_char == pre.cursor_char
        }
    })
    &&& post.line_count == pre.line_count
    &&& post.text_color == pre.text_color
    &&& post.fg_color == pre.fg_color
    &&& post.bg_color == pre.bg_color
    &&& post.focused == pre.focused
    &&& post.scroll_position == pre.scroll_position
}

/// What `move_cursor_left` does to the text area's state.
pub open spec fn move_cursor_left_post(pre: TextAreaInputState, post: TextAreaInputState, lines: Seq<LineLayout>) -> bool {
    &&& ({
        let old_index = pre.cursor_prefix@.len() as int;
        let new_index = if old_index > 0 { old_index - 1 } else { 0 };
        let x = pre.cursor_x as int;
        let y = pre.cursor_y as int;
        let target_y = if y > 0 { y - 1 } else { 0 };
        &&& post.cursor_prefix@ == take_at_most(pre.input@, new_index)
        &&& post.cursor_char@ == cursor_char_at(pre.input@, new_index)
        &&& x > 0 ==> post.cursor_x == x - 1 && post.cursor_y == y
        &&& x == 0 ==> post.cursor_y == target_y
        &&& x == 0 ==> post.cursor_x == (if target_y < lines.len() { lines[target_y].width + 1 } else { 0 })
    })
    &&& post.input == pre.input
    &&& post.line_count == pre.line_count
    &&& post.text_color == pre.text_color
    &&& post.fg_color == pre.fg_color
    &&& post.bg_color == pre.bg_color
    &&& post.focused == pre.focused
    &&& post.scroll_position == pre.scroll_position
}

/// The condition under which `move_cursor_right` stays within machine integers.
pub open spec fn move_cursor_right_pre(pre: TextAreaInputState, lines: Seq<LineLayout>) -> bool {
    &&& pre.cursor_prefix@.len() != pre.input@.len() && pre.cursor_y < lines.len() ==> {
        &&& lines[pre.cursor_y as int].width < u16::MAX
        &&& pre.cursor_x < usize::MAX
        &&& pre.cursor_prefix@.len() < usize::MAX
    }
}

/// What `move_cursor_right` does to the text area's state.
pub open spec fn move_cursor_right_post(pre: TextAreaInputState, post: TextAreaInputState, lines: Seq<LineLayout>) -> bool {
    &&& ({
        let moves = pre.cursor_prefix@.len() != pre.input@.len() && pre.cursor_y < lines.len();
        let new_index = pre.cursor_prefix@.len() + 1int;
        let x = pre.cursor_x as int;
        let y = pre.cursor_y as int;
        &&& !moves ==> post == pre
        &&& moves ==> {
            &&& post.cursor_prefix@ == take_at_most(pre.input@, new_index)
            &&& post.cursor_char@ == cursor_char_at(pre.input@, new_index)
            &&& x == lines[y].width + 1 ==> post.cursor_x == 0 && post.cursor_y == y + 1
            &&& x != lines[y].width + 1 ==> post.cursor_x == x + 1 && post.cursor_y == y
            &&& post.input == pre.input
            &&& post.line_count == pre.line_count
            &&& post.text_color == pre.text_color
            &&& post.fg_color == pre.fg_color
            &&& post.bg_color == pre.bg_color
            &&& post.focused == pre.focused
            &&& post.scroll_position == pre.scroll_position
        }
    })
}

/// The condition under which `cursor_up` stays within machine integers.
pub open spec fn cursor_up_pre(pre: TextAreaInputState, lines: Seq<LineLayout>) -> bool {
    &&& pre.cursor_y > 0 && pre.cursor_y - 1 < lines.len() ==> {
        let ty = pre.cursor_y - 1;
        let tx = clamp_column(pre.cursor_x as int, lines[ty].width as int);
        &&& widths_below_max(lines, ty)
        &&& spec_line_position(line_widths(lines), tx, ty) <= usize::MAX
    }
}

/// What `cursor_up` does to the text area's state.
pub open spec fn cursor_up_post(pre: TextAreaInputState, post: TextAreaInputState, lines: Seq<LineLayout>) -> bool {
    &&& ({
        let y = pre.cursor_y as int;
        let moves = y > 0 && y - 1 < lines.len();
        &&& !moves ==> post == pre
        &&& moves ==> {
            let ty = y - 1;
            let tx = clamp_column(pre.cursor_x as int, lines[ty].width as int);
            let index = spec_line_position(line_widths(lines), tx, ty);
            &&& post.cursor_x == tx
            &&& post.cursor_y == ty
            &&& post.cursor_prefix@ == take_at_most(pre.input@, index)
            &&& post.cursor_char@ == cursor_char_at(pre.input@, index)
            &&& post.input == pre.input
            &&& post.line_count == pre.line_count
            &&& post.text_color == pre.text_color
            &&& post.fg_color == pre.fg_color
            &&& post.bg_color == pre.bg_color
            &&& post.focused == pre.focused
            &&& post.scroll_position == pre.scroll_position
        }
    })
}

/// The condition under which `cursor_down` stays within machine integers.
pub open spec fn cursor_down_pre(pre: TextAreaInputState, lines: Seq<LineLayout>) -> bool {
    &&& pre.line_count >= 1
    &&& pre.cursor_y != pre.line_count - 1 ==> pre.cursor_y < usize::MAX
    &&& pre.cursor_y != pre.line_count - 1 && pre.cursor_y + 1 < lines.len() ==> {
        let ty = pre.cursor_y + 1;
        let tx = clamp_column(pre.cursor_x as int, lines[ty].width as int);
        &&& widths_below_max(lines, ty)
        &&& spec_line_position(line_widths(lines), tx, ty) <= usize::MAX
    }
}

/// What `cursor_down` does to the text area's state.
pub open spec fn cursor_down_post(pre: TextAreaInputState, post: TextAreaInputState, lines: Seq<LineLayout>) -> bool {
    &&& ({
        let y = pre.cursor_y as int;
        let moves = y != pre.line_count - 1 && y + 1 < lines.len();
        &&& !moves ==> post == pre
        &&& moves ==> {
            let ty = y + 1;
            let tx = clamp_column(pre.cursor_x as int, lines[ty].width as int);
            let index = spec_line_position(line_widths(lines), tx, ty);
            &&& post.cursor_x == tx
            &&& post.cursor_y == ty
            &&& post.cursor_prefix@ == take_at_most(pre.input@, index)
            &&& post.cursor_char@ == cursor_char_at(pre.input@, index)
            &&& post.input == pre.input
            &&& post.line_count == pre.line_count
            &&& post.text_color == pre.text_color
            &&& post.fg_color == pre.fg_color
            &&& post.bg_color == pre.bg_color
            &&& post.focused == pre.focused
            &&& post.scroll_position == pre.scroll_position
        }
    })
}

/// The multi-line text area component: which field it edits and which
/// components hear about its changes.
pub struct TextArea {
    pub input_for: Option<String>,
    pub listeners: Vec<String>,
}

impl TextArea {
    /// Types `ch` at the cursor. `lines` is the layout of the text before
    /// the keystroke. A read-only area (`editable == Some(false)`) ignores
    /// the key; Ctrl+C with clipboard text replaces the whole input by it.
    pub fn add_character(
        &self,
        ch: char,
        state: &mut TextAreaInputState,
        ctrl: bool,
        editable: Option<bool>,
        clipboard_text: Option<Vec<char>>,
        lines: &[LineLayout],
    )
        requires
            add_character_pre(*old(state), ch, ctrl, editable, clipboard_text, lines@),
        ensures
            add_character_post(*old(state), *final(state), ch, ctrl, editable, clipboard_text, lines@),
    {
        if editable == Some(false) {
            return;
        }
        if ctrl && ch == 'c' {
            if let Some(text) = clipboard_text {
                state.input = text;
                return;
            }
        }
        let current_line_count = lines.len();
        let prev_line_count = state.line_count;
        state.line_count = current_line_count;
        let prev_cursor_x = state.cursor_x;
        let prev_cursor_y = state.cursor_y;
        if current_line_count > prev_line_count {
            state.cursor_x = 0;
            state.cursor_y = prev_cursor_y + 1;
        } else {
            state.cursor_x = prev_cursor_x + 1;
        }
        let mut line_lengths: Vec<usize> = Vec::new();
        let mut i: usize = 0;
        while i < lines.len()
            invariant
                i <= lines@.len(),
                line_lengths@ == line_widths(lines@).take(i as int),
            decreases lines@.len() - i,
        {
            line_lengths.push(lines[i].width as usize);
            i = i + 1;
            proof {
                assert(line_lengths@ =~= line_widths(lines@).take(i as int));
            }
        }
        let newlines = line_lengths.len().saturating_sub(1);
        line_lengths.push(newlines);
        proof {
            assert(line_lengths@ =~= typing_line_lengths(lines@));
        }
        let mut update_index = sum_all(line_lengths.as_slice());
        if !is_at_end_of_input(line_lengths.as_slice(), prev_cursor_x, prev_cursor_y) {
            update_index = get_update_index(line_lengths.as_slice(), prev_cursor_x, prev_cursor_y);
        }
        if update_index > state.input.len() {
            update_index = state.input.len();
        }
        state.input.insert(update_index, ch);
        let new_len = state.input.len();
        assert(update_index < new_len);
        let prefix = take_chars(state.input.as_slice(), update_index + 1);
        state.cursor_prefix = string_from_chars(prefix.as_slice());
        state.cursor_char = update_cursor_char(state.input.as_slice(), update_index + 1);
    }

    /// Deletes the character before the cursor. `lines` is the layout of the
    /// text before the keystroke. Returns whether a character was removed.
    pub fn backspace(&self, state: &mut TextAreaInputState, lines: &[LineLayout]) -> (removed: bool)
        requires
            backspace_pre(*old(state), lines@),
        ensures
            backspace_post(*old(state), *final(state), removed, lines@),
    {
        let prev_cursor_x = state.cursor_x;
        let prev_cursor_y = state.cursor_y;
        let line_lengths = get_line_lengths(lines);
        let mut backspace_index = state.input.len().saturating_sub(1);
        if !is_at_end_of_input(line_lengths.as_slice(), prev_cursor_x, prev_cursor_y) {
            backspace_index = get_update_index(line_lengths.as_slice(), prev_cursor_x, prev_cursor_y).saturating_sub(1);
        }
        if backspace_index < state.input.len() {
            state.input.remove(backspace_index);
            let previous_line_index = prev_cursor_y.saturating_sub(1);
            if previous_line_index >= lines.len() {
                return true;
            }
            let previous_line_width = lines[previous_line_index].width as usize;
            let prev_cursor_index = get_cursor_index(prev_cursor_x, prev_cursor_y, lines);
            let new_cursor_data = get_cursor_data_left(
                state.input.as_slice(),
                prev_cursor_x,
                prev_cursor_y,
                previous_line_width,
                prev_cursor_index,
            );
            state.cursor_x = new_cursor_data.x;
            state.cursor_y = new_cursor_data.y;
            state.cursor_prefix = new_cursor_data.cursor_prefix;
            state.cursor_char = update_cursor_char(state.input.as_slice(), new_cursor_data.cursor_index);
            true
        } else {
            false
        }
    }

    /// Moves the cursor one character to the left, to the end of the
    /// previous line when it is in the first column.
    pub fn move_cursor_left(&self, state: &mut TextAreaInputState, lines: &[LineLayout])
        ensures
            move_cursor_left_post(*old(state), *final(state), lines@),
    {
        let cursor_index = state.cursor_prefix.as_str().unicode_len();
        let new_cursor_index = cursor_index.saturating_sub(1);
        let new_prefix = take_chars(state.input.as_slice(), new_cursor_index);
        state.cursor_prefix = string_from_chars(new_prefix.as_slice());
        state.cursor_char = update_cursor_char(state.input.as_slice(), new_cursor_index);
        let mut x = state.cursor_x;
        let mut y = state.cursor_y;
        if x > 0 {
            state.cursor_x = x - 1;
        } else {
            y = y.saturating_sub(1);
            if y < lines.len() {
                x = lines[y].width as usize + 1;
            }
            state.cursor_x = x;
            state.cursor_y = y;
        }
    }

    /// Moves the cursor one character to the right, to the start of the
    /// next line when it is past the end of its line.
    pub fn move_cursor_right(&self, state: &mut TextAreaInputState, lines: &[LineLayout])
        requires
            move_cursor_right_pre(*old(state), lines@),
        ensures
            move_cursor_right_post(*old(state), *final(state), lines@),
    {
        let prefix_len = state.cursor_prefix.as_str().unicode_len();
        if prefix_len == state.input.len() {
            return;
        }
        let x = state.cursor_x;
        let y = state.cursor_y;
        if y >= lines.len() {
            return;
        }
        let last_current_line_x: u16 = lines[y].width + 1;
        if x == last_current_line_x as usize {
            state.cursor_x = 0;
            state.cursor_y = y + 1;
        } else {
            state.cursor_x = x + 1;
        }
        let new_cursor_index = prefix_len + 1;
        let new_prefix = take_chars(state.input.as_slice(), new_cursor_index);
        state.cursor_prefix = string_from_chars(new_prefix.as_slice());
        state.cursor_char = update_cursor_char(state.input.as_slice(), new_cursor_index);
    }
}

/// Backspace deletes before the cursor, or the last character when the
/// cursor is at the end of the text.
pub open spec fn spec_backspace_index(line_lengths: Seq<usize>, x: int, y: int, input_len: int) -> int {
    if spec_is_at_end_of_input(line_lengths, x, y) {
        if input_len > 0 { input_len - 1 } else { 0 }
    } else {
        let i = spec_update_index(line_lengths, x, y);
        if i > 0 { i - 1 } else { 0 }
    }
}

/// Index in the input of column `x` on line `y`: every line above counts
/// its width plus its newline.
pub open spec fn spec_line_position(widths: Seq<usize>, x: int, y: int) -> int {
    let n = min_int(y, widths.len() as int);
    sum_prefix(widths, n) + n + x
}

/// Whether the index of column `x` on line `y`, as `get_cursor_index`
/// counts it, fits in a `usize` over these widths.
fn cursor_index_fits(widths: &[usize], x: usize, y: usize) -> (fits: bool)
    ensures
        fits == (sum_prefix(widths@, min_int(y as int, widths@.len() as int)) + y + x <= usize::MAX),
{
    let n: usize = if y < widths.len() { y } else { widths.len() };
    match checked_sum(widths, n) {
        Some(sum) => sum3_fits(sum, y, x),
        None => false,
    }
}

/// Whether every line above line `y` is narrower than the largest `u16`
/// (the width of a line plus its newline is counted in a `u16`).
pub open spec fn widths_below_max(lines: Seq<LineLayout>, y: int) -> bool {
    forall|i: int| 0 <= i < y && i < lines.len() ==> #[trigger] lines[i].width < u16::MAX
}

/// Index in the input of column `x` on line `y` (which exists): every line
/// above counts its width plus its newline.
fn line_position_index(lines: &[LineLayout], x: usize, y: usize) -> (index: usize)
    requires
        y < lines@.len(),
        widths_below_max(lines@, y as int),
        spec_line_position(line_widths(lines@), x as int, y as int) <= usize::MAX,
    ensures
        index == spec_line_position(line_widths(lines@), x as int, y as int),
{
    let ghost ws = line_widths(lines@);
    proof {
        lemma_sum_prefix_monotone(ws, 0, y as int);
    }
    let mut cursor_index: usize = 0;
    let mut i: usize = 0;
    while i < y
        invariant
            ws == line_widths(lines@),
            y < lines@.len(),
            widths_below_max(lines@, y as int),
            i <= y,
            cursor_index == sum_prefix(ws, i as int) + i,
            sum_prefix(ws, y as int) + y + x <= usize::MAX,
        decreases y - i,
    {
        proof {
            lemma_sum_prefix_monotone(ws, (i + 1) as int, y as int);
            assert(lines@[i as int].width < u16::MAX);
        }
        let step: u16 = lines[i].width + 1;
        cursor_index = cursor_index + step as usize;
        i = i + 1;
    }
    cursor_index + x
}

/// Moves the cursor up one line, keeping its column when the line above is
/// long enough and going to that line's end otherwise.
pub fn cursor_up(lines: &[LineLayout], state: &mut TextAreaInputState)
    requires
        cursor_up_pre(*old(state), lines@),
    ensures
        cursor_up_post(*old(state), *final(state), lines@),
{
    let x = state.cursor_x;
    let y = state.cursor_y;
    if y == 0 {
        return;
    }
    if y - 1 >= lines.len() {
        return;
    }
    let target = get_cursor_up_x_y(x, y, lines[y - 1].width);
    state.cursor_x = target.x;
    state.cursor_y = target.y;
    let cursor_index = line_position_index(lines, target.x, target.y);
    let new_prefix = take_chars(state.input.as_slice(), cursor_index);
    state.cursor_prefix = string_from_chars(new_prefix.as_slice());
    state.cursor_char = update_cursor_char(state.input.as_slice(), cursor_index);
}

/// Moves the cursor down one line unless it is on the last line, keeping
/// its column when the line below is long enough.
pub fn cursor_down(lines: &[LineLayout], state: &mut TextAreaInputState)
    requires
        cursor_down_pre(*old(state), lines@),
    ensures
        cursor_down_post(*old(state), *final(state), lines@),
{
    let x = state.cursor_x;
    let y = state.cursor_y;
    let last_line_index = state.line_count - 1;
    if y == last_line_index {
        return;
    }
    if y + 1 >= lines.len() {
        return;
    }
    let target = get_cursor_down_x_y(x, y, lines[y + 1].width);
    state.cursor_x = target.x;
    state.cursor_y = target.y;
    let cursor_index = line_position_index(lines, target.x, target.y);
    let new_prefix = take_chars(state.input.as_slice(), cursor_index);
    state.cursor_prefix = string_from_chars(new_prefix.as_slice());
    state.cursor_char = update_cursor_char(state.input.as_slice(), cursor_index);
}

/// A direction the text area scrolls in.
#[derive(Debug, Clone, Copy, PartialEq, Eq)]
pub enum TextAreaScroll {
    Up,
    Down,
}

/// What a key press asks of the text area's surroundings.
#[derive(Debug, Clone, Copy, PartialEq, Eq)]
pub enum TextAreaKeyOutcome {
    /// Nothing to tell.
    Nothing,
    /// The text may have changed: the new text is published.
    TextChanged,
    /// A character was typed: the new text is published and the listeners
    /// hear of it.
    Typed,
    /// Escape: the focus goes back to the application.
    FocusApp,
}

/// The scroll position after half a view of `viewport_height` rows up or
/// down.
pub open spec fn spec_scrolled(position: int, viewport_height: int, direction: TextAreaScroll) -> int {
    let amount = viewport_height / 2;
    match direction {
        TextAreaScroll::Up => if position >= amount { position - amount } else { 0 },
        TextAreaScroll::Down => position + amount,
    }
}

/// Keys the text area does not handle yet (Insert, Back-Tab, Ctrl+C).
pub open spec fn is_unhandled_area_key(code: KeyCode) -> bool {
    code == KeyCode::Insert || code == KeyCode::BackTab || code == KeyCode::CtrlC
}

/// The condition under which a key press stays within machine integers.
pub open spec fn area_key_pre(
    pre: TextAreaInputState,
    event: KeyEvent,
    editable: Option<bool>,
    lines: Seq<LineLayout>,
    viewport_height: usize,
) -> bool {
    match event.code {
        KeyCode::Tab => add_character_pre(pre, '\t', event.ctrl, editable, None, lines),
        KeyCode::Enter => add_character_pre(pre, '\n', event.ctrl, editable, None, lines),
        KeyCode::Char(c) => if event.ctrl {
            c == 'd' ==> pre.scroll_position + viewport_height / 2 <= usize::MAX
        } else {
            add_character_pre(pre, c, false, editable, None, lines)
        },
        KeyCode::Backspace => backspace_pre(pre, lines),
        KeyCode::Right => move_cursor_right_pre(pre, lines),
        KeyCode::Up => cursor_up_pre(pre, lines),
        KeyCode::Down => cursor_down_pre(pre, lines),
        _ => !is_unhandled_area_key(event.code),
    }
}

/// What a key press does to the text area.
pub open spec fn area_key_post(
    pre: TextAreaInputState,
    post: TextAreaInputState,
    outcome: TextAreaKeyOutcome,
    event: KeyEvent,
    editable: Option<bool>,
    lines: Seq<LineLayout>,
    viewport_height: usize,
) -> bool {
    match event.code {
        KeyCode::Tab => add_character_post(pre, post, '\t', event.ctrl, editable, None, lines)
            && outcome == TextAreaKeyOutcome::TextChanged,
        KeyCode::Enter => add_character_post(pre, post, '\n', event.ctrl, editable, None, lines)
            && outcome == TextAreaKeyOutcome::TextChanged,
        KeyCode::Char(c) => if event.ctrl {
            &&& outcome == TextAreaKeyOutcome::Nothing
            &&& if c == 'd' || c == 'u' {
                &&& post.scroll_position == spec_scrolled(
                    pre.scroll_position as int,
                    viewport_height as int,
                    if c == 'd' { TextAreaScroll::Down } else { TextAreaScroll::Up },
                )
                &&& post == TextAreaInputState { scroll_position: post.scroll_position, ..pre }
            } else {
                post == pre
            }
        } else {
            add_character_post(pre, post, c, false, editable, None, lines) && outcome == TextAreaKeyOutcome::Typed
        },
        KeyCode::Backspace => backspace_post(pre, post, backspace_removes(pre, lines), lines)
            && outcome == (if backspace_removes(pre, lines) {
            TextAreaKeyOutcome::TextChanged
        } else {
            TextAreaKeyOutcome::Nothing
        }),
        KeyCode::Left => move_cursor_left_post(pre, post, lines) && outcome == TextAreaKeyOutcome::Nothing,
        KeyCode::Right => move_cursor_right_post(pre, post, lines) && outcome == TextAreaKeyOutcome::Nothing,
        KeyCode::Up => cursor_up_post(pre, post, lines) && outcome == TextAreaKeyOutcome::Nothing,
        KeyCode::Down => cursor_down_post(pre, post, lines) && outcome == TextAreaKeyOutcome::Nothing,
        KeyCode::Esc => post == pre && outcome == TextAreaKeyOutcome::FocusApp,
        _ => post == pre && outcome == TextAreaKeyOutcome::Nothing,
    }
}

impl TextArea {
    /// Scrolls by half a view of `viewport_height` rows.
    pub fn scroll(&self, state: &mut TextAreaInputState, viewport_height: usize, direction: TextAreaScroll)
        requires
            direction == TextAreaScroll::Down ==> old(state).scroll_position + viewport_height / 2 <= usize::MAX,
        ensures
            final(state).scroll_position == spec_scrolled(old(state).scroll_position as int, viewport_height as int, direction),
            *final(state) == (TextAreaInputState { scroll_position: final(state).scroll_position, ..*old(state) }),
    {
        let amount = viewport_height / 2;
        let position = state.scroll_position;
        state.scroll_position = match direction {
            TextAreaScroll::Up => position.saturating_sub(amount),
            TextAreaScroll::Down => position + amount,
        };
    }

    /// Handles a key press. `lines` is the layout of the text before the
    /// key, `editable` what the layout says of editing, `viewport_height`
    /// the height of the view. Tab, Enter and a typed character publish the
    /// new text, and a typed character also tells the listeners; Backspace
    /// publishes the text when it removed a character; Ctrl+D and Ctrl+U
    /// scroll; Escape hands the focus back.
    pub fn on_key(
        &mut self,
        event: KeyEvent,
        state: &mut TextAreaInputState,
        editable: Option<bool>,
        lines: &[LineLayout],
        viewport_height: usize,
    ) -> (outcome: TextAreaKeyOutcome)
        requires
            area_key_pre(*old(state), event, editable, lines@, viewport_height),
        ensures
            area_key_post(*old(state), *final(state), outcome, event, editable, lines@, viewport_height),
    {
        match event.code {
            KeyCode::Tab => {
                self.add_character('\t', state, event.ctrl, editable, None, lines);
                TextAreaKeyOutcome::TextChanged
            },
            KeyCode::Enter => {
                self.add_character('\n', state, event.ctrl, editable, None, lines);
                TextAreaKeyOutcome::TextChanged
            },
            KeyCode::Char(c) => {
                if event.ctrl {
                    if c == 'd' {
                        self.scroll(state, viewport_height, TextAreaScroll::Down);
                    } else if c == 'u' {
                        self.scroll(state, viewport_height, TextAreaScroll::Up);
                    }
                    TextAreaKeyOutcome::Nothing
                } else {
                    self.add_character(c, state, false, editable, None, lines);
                    TextAreaKeyOutcome::Typed
                }
            },
            KeyCode::Backspace => {
                if self.backspace(state, lines) {
                    TextAreaKeyOutcome::TextChanged
                } else {
                    TextAreaKeyOutcome::Nothing
                }
            },
            KeyCode::Left => {
                self.move_cursor_left(state, lines);
                TextAreaKeyOutcome::Nothing
            },
            KeyCode::Right => {
                self.move_cursor_right(state, lines);
                TextAreaKeyOutcome::Nothing
            },
            KeyCode::Up => {
                cursor_up(lines, state);
                TextAreaKeyOutcome::Nothing
            },
            KeyCode::Down => {
                cursor_down(lines, state);
                TextAreaKeyOutcome::Nothing
            },
            KeyCode::Esc => TextAreaKeyOutcome::FocusApp,
            _ => TextAreaKeyOutcome::Nothing,
        }
    }

    /// The message the listeners get after a character was typed.
    pub fn input_change_message(&self, state: &TextAreaInputState) -> (message: TextAreaMessages)
        ensures
            message matches TextAreaMessages::InputChange(v) && v@ == state.input@,
    {
        TextAreaMessages::InputChange(string_from_chars(state.input.as_slice()))
    }

    /// A message for the text area: a new text replaces the input.
    pub fn message(&self, message: TextAreaMessages, state: &mut TextAreaInputState)
        ensures
            match message {
                TextAreaMessages::SetInput(v) => final(state).input@ == v@
                    && *final(state) == (TextAreaInputState { input: final(state).input, ..*old(state) }),
                TextAreaMessages::InputChange(_) => *final(state) == *old(state),
            },
    {
        match message {
            TextAreaMessages::SetInput(v) => {
                state.input = chars_of(v.as_str());
            },
            TextAreaMessages::InputChange(_) => {},
        }
    }

    /// Takes what the layout gives: the text to show and the text colour.
    pub fn tick(&self, state: &mut TextAreaInputState, output: Option<String>, color: Option<String>)
        ensures
            final(state).input@ == (match output {
                Some(o) => o@,
                None => old(state).input@,
            }),
            final(state).text_color@ == (match color {
                Some(c) => c@,
                None => old(state).text_color@,
            }),
            *final(state) == (TextAreaInputState {
                input: final(state).input,
                text_color: final(state).text_color,
                ..*old(state)
            }),
    {
        match output {
            Some(o) => {
                state.input = chars_of(o.as_str());
            },
            None => {},
        }
        match color {
            Some(c) => {
                state.text_color = c;
            },
            None => {},
        }
    }

    /// Gaining focus: black on white, focused.
    pub fn on_focus(&self, state: &mut TextAreaInputState)
        ensures
            final(state).fg_color@ == "black"@,
            final(state).bg_color@ == "white"@,
            final(state).focused,
            *final(state) == (TextAreaInputState {
                fg_color: final(state).fg_color,
                bg_color: final(state).bg_color,
                focused: true,
                ..*old(state)
            }),
    {
        state.fg_color = String::from_str("black");
        state.bg_color = String::from_str("white");
        state.focused = true;
    }

    /// Losing focus: no cursor, white text, not focused.
    pub fn on_blur(&self, state: &mut TextAreaInputState)
        ensures
            final(state).cursor_char@.len() == 0,
            final(state).fg_color@ == "white"@,
            final(state).bg_color@.len() == 0,
            !final(state).focused,
            *final(state) == (TextAreaInputState {
                cursor_char: final(state).cursor_char,
                fg_color: final(state).fg_color,
                bg_color: final(state).bg_color,
                focused: false,
                ..*old(state)
            }),
    {
        state.cursor_char = String::new();
        state.fg_color = String::from_str("white");
        state.bg_color = String::new();
        state.focused = false;
    }
}

/// The sum of the first `n` entries of `s`, or `None` when it does not fit
/// in a `usize`.
fn checked_sum(s: &[usize], n: usize) -> (total: Option<usize>)
    requires
        n <= s@.len(),
    ensures
        match total {
            Some(t) => t == sum_prefix(s@, n as int),
            None => sum_prefix(s@, n as int) > usize::MAX,
        },
{
    let mut sum: usize = 0;
    let mut i: usize = 0;
    while i < n
        invariant
            n <= s@.len(),
            i <= n,
            sum == sum_prefix(s@, i as int),
        decreases n - i,
    {
        match sum.checked_add(s[i]) {
            Some(next) => {
                sum = next;
            },
            None => {
                proof {
                    lemma_sum_prefix_monotone(s@, (i + 1) as int, n as int);
                }
                return None;
            },
        }
        i = i + 1;
    }
    Some(sum)
}

/// The display widths of the laid-out lines.
fn widths_of(lines: &[LineLayout]) -> (widths: Vec<usize>)
    ensures
        widths@ == line_widths(lines@),
{
    let mut widths: Vec<usize> = Vec::new();
    let mut i: usize = 0;
    while i < lines.len()
        invariant
            i <= lines@.len(),
            widths@ == line_widths(lines@).take(i as int),
        decreases lines@.len() - i,
    {
        widths.push(lines[i].width as usize);
        i = i + 1;
        proof {
            assert(widths@ =~= line_widths(lines@).take(i as int));
        }
    }
    proof {
        assert(widths@ =~= line_widths(lines@));
    }
    widths
}

/// Whether `a + b + c` fits in a `usize`.
fn sum3_fits(a: usize, b: usize, c: usize) -> (fits: bool)
    ensures
        fits == (a + b + c <= usize::MAX),
{
    match a.checked_add(b) {
        Some(ab) => ab.checked_add(c).is_some(),
        None => false,
    }
}

/// Whether the update index of the cursor `(x, y)` fits in a `usize`.
fn update_index_fits(line_lengths: &[usize], x: usize, y: usize) -> (fits: bool)
    ensures
        fits == (spec_update_index(line_lengths@, x as int, y as int) <= usize::MAX),
{
    let n: usize = if y < line_lengths.len() { y } else { line_lengths.len() };
    match checked_sum(line_lengths, n) {
        Some(sum) => {
            if x == usize::MAX {
                false
            } else {
                sum3_fits(sum, n, x + 1)
            }
        },
        None => false,
    }
}

/// Whether `line_position` of column `x` on line `y` fits in a `usize`
/// over these widths.
fn line_position_fits(widths: &[usize], x: usize, y: usize) -> (fits: bool)
    ensures
        fits == (spec_line_position(widths@, x as int, y as int) <= usize::MAX),
{
    let n: usize = if y < widths.len() { y } else { widths.len() };
    match checked_sum(widths, n) {
        Some(sum) => sum3_fits(sum, n, x),
        None => false,
    }
}

/// Whether every line above line `y` is narrower than the largest `u16`.
fn widths_below_max_exec(lines: &[LineLayout], y: usize) -> (below: bool)
    ensures
        below == widths_below_max(lines@, y as int),
{
    let mut i: usize = 0;
    while i < y && i < lines.len()
        invariant
            i <= lines@.len(),
            i <= y,
            forall|k: int| 0 <= k < i ==> #[trigger] lines@[k].width < u16::MAX,
        decreases lines@.len() - i,
    {
        if lines[i].width == u16::MAX {
            return false;
        }
        i = i + 1;
    }
    true
}

/// Whether every laid-out line can be measured without overflow.
fn line_lengths_fit_exec(lines: &[LineLayout]) -> (fit: bool)
    ensures
        fit == line_lengths_fit(lines@),
{
    if lines.len() == 0 {
        return false;
    }
    let mut i: usize = 0;
    while i < lines.len()
        invariant
            i <= lines@.len(),
            forall|k: int| 0 <= k < i ==> line_text_length(#[trigger] lines@[k]) <= usize::MAX,
        decreases lines@.len() - i,
    {
        let segments = lines[i].segment_lengths.as_slice();
        if checked_sum(segments, segments.len()).is_none() {
            return false;
        }
        i = i + 1;
    }
    true
}

/// Whether typing a character at the cursor with this layout stays within
/// machine integers.
fn typing_fits_exec(state: &TextAreaInputState, lines: &[LineLayout]) -> (fits: bool)
    ensures
        fits == typing_fits(*state, lines@),
{
    let mut ll = widths_of(lines);
    let newlines: usize = if lines.len() >= 1 { lines.len() - 1 } else { 0 };
    ll.push(newlines);
    proof {
        assert(ll@ =~= typing_line_lengths(lines@));
    }
    let total_fits = checked_sum(ll.as_slice(), ll.len()).is_some();
    let index_fits = is_at_end_of_input(ll.as_slice(), state.cursor_x, state.cursor_y)
        || update_index_fits(ll.as_slice(), state.cursor_x, state.cursor_y);
    let moves_fit = if lines.len() > state.line_count {
        state.cursor_y < usize::MAX
    } else {
        state.cursor_x < usize::MAX
    };
    total_fits && index_fits && moves_fit
}

impl TextArea {
    /// Whether `on_key` can handle this key press within machine integers,
    /// and whether the key is one the text area handles at all.
    pub fn key_fits(
        &self,
        event: KeyEvent,
        state: &TextAreaInputState,
        editable: Option<bool>,
        lines: &[LineLayout],
        viewport_height: usize,
    ) -> (fits: bool)
        ensures
            fits == area_key_pre(*state, event, editable, lines@, viewport_height),
    {
        let typing = editable != Some(false);
        match event.code {
            KeyCode::Tab | KeyCode::Enter => !typing || typing_fits_exec(state, lines),
            KeyCode::Char(c) => {
                if event.ctrl {
                    c != 'd' || state.scroll_position.checked_add(viewport_height / 2).is_some()
                } else {
                    !typing || typing_fits_exec(state, lines)
                }
            },
            KeyCode::Backspace => {
                if !line_lengths_fit_exec(lines) {
                    return false;
                }
                let ll = get_line_lengths(lines);
                let x = state.cursor_x;
                let y = state.cursor_y;
                let index_fits = is_at_end_of_input(ll.as_slice(), x, y)
                    || update_index_fits(ll.as_slice(), x, y);
                let widths = widths_of(lines);
                index_fits && cursor_index_fits(widths.as_slice(), x, y)
            },
            KeyCode::Right => {
                let prefix_len = state.cursor_prefix.as_str().unicode_len();
                let y = state.cursor_y;
                if prefix_len != state.input.len() && y < lines.len() {
                    lines[y].width < u16::MAX && state.cursor_x < usize::MAX && prefix_len < usize::MAX
                } else {
                    true
                }
            },
            KeyCode::Up => {
                let y = state.cursor_y;
                if y > 0 && y - 1 < lines.len() {
                    let ty = y - 1;
                    let target = get_cursor_up_x_y(state.cursor_x, y, lines[ty].width);
                    let widths = widths_of(lines);
                    widths_below_max_exec(lines, ty) && line_position_fits(widths.as_slice(), target.x, ty)
                } else {
                    true
                }
            },
            KeyCode::Down => {
                if state.line_count == 0 {
                    return false;
                }
                let y = state.cursor_y;
                if y == state.line_count - 1 {
                    return true;
                }
                if y == usize::MAX {
                    return false;
                }
                if y + 1 < lines.len() {
                    let ty = y + 1;
                    let target = get_cursor_down_x_y(state.cursor_x, y, lines[ty].width);
                    let widths = widths_of(lines);
                    widths_below_max_exec(lines, ty) && line_position_fits(widths.as_slice(), target.x, ty)
                } else {
                    true
                }
            },
            KeyCode::Insert | KeyCode::BackTab | KeyCode::CtrlC => false,
            _ => true,
        }
    }
}

/// Appending an entry leaves the sums of the entries before it unchanged.
proof fn lemma_sum_prefix_push(s: Seq<usize>, v: usize, k: int)
    requires
        0 <= k <= s.len(),
    ensures
        sum_prefix(s.push(v), k) == sum_prefix(s, k),
    decreases k,
{
    if k > 0 {
        lemma_sum_prefix_push(s, v, k - 1);
    }
}

/// On a text laid out one line per written line (each line's width is its
/// length, with a newline between lines), whatever the number of lines,
/// typing a character while the cursor is on the last character of the
/// last line appends it: the new text is the old one followed by the
/// character.
pub proof fn lemma_typing_at_end_appends(
    pre: TextAreaInputState,
    post: TextAreaInputState,
    ch: char,
    ctrl: bool,
    editable: Option<bool>,
    clipboard_text: Option<Vec<char>>,
    lines: Seq<LineLayout>,
)
    requires
        lines.len() >= 1,
        sum_prefix(line_widths(lines), lines.len() as int) + lines.len() - 1 == pre.input@.len(),
        types_character(ch, ctrl, editable, clipboard_text),
        spec_is_at_end_of_input(typing_line_lengths(lines), pre.cursor_x as int, pre.cursor_y as int),
        add_character_post(pre, post, ch, ctrl, editable, clipboard_text, lines),
    ensures
        post.input@ == pre.input@.push(ch),
{
    let w = line_widths(lines);
    let ll = typing_line_lengths(lines);
    let n = lines.len() as int;
    assert(ll == w.push((n - 1) as usize));
    lemma_sum_prefix_push(w, (n - 1) as usize, n);
    assert(sum_prefix(ll, n + 1) == sum_prefix(ll, n) + ll[n]);
    assert(sum_prefix(ll, ll.len() as int) == pre.input@.len());
    assert(pre.input@.insert(pre.input@.len() as int, ch) =~= pre.input@.push(ch));
}

/// On a one-line text laid out as it is written, with the cursor on one of
/// its characters, typing a character and then pressing Backspace (with the
/// layout of the longer text) gives back the text.
pub proof fn lemma_type_then_backspace(
    pre: TextAreaInputState,
    mid: TextAreaInputState,
    post: TextAreaInputState,
    ch: char,
    editable: Option<bool>,
    lines: Seq<LineLayout>,
    longer: Seq<LineLayout>,
    removed: bool,
)
    requires
        lines.len() == 1,
        lines[0].width == pre.input@.len(),
        longer.len() == 1,
        line_text_length(longer[0]) == pre.input@.len() + 1,
        pre.line_count == 1,
        pre.cursor_y == 0,
        pre.cursor_x < pre.input@.len(),
        editable != Some(false),
        add_character_post(pre, mid, ch, false, editable, None, lines),
        backspace_post(mid, post, removed, longer),
    ensures
        removed,
        post.input@ == pre.input@,
{
    let w = pre.input@.len() as int;
    let x = pre.cursor_x as int;
    let ll = typing_line_lengths(lines);
    assert(line_widths(lines)[0] == w);
    assert(ll =~= seq![w as usize, 0usize]);
    assert(sum_prefix(ll, 1) == w);
    assert(sum_prefix(ll, 2) == w);
    assert(sum_prefix(ll, 0) == 0);
    assert(spec_typing_index(ll, x, 0, w) == x + 1);
    assert(mid.input@ == pre.input@.insert(x + 1, ch));
    assert(mid.cursor_x == x + 1 && mid.cursor_y == 0);
    let ll2 = spec_line_lengths(longer);
    assert(ll2 =~= seq![(w + 1) as usize, 0usize]);
    assert(sum_prefix(ll2, 0) == 0);
    assert(spec_backspace_index(ll2, x + 1, 0, w + 1) == x + 1);
    assert(pre.input@.insert(x + 1, ch).remove(x + 1) =~= pre.input@);
}

/// Moving the cursor left and then right puts it back where it was, on a
/// line where it is not at the start nor past the line's end, with the text
/// before it read again from the text.
pub proof fn lemma_left_then_right(
    pre: TextAreaInputState,
    mid: TextAreaInputState,
    post: TextAreaInputState,
    lines: Seq<LineLayout>,
)
    requires
        pre.cursor_y < lines.len(),
        0 < pre.cursor_x <= lines[pre.cursor_y as int].width,
        1 <= pre.cursor_prefix@.len() <= pre.input@.len(),
        move_cursor_left_post(pre, mid, lines),
        move_cursor_right_post(mid, post, lines),
    ensures
        post.cursor_x == pre.cursor_x,
        post.cursor_y == pre.cursor_y,
        post.cursor_prefix@ == take_at_most(pre.input@, pre.cursor_prefix@.len() as int),
        post.input == pre.input,
{
    let p = pre.cursor_prefix@.len() as int;
    assert(mid.cursor_prefix@ == take_at_most(pre.input@, p - 1));
    assert(mid.cursor_prefix@.len() == p - 1);
}

/// Moving the cursor up and then down puts it back on its line and column
/// when both lines reach that column and the upper line is not the last
/// one, with the text before it read again from the text.
pub proof fn lemma_up_then_down(
    pre: TextAreaInputState,
    mid: TextAreaInputState,
    post: TextAreaInputState,
    lines: Seq<LineLayout>,
)
    requires
        0 < pre.cursor_y < lines.len(),
        pre.cursor_y - 1 != pre.line_count - 1,
        pre.cursor_x <= lines[pre.cursor_y - 1].width,
        pre.cursor_x <= lines[pre.cursor_y as int].width,
        cursor_up_post(pre, mid, lines),
        cursor_down_post(mid, post, lines),
    ensures
        post.cursor_x == pre.cursor_x,
        post.cursor_y == pre.cursor_y,
        post.cursor_prefix@ == take_at_most(
            pre.input@,
            spec_line_position(line_widths(lines), pre.cursor_x as int, pre.cursor_y as int),
        ),
        post.input == pre.input,
        post.line_count == pre.line_count,
{
}

/// How the update index moves with the cursor: one column to the right
/// adds one; one line down (from a line that exists) adds that line's
/// length and its newline; below the last line nothing more is added.
pub proof fn lemma_update_index_steps(line_lengths: Seq<usize>, x: int, y: int, k: nat)
    requires
        0 <= y,
    ensures
        spec_update_index(line_lengths, x + 1, y) == spec_update_index(line_lengths, x, y) + 1,
        y < line_lengths.len() ==> spec_update_index(line_lengths, x, y + 1) == spec_update_index(line_lengths, x, y)
            + line_lengths[y] + 1,
        spec_update_index(line_lengths, x, (line_lengths.len() + k) as int) == spec_update_index(
            line_lengths,
            x,
            line_lengths.len() as int,
        ),
{
    if y < line_lengths.len() {
        assert(sum_prefix(line_lengths, y + 1) == sum_prefix(line_lengths, y) + line_lengths[y]);
    }
}

} // verus!
