//! Scrolling selection windows (projects, endpoints, application themes,
//! syntax themes): a cursor over a list of items, of which a window of at
//! most `visible_rows` consecutive items is shown.

use vstd::prelude::*;

use crate::keys::{KeyCode, KeyEvent};

verus! {

/// Colour of an unselected row.
pub const DEFAULT_ROW_COLOR: &'static str = "#333333";

/// Colour of the selected row.
pub const SELECTED_ROW_COLOR: &'static str = "#FFFFFF";

/// Navigation state of a selection window: the selected item (`cursor`), the
/// first and last items shown, and how many rows the window shows.
#[derive(Debug, Clone, Copy, PartialEq, Eq)]
pub struct ListWindowState {
    pub cursor: u8,
    pub current_first_index: u8,
    pub current_last_index: u8,
    pub visible_rows: u8,
}

/// The state after loading a list of `count` items: the first item selected
/// and the window at the top of the list.
pub open spec fn spec_reset(s: ListWindowState, count: int) -> ListWindowState {
    let shown = if (s.visible_rows as int) < ((count as u8) as int) {
        s.visible_rows as int
    } else {
        (count as u8) as int
    };
    ListWindowState {
        cursor: 0,
        current_first_index: 0,
        current_last_index: (if shown > 0 { shown - 1 } else { 0 }) as u8,
        ..s
    }
}

/// The cursor after moving down: one further, but not past the last item.
pub open spec fn spec_down_cursor(s: ListWindowState, count: int) -> int {
    let last_item = ((if count > 0 { count - 1 } else { 0 }) as u8) as int;
    if s.cursor + 1 < last_item {
        s.cursor + 1
    } else {
        last_item
    }
}

/// Moving the selection down; the window scrolls so that the selection is
/// its last row when the selection leaves it.
pub open spec fn spec_move_down(s: ListWindowState, count: int) -> ListWindowState {
    let new_cursor = spec_down_cursor(s, count);
    if new_cursor > s.current_last_index {
        ListWindowState {
            cursor: new_cursor as u8,
            current_first_index: (new_cursor - (s.visible_rows - 1)) as u8,
            current_last_index: new_cursor as u8,
            ..s
        }
    } else {
        ListWindowState { cursor: new_cursor as u8, ..s }
    }
}

/// Moving the selection up; the window scrolls so that the selection is its
/// first row when the selection leaves it.
pub open spec fn spec_move_up(s: ListWindowState) -> ListWindowState {
    let new_cursor: int = if s.cursor > 0 { s.cursor - 1 } else { 0 };
    if new_cursor < s.current_first_index {
        ListWindowState {
            cursor: new_cursor as u8,
            current_first_index: new_cursor as u8,
            current_last_index: (new_cursor + (s.visible_rows - 1)) as u8,
            ..s
        }
    } else {
        ListWindowState { cursor: new_cursor as u8, ..s }
    }
}

/// Whether moving down stays within `u8` arithmetic.
pub open spec fn can_move_down(s: ListWindowState, count: int) -> bool {
    &&& s.cursor < u8::MAX
    &&& s.visible_rows >= 1
    &&& spec_down_cursor(s, count) > s.current_last_index ==> spec_down_cursor(s, count) >= s.visible_rows - 1
}

/// Whether moving up stays within `u8` arithmetic.
pub open spec fn can_move_up(s: ListWindowState) -> bool {
    let new_cursor: int = if s.cursor > 0 { s.cursor - 1 } else { 0 };
    &&& s.visible_rows >= 1
    &&& new_cursor < s.current_first_index ==> new_cursor + s.visible_rows - 1 <= u8::MAX
}

/// The navigation invariant for a list of `count` items: the selection is
/// inside the window, the window never holds more than `visible_rows` rows
/// nor reaches past the last item, and it is full whenever it is scrolled
/// down or items follow below it.
pub open spec fn window_wf(s: ListWindowState, count: int) -> bool {
    &&& s.visible_rows >= 1
    &&& s.current_first_index <= s.cursor <= s.current_last_index
    &&& s.current_last_index - s.current_first_index <= s.visible_rows - 1
    &&& (s.current_first_index > 0 || s.current_last_index + 1 < count)
        ==> s.current_last_index - s.current_first_index == s.visible_rows - 1
    &&& count >= 1 ==> s.current_last_index <= count - 1
    &&& count == 0 ==> s.current_last_index == 0
}

impl ListWindowState {
    /// The state of a window that has not loaded its list yet: five rows.
    pub fn new() -> (s: ListWindowState)
        ensures
            s.cursor == 0,
            s.current_first_index == 0,
            s.current_last_index == 4,
            s.visible_rows == 5,
    {
        ListWindowState { cursor: 0, current_first_index: 0, current_last_index: 4, visible_rows: 5 }
    }

    /// Resets the navigation after a list of `count` items was loaded.
    pub fn reset(&mut self, count: usize)
        ensures
            *final(self) == spec_reset(*old(self), count as int),
    {
        let count_u8: u8 = #[verifier::truncate] (count as u8);
        let shown: u8 = if self.visible_rows < count_u8 { self.visible_rows } else { count_u8 };
        self.cursor = 0;
        self.current_first_index = 0;
        self.current_last_index = shown.saturating_sub(1);
    }

    /// Moves the selection one item down in a list of `count` items.
    pub fn move_cursor_down(&mut self, count: usize)
        requires
            can_move_down(*old(self), count as int),
        ensures
            *final(self) == spec_move_down(*old(self), count as int),
    {
        let last_complete_list_index = count.saturating_sub(1);
        let last_u8: u8 = #[verifier::truncate] (last_complete_list_index as u8);
        let next = self.cursor + 1;
        let new_cursor = if next < last_u8 { next } else { last_u8 };
        self.cursor = new_cursor;
        if new_cursor > self.current_last_index {
            self.current_last_index = new_cursor;
            self.current_first_index = new_cursor - (self.visible_rows - 1);
        }
    }

    /// Moves the selection one item up.
    pub fn move_cursor_up(&mut self)
        requires
            can_move_up(*old(self)),
        ensures
            *final(self) == spec_move_up(*old(self)),
    {
        let new_cursor = self.cursor.saturating_sub(1);
        self.cursor = new_cursor;
        if new_cursor < self.current_first_index {
            self.current_first_index = new_cursor;
            self.current_last_index = new_cursor + (self.visible_rows - 1);
        }
    }
}

/// Loading a list of at most 255 items puts the window in a well-formed
/// state, and moving up or down keeps it well formed (and never overflows);
/// lists of 256 items or more are outside the range of the `u8` counters.
pub proof fn lemma_window_navigation(s: ListWindowState, count: int)
    requires
        0 <= count <= 255,
        s.visible_rows >= 1,
    ensures
        window_wf(spec_reset(s, count), count),
        window_wf(s, count) ==> can_move_down(s, count) && window_wf(spec_move_down(s, count), count),
        window_wf(s, count) ==> can_move_up(s) && window_wf(spec_move_up(s), count),
{
}

/// Moving the selection down and then up selects the same item again,
/// unless the selection was already on the last item.
pub proof fn lemma_down_then_up(s: ListWindowState, count: int)
    requires
        0 <= count <= 255,
        window_wf(s, count),
        s.cursor + 1 < count,
    ensures
        spec_move_up(spec_move_down(s, count)).cursor == s.cursor,
{
}

/// Moving the selection up and then down selects the same item again,
/// unless the selection was already on the first item.
pub proof fn lemma_up_then_down(s: ListWindowState, count: int)
    requires
        0 <= count <= 255,
        window_wf(s, count),
        s.cursor > 0,
    ensures
        spec_move_down(spec_move_up(s), count).cursor == s.cursor,
{
}

/// One displayed row: which item it shows and whether it is selected.
#[derive(Debug, Clone, Copy, PartialEq, Eq)]
pub struct WindowRow {
    pub item_index: usize,
    pub selected: bool,
}

/// The rows for items `first..=last`; the row of item `selected` is marked
/// (counted from `first`, with a selection above the window marking the
/// first row).
pub open spec fn spec_rows(first: int, last: int, selected: int) -> Seq<WindowRow> {
    Seq::new(
        (last + 1 - first) as nat,
        |k: int|
            WindowRow {
                item_index: (first + k) as usize,
                selected: k == (if selected >= first { selected - first } else { 0 }),
            },
    )
}

/// The rows shown for items `first..=last` of a list of `count` items.
pub fn window_rows(first: usize, last: usize, selected: usize, count: usize) -> (rows: Vec<WindowRow>)
    requires
        first <= last + 1,
        last < count,
    ensures
        rows@ == spec_rows(first as int, last as int, selected as int),
{
    let visible_index = selected.saturating_sub(first);
    let mut rows: Vec<WindowRow> = Vec::new();
    let mut i: usize = first;
    while i <= last
        invariant
            first <= i <= last + 1,
            last < count,
            visible_index == (if selected >= first { selected - first } else { 0 }),
            rows@ == spec_rows(first as int, last as int, selected as int).take(i - first),
        decreases last + 1 - i,
    {
        rows.push(WindowRow { item_index: i, selected: i - first == visible_index });
        i = i + 1;
        proof {
            assert(rows@ =~= spec_rows(first as int, last as int, selected as int).take(i - first));
        }
    }
    proof {
        assert(rows@ =~= spec_rows(first as int, last as int, selected as int));
    }
    rows
}

/// The rows shown when the window may reach past the end of the list: the
/// window is cut at the last item, and an empty list shows no rows.
pub fn clamped_window_rows(first: usize, last: usize, selected: usize, count: usize) -> (rows: Vec<WindowRow>)
    requires
        count > 0 ==> first <= (if last < count - 1 { last } else { (count - 1) as usize }) + 1,
    ensures
        count == 0 ==> rows@.len() == 0,
        count > 0 ==> rows@ == spec_rows(
            first as int,
            if last < count - 1 { last as int } else { count - 1 },
            selected as int,
        ),
{
    if count == 0 {
        return Vec::new();
    }
    let actual_last_index = count - 1;
    let range_end = if last > actual_last_index { actual_last_index } else { last };
    window_rows(first, range_end, selected, count)
}

/// Colour of a row.
pub fn row_color(selected: bool) -> (color: &'static str)
    ensures
        color@ == (if selected { SELECTED_ROW_COLOR@ } else { DEFAULT_ROW_COLOR@ }),
{
    if selected {
        SELECTED_ROW_COLOR
    } else {
        DEFAULT_ROW_COLOR
    }
}

/// What a key press in a selection window asks for.
#[derive(Debug, Clone, Copy, PartialEq, Eq)]
pub enum SelectorOutcome {
    /// Nothing more than the navigation.
    Nothing,
    /// The item at this position was chosen.
    Select(usize),
    /// The item at this position is to be deleted.
    Delete(usize),
    /// The window is left.
    Cancel,
}

/// The condition under which a key press keeps to `u8` arithmetic.
pub open spec fn selector_key_pre(s: ListWindowState, count: int, event: KeyEvent) -> bool {
    match event.code {
        KeyCode::Char(c) => (c == 'j' ==> can_move_down(s, count)) && (c == 'k' ==> can_move_up(s)),
        KeyCode::Down => can_move_down(s, count),
        KeyCode::Up => can_move_up(s),
        _ => true,
    }
}

/// The outcome that picks the selected item, or leaves when there is none.
pub open spec fn pick(s: ListWindowState, count: int, delete: bool) -> SelectorOutcome {
    if s.cursor < count {
        if delete {
            SelectorOutcome::Delete(s.cursor as usize)
        } else {
            SelectorOutcome::Select(s.cursor as usize)
        }
    } else {
        SelectorOutcome::Cancel
    }
}

/// What a key press does in a selection window over `count` items: `j`
/// and Down move down, `k` and Up move up, Enter chooses, `d` deletes
/// (where items can be deleted), Esc leaves.
pub open spec fn selector_key_post(
    pre: ListWindowState,
    count: int,
    allow_delete: bool,
    event: KeyEvent,
    post: ListWindowState,
    outcome: SelectorOutcome,
) -> bool {
    match event.code {
        KeyCode::Char(c) => if c == 'j' {
            post == spec_move_down(pre, count) && outcome == SelectorOutcome::Nothing
        } else if c == 'k' {
            post == spec_move_up(pre) && outcome == SelectorOutcome::Nothing
        } else if c == 'd' && allow_delete {
            post == pre && outcome == pick(pre, count, true)
        } else {
            post == pre && outcome == SelectorOutcome::Nothing
        },
        KeyCode::Down => post == spec_move_down(pre, count) && outcome == SelectorOutcome::Nothing,
        KeyCode::Up => post == spec_move_up(pre) && outcome == SelectorOutcome::Nothing,
        KeyCode::Esc => post == pre && outcome == SelectorOutcome::Cancel,
        KeyCode::Enter => post == pre && outcome == pick(pre, count, false),
        _ => post == pre && outcome == SelectorOutcome::Nothing,
    }
}

impl ListWindowState {
    /// Handles a key press in a selection window over `count` items.
    pub fn on_key(&mut self, count: usize, allow_delete: bool, event: KeyEvent) -> (outcome: SelectorOutcome)
        requires
            selector_key_pre(*old(self), count as int, event),
        ensures
            selector_key_post(*old(self), count as int, allow_delete, event, *final(self), outcome),
    {
        match event.code {
            KeyCode::Char(c) => {
                if c == 'j' {
                    self.move_cursor_down(count);
                    SelectorOutcome::Nothing
                } else if c == 'k' {
                    self.move_cursor_up();
                    SelectorOutcome::Nothing
                } else if c == 'd' && allow_delete {
                    self.pick(count, true)
                } else {
                    SelectorOutcome::Nothing
                }
            },
            KeyCode::Down => {
                self.move_cursor_down(count);
                SelectorOutcome::Nothing
            },
            KeyCode::Up => {
                self.move_cursor_up();
                SelectorOutcome::Nothing
            },
            KeyCode::Esc => SelectorOutcome::Cancel,
            KeyCode::Enter => self.pick(count, false),
            _ => SelectorOutcome::Nothing,
        }
    }

    fn pick(&self, count: usize, delete: bool) -> (outcome: SelectorOutcome)
        ensures
            outcome == pick(*self, count as int, delete),
    {
        let cursor = self.cursor as usize;
        if cursor < count {
            if delete {
                SelectorOutcome::Delete(cursor)
            } else {
                SelectorOutcome::Select(cursor)
            }
        } else {
            SelectorOutcome::Cancel
        }
    }
}

impl ListWindowState {
    /// Whether a key press keeps to `u8` arithmetic in a list of `count`
    /// items.
    pub fn key_fits(&self, count: usize, event: KeyEvent) -> (fits: bool)
        ensures
            fits == selector_key_pre(*self, count as int, event),
    {
        let down_fits = if self.cursor < 255 && self.visible_rows >= 1 {
            let last_item: u8 = #[verifier::truncate] (count.saturating_sub(1) as u8);
            let next = self.cursor + 1;
            let new_cursor = if next < last_item { next } else { last_item };
            !(new_cursor > self.current_last_index) || new_cursor >= self.visible_rows - 1
        } else {
            false
        };
        let up_fits = if self.visible_rows >= 1 {
            let new_cursor = self.cursor.saturating_sub(1);
            !(new_cursor < self.current_first_index) || (new_cursor as u16) + (self.visible_rows as u16) - 1 <= 255
        } else {
            false
        };
        match event.code {
            KeyCode::Char(c) => (c != 'j' || down_fits) && (c != 'k' || up_fits),
            KeyCode::Down => down_fits,
            KeyCode::Up => up_fits,
            _ => true,
        }
    }
}

} // verus!
