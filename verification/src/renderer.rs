//! The response view: which lines of a response are on screen, how they are
//! cut to the width, how the search results are navigated, and the buffer
//! of styled cells that the drawing instructions fill.

use vstd::prelude::*;

use crate::keys::{KeyCode, KeyEvent};
use crate::syntax::{Instruction, Rgb};
use crate::text::{chars_of, lines, matches_at, occurs_at, push_all, spec_lines, string_from_chars};

verus! {

/// The matches of a search in the response: the lines that match, how many
/// there are, the match shown, and the text searched for.
#[derive(Debug, Clone, PartialEq, Eq)]
pub struct TextFilter {
    pub indexes: Vec<usize>,
    pub total: usize,
    pub nav_index: usize,
    pub filter: String,
}

/// Messages the response view understands.
#[derive(Debug, Clone, PartialEq, Eq)]
pub enum ResponseRendererMessages {
    ResponseUpdate(String),
    SyntaxPreview(Option<String>),
    FilterUpdate(TextFilter),
    ThemeUpdate,
}

/// The match before the shown one, wrapping to the last.
pub open spec fn spec_previous_match(nav_index: int, count: int) -> int {
    if nav_index == 0 {
        if count > 0 { count - 1 } else { 0 }
    } else {
        nav_index - 1
    }
}

/// The line shown for match `i`: the matching line, or the first line when
/// there is no such match.
pub open spec fn match_line(indexes: Seq<usize>, i: int) -> usize {
    if 0 <= i < indexes.len() {
        indexes[i]
    } else {
        0
    }
}

/// The match after the shown one, wrapping from the last to the first;
/// a position past the matches stays where it is.
pub open spec fn spec_next_match(nav_index: int, count: int) -> int {
    let last = if count > 0 { count - 1 } else { 0 };
    if nav_index == last {
        0
    } else if nav_index < last {
        nav_index + 1
    } else {
        nav_index
    }
}

impl TextFilter {
    /// An empty search.
    pub fn new() -> (f: TextFilter)
        ensures
            f.indexes@.len() == 0,
            f.total == 0,
            f.nav_index == 0,
            f.filter@.len() == 0,
    {
        TextFilter { indexes: Vec::new(), total: 0, nav_index: 0, filter: String::new() }
    }

    /// Moves to the previous match (from the first, to the last) and returns
    /// the line to scroll to.
    pub fn previous_match(&mut self) -> (line: usize)
        ensures
            final(self).nav_index == spec_previous_match(old(self).nav_index as int, old(self).indexes@.len() as int),
            line == match_line(old(self).indexes@, final(self).nav_index as int),
            *final(self) == (TextFilter { nav_index: final(self).nav_index, ..*old(self) }),
    {
        let current = self.nav_index;
        let target = if current == 0 {
            self.indexes.len().saturating_sub(1)
        } else {
            current - 1
        };
        self.nav_index = target;
        if target < self.indexes.len() {
            self.indexes[target]
        } else {
            0
        }
    }

    /// Moves to the next match (from the last, to the first) and returns
    /// the line to scroll to.
    pub fn next_match(&mut self) -> (line: usize)
        ensures
            final(self).nav_index == spec_next_match(old(self).nav_index as int, old(self).indexes@.len() as int),
            line == match_line(old(self).indexes@, final(self).nav_index as int),
            *final(self) == (TextFilter { nav_index: final(self).nav_index, ..*old(self) }),
    {
        let current = self.nav_index;
        let last_index = self.indexes.len().saturating_sub(1);
        let target = if current == last_index {
            0
        } else if current < last_index {
            current + 1
        } else {
            current
        };
        self.nav_index = target;
        if target < self.indexes.len() {
            self.indexes[target]
        } else {
            0
        }
    }

    /// The line a new search scrolls to first: its first match, or the top.
    pub fn first_line(&self) -> (line: usize)
        ensures
            line == match_line(self.indexes@, 0),
    {
        if self.indexes.len() > 0 {
            self.indexes[0]
        } else {
            0
        }
    }
}

/// The match shown after going back `times` times from match `nav_index`.
pub open spec fn previous_times(nav_index: int, count: int, times: nat) -> int
    decreases times,
{
    if times == 0 {
        nav_index
    } else {
        spec_previous_match(previous_times(nav_index, count, (times - 1) as nat), count)
    }
}

proof fn lemma_previous_times_add(nav_index: int, count: int, a: nat, b: nat)
    ensures
        previous_times(nav_index, count, a + b) == previous_times(previous_times(nav_index, count, a), count, b),
    decreases b,
{
    if b > 0 {
        lemma_previous_times_add(nav_index, count, a, (b - 1) as nat);
        assert((a + b - 1) as nat == a + (b - 1) as nat);
    }
}

proof fn lemma_previous_times_down(nav_index: int, count: int, t: nat)
    requires
        0 <= t <= nav_index,
    ensures
        previous_times(nav_index, count, t) == nav_index - t,
    decreases t,
{
    if t > 0 {
        lemma_previous_times_down(nav_index, count, (t - 1) as nat);
    }
}

/// Going back through the matches as many times as there are matches comes
/// back to the match shown first: the previous-match key cycles through
/// all of them.
pub proof fn lemma_previous_match_cycles(nav_index: int, count: int)
    requires
        0 <= nav_index < count,
    ensures
        previous_times(nav_index, count, count as nat) == nav_index,
        forall|t: nat| 0 <= #[trigger] previous_times(nav_index, count, t) < count,
{
    let a = (nav_index + 1) as nat;
    let b = (count - 1 - nav_index) as nat;
    lemma_previous_times_down(nav_index, count, nav_index as nat);
    assert(previous_times(nav_index, count, a) == count - 1);
    lemma_previous_times_down(count - 1, count, b);
    lemma_previous_times_add(nav_index, count, a, b);
    assert(a + b == count as nat);
    assert forall|t: nat| 0 <= #[trigger] previous_times(nav_index, count, t) < count by {
        lemma_previous_times_in_range(nav_index, count, t);
    }
}

proof fn lemma_previous_times_in_range(nav_index: int, count: int, t: nat)
    requires
        0 <= nav_index < count,
    ensures
        0 <= previous_times(nav_index, count, t) < count,
    decreases t,
{
    if t > 0 {
        lemma_previous_times_in_range(nav_index, count, (t - 1) as nat);
    }
}

/// Going to the next match and back to the previous one shows the match
/// shown before, and so does going back and then on.
pub proof fn lemma_next_and_previous_undo(nav_index: int, count: int)
    requires
        0 <= nav_index < count,
    ensures
        spec_previous_match(spec_next_match(nav_index, count), count) == nav_index,
        spec_next_match(spec_previous_match(nav_index, count), count) == nav_index,
        0 <= spec_next_match(nav_index, count) < count,
{
}

/// Rows of the terminal that are not the response: the two menu bars, the
/// URL and method inputs with their borders, and the response's borders.
pub const RESPONSE_HEIGHT_OFFSET: usize = 7;

/// The number of response lines that fit a terminal `height` rows high.
pub fn viewport_height(height: usize) -> (rows: usize)
    requires
        height >= RESPONSE_HEIGHT_OFFSET,
    ensures
        rows == height - RESPONSE_HEIGHT_OFFSET,
{
    height - RESPONSE_HEIGHT_OFFSET
}

/// A direction to page through the response.
#[derive(Debug, Clone, Copy, PartialEq, Eq)]
pub enum ScrollDirection {
    Up,
    Down,
}

/// The first line shown after paging one screen up or down.
pub fn scroll_offset(offset: usize, height: usize, direction: ScrollDirection) -> (new_offset: usize)
    requires
        direction == ScrollDirection::Down ==> offset + height <= usize::MAX,
    ensures
        new_offset == (match direction {
            ScrollDirection::Up => if offset >= height { offset - height } else { 0 },
            ScrollDirection::Down => offset + height,
        }),
{
    match direction {
        ScrollDirection::Up => offset.saturating_sub(height),
        ScrollDirection::Down => offset + height,
    }
}

/// What a key press asks of the response view.
#[derive(Debug, Clone, Copy, PartialEq, Eq)]
pub enum RendererKey {
    /// Esc: hand the focus back to the dashboard.
    FocusApp,
    /// Ctrl-d and Ctrl-u: page down or up.
    Scroll(ScrollDirection),
    /// Ctrl-p: the previous search match.
    PreviousMatch,
    /// Ctrl-n: the next search match.
    NextMatch,
    /// Any other key.
    Nothing,
}

/// The response view's key bindings.
pub open spec fn spec_renderer_key(event: KeyEvent) -> RendererKey {
    match event.code {
        KeyCode::Esc => RendererKey::FocusApp,
        KeyCode::Char(c) => if !event.ctrl {
            RendererKey::Nothing
        } else if c == 'd' {
            RendererKey::Scroll(ScrollDirection::Down)
        } else if c == 'u' {
            RendererKey::Scroll(ScrollDirection::Up)
        } else if c == 'p' {
            RendererKey::PreviousMatch
        } else if c == 'n' {
            RendererKey::NextMatch
        } else {
            RendererKey::Nothing
        },
        _ => RendererKey::Nothing,
    }
}

/// What a key press asks of the response view.
pub fn renderer_key(event: KeyEvent) -> (action: RendererKey)
    ensures
        action == spec_renderer_key(event),
{
    match event.code {
        KeyCode::Esc => RendererKey::FocusApp,
        KeyCode::Char(c) => {
            if !event.ctrl {
                RendererKey::Nothing
            } else if c == 'd' {
                RendererKey::Scroll(ScrollDirection::Down)
            } else if c == 'u' {
                RendererKey::Scroll(ScrollDirection::Up)
            } else if c == 'p' {
                RendererKey::PreviousMatch
            } else if c == 'n' {
                RendererKey::NextMatch
            } else {
                RendererKey::Nothing
            }
        },
        _ => RendererKey::Nothing,
    }
}

/// A line as shown in a view `width` characters wide: a longer line is cut
/// to five characters less than the width and ends with `...`.
pub open spec fn spec_fit_line(line: Seq<char>, width: int) -> Seq<char> {
    if line.len() > width {
        line.take(if width >= 5 { width - 5 } else { 0 }) + "..."@
    } else {
        line
    }
}

/// The lines shown from `offset` in a view of `height` lines and `width`
/// characters.
pub open spec fn spec_viewable_lines(lines: Seq<Seq<char>>, offset: int, height: int, width: int) -> Seq<Seq<char>> {
    let end = if offset + height < lines.len() { offset + height } else { lines.len() as int };
    if offset >= end {
        seq![]
    } else {
        Seq::new((end - offset) as nat, |i: int| spec_fit_line(lines[offset + i], width))
    }
}

/// A line cut to the view's width.
pub fn fit_line(line: &[char], width: usize) -> (shown: Vec<char>)
    ensures
        shown@ == spec_fit_line(line@, width as int),
{
    if line.len() > width {
        let keep = width.saturating_sub(5);
        let mut shown = crate::text::take_chars(line, keep);
        let dots = chars_of("...");
        push_all(&mut shown, dots.as_slice());
        proof {
            assert(shown@ =~= spec_fit_line(line@, width as int));
        }
        shown
    } else {
        let mut shown: Vec<char> = Vec::new();
        push_all(&mut shown, line);
        proof {
            assert(shown@ =~= line@);
        }
        shown
    }
}

/// The lines of the response shown from `offset` in a view of `height`
/// lines and `width` characters.
pub fn viewable_lines(lines: &Vec<Vec<char>>, offset: usize, height: usize, width: usize) -> (shown: Vec<Vec<char>>)
    requires
        offset + height <= usize::MAX,
    ensures
        shown@.len() == spec_viewable_lines(
            Seq::new(lines@.len(), |i: int| lines@[i]@),
            offset as int,
            height as int,
            width as int,
        ).len(),
        forall|i: int| 0 <= i < shown@.len() ==> #[trigger] shown@[i]@ == spec_viewable_lines(
            Seq::new(lines@.len(), |k: int| lines@[k]@),
            offset as int,
            height as int,
            width as int,
        )[i],
{
    let ghost views = Seq::new(lines@.len(), |i: int| lines@[i]@);
    let last_viewable = offset + height;
    let end = if last_viewable < lines.len() { last_viewable } else { lines.len() };
    let mut shown: Vec<Vec<char>> = Vec::new();
    if offset >= end {
        return shown;
    }
    let mut index: usize = offset;
    while index < end
        invariant
            offset <= index <= end,
            end <= lines@.len(),
            views == Seq::new(lines@.len(), |i: int| lines@[i]@),
            shown@.len() == index - offset,
            forall|k: int| 0 <= k < shown@.len() ==> #[trigger] shown@[k]@ == spec_fit_line(
                views[offset + k],
                width as int,
            ),
        decreases end - index,
    {
        let line = fit_line(lines[index].as_slice(), width);
        shown.push(line);
        index = index + 1;
    }
    shown
}

/// A cell of the response view: one typed piece of text and its style; a
/// highlighted search match remembers the background it covered.
#[derive(Debug, Clone, PartialEq, Eq)]
pub struct Cell {
    pub text: String,
    pub bold: bool,
    pub foreground: Rgb,
    pub background: Rgb,
    pub original_background: Option<Rgb>,
}

/// The view's buffer: lines of cells, the drawing cursor and the colours
/// the next typed cell gets.
#[derive(Debug, Clone, PartialEq, Eq)]
pub struct RenderBuffer {
    pub lines: Vec<Vec<Cell>>,
    pub cursor_x: i32,
    pub cursor_y: i32,
    pub foreground: Rgb,
    pub background: Rgb,
}

/// A blank cell, as lines are padded with up to the cursor.
pub open spec fn is_blank_cell(c: Cell) -> bool {
    &&& c.text@ == " "@
    &&& c.foreground == crate::syntax::white()
    &&& c.background == crate::syntax::black()
    &&& !c.bold
    &&& c.original_background is None
}

/// The buffer after the cursor moved to `(x, y)`: lines are added until the
/// cursor's line exists, and that line is padded with blank cells until the
/// cursor is at most one past its end.
pub open spec fn padded_to_cursor(pre: Seq<Seq<Cell>>, post: Seq<Seq<Cell>>, x: int, y: int) -> bool {
    &&& post.len() == (if y < pre.len() { pre.len() as int } else { y + 1 })
    &&& forall|i: int| 0 <= i < post.len() && i != y ==> #[trigger] post[i] == (if i < pre.len() { pre[i] } else { seq![] })
    &&& {
        let before = if y < pre.len() { pre[y] } else { seq![] };
        &&& post[y].len() == (if x <= before.len() { before.len() as int } else { x })
        &&& forall|k: int| 0 <= k < before.len() ==> #[trigger] post[y][k] == before[k]
        &&& forall|k: int| before.len() <= k < post[y].len() ==> is_blank_cell(#[trigger] post[y][k])
    }
}

/// The buffer is in shape: the cursor is not negative, and on an existing
/// line it is at most one past the line's end.
pub open spec fn buffer_wf(b: RenderBuffer) -> bool {
    &&& b.cursor_x >= 0
    &&& b.cursor_y >= 0
    &&& b.cursor_y < b.lines@.len() ==> b.cursor_x <= b.lines@[b.cursor_y as int]@.len()
}

fn blank_cell() -> (c: Cell)
    ensures
        is_blank_cell(c),
{
    Cell {
        text: String::from_str(" "),
        bold: false,
        foreground: Rgb { r: 255, g: 255, b: 255 },
        background: Rgb { r: 0, g: 0, b: 0 },
        original_background: None,
    }
}

impl RenderBuffer {
    /// A buffer with one empty line, the cursor at its start and white on
    /// black.
    pub fn new() -> (b: RenderBuffer)
        ensures
            b.lines@.len() == 1,
            b.lines@[0]@.len() == 0,
            b.cursor_x == 0,
            b.cursor_y == 0,
            b.foreground == crate::syntax::white(),
            b.background == crate::syntax::black(),
    {
        let mut lines: Vec<Vec<Cell>> = Vec::new();
        lines.push(Vec::new());
        RenderBuffer {
            lines,
            cursor_x: 0,
            cursor_y: 0,
            foreground: Rgb { r: 255, g: 255, b: 255 },
            background: Rgb { r: 0, g: 0, b: 0 },
        }
    }

    /// Removes every line; the cursor stays where it is.
    pub fn clear(&mut self)
        ensures
            final(self).lines@.len() == 0,
            final(self).cursor_x == old(self).cursor_x,
            final(self).cursor_y == old(self).cursor_y,
            final(self).foreground == old(self).foreground,
            final(self).background == old(self).background,
    {
        self.lines = Vec::new();
    }

    /// Adds lines and blank cells so that the cursor's position exists.
    fn pad_to_cursor(&mut self)
        requires
            old(self).cursor_x >= 0,
            old(self).cursor_y >= 0,
        ensures
            buffer_wf(*final(self)),
            padded_to_cursor(
                Seq::new(old(self).lines@.len(), |i: int| old(self).lines@[i]@),
                Seq::new(final(self).lines@.len(), |i: int| final(self).lines@[i]@),
                old(self).cursor_x as int,
                old(self).cursor_y as int,
            ),
            final(self).cursor_x == old(self).cursor_x,
            final(self).cursor_y == old(self).cursor_y,
            final(self).foreground == old(self).foreground,
            final(self).background == old(self).background,
    {
        let ghost pre = Seq::new(self.lines@.len(), |i: int| self.lines@[i]@);
        let y = self.cursor_y as usize;
        let x = self.cursor_x as usize;
        while y >= self.lines.len()
            invariant
                y == old(self).cursor_y,
                pre == Seq::new(old(self).lines@.len(), |i: int| old(self).lines@[i]@),
                self.lines@.len() >= pre.len(),
                self.lines@.len() <= (if y < pre.len() { pre.len() as int } else { y + 1 }),
                forall|i: int| 0 <= i < self.lines@.len() ==> #[trigger] self.lines@[i]@ == (if i < pre.len() {
                    pre[i]
                } else {
                    seq![]
                }),
                self.cursor_x == old(self).cursor_x,
                self.cursor_y == old(self).cursor_y,
                self.foreground == old(self).foreground,
                self.background == old(self).background,
            decreases y + 1 - self.lines@.len(),
        {
            self.lines.push(Vec::new());
        }
        let ghost mid = Seq::new(self.lines@.len(), |i: int| self.lines@[i]@);
        let mut line = self.lines.remove(y);
        let ghost before = line@;
        while x > line.len()
            invariant
                x == old(self).cursor_x,
                line@.len() >= before.len(),
                line@.len() <= (if x <= before.len() { before.len() as int } else { x as int }),
                forall|k: int| 0 <= k < before.len() ==> #[trigger] line@[k] == before[k],
                forall|k: int| before.len() <= k < line@.len() ==> is_blank_cell(#[trigger] line@[k]),
            decreases x - line@.len(),
        {
            line.push(blank_cell());
        }
        self.lines.insert(y, line);
        proof {
            let post = Seq::new(self.lines@.len(), |i: int| self.lines@[i]@);
            assert(before == mid[y as int]);
            assert forall|i: int| 0 <= i < post.len() && i != y implies #[trigger] post[i] == (if i < pre.len() {
                pre[i]
            } else {
                seq![]
            }) by {
                assert(post[i] == mid[i]);
            }
        }
    }

    /// Whether `apply` can carry out `inst` here: the buffer is in shape and
    /// the cursor's move stays within `i32`, at a column that is not
    /// negative.
    pub fn can_apply(&self, inst: Instruction) -> (ok: bool)
        ensures
            ok == ({
                &&& buffer_wf(*self)
                &&& inst matches Instruction::Type(_, _) ==> self.cursor_x < i32::MAX
                &&& inst matches Instruction::Newline { x } ==> x >= 0 && self.cursor_y < i32::MAX
                &&& inst matches Instruction::SetX(x) ==> x >= 0
            }),
    {
        if self.cursor_x < 0 || self.cursor_y < 0 {
            return false;
        }
        let y = self.cursor_y as usize;
        if y < self.lines.len() && self.cursor_x as usize > self.lines[y].len() {
            return false;
        }
        match inst {
            Instruction::Type(_, _) => self.cursor_x < i32::MAX,
            Instruction::Newline { x } => x >= 0 && self.cursor_y < i32::MAX,
            Instruction::SetX(x) => x >= 0,
            _ => true,
        }
    }

    /// Carries out one drawing instruction. Typing puts a one-character cell
    /// at the cursor in the current colours and moves the cursor on (on a
    /// line that does not exist, nothing happens); a newline or a new column
    /// moves the cursor, and the buffer grows so that the cursor's position
    /// exists.
    pub fn apply(&mut self, inst: Instruction)
        requires
            buffer_wf(*old(self)),
            inst matches Instruction::Type(_, _) ==> old(self).cursor_x < i32::MAX,
            inst matches Instruction::Newline { x } ==> x >= 0 && old(self).cursor_y < i32::MAX,
            inst matches Instruction::SetX(x) ==> x >= 0,
        ensures
            buffer_wf(*final(self)),
            match inst {
                Instruction::SetForeground(c) => *final(self) == (RenderBuffer { foreground: c, ..*old(self) }),
                Instruction::SetBackground(c) => *final(self) == (RenderBuffer { background: c, ..*old(self) }),
                Instruction::Type(c, bold) => if old(self).cursor_y >= old(self).lines@.len() {
                    *final(self) == *old(self)
                } else {
                    let y = old(self).cursor_y as int;
                    let x = old(self).cursor_x as int;
                    let cell = final(self).lines@[y]@[x];
                    &&& final(self).cursor_x == old(self).cursor_x + 1
                    &&& final(self).cursor_y == old(self).cursor_y
                    &&& final(self).foreground == old(self).foreground
                    &&& final(self).background == old(self).background
                    &&& cell.text@ == seq![c]
                    &&& cell.bold == bold
                    &&& cell.foreground == old(self).foreground
                    &&& cell.background == old(self).background
                    &&& cell.original_background is None
                    &&& final(self).lines@.len() == old(self).lines@.len()
                    &&& final(self).lines@[y]@ == old(self).lines@[y]@.insert(x, cell)
                    &&& forall|i: int| 0 <= i < old(self).lines@.len() && i != y
                        ==> #[trigger] final(self).lines@[i] == old(self).lines@[i]
                },
                Instruction::Newline { x } => {
                    &&& final(self).cursor_x == x
                    &&& final(self).cursor_y == old(self).cursor_y + 1
                    &&& final(self).foreground == old(self).foreground
                    &&& final(self).background == old(self).background
                    &&& padded_to_cursor(
                        Seq::new(old(self).lines@.len(), |i: int| old(self).lines@[i]@),
                        Seq::new(final(self).lines@.len(), |i: int| final(self).lines@[i]@),
                        x as int,
                        old(self).cursor_y + 1,
                    )
                },
                Instruction::SetX(x) => {
                    &&& final(self).cursor_x == x
                    &&& final(self).cursor_y == old(self).cursor_y
                    &&& final(self).foreground == old(self).foreground
                    &&& final(self).background == old(self).background
                    &&& padded_to_cursor(
                        Seq::new(old(self).lines@.len(), |i: int| old(self).lines@[i]@),
                        Seq::new(final(self).lines@.len(), |i: int| final(self).lines@[i]@),
                        x as int,
                        old(self).cursor_y as int,
                    )
                },
            },
    {
        match inst {
            Instruction::SetForeground(c) => {
                self.foreground = c;
            },
            Instruction::SetBackground(c) => {
                self.background = c;
            },
            Instruction::Type(c, bold) => {
                let y = self.cursor_y as usize;
                if y >= self.lines.len() {
                    return;
                }
                let x = self.cursor_x as usize;
                let mut line = self.lines.remove(y);
                let mut text = String::new();
                text.push(c);
                proof {
                    assert(text@ =~= seq![c]);
                }
                line.insert(
                    x,
                    Cell {
                        text,
                        bold,
                        foreground: self.foreground,
                        background: self.background,
                        original_background: None,
                    },
                );
                self.lines.insert(y, line);
                self.cursor_x = self.cursor_x + 1;
            },
            Instruction::Newline { x } => {
                self.cursor_x = x;
                self.cursor_y = self.cursor_y + 1;
                self.pad_to_cursor();
            },
            Instruction::SetX(x) => {
                self.cursor_x = x;
                self.pad_to_cursor();
            },
        }
    }
}

/// The colour a search match is highlighted with.
pub open spec fn match_color() -> Rgb {
    Rgb { r: 255, g: 255, b: 0 }
}

/// Which characters of `line` are covered by the matches of the non-empty
/// `pat`, found from left to right without overlap (as
/// `str::match_indices` finds them).
pub open spec fn cover_mask(line: Seq<char>, pat: Seq<char>) -> Seq<bool>
    decreases line.len(),
{
    if pat.len() == 0 || line.len() < pat.len() {
        Seq::new(line.len(), |i: int| false)
    } else if line.take(pat.len() as int) == pat {
        Seq::new(pat.len(), |i: int| true) + cover_mask(line.skip(pat.len() as int), pat)
    } else {
        seq![false] + cover_mask(line.skip(1), pat)
    }
}

/// A cell highlighted as a match: it remembers the background it had.
pub open spec fn highlighted(c: Cell) -> Cell {
    Cell { background: match_color(), original_background: Some(c.background), ..c }
}

/// A cell with its highlight, if any, taken away.
pub open spec fn unhighlighted(c: Cell) -> Cell {
    match c.original_background {
        Some(bg) => Cell { background: bg, original_background: None, ..c },
        None => c,
    }
}

/// The cells of a line with the covered ones highlighted.
pub open spec fn highlight_cells(cells: Seq<Cell>, mask: Seq<bool>) -> Seq<Cell> {
    Seq::new(cells.len(), |k: int| if k < mask.len() && mask[k] { highlighted(cells[k]) } else { cells[k] })
}

/// The buffer's lines after highlighting the matches of `pat` on the
/// listed lines of the response, one listed line after the other.
pub open spec fn apply_matches(
    lines: Seq<Seq<Cell>>,
    response_lines: Seq<Seq<char>>,
    matches: Seq<usize>,
    pat: Seq<char>,
) -> Seq<Seq<Cell>>
    decreases matches.len(),
{
    if matches.len() == 0 {
        lines
    } else {
        let before = apply_matches(lines, response_lines, matches.drop_last(), pat);
        let i = matches.last() as int;
        if i < response_lines.len() && i < before.len() {
            before.update(i, highlight_cells(before[i], cover_mask(response_lines[i], pat)))
        } else {
            before
        }
    }
}

/// Which characters of `line` the matches of `pat` cover.
pub fn match_cover(line: &[char], pat: &[char]) -> (mask: Vec<bool>)
    ensures
        mask@ == cover_mask(line@, pat@),
{
    let mut mask: Vec<bool> = Vec::new();
    if pat.len() == 0 {
        let mut k: usize = 0;
        while k < line.len()
            invariant
                k <= line@.len(),
                pat@.len() == 0,
                mask@ == Seq::new(k as nat, |i: int| false),
            decreases line@.len() - k,
        {
            mask.push(false);
            k = k + 1;
            proof {
                assert(mask@ =~= Seq::new(k as nat, |i: int| false));
            }
        }
        proof {
            assert(mask@ =~= cover_mask(line@, pat@));
        }
        return mask;
    }
    let mut i: usize = 0;
    proof {
        assert(line@.skip(0) =~= line@);
        assert(mask@ + cover_mask(line@.skip(0), pat@) =~= cover_mask(line@, pat@));
    }
    while i < line.len()
        invariant
            i <= line@.len(),
            pat@.len() > 0,
            mask@.len() == i,
            mask@ + cover_mask(line@.skip(i as int), pat@) == cover_mask(line@, pat@),
        decreases line@.len() - i,
    {
        let ghost rest = line@.skip(i as int);
        if matches_at(line, pat, i) {
            proof {
                assert(rest.take(pat@.len() as int) =~= line@.subrange(i as int, i + pat@.len()));
                assert(rest.skip(pat@.len() as int) =~= line@.skip(i + pat@.len()));
            }
            let ghost before = mask@;
            let mut k: usize = 0;
            while k < pat.len()
                invariant
                    k <= pat@.len(),
                    mask@ == before + Seq::new(k as nat, |j: int| true),
                decreases pat@.len() - k,
            {
                mask.push(true);
                k = k + 1;
                proof {
                    assert(mask@ =~= before + Seq::new(k as nat, |j: int| true));
                }
            }
            proof {
                assert(before + (Seq::new(pat@.len(), |j: int| true) + cover_mask(line@.skip(i + pat@.len()), pat@))
                    =~= mask@ + cover_mask(line@.skip(i + pat@.len()), pat@));
            }
            i = i + pat.len();
        } else {
            proof {
                if rest.len() >= pat@.len() {
                    assert(rest.take(pat@.len() as int) =~= line@.subrange(i as int, i + pat@.len()));
                    assert(rest.skip(1) =~= line@.skip(i + 1));
                    assert(mask@.push(false) + cover_mask(line@.skip(i + 1), pat@) =~= mask@ + (seq![false]
                        + cover_mask(line@.skip(i + 1), pat@)));
                } else {
                    assert(cover_mask(rest, pat@) =~= Seq::new(rest.len(), |j: int| false));
                    assert(rest.skip(1).len() < pat@.len());
                    assert(cover_mask(rest.skip(1), pat@) =~= Seq::new(rest.skip(1).len(), |j: int| false));
                    assert(rest.skip(1) =~= line@.skip(i + 1));
                    assert(mask@.push(false) + cover_mask(line@.skip(i + 1), pat@) =~= mask@ + cover_mask(rest, pat@));
                }
            }
            mask.push(false);
            i = i + 1;
        }
    }
    proof {
        assert(line@.skip(i as int) =~= seq![]);
        assert(cover_mask(line@.skip(i as int), pat@) =~= seq![]);
        assert(mask@ =~= cover_mask(line@, pat@));
    }
    mask
}

fn highlight_cell(c: &Cell) -> (h: Cell)
    ensures
        h == highlighted(*c),
{
    Cell {
        text: c.text.clone(),
        bold: c.bold,
        foreground: c.foreground,
        background: Rgb { r: 255, g: 255, b: 0 },
        original_background: Some(c.background),
    }
}

fn unhighlight_cell(c: &Cell) -> (u: Cell)
    ensures
        u == unhighlighted(*c),
{
    match c.original_background {
        Some(bg) => Cell {
            text: c.text.clone(),
            bold: c.bold,
            foreground: c.foreground,
            background: bg,
            original_background: None,
        },
        None => Cell {
            text: c.text.clone(),
            bold: c.bold,
            foreground: c.foreground,
            background: c.background,
            original_background: None,
        },
    }
}

fn copy_cell(c: &Cell) -> (d: Cell)
    ensures
        d == *c,
{
    Cell {
        text: c.text.clone(),
        bold: c.bold,
        foreground: c.foreground,
        background: c.background,
        original_background: c.original_background,
    }
}

fn highlight_line_cells(cells: &Vec<Cell>, mask: &Vec<bool>) -> (out: Vec<Cell>)
    ensures
        out@ == highlight_cells(cells@, mask@),
{
    let mut out: Vec<Cell> = Vec::new();
    let mut k: usize = 0;
    while k < cells.len()
        invariant
            k <= cells@.len(),
            out@ == highlight_cells(cells@, mask@).take(k as int),
        decreases cells@.len() - k,
    {
        let c = if k < mask.len() && mask[k] {
            highlight_cell(&cells[k])
        } else {
            copy_cell(&cells[k])
        };
        out.push(c);
        k = k + 1;
        proof {
            assert(out@ =~= highlight_cells(cells@, mask@).take(k as int));
        }
    }
    proof {
        assert(highlight_cells(cells@, mask@).take(k as int) =~= highlight_cells(cells@, mask@));
    }
    out
}

fn unhighlight_line_cells(cells: &Vec<Cell>) -> (out: Vec<Cell>)
    ensures
        out@ == Seq::new(cells@.len(), |k: int| unhighlighted(cells@[k])),
{
    let mut out: Vec<Cell> = Vec::new();
    let mut k: usize = 0;
    while k < cells.len()
        invariant
            k <= cells@.len(),
            out@ == Seq::new(k as nat, |j: int| unhighlighted(cells@[j])),
        decreases cells@.len() - k,
    {
        out.push(unhighlight_cell(&cells[k]));
        k = k + 1;
        proof {
            assert(out@ =~= Seq::new(k as nat, |j: int| unhighlighted(cells@[j])));
        }
    }
    out
}

/// The lines of a buffer, as sequences of cells.
pub open spec fn line_cells(b: RenderBuffer) -> Seq<Seq<Cell>> {
    Seq::new(b.lines@.len(), |i: int| b.lines@[i]@)
}

/// The lines with every highlight taken away.
pub open spec fn unhighlight_lines(lines: Seq<Seq<Cell>>) -> Seq<Seq<Cell>> {
    Seq::new(lines.len(), |i: int| Seq::new(lines[i].len(), |k: int| unhighlighted(lines[i][k])))
}

/// Whether no cell of the lines is highlighted.
pub open spec fn no_highlights(lines: Seq<Seq<Cell>>) -> bool {
    forall|i: int, k: int|
        0 <= i < lines.len() && 0 <= k < lines[i].len() ==> (#[trigger] lines[i][k]).original_background is None
}

impl RenderBuffer {
    /// Takes the highlight off every highlighted cell.
    pub fn clear_highlights(&mut self)
        ensures
            line_cells(*final(self)) == unhighlight_lines(line_cells(*old(self))),
            final(self).cursor_x == old(self).cursor_x,
            final(self).cursor_y == old(self).cursor_y,
            final(self).foreground == old(self).foreground,
            final(self).background == old(self).background,
    {
        let ghost pre = self.lines@;
        let mut lines: Vec<Vec<Cell>> = Vec::new();
        let mut i: usize = 0;
        while i < self.lines.len()
            invariant
                i <= self.lines@.len(),
                self.lines@ == pre,
                lines@.len() == i,
                forall|j: int| 0 <= j < i ==> #[trigger] lines@[j]@ == Seq::new(
                    pre[j]@.len(),
                    |k: int| unhighlighted(pre[j]@[k]),
                ),
            decreases self.lines@.len() - i,
        {
            let line = unhighlight_line_cells(&self.lines[i]);
            lines.push(line);
            i = i + 1;
        }
        self.lines = lines;
        proof {
            let old_cells = Seq::new(pre.len(), |i: int| pre[i]@);
            assert forall|j: int| 0 <= j < pre.len() implies #[trigger] line_cells(*self)[j] =~= unhighlight_lines(
                old_cells,
            )[j] by {
                assert(old_cells[j] == pre[j]@);
            }
            assert(line_cells(*self) =~= unhighlight_lines(old_cells));
        }
    }

    /// Highlights the matches of `filter` on the listed lines of the
    /// response (after taking off the previous highlights): each cell of a
    /// listed line under a match turns yellow and remembers its background.
    pub fn highlight_matches(&mut self, response: &str, matches: &Vec<usize>, filter: &str)
        ensures
            line_cells(*final(self)) == apply_matches(
                unhighlight_lines(line_cells(*old(self))),
                spec_lines(response@),
                matches@,
                filter@,
            ),
            final(self).cursor_x == old(self).cursor_x,
            final(self).cursor_y == old(self).cursor_y,
            final(self).foreground == old(self).foreground,
            final(self).background == old(self).background,
    {
        self.clear_highlights();
        let ghost cleared = line_cells(*self);
        let response_chars = chars_of(response);
        let response_lines = lines(response_chars.as_slice());
        let ghost rl = spec_lines(response@);
        let pat = chars_of(filter);
        let mut m: usize = 0;
        proof {
            assert(matches@.take(0) =~= seq![]);
        }
        while m < matches.len()
            invariant
                m <= matches@.len(),
                rl == spec_lines(response@),
                response_lines@.len() == rl.len(),
                forall|j: int| 0 <= j < response_lines@.len() ==> #[trigger] response_lines@[j]@ == rl[j],
                pat@ == filter@,
                line_cells(*self) == apply_matches(cleared, rl, matches@.take(m as int), filter@),
                self.cursor_x == old(self).cursor_x,
                self.cursor_y == old(self).cursor_y,
                self.foreground == old(self).foreground,
                self.background == old(self).background,
            decreases matches@.len() - m,
        {
            let index = matches[m];
            proof {
                assert(matches@.take(m + 1).drop_last() =~= matches@.take(m as int));
                assert(matches@.take(m + 1).last() == index);
            }
            if index < response_lines.len() && index < self.lines.len() {
                let mask = match_cover(response_lines[index].as_slice(), pat.as_slice());
                let new_line = highlight_line_cells(&self.lines[index], &mask);
                let ghost before = line_cells(*self);
                self.lines.set(index, new_line);
                proof {
                    assert(line_cells(*self) =~= before.update(
                        index as int,
                        highlight_cells(before[index as int], cover_mask(rl[index as int], filter@)),
                    ));
                }
            }
            m = m + 1;
        }
        proof {
            assert(matches@.take(m as int) =~= matches@);
        }
    }
}

/// What highlighting the matches does to the lines, line by line: the
/// shape stays, each cell without its highlight is the cell it was, and a
/// line that is not listed stays as it was.
proof fn lemma_apply_matches_undone(
    lines: Seq<Seq<Cell>>,
    response_lines: Seq<Seq<char>>,
    matches: Seq<usize>,
    pat: Seq<char>,
)
    requires
        no_highlights(lines),
        matches.no_duplicates(),
    ensures
        apply_matches(lines, response_lines, matches, pat).len() == lines.len(),
        forall|j: int| 0 <= j < lines.len() ==> #[trigger] apply_matches(lines, response_lines, matches, pat)[j].len()
            == lines[j].len(),
        forall|j: int, k: int|
            0 <= j < lines.len() && 0 <= k < lines[j].len() ==> unhighlighted(
                #[trigger] apply_matches(lines, response_lines, matches, pat)[j][k],
            ) == lines[j][k],
        forall|j: int| 0 <= j < lines.len() && !matches.contains(j as usize) ==> #[trigger] apply_matches(
            lines,
            response_lines,
            matches,
            pat,
        )[j] == lines[j],
    decreases matches.len(),
{
    if matches.len() > 0 {
        let d = matches.drop_last();
        assert(d.no_duplicates()) by {
            assert forall|a: int, b: int| 0 <= a < d.len() && 0 <= b < d.len() && a != b implies d[a] != d[b] by {
                assert(d[a] == matches[a] && d[b] == matches[b]);
            }
        }
        lemma_apply_matches_undone(lines, response_lines, d, pat);
        let before = apply_matches(lines, response_lines, d, pat);
        let i = matches.last() as int;
        assert(!d.contains(matches.last())) by {
            if d.contains(matches.last()) {
                let a = choose|a: int| 0 <= a < d.len() && d[a] == matches.last();
                assert(matches[a] == matches[matches.len() - 1]);
            }
        }
        assert forall|j: int| 0 <= j < lines.len() && !matches.contains(j as usize) implies !(#[trigger] d.contains(j as usize)) by {
            if d.contains(j as usize) {
                let a = choose|a: int| 0 <= a < d.len() && d[a] == j as usize;
                assert(matches[a] == d[a]);
            }
        }
        if i < response_lines.len() && i < before.len() {
            assert(before[i] == lines[i]);
            let mask = cover_mask(response_lines[i], pat);
            let hc = highlight_cells(before[i], mask);
            assert forall|k: int| 0 <= k < lines[i].len() implies unhighlighted(#[trigger] hc[k]) == lines[i][k] by {
                assert(lines[i][k].original_background is None);
            }
            let r = apply_matches(lines, response_lines, matches, pat);
            assert(r == before.update(i, hc));
            assert forall|j: int| 0 <= j < lines.len() && !matches.contains(j as usize) implies #[trigger] r[j] == lines[j] by {
                assert(matches[matches.len() - 1] == i as usize);
                assert(j != i);
            }
        }
    }
}

/// Whether position `k` of `line` lies inside an occurrence of `pat`.
pub open spec fn inside_occurrence(line: Seq<char>, pat: Seq<char>, k: int) -> bool {
    exists|j: int| #[trigger] occurs_at(line, pat, j) && j <= k < j + pat.len()
}

/// Whether an occurrence of `pat` starts in `line` less than its length
/// before `j`, so that it overlaps one that starts at `j`.
pub open spec fn overlapped_from_left(line: Seq<char>, pat: Seq<char>, j: int) -> bool {
    exists|i: int| #[trigger] occurs_at(line, pat, i) && j - pat.len() < i < j
}

/// An occurrence in a text without its first `d` characters is one in the
/// whole text, `d` places further on.
proof fn lemma_occurs_shift(line: Seq<char>, pat: Seq<char>, d: int, j: int)
    requires
        0 <= d <= line.len(),
        0 <= j,
    ensures
        occurs_at(line.skip(d), pat, j) == occurs_at(line, pat, j + d),
{
    if j + pat.len() <= line.len() - d {
        assert(line.skip(d).subrange(j, j + pat.len()) =~= line.subrange(j + d, j + d + pat.len()));
    }
}

/// Every covered character lies inside an occurrence of the pattern.
proof fn lemma_cover_sound(line: Seq<char>, pat: Seq<char>)
    ensures
        cover_mask(line, pat).len() == line.len(),
        forall|k: int|
            0 <= k < line.len() && #[trigger] cover_mask(line, pat)[k] ==> inside_occurrence(line, pat, k),
    decreases line.len(),
{
    let m = cover_mask(line, pat);
    let n = pat.len() as int;
    if pat.len() == 0 || line.len() < pat.len() {
    } else if line.take(n) == pat {
        let t = line.skip(n);
        lemma_cover_sound(t, pat);
        assert forall|k: int| 0 <= k < line.len() && #[trigger] m[k] implies inside_occurrence(line, pat, k) by {
            if k < n {
                assert(line.subrange(0, n) =~= line.take(n));
                assert(occurs_at(line, pat, 0));
            } else {
                assert(m[k] == cover_mask(t, pat)[k - n]);
                let j = choose|j: int| #[trigger] occurs_at(t, pat, j) && j <= k - n < j + pat.len();
                lemma_occurs_shift(line, pat, n, j);
                assert(occurs_at(line, pat, j + n));
            }
        }
    } else {
        let t = line.skip(1);
        lemma_cover_sound(t, pat);
        assert forall|k: int| 0 <= k < line.len() && #[trigger] m[k] implies inside_occurrence(line, pat, k) by {
            if k >= 1 {
                assert(m[k] == cover_mask(t, pat)[k - 1]);
                let j = choose|j: int| #[trigger] occurs_at(t, pat, j) && j <= k - 1 < j + pat.len();
                lemma_occurs_shift(line, pat, 1, j);
                assert(occurs_at(line, pat, j + 1));
            }
        }
    }
}

/// An occurrence of the pattern that no earlier occurrence overlaps is
/// covered whole.
proof fn lemma_cover_complete(line: Seq<char>, pat: Seq<char>, j: int)
    requires
        occurs_at(line, pat, j),
        !overlapped_from_left(line, pat, j),
    ensures
        forall|k: int| j <= k < j + pat.len() ==> #[trigger] cover_mask(line, pat)[k],
    decreases line.len(),
{
    let m = cover_mask(line, pat);
    let n = pat.len() as int;
    lemma_cover_sound(line, pat);
    if pat.len() == 0 || line.len() < pat.len() {
    } else if line.take(n) == pat {
        lemma_cover_sound(line.skip(n), pat);
        assert(line.subrange(0, n) =~= line.take(n));
        assert(occurs_at(line, pat, 0));
        if j == 0 {
        } else if j < n {
            assert(overlapped_from_left(line, pat, j));
        } else {
            let t = line.skip(n);
            lemma_occurs_shift(line, pat, n, j - n);
            assert(!overlapped_from_left(t, pat, j - n)) by {
                if overlapped_from_left(t, pat, j - n) {
                    let i = choose|i: int| #[trigger] occurs_at(t, pat, i) && j - n - pat.len() < i < j - n;
                    lemma_occurs_shift(line, pat, n, i);
                    assert(occurs_at(line, pat, i + n));
                }
            }
            lemma_cover_complete(t, pat, j - n);
            assert forall|k: int| j <= k < j + pat.len() implies #[trigger] m[k] by {
                assert(m[k] == cover_mask(t, pat)[k - n]);
            }
        }
    } else {
        assert(j != 0) by {
            if j == 0 {
                assert(line.subrange(0, n) =~= line.take(n));
            }
        }
        let t = line.skip(1);
        lemma_cover_sound(t, pat);
        lemma_occurs_shift(line, pat, 1, j - 1);
        assert(!overlapped_from_left(t, pat, j - 1)) by {
            if overlapped_from_left(t, pat, j - 1) {
                let i = choose|i: int| #[trigger] occurs_at(t, pat, i) && j - 1 - pat.len() < i < j - 1;
                lemma_occurs_shift(line, pat, 1, i);
                assert(occurs_at(line, pat, i + 1));
            }
        }
        lemma_cover_complete(t, pat, j - 1);
        assert forall|k: int| j <= k < j + pat.len() implies #[trigger] m[k] by {
            assert(m[k] == cover_mask(t, pat)[k - 1]);
        }
    }
}

/// A listed line ends up with the matches of its response line highlighted
/// on its cells as they were.
proof fn lemma_apply_matches_listed(
    lines: Seq<Seq<Cell>>,
    response_lines: Seq<Seq<char>>,
    matches: Seq<usize>,
    pat: Seq<char>,
    i: usize,
)
    requires
        no_highlights(lines),
        matches.no_duplicates(),
        matches.contains(i),
        i < lines.len(),
    ensures
        apply_matches(lines, response_lines, matches, pat)[i as int] == if i < response_lines.len() {
            highlight_cells(lines[i as int], cover_mask(response_lines[i as int], pat))
        } else {
            lines[i as int]
        },
    decreases matches.len(),
{
    let d = matches.drop_last();
    assert(d.no_duplicates()) by {
        assert forall|a: int, b: int| 0 <= a < d.len() && 0 <= b < d.len() && a != b implies d[a] != d[b] by {
            assert(d[a] == matches[a] && d[b] == matches[b]);
        }
    }
    lemma_apply_matches_undone(lines, response_lines, d, pat);
    let before = apply_matches(lines, response_lines, d, pat);
    if matches.last() == i {
        assert(!d.contains(i)) by {
            if d.contains(i) {
                let a = choose|a: int| 0 <= a < d.len() && d[a] == i;
                assert(matches[a] == matches[matches.len() - 1]);
            }
        }
        assert(before[i as int] == lines[i as int]);
    } else {
        assert(d.contains(i)) by {
            let a = choose|a: int| 0 <= a < matches.len() && matches[a] == i;
            assert(a != matches.len() - 1);
            assert(d[a] == matches[a]);
        }
        lemma_apply_matches_listed(lines, response_lines, d, pat, i);
    }
}

/// After a search, a cell of the buffer is highlighted only on a listed
/// line and inside an occurrence of the filter on the matching response
/// line; a highlighted cell has the match colour and remembers its former
/// background; a cell that is not highlighted is as it was (its highlight
/// from an earlier search taken away); and each occurrence of the filter
/// that no earlier occurrence overlaps is highlighted whole.
pub proof fn lemma_highlight_marks_occurrences(
    lines: Seq<Seq<Cell>>,
    response_lines: Seq<Seq<char>>,
    matches: Seq<usize>,
    pat: Seq<char>,
    i: usize,
    k: int,
)
    requires
        matches.no_duplicates(),
        i < lines.len(),
        0 <= k < lines[i as int].len(),
    ensures
        apply_matches(unhighlight_lines(lines), response_lines, matches, pat)[i as int][k].original_background is Some
            ==> matches.contains(i) && i < response_lines.len() && inside_occurrence(response_lines[i as int], pat, k),
        apply_matches(unhighlight_lines(lines), response_lines, matches, pat)[i as int][k].original_background is Some
            ==> apply_matches(unhighlight_lines(lines), response_lines, matches, pat)[i as int][k] == highlighted(
            unhighlighted(lines[i as int][k]),
        ),
        apply_matches(unhighlight_lines(lines), response_lines, matches, pat)[i as int][k].original_background is None
            ==> apply_matches(unhighlight_lines(lines), response_lines, matches, pat)[i as int][k] == unhighlighted(
            lines[i as int][k],
        ),
        forall|j: int|
            matches.contains(i) && i < response_lines.len() && #[trigger] occurs_at(response_lines[i as int], pat, j)
                && !overlapped_from_left(response_lines[i as int], pat, j) && j <= k < j + pat.len()
                ==> apply_matches(unhighlight_lines(lines), response_lines, matches, pat)[i as int][k].original_background
                is Some,
{
    let cleared = unhighlight_lines(lines);
    assert(no_highlights(cleared)) by {
        assert forall|a: int, b: int| 0 <= a < cleared.len() && 0 <= b < cleared[a].len() implies (
        #[trigger] cleared[a][b]).original_background is None by {
            assert(cleared[a][b] == unhighlighted(lines[a][b]));
        }
    }
    lemma_apply_matches_undone(cleared, response_lines, matches, pat);
    let r = apply_matches(cleared, response_lines, matches, pat);
    assert(cleared[i as int][k] == unhighlighted(lines[i as int][k]));
    assert(unhighlighted(r[i as int][k]) == cleared[i as int][k]);
    if matches.contains(i) {
        lemma_apply_matches_listed(cleared, response_lines, matches, pat, i);
    }
    if matches.contains(i) && i < response_lines.len() {
        lemma_apply_matches_listed(cleared, response_lines, matches, pat, i);
        let rl = response_lines[i as int];
        lemma_cover_sound(rl, pat);
        assert forall|j: int|
            #[trigger] occurs_at(rl, pat, j) && !overlapped_from_left(rl, pat, j) && j <= k < j + pat.len()
                implies r[i as int][k].original_background is Some by {
            lemma_cover_complete(rl, pat, j);
            assert(cover_mask(rl, pat)[k]);
        }
    } else if !matches.contains(i) {
        assert(!matches.contains((i as int) as usize));
        assert(r[i as int] == cleared[i as int]);
    }
}

/// Taking the highlights off after highlighting the matches of a search
/// gives back the cells as they were, when none was highlighted before and
/// no line is listed twice.
pub proof fn lemma_unhighlight_after_highlight(
    lines: Seq<Seq<Cell>>,
    response_lines: Seq<Seq<char>>,
    matches: Seq<usize>,
    pat: Seq<char>,
)
    requires
        no_highlights(lines),
        matches.no_duplicates(),
    ensures
        unhighlight_lines(apply_matches(lines, response_lines, matches, pat)) == lines,
{
    lemma_apply_matches_undone(lines, response_lines, matches, pat);
    let r = apply_matches(lines, response_lines, matches, pat);
    assert forall|j: int| 0 <= j < lines.len() implies #[trigger] unhighlight_lines(r)[j] =~= lines[j] by {
        assert forall|k: int| 0 <= k < lines[j].len() implies unhighlight_lines(r)[j][k] == lines[j][k] by {
            assert(unhighlighted(r[j][k]) == lines[j][k]);
        }
    }
    assert(unhighlight_lines(r) =~= lines);
}

} // verus!
