//! Syntax highlighting of response bodies: the names of highlighting
//! themes, the styled spans of each line, and the drawing instructions the
//! response view is rendered from.

use vstd::prelude::*;

use crate::options::{effective_options, get_syntax_theme, Options};
use crate::text::{
    ascii_upper, ascii_upper_char, chars_of, is_ascii_lower, is_ascii_text, lemma_collapse_keeps_ends, lemma_replace_chars,
    lemma_replace_one_char, lemma_trim, replace, spec_is_whitespace, spec_replace, spec_trim, spec_trim_end, spec_trim_start,
    string_from_chars, trim,
};

use syntect::easy::HighlightLines;
use syntect::highlighting::{Theme, ThemeSet};
use syntect::parsing::SyntaxSet;

verus! {

/// The upper-case form of a string, as `str::to_uppercase` computes it by
/// the Unicode case mappings.
pub uninterp spec fn spec_to_uppercase(s: Seq<char>) -> Seq<char>;

/// Calls `str::to_uppercase`, whose result follows the Unicode case
/// mapping tables and depends on the string alone; it is named here, not
/// spelled out. On an ASCII string the Unicode mapping is the ASCII one:
/// each letter `a` to `z` becomes its upper-case letter, every other
/// character stays.
#[verifier::external_body]
pub(crate) fn to_uppercase(s: &str) -> (upper: String)
    ensures
        upper@ == spec_to_uppercase(s@),
        is_ascii_text(s@) ==> upper@ == ascii_upper(s@),
{
    s.to_uppercase()
}

/// The characters removed from a theme name to make its constant.
pub open spec fn removed_from_name() -> Seq<char> {
    seq!['\'', '[', ']', '(', ')', '&', '-']
}

/// `s` without any of the characters of `chars`, removed in that order.
pub open spec fn remove_each(s: Seq<char>, chars: Seq<char>) -> Seq<char>
    decreases chars.len(),
{
    if chars.len() == 0 {
        s
    } else {
        remove_each(spec_replace(s, seq![chars[0]], seq![]), chars.drop_first())
    }
}

/// The constant of an upper-cased theme name: quotes, brackets,
/// parentheses, ampersands and hyphens removed, the rest trimmed, spaces
/// turned into underscores and double underscores into single ones.
pub open spec fn spec_constant_from_upper(upper: Seq<char>) -> Seq<char> {
    let cleaned = spec_trim(remove_each(upper, removed_from_name()));
    spec_replace(spec_replace(cleaned, seq![' '], seq!['_']), seq!['_', '_'], seq!['_'])
}

/// The constant a theme is stored under, given its upper-cased name.
pub fn constant_from_upper(upper: &str) -> (constant: String)
    ensures
        constant@ == spec_constant_from_upper(upper@),
{
    let removed: Vec<char> = vec!['\'', '[', ']', '(', ')', '&', '-'];
    let empty: Vec<char> = Vec::new();
    let mut s = chars_of(upper);
    let mut i: usize = 0;
    proof {
        assert(removed@ =~= removed_from_name());
        assert(removed_from_name().skip(0) =~= removed_from_name());
    }
    while i < removed.len()
        invariant
            i <= removed@.len(),
            removed@ == removed_from_name(),
            empty@.len() == 0,
            remove_each(s@, removed@.skip(i as int)) == remove_each(upper@, removed_from_name()),
        decreases removed@.len() - i,
    {
        let pat: Vec<char> = vec![removed[i]];
        proof {
            assert(pat@ =~= seq![removed@[i as int]]);
            assert(removed@.skip(i as int).drop_first() =~= removed@.skip(i + 1));
            assert(removed@.skip(i as int)[0] == removed@[i as int]);
            assert(empty@ =~= seq![]);
        }
        s = replace(s.as_slice(), pat.as_slice(), empty.as_slice());
        i = i + 1;
    }
    proof {
        assert(removed@.skip(i as int).len() == 0);
    }
    let trimmed = trim(s.as_slice());
    let space: Vec<char> = vec![' '];
    let underscore: Vec<char> = vec!['_'];
    let double_underscore: Vec<char> = vec!['_', '_'];
    proof {
        assert(space@ =~= seq![' ']);
        assert(underscore@ =~= seq!['_']);
        assert(double_underscore@ =~= seq!['_', '_']);
    }
    let spaced = replace(trimmed.as_slice(), space.as_slice(), underscore.as_slice());
    let collapsed = replace(spaced.as_slice(), double_underscore.as_slice(), underscore.as_slice());
    string_from_chars(collapsed.as_slice())
}

/// The constant a syntax theme is stored under, made from its display name
/// (`"Monokai Dark"` is stored as `MONOKAI_DARK`).
pub fn get_constant_from_name(name: &str) -> (constant: String)
    ensures
        constant@ == spec_constant_from_upper(spec_to_uppercase(name@)),
        is_ascii_text(name@) ==> constant@ == spec_constant_from_upper(ascii_upper(name@)),
{
    let upper = to_uppercase(name);
    constant_from_upper(upper.as_str())
}

/// The syntax themes the application ships, by constant.
pub open spec fn shipped_theme_constants() -> Seq<Seq<char>> {
    seq![
        "ARGONAUT"@,
        "BESPIN"@,
        "BLACKBOARD_MOD"@,
        "BLACKLIGHT"@,
        "COBALT"@,
        "FAKE"@,
        "GLITTERBOMB"@,
        "JUICY"@,
        "MIDNIGHT"@,
        "MONOKAI_DARK"@,
        "SPECTACULAR"@,
    ]
}

/// The theme used when a name matches no shipped theme.
pub const FALLBACK_THEME: &'static str = "PLUM_DUMB";

/// The constant of the theme to load for a theme constant: the constant
/// itself when a shipped theme has it, else the fallback theme.
pub open spec fn spec_theme_to_load(constant: Seq<char>) -> Seq<char> {
    if shipped_theme_constants().contains(constant) {
        constant
    } else {
        FALLBACK_THEME@
    }
}

/// The constant of the theme to load for a theme constant.
pub fn theme_to_load(constant: &str) -> (theme: &'static str)
    ensures
        theme@ == spec_theme_to_load(constant@),
{
    let known: Vec<&'static str> = vec![
        "ARGONAUT",
        "BESPIN",
        "BLACKBOARD_MOD",
        "BLACKLIGHT",
        "COBALT",
        "FAKE",
        "GLITTERBOMB",
        "JUICY",
        "MIDNIGHT",
        "MONOKAI_DARK",
        "SPECTACULAR",
    ];
    let ghost views = Seq::new(known@.len(), |i: int| known@[i]@);
    proof {
        assert(views =~= shipped_theme_constants());
    }
    let mut i: usize = 0;
    while i < known.len()
        invariant
            i <= known@.len(),
            views == Seq::new(known@.len(), |k: int| known@[k]@),
            views == shipped_theme_constants(),
            forall|k: int| 0 <= k < i ==> known@[k]@ != constant@,
        decreases known@.len() - i,
    {
        if crate::text::str_equal(known[i], constant) {
            proof {
                assert(views[i as int] == constant@);
            }
            return known[i];
        }
        i = i + 1;
    }
    proof {
        assert forall|k: int| 0 <= k < views.len() implies views[k] != constant@ by {
            assert(views[k] == known@[k]@);
        }
        assert(!views.contains(constant@));
    }
    FALLBACK_THEME
}

/// The extension a syntax is looked up by: a content-type parameter list
/// (`json; charset=utf-8`) is cut at the first `;`.
pub open spec fn spec_syntax_extension(ext: Seq<char>) -> Seq<char> {
    match crate::text::first_occurrence(ext, seq![';']) {
        Some(i) => ext.take(i),
        None => ext,
    }
}

/// The extension a syntax is looked up by.
pub fn syntax_extension(ext: &str) -> (extension: String)
    ensures
        extension@ == spec_syntax_extension(ext@),
{
    let chars = chars_of(ext);
    let semicolon: Vec<char> = vec![';'];
    proof {
        assert(semicolon@ =~= seq![';']);
    }
    let found = crate::text::find(chars.as_slice(), semicolon.as_slice());
    match found {
        Some(i) => {
            let prefix = crate::text::take_chars(chars.as_slice(), i);
            proof {
                assert(prefix@ =~= chars@.take(i as int));
            }
            string_from_chars(prefix.as_slice())
        },
        None => ext.to_owned(),
    }
}

/// A colour given by its red, green and blue components.
#[derive(Debug, Clone, Copy, PartialEq, Eq, Structural)]
pub struct Rgb {
    pub r: u8,
    pub g: u8,
    pub b: u8,
}

/// White, the foreground the instructions start from.
pub open spec fn white() -> Rgb {
    Rgb { r: 255, g: 255, b: 255 }
}

/// Black, the background the instructions start from.
pub open spec fn black() -> Rgb {
    Rgb { r: 0, g: 0, b: 0 }
}

/// A piece of a line in one style.
#[derive(Debug, Clone, PartialEq, Eq)]
pub struct Span {
    pub src: String,
    pub fg: Rgb,
    pub bg: Rgb,
    pub bold: bool,
}

/// A highlighted line: its first span and the others.
#[derive(Debug, Clone, PartialEq, Eq)]
pub struct Line {
    pub head: Span,
    pub tail: Vec<Span>,
}

/// A drawing step of the response view.
#[derive(Debug, Clone, Copy, PartialEq, Eq, Structural)]
pub enum Instruction {
    Type(char, bool),
    SetForeground(Rgb),
    SetBackground(Rgb),
    Newline { x: i32 },
    SetX(i32),
}

/// The number of spaces `s` starts with.
pub open spec fn leading_spaces(s: Seq<char>) -> nat
    decreases s.len(),
{
    if s.len() > 0 && s[0] == ' ' {
        1 + leading_spaces(s.drop_first())
    } else {
        0
    }
}

proof fn lemma_leading_spaces(s: Seq<char>, i: int)
    requires
        0 <= i <= leading_spaces(s),
    ensures
        leading_spaces(s) <= s.len(),
        forall|k: int| 0 <= k < i ==> s[k] == ' ',
        leading_spaces(s.skip(i)) == leading_spaces(s) - i,
    decreases i,
{
    if s.len() > 0 && s[0] == ' ' {
        lemma_leading_spaces_len(s);
        if i > 0 {
            lemma_leading_spaces(s.drop_first(), i - 1);
            assert(s.drop_first().skip(i - 1) =~= s.skip(i));
            assert forall|k: int| 0 <= k < i implies s[k] == ' ' by {
                if k > 0 {
                    assert(s.drop_first()[k - 1] == s[k]);
                }
            }
        } else {
            assert(s.skip(0) =~= s);
        }
    } else {
        assert(s.skip(0) =~= s);
    }
}

proof fn lemma_leading_spaces_len(s: Seq<char>)
    ensures
        leading_spaces(s) <= s.len(),
    decreases s.len(),
{
    if s.len() > 0 && s[0] == ' ' {
        lemma_leading_spaces_len(s.drop_first());
    }
}

impl Span {
    /// The spaces the span starts with (none when it starts otherwise), the
    /// text after them, and whether the span is bold.
    pub fn take_space(&self) -> (r: (Option<i32>, String, bool))
        ensures
            leading_spaces(self.src@) == 0 ==> r.0 is None,
            leading_spaces(self.src@) > 0 ==> r.0 == Some(leading_spaces(self.src@) as i32),
            r.1@ == self.src@.skip(leading_spaces(self.src@) as int),
            r.2 == self.bold,
    {
        let chars = chars_of(self.src.as_str());
        let mut count: usize = 0;
        proof {
            lemma_leading_spaces_len(chars@);
        }
        while count < chars.len() && chars[count] == ' '
            invariant
                count <= chars@.len(),
                count <= leading_spaces(chars@),
                leading_spaces(chars@) <= chars@.len(),
                chars@ == self.src@,
            decreases chars@.len() - count,
        {
            proof {
                lemma_leading_spaces(chars@, count as int);
                if count == leading_spaces(chars@) {
                    assert(chars@.skip(count as int)[0] == ' ');
                    assert(chars@.skip(count as int).drop_first() =~= chars@.skip(count + 1));
                }
            }
            count = count + 1;
        }
        proof {
            lemma_leading_spaces(chars@, count as int);
            if count < leading_spaces(chars@) {
                assert(chars@[count as int] == ' ');
            }
        }
        let opt_count = if count == 0 {
            None
        } else {
            Some(#[verifier::truncate] (count as i32))
        };
        let rest = crate::text::take_chars(&[], 0);
        let mut tail: Vec<char> = rest;
        let mut k: usize = count;
        while k < chars.len()
            invariant
                count <= k <= chars@.len(),
                tail@ == chars@.subrange(count as int, k as int),
            decreases chars@.len() - k,
        {
            tail.push(chars[k]);
            k = k + 1;
            proof {
                assert(tail@ =~= chars@.subrange(count as int, k as int));
            }
        }
        proof {
            assert(chars@.subrange(count as int, k as int) =~= chars@.skip(count as int));
        }
        (opt_count, string_from_chars(tail.as_slice()), self.bold)
    }
}

/// The instruction that types `c`: a newline starts a new line at the left
/// edge, another character is typed in the given weight.
pub open spec fn char_instr(c: char, bold: bool) -> Instruction {
    if c == '\n' {
        Instruction::Newline { x: 0 }
    } else {
        Instruction::Type(c, bold)
    }
}

/// The instructions that type `src`.
pub open spec fn char_instrs(src: Seq<char>, bold: bool) -> Seq<Instruction> {
    Seq::new(src.len(), |i: int| char_instr(src[i], bold))
}

/// The instructions that switch from colours `fg`/`bg` to a span's.
pub open spec fn style_instrs(span: Span, fg: Rgb, bg: Rgb) -> Seq<Instruction> {
    (if span.fg != fg { seq![Instruction::SetForeground(span.fg)] } else { seq![] }) + (if span.bg != bg {
        seq![Instruction::SetBackground(span.bg)]
    } else {
        seq![]
    })
}

/// The instructions for the spans after a line's first, when the line's
/// first span had colours `fg`/`bg`: each span switches colours as needed
/// and types its text.
pub open spec fn tail_instrs(spans: Seq<Span>, fg: Rgb, bg: Rgb) -> Seq<Instruction>
    decreases spans.len(),
{
    if spans.len() == 0 {
        seq![]
    } else {
        let before = spans.drop_last();
        let (pfg, pbg) = if before.len() == 0 { (fg, bg) } else { (before.last().fg, before.last().bg) };
        tail_instrs(before, fg, bg) + style_instrs(spans.last(), pfg, pbg) + char_instrs(
            spans.last().src@,
            spans.last().bold,
        )
    }
}

/// The spaces of an indented line's first span, typed instead of the span.
pub open spec fn indent_chars(n: i32) -> Seq<char> {
    Seq::new(if n > 0 { n as nat } else { 0 }, |i: int| ' ')
}

/// The instructions for a line's first span: a line that starts without
/// spaces begins at the left edge and types its first span; an indented
/// line types only its indentation for that span.
pub open spec fn head_instrs(head: Span, fg: Rgb, bg: Rgb) -> Seq<Instruction> {
    let n = leading_spaces(head.src@);
    let set_x = if n == 0 { seq![Instruction::SetX(0)] } else { seq![] };
    set_x + style_instrs(head, fg, bg) + char_instrs(head_text(head), head.bold)
}

/// What a line's first span shows: its text when the line starts without
/// spaces, else as many spaces as it starts with.
pub open spec fn head_text(head: Span) -> Seq<char> {
    let n = leading_spaces(head.src@);
    let line_start: i32 = if n == 0 { 0 } else { n as i32 };
    if line_start == 0 { head.src@.skip(n as int) } else { indent_chars(line_start) }
}

/// The colours in force after a line.
pub open spec fn colors_after_line(line: Line) -> (Rgb, Rgb) {
    if line.tail@.len() == 0 {
        (line.head.fg, line.head.bg)
    } else {
        (line.tail@.last().fg, line.tail@.last().bg)
    }
}

/// The instructions for one line, starting from colours `fg`/`bg`.
pub open spec fn line_instrs(line: Line, fg: Rgb, bg: Rgb) -> Seq<Instruction> {
    head_instrs(line.head, fg, bg) + tail_instrs(line.tail@, line.head.fg, line.head.bg)
}

/// The instructions for lines, the first starting from white on black and
/// each next one from the colours the previous one left.
pub open spec fn lines_instrs(lines: Seq<Line>) -> Seq<Instruction>
    decreases lines.len(),
{
    if lines.len() == 0 {
        seq![]
    } else {
        let before = lines.drop_last();
        let (fg, bg) = if before.len() == 0 { (white(), black()) } else { colors_after_line(before.last()) };
        lines_instrs(before) + line_instrs(lines.last(), fg, bg)
    }
}

/// Turns highlighted lines into drawing instructions.
pub struct Parser {
    pub lines: Vec<Line>,
    pub instructions: Vec<Instruction>,
    pub foreground: Rgb,
    pub background: Rgb,
}

impl Parser {
    /// A parser over `lines`, starting from white on black.
    pub fn new(lines: Vec<Line>) -> (p: Parser)
        ensures
            p.lines@ == lines@,
            p.instructions@.len() == 0,
            p.foreground == white(),
            p.background == black(),
    {
        Parser {
            lines,
            instructions: Vec::new(),
            foreground: Rgb { r: 255, g: 255, b: 255 },
            background: Rgb { r: 0, g: 0, b: 0 },
        }
    }

    fn set_colors(&mut self, span: &Span)
        ensures
            final(self).instructions@ == old(self).instructions@ + style_instrs(
                *span,
                old(self).foreground,
                old(self).background,
            ),
            final(self).foreground == span.fg,
            final(self).background == span.bg,
            final(self).lines == old(self).lines,
    {
        let ghost start = self.instructions@;
        if span.fg != self.foreground {
            self.instructions.push(Instruction::SetForeground(span.fg));
            self.foreground = span.fg;
        }
        let ghost mid = self.instructions@;
        if span.bg != self.background {
            self.instructions.push(Instruction::SetBackground(span.bg));
            self.background = span.bg;
        }
        proof {
            assert(self.instructions@ =~= start + style_instrs(*span, old(self).foreground, old(self).background));
        }
    }

    fn push_chars(&mut self, src: &[char], bold: bool)
        ensures
            final(self).instructions@ == old(self).instructions@ + char_instrs(src@, bold),
            final(self).foreground == old(self).foreground,
            final(self).background == old(self).background,
            final(self).lines == old(self).lines,
    {
        let ghost start = self.instructions@;
        let mut i: usize = 0;
        proof {
            assert(char_instrs(src@.take(0), bold) =~= seq![]);
            assert(self.instructions@ =~= start + char_instrs(src@.take(0), bold));
        }
        while i < src.len()
            invariant
                i <= src@.len(),
                self.instructions@ == start + char_instrs(src@.take(i as int), bold),
                self.foreground == old(self).foreground,
                self.background == old(self).background,
                self.lines == old(self).lines,
            decreases src@.len() - i,
        {
            let c = src[i];
            if c == '\n' {
                self.instructions.push(Instruction::Newline { x: 0 });
            } else {
                self.instructions.push(Instruction::Type(c, bold));
            }
            i = i + 1;
            proof {
                assert(src@.take(i as int)[i - 1] == c);
                assert(char_instrs(src@.take(i as int), bold) =~= char_instrs(src@.take(i - 1), bold).push(
                    char_instr(c, bold),
                ));
                assert(self.instructions@ =~= start + char_instrs(src@.take(i as int), bold));
            }
        }
        proof {
            assert(src@.take(i as int) =~= src@);
        }
    }

    fn push_line(&mut self, line: &Line)
        ensures
            final(self).instructions@ == old(self).instructions@ + line_instrs(
                *line,
                old(self).foreground,
                old(self).background,
            ),
            (final(self).foreground, final(self).background) == colors_after_line(*line),
            final(self).lines == old(self).lines,
    {
        let ghost start = self.instructions@;
        let ghost fg0 = self.foreground;
        let ghost bg0 = self.background;
        let (count, src, bold) = line.head.take_space();
        let mut line_start: i32 = 0;
        match count {
            Some(x) => {
                line_start = x;
            },
            None => {
                self.instructions.push(Instruction::SetX(0));
            },
        }
        let ghost after_x = self.instructions@;
        self.set_colors(&line.head);
        if line_start == 0 {
            let src_chars = chars_of(src.as_str());
            self.push_chars(src_chars.as_slice(), bold);
        } else {
            let mut spaces: Vec<char> = Vec::new();
            let mut k: i32 = 0;
            while k < line_start
                invariant
                    0 <= k <= line_start || (line_start <= 0 && k == 0),
                    spaces@ == Seq::new(k as nat, |i: int| ' '),
                decreases line_start - k,
            {
                spaces.push(' ');
                k = k + 1;
                proof {
                    assert(spaces@ =~= Seq::new(k as nat, |i: int| ' '));
                }
            }
            proof {
                assert(spaces@ =~= indent_chars(line_start));
            }
            self.push_chars(spaces.as_slice(), bold);
        }
        let ghost after_head = self.instructions@;
        proof {
            assert(after_head =~= start + head_instrs(line.head, fg0, bg0));
        }
        let mut j: usize = 0;
        while j < line.tail.len()
            invariant
                j <= line.tail@.len(),
                self.instructions@ == after_head + tail_instrs(line.tail@.take(j as int), line.head.fg, line.head.bg),
                j == 0 ==> self.foreground == line.head.fg && self.background == line.head.bg,
                j > 0 ==> self.foreground == line.tail@[j - 1].fg && self.background == line.tail@[j - 1].bg,
                self.lines == old(self).lines,
            decreases line.tail@.len() - j,
        {
            let span = &line.tail[j];
            let ghost before = self.instructions@;
            self.set_colors(span);
            let span_chars = chars_of(span.src.as_str());
            self.push_chars(span_chars.as_slice(), span.bold);
            j = j + 1;
            proof {
                let t = line.tail@.take(j as int);
                assert(t.drop_last() =~= line.tail@.take(j - 1));
                assert(t.last() == *span);
                assert(self.instructions@ =~= after_head + tail_instrs(t, line.head.fg, line.head.bg));
            }
        }
        proof {
            assert(line.tail@.take(j as int) =~= line.tail@);
            assert(self.instructions@ =~= start + line_instrs(*line, fg0, bg0));
        }
    }

    /// The drawing instructions for all lines.
    pub fn instructions(self) -> (instructions: Vec<Instruction>)
        requires
            self.instructions@.len() == 0,
            self.foreground == white(),
            self.background == black(),
        ensures
            instructions@ == lines_instrs(self.lines@),
    {
        let Parser { lines, instructions, foreground, background } = self;
        let mut parser = Parser { lines: Vec::new(), instructions, foreground, background };
        let n = lines.len();
        let mut i: usize = 0;
        proof {
            assert(lines@.take(0) =~= seq![]);
        }
        while i < n
            invariant
                i <= n,
                n == lines@.len(),
                parser.instructions@ == lines_instrs(lines@.take(i as int)),
                i == 0 ==> parser.foreground == white() && parser.background == black(),
                i > 0 ==> (parser.foreground, parser.background) == colors_after_line(lines@[i - 1]),
            decreases n - i,
        {
            parser.push_line(&lines[i]);
            i = i + 1;
            proof {
                let t = lines@.take(i as int);
                assert(t.drop_last() =~= lines@.take(i - 1));
                assert(t.last() == lines@[i - 1]);
                assert(parser.instructions@ =~= lines_instrs(t));
            }
        }
        proof {
            assert(lines@.take(n as int) =~= lines@);
        }
        parser.instructions
    }
}

/// A set of syntax definitions of syntect.
#[verifier::external_type_specification]
#[verifier::external_body]
pub struct ExSyntaxSet(syntect::parsing::SyntaxSet);

/// A highlighting theme of syntect.
#[verifier::external_type_specification]
#[verifier::external_body]
pub struct ExTheme(syntect::highlighting::Theme);

/// A line-by-line highlighter of syntect.
#[verifier::external_type_specification]
#[verifier::external_body]
pub struct ExHighlightLines<'a>(syntect::easy::HighlightLines<'a>);

/// Whether the syntaxes that ship with syntect (`SyntaxSet::
/// load_defaults_newlines`, always the same bundled set) have one for this
/// extension, as `SyntaxSet::find_syntax_by_extension` finds it.
pub uninterp spec fn spec_default_syntax_exists(extension: Seq<char>) -> bool;

/// A styled piece as plain values: its text, its foreground and background
/// (red, green, blue) and the bits of its font style.
pub type PieceView = (Seq<char>, (u8, u8, u8), (u8, u8, u8), u8);

/// What `HighlightLines::highlight_line` gives for the last of `lines`,
/// after the ones before it, with the shipped syntax for `extension` and
/// the theme read from the `.tmTheme` bytes `theme`: the styled pieces, or
/// nothing when the parser fails on the line.
pub uninterp spec fn spec_highlighted(
    extension: Seq<char>,
    theme: Seq<u8>,
    lines: Seq<Seq<char>>,
) -> Option<Seq<PieceView>>;

/// Whether `ThemeSet::load_from_reader` reads a theme from these bytes.
pub uninterp spec fn spec_theme_parses(bytes: Seq<u8>) -> bool;

/// The background colour (red, green, blue) that the theme read from these
/// bytes sets, if it sets one.
pub uninterp spec fn spec_theme_background(bytes: Seq<u8>) -> Option<(u8, u8, u8)>;

/// A syntect theme with the bytes of the `.tmTheme` file it was read from.
pub struct ParsedTheme {
    theme: Theme,
    bytes: Ghost<Seq<u8>>,
}

impl ParsedTheme {
    /// The bytes the theme was read from.
    pub closed spec fn source(&self) -> Seq<u8> {
        self.bytes@
    }
}

/// Reads a theme from the bytes of a `.tmTheme` file with
/// `ThemeSet::load_from_reader`; `None` when they hold no theme.
#[verifier::external_body]
pub fn parse_theme(bytes: &[u8]) -> (theme: Option<ParsedTheme>)
    ensures
        theme is Some <==> spec_theme_parses(bytes@),
        theme matches Some(t) ==> t.source() == bytes@,
{
    let theme = ThemeSet::load_from_reader(&mut std::io::Cursor::new(bytes)).ok()?;
    Some(ParsedTheme { theme, bytes: Ghost(bytes@) })
}

/// Reads the theme's background colour (`Theme::settings.background`).
#[verifier::external_body]
pub fn theme_background(theme: &ParsedTheme) -> (background: Option<Rgb>)
    ensures
        match background {
            Some(c) => spec_theme_background(theme.source()) == Some((c.r, c.g, c.b)),
            None => spec_theme_background(theme.source()) is None,
        },
{
    theme.theme.settings.background.map(|c| Rgb { r: c.r, g: c.g, b: c.b })
}

/// A syntect highlighter for the shipped syntax of an extension and a
/// theme, with the set it parses with, and the lines it was given so far.
pub struct Highlighter<'a> {
    set: SyntaxSet,
    lines: HighlightLines<'a>,
    extension: Ghost<Seq<char>>,
    theme: Ghost<Seq<u8>>,
    fed: Ghost<Seq<Seq<char>>>,
}

/// Loads syntect's shipped syntaxes (`SyntaxSet::load_defaults_newlines`),
/// finds the one for `extension` (`SyntaxSet::find_syntax_by_extension`) and
/// makes a highlighter for it and the theme (`HighlightLines::new`). `None`
/// exactly when no shipped syntax has the extension, which is named here.
#[verifier::external_body]
fn new_highlighter<'a>(extension: &str, theme: &'a ParsedTheme) -> (h: Option<Highlighter<'a>>)
    ensures
        h is Some <==> spec_default_syntax_exists(extension@),
        h matches Some(x) ==> x.extension@ == extension@,
        h matches Some(x) ==> x.theme@ == theme.source(),
        h matches Some(x) ==> x.fed@.len() == 0,
{
    let set = SyntaxSet::load_defaults_newlines();
    let lines = HighlightLines::new(set.find_syntax_by_extension(extension)?, &theme.theme);
    Some(Highlighter { set, lines, extension: Ghost(extension@), theme: Ghost(theme.bytes@), fed: Ghost(Seq::empty()) })
}

/// A styled piece of a line as syntect gives it: its text, its colours
/// and the bits of its font style.
pub struct StyledPiece {
    pub text: String,
    pub fg: Rgb,
    pub bg: Rgb,
    pub font_style: u8,
}

/// The bit of syntect's font style that stands for bold.
pub const BOLD_BIT: u8 = 1;

/// A styled piece as plain values.
pub open spec fn piece_view(p: StyledPiece) -> PieceView {
    (p.text@, (p.fg.r, p.fg.g, p.fg.b), (p.bg.r, p.bg.g, p.bg.b), p.font_style)
}

/// Whether `span` shows the piece `p`: its text and colours, bold when the
/// bold bit is set.
pub open spec fn span_shows(span: Span, p: PieceView) -> bool {
    &&& span.src@ == p.0
    &&& span.fg == Rgb { r: p.1.0, g: p.1.1, b: p.1.2 }
    &&& span.bg == Rgb { r: p.2.0, g: p.2.1, b: p.2.2 }
    &&& span.bold == (p.3 & BOLD_BIT == BOLD_BIT)
}

/// The texts of styled pieces.
pub open spec fn piece_texts(pieces: Seq<StyledPiece>) -> Seq<Seq<char>> {
    pieces.map_values(|p: StyledPiece| p.text@)
}

/// The span a styled piece is shown as: its text and colours, bold when
/// the bold bit of its font style is set.
pub open spec fn span_of(p: StyledPiece) -> Span {
    Span { src: p.text, fg: p.fg, bg: p.bg, bold: p.font_style & BOLD_BIT == BOLD_BIT }
}

/// The span a styled piece is shown as.
pub fn span_from_piece(p: StyledPiece) -> (span: Span)
    ensures
        span == span_of(p),
{
    let bold = p.font_style & BOLD_BIT == BOLD_BIT;
    Span { src: p.text, fg: p.fg, bg: p.bg, bold }
}

/// Calls `HighlightLines::highlight_line` with the highlighter's set and
/// hands back each styled piece as plain values: its text, its colours and
/// the bits of its font style. What it gives is named in
/// `spec_highlighted`, over the extension, the theme's bytes and the lines
/// given so far; `None` when the parser fails. syntect documents that the
/// pieces' texts put together make the line.
#[verifier::external_body]
fn highlight_line(h: &mut Highlighter, line: &str) -> (pieces: Option<Vec<StyledPiece>>)
    ensures
        final(h).extension == old(h).extension,
        final(h).theme == old(h).theme,
        final(h).fed@ == old(h).fed@.push(line@),
        match pieces {
            Some(v) => spec_highlighted(old(h).extension@, old(h).theme@, old(h).fed@.push(line@)) == Some(
                v@.map_values(|p: StyledPiece| piece_view(p)),
            ),
            None => spec_highlighted(old(h).extension@, old(h).theme@, old(h).fed@.push(line@)) is None,
        },
        pieces matches Some(v) ==> concat_all(piece_texts(v@)) == line@,
{
    match h.lines.highlight_line(line, &h.set) {
        Ok(pieces) => Some(pieces.into_iter().map(|(style, text)| StyledPiece {
            text: text.to_string(),
            fg: Rgb { r: style.foreground.r, g: style.foreground.g, b: style.foreground.b },
            bg: Rgb { r: style.background.r, g: style.background.g, b: style.background.b },
            font_style: style.font_style.bits(),
        }).collect()),
        Err(_) => None,
    }
}

/// The spans styled pieces are shown as, in order.
pub fn spans_from_pieces(pieces: Vec<StyledPiece>) -> (spans: Vec<Span>)
    ensures
        spans@ == pieces@.map_values(|p: StyledPiece| span_of(p)),
        span_texts(spans@) == piece_texts(pieces@),
{
    let ghost all = pieces@;
    let mut pieces = pieces;
    let mut spans: Vec<Span> = Vec::new();
    while pieces.len() > 0
        invariant
            spans@.len() + pieces@.len() == all.len(),
            pieces@ == all.skip(spans@.len() as int),
            spans@ == all.take(spans@.len() as int).map_values(|p: StyledPiece| span_of(p)),
        decreases pieces@.len(),
    {
        let ghost k = spans@.len() as int;
        let p = pieces.remove(0);
        proof {
            assert(all[k] == p);
        }
        spans.push(span_from_piece(p));
        proof {
            assert(pieces@ =~= all.skip(k + 1));
            assert(spans@ =~= all.take(k + 1).map_values(|q: StyledPiece| span_of(q)));
        }
    }
    proof {
        assert(all.take(all.len() as int) =~= all);
        assert(span_texts(spans@) =~= piece_texts(all));
    }
    spans
}

/// The lines of `s` with their newlines kept, when `cur` holds what was
/// read of the current line; a last line without newline counts when it is
/// not empty.
pub open spec fn lines_with_endings_from(s: Seq<char>, cur: Seq<char>) -> Seq<Seq<char>>
    decreases s.len(),
{
    if s.len() == 0 {
        if cur.len() == 0 {
            seq![]
        } else {
            seq![cur]
        }
    } else if s[0] == '\n' {
        seq![cur.push('\n')] + lines_with_endings_from(s.drop_first(), seq![])
    } else {
        lines_with_endings_from(s.drop_first(), cur.push(s[0]))
    }
}

/// The lines of `s` with their newlines, as syntect's `LinesWithEndings`
/// yields them.
pub open spec fn spec_lines_with_endings(s: Seq<char>) -> Seq<Seq<char>> {
    lines_with_endings_from(s, seq![])
}

/// Splits `s` into lines that keep their newline.
pub fn lines_with_endings(s: &[char]) -> (out: Vec<Vec<char>>)
    ensures
        out@.len() == spec_lines_with_endings(s@).len(),
        forall|i: int| 0 <= i < out@.len() ==> #[trigger] out@[i]@ == spec_lines_with_endings(s@)[i],
{
    let mut out: Vec<Vec<char>> = Vec::new();
    let mut cur: Vec<char> = Vec::new();
    let mut i: usize = 0;
    let ghost views: Seq<Seq<char>> = seq![];
    proof {
        assert(s@.skip(0) =~= s@);
        assert(views + lines_with_endings_from(s@, cur@) =~= spec_lines_with_endings(s@));
    }
    while i < s.len()
        invariant
            i <= s@.len(),
            views.len() == out@.len(),
            forall|k: int| 0 <= k < out@.len() ==> #[trigger] out@[k]@ == views[k],
            views + lines_with_endings_from(s@.skip(i as int), cur@) == spec_lines_with_endings(s@),
        decreases s@.len() - i,
    {
        let c = s[i];
        proof {
            assert(s@.skip(i as int).drop_first() =~= s@.skip(i + 1));
            assert(s@.skip(i as int)[0] == c);
        }
        cur.push(c);
        if c == '\n' {
            let ghost line = cur@;
            out.push(cur);
            cur = Vec::new();
            proof {
                assert(views.push(line) + lines_with_endings_from(s@.skip(i + 1), seq![]) =~= views + (seq![line]
                    + lines_with_endings_from(s@.skip(i + 1), seq![])));
                views = views.push(line);
            }
        }
        i = i + 1;
    }
    proof {
        assert(s@.skip(i as int).len() == 0);
    }
    if cur.len() > 0 {
        let ghost line = cur@;
        out.push(cur);
        proof {
            views = views.push(line);
        }
    }
    proof {
        assert(views =~= spec_lines_with_endings(s@));
    }
    out
}

/// A highlighted line from its styled pieces: the first piece is the
/// line's head; a line without pieces has none.
pub fn split_spans(spans: Vec<Span>) -> (line: Option<Line>)
    ensures
        spans@.len() == 0 ==> line is None,
        spans@.len() > 0 ==> (line matches Some(l) && l.head == spans@[0] && l.tail@ == spans@.drop_first()),
{
    if spans.len() == 0 {
        return None;
    }
    let mut spans = spans;
    let ghost all = spans@;
    let head = spans.remove(0);
    proof {
        assert(spans@ =~= all.drop_first());
    }
    Some(Line { head, tail: spans })
}

/// The texts of styled pieces.
pub open spec fn span_texts(spans: Seq<Span>) -> Seq<Seq<char>> {
    spans.map_values(|span: Span| span.src@)
}

/// The text of a highlighted line: its pieces' texts put together.
pub open spec fn line_text(line: Line) -> Seq<char> {
    concat_all(span_texts(seq![line.head] + line.tail@))
}

/// The spans of a highlighted line, in order.
pub open spec fn line_spans(line: Line) -> Seq<Span> {
    seq![line.head] + line.tail@
}

/// Whether the spans show the pieces, one span per piece, in order.
pub open spec fn spans_show(spans: Seq<Span>, pieces: Seq<PieceView>) -> bool {
    &&& spans.len() == pieces.len()
    &&& forall|k: int| 0 <= k < spans.len() ==> span_shows(#[trigger] spans[k], pieces[k])
}

/// Whether highlighting `src` as a file with extension `ext` and the theme
/// read from `theme` succeeds: a shipped syntax has the extension, and the
/// highlighter fails on none of the lines.
pub open spec fn highlight_succeeds(src: Seq<char>, ext: Seq<char>, theme: Seq<u8>) -> bool {
    let extension = spec_syntax_extension(ext);
    let lines = spec_lines_with_endings(src);
    &&& spec_default_syntax_exists(extension)
    &&& forall|i: int| 0 <= i < lines.len() ==> (#[trigger] spec_highlighted(extension, theme, lines.take(i + 1))) is Some
}

/// Highlights `src` as a file with extension `ext` (a content-type
/// parameter list after `;` is ignored) and a theme: one line per line of
/// `src` with its newline, each with the text of that line and one span per
/// piece that syntect gives for it, with the piece's colours and boldness.
/// `None` exactly when no shipped syntax has the extension or the parser
/// fails on a line.
pub fn highlight(src: &str, ext: &str, theme: &ParsedTheme) -> (lines: Option<Vec<Line>>)
    ensures
        lines is Some <==> highlight_succeeds(src@, ext@, theme.source()),
        lines matches Some(ls) ==> {
            &&& ls@.len() == spec_lines_with_endings(src@).len()
            &&& forall|i: int| 0 <= i < ls@.len() ==> #[trigger] line_text(ls@[i]) == spec_lines_with_endings(src@)[i]
            &&& forall|i: int|
                0 <= i < ls@.len() ==> spans_show(
                    line_spans(#[trigger] ls@[i]),
                    spec_highlighted(
                        spec_syntax_extension(ext@),
                        theme.source(),
                        spec_lines_with_endings(src@).take(i + 1),
                    )->Some_0,
                )
        },
{
    let extension = syntax_extension(ext);
    let ghost e = extension@;
    let ghost t = theme.source();
    let mut h = match new_highlighter(extension.as_str(), theme) {
        Some(h) => h,
        None => {
            return None;
        },
    };
    let src_chars = chars_of(src);
    let source_lines = lines_with_endings(src_chars.as_slice());
    let ghost all = spec_lines_with_endings(src@);
    proof {
        lemma_lines_with_endings_nonempty(src@);
        assert(all.take(0) =~= h.fed@);
    }
    let mut output: Vec<Line> = Vec::new();
    let mut i: usize = 0;
    while i < source_lines.len()
        invariant
            i <= source_lines@.len(),
            source_lines@.len() == all.len(),
            all == spec_lines_with_endings(src@),
            e == spec_syntax_extension(ext@),
            t == theme.source(),
            spec_default_syntax_exists(e),
            src_chars@ == src@,
            output@.len() == i,
            h.extension@ == e,
            h.theme@ == t,
            h.fed@ == all.take(i as int),
            forall|k: int| 0 <= k < all.len() ==> (#[trigger] all[k]).len() > 0,
            forall|k: int| 0 <= k < source_lines@.len() ==> #[trigger] source_lines@[k]@ == all[k],
            forall|k: int| 0 <= k < i ==> #[trigger] line_text(output@[k]) == all[k],
            forall|k: int| 0 <= k < i ==> (#[trigger] spec_highlighted(e, t, all.take(k + 1))) is Some,
            forall|k: int|
                0 <= k < i ==> spans_show(
                    line_spans(#[trigger] output@[k]),
                    spec_highlighted(e, t, all.take(k + 1))->Some_0,
                ),
        decreases source_lines@.len() - i,
    {
        let text = string_from_chars(source_lines[i].as_slice());
        proof {
            assert(all.take(i as int).push(text@) =~= all.take(i + 1));
        }
        let styled = match highlight_line(&mut h, text.as_str()) {
            Some(p) => p,
            None => {
                return None;
            },
        };
        let ghost views = styled@.map_values(|q: StyledPiece| piece_view(q));
        let spans = spans_from_pieces(styled);
        let ghost pieces = spans@;
        proof {
            assert(spec_highlighted(e, t, all.take(i + 1)) == Some(views));
            assert(spans_show(pieces, views)) by {
                assert forall|k: int| 0 <= k < pieces.len() implies span_shows(#[trigger] pieces[k], views[k]) by {}
            }
            if pieces.len() == 0 {
                assert(span_texts(pieces) =~= Seq::<Seq<char>>::empty());
                assert(concat_all(Seq::<Seq<char>>::empty()) == Seq::<char>::empty());
                assert(all[i as int].len() > 0);
            }
        }
        match split_spans(spans) {
            Some(line) => {
                proof {
                    assert(seq![line.head] + line.tail@ =~= pieces);
                }
                output.push(line);
                proof {
                    assert(output@[i as int] == line);
                }
            },
            None => {
                return None;
            },
        }
        i = i + 1;
    }
    proof {
        assert forall|k: int| 0 <= k < all.len() implies (#[trigger] spec_highlighted(e, t, all.take(k + 1))) is Some by {}
    }
    Some(output)
}

/// The constant of the theme to highlight with: the named theme, or else
/// the saved syntax theme (the default when none was saved), falling back
/// when no shipped theme has that constant.
pub open spec fn spec_highlight_theme(name: Option<Seq<char>>, saved: Option<Options>) -> Seq<char> {
    let theme_name = match name {
        Some(n) => n,
        None => effective_options(saved).0,
    };
    spec_theme_to_load(spec_constant_from_upper(spec_to_uppercase(theme_name)))
}

/// The constant of the theme to highlight with.
pub fn get_highlight_theme(name: Option<String>, saved: Option<Options>) -> (constant: &'static str)
    ensures
        constant@ == spec_highlight_theme(
            match name {
                Some(n) => Some(n@),
                None => None,
            },
            saved,
        ),
        ({
            let theme_name = match name {
                Some(n) => n@,
                None => effective_options(saved).0,
            };
            is_ascii_text(theme_name) ==> constant@ == spec_theme_to_load(
                spec_constant_from_upper(ascii_upper(theme_name)),
            )
        }),
{
    let theme_name = match name {
        Some(n) => n,
        None => get_syntax_theme(saved),
    };
    let constant = get_constant_from_name(theme_name.as_str());
    theme_to_load(constant.as_str())
}

/// The concatenation of pieces of text.
pub open spec fn concat_all(pieces: Seq<Seq<char>>) -> Seq<char>
    decreases pieces.len(),
{
    if pieces.len() == 0 {
        seq![]
    } else {
        pieces[0] + concat_all(pieces.drop_first())
    }
}

proof fn lemma_lines_with_endings_from_concat(s: Seq<char>, cur: Seq<char>)
    ensures
        concat_all(lines_with_endings_from(s, cur)) == cur + s,
    decreases s.len(),
{
    if s.len() == 0 {
        if cur.len() == 0 {
            assert(cur + s =~= seq![]);
            assert(concat_all(seq![]) == Seq::<char>::empty());
        } else {
            assert(seq![cur].drop_first() =~= seq![]);
            assert(concat_all(seq![]) == Seq::<char>::empty());
            assert(concat_all(seq![cur]) == cur + concat_all(seq![cur].drop_first()));
            assert(concat_all(seq![cur]) =~= cur);
            assert(cur + s =~= cur);
        }
    } else if s[0] == '\n' {
        lemma_lines_with_endings_from_concat(s.drop_first(), seq![]);
        let rest = lines_with_endings_from(s.drop_first(), seq![]);
        let all = seq![cur.push('\n')] + rest;
        assert(all[0] == cur.push('\n'));
        assert(all.drop_first() =~= rest);
        assert(seq![] + s.drop_first() =~= s.drop_first());
        assert(cur.push('\n') + s.drop_first() =~= cur + s);
        assert(concat_all(all) == all[0] + concat_all(all.drop_first()));
    } else {
        lemma_lines_with_endings_from_concat(s.drop_first(), cur.push(s[0]));
        assert(cur.push(s[0]) + s.drop_first() =~= cur + s);
    }
}

proof fn lemma_lines_with_endings_from_nonempty(s: Seq<char>, cur: Seq<char>)
    ensures
        forall|k: int| 0 <= k < lines_with_endings_from(s, cur).len() ==> (#[trigger] lines_with_endings_from(
            s,
            cur,
        )[k]).len() > 0,
    decreases s.len(),
{
    if s.len() == 0 {
        if cur.len() > 0 {
            assert(lines_with_endings_from(s, cur) == seq![cur]);
            assert(seq![cur][0] == cur);
        }
    } else if s[0] == '\n' {
        lemma_lines_with_endings_from_nonempty(s.drop_first(), seq![]);
        let rest = lines_with_endings_from(s.drop_first(), seq![]);
        let all = seq![cur.push('\n')] + rest;
        assert(lines_with_endings_from(s, cur) == all);
        assert forall|k: int| 0 <= k < all.len() implies (#[trigger] all[k]).len() > 0 by {
            if k == 0 {
                assert(all[0] == cur.push('\n'));
            } else {
                assert(all[k] == rest[k - 1]);
            }
        }
    } else {
        lemma_lines_with_endings_from_nonempty(s.drop_first(), cur.push(s[0]));
        assert(lines_with_endings_from(s, cur) == lines_with_endings_from(s.drop_first(), cur.push(s[0])));
    }
}

/// No line of a text, with its ending, is empty.
proof fn lemma_lines_with_endings_nonempty(s: Seq<char>)
    ensures
        forall|k: int| 0 <= k < spec_lines_with_endings(s).len() ==> (#[trigger] spec_lines_with_endings(s)[k]).len() > 0,
{
    lemma_lines_with_endings_from_nonempty(s, seq![]);
}

/// Splitting a text into lines with their endings loses nothing: the lines
/// put back together are the text.
pub proof fn lemma_lines_with_endings_concat(s: Seq<char>)
    ensures
        concat_all(spec_lines_with_endings(s)) == s,
{
    lemma_lines_with_endings_from_concat(s, seq![]);
    assert(seq![] + s =~= s);
}

/// Highlighting shows the text as it is: when every highlighted line has
/// the text of its source line, as `highlight` promises, the lines' texts
/// put together are the whole source.
pub proof fn lemma_highlight_keeps_text(src: Seq<char>, lines: Seq<Line>)
    requires
        lines.len() == spec_lines_with_endings(src).len(),
        forall|i: int| 0 <= i < lines.len() ==> #[trigger] line_text(lines[i]) == spec_lines_with_endings(src)[i],
    ensures
        concat_all(lines.map_values(|l: Line| line_text(l))) == src,
{
    lemma_lines_with_endings_concat(src);
    assert(lines.map_values(|l: Line| line_text(l)) =~= spec_lines_with_endings(src));
}

/// Removing each of `chars` keeps only characters of the text that are not
/// among them, and does not lengthen it.
proof fn lemma_remove_each(s: Seq<char>, chars: Seq<char>)
    ensures
        remove_each(s, chars).len() <= s.len(),
        forall|k: int| 0 <= k < remove_each(s, chars).len() ==> s.contains(#[trigger] remove_each(s, chars)[k])
            && !chars.contains(remove_each(s, chars)[k]),
    decreases chars.len(),
{
    if chars.len() > 0 {
        let c = chars[0];
        let t = spec_replace(s, seq![c], seq![]);
        lemma_replace_chars(s, seq![c], seq![]);
        lemma_remove_each(t, chars.drop_first());
        let r = remove_each(s, chars);
        assert(r == remove_each(t, chars.drop_first()));
        assert forall|k: int| 0 <= k < r.len() implies s.contains(#[trigger] r[k]) && !chars.contains(r[k]) by {
            let j = choose|j: int| 0 <= j < t.len() && t[j] == r[k];
            assert(t[j] == r[k]);
            assert(!seq![c].contains(t[j]));
            assert(t[j] != c);
            if chars.contains(r[k]) {
                let m = choose|m: int| 0 <= m < chars.len() && chars[m] == r[k];
                if m > 0 {
                    assert(chars.drop_first()[m - 1] == r[k]);
                }
            }
        }
    }
}

/// An ASCII theme name gives a constant with no lower-case letter, no space
/// and none of the removed characters, no whitespace at either end, and no
/// longer than the name.
pub proof fn lemma_ascii_constant_shape(name: Seq<char>)
    requires
        is_ascii_text(name),
    ensures
        forall|k: int| 0 <= k < spec_constant_from_upper(ascii_upper(name)).len() ==> {
            let c = #[trigger] spec_constant_from_upper(ascii_upper(name))[k];
            !is_ascii_lower(c) && c != ' ' && !removed_from_name().contains(c)
        },
        spec_trim(spec_constant_from_upper(ascii_upper(name))) == spec_constant_from_upper(ascii_upper(name)),
        spec_constant_from_upper(ascii_upper(name)).len() <= name.len(),
{
    let u = ascii_upper(name);
    assert forall|k: int| 0 <= k < u.len() implies !is_ascii_lower(#[trigger] u[k]) by {
        assert(u[k] == ascii_upper_char(name[k]));
    }
    let rm = remove_each(u, removed_from_name());
    lemma_remove_each(u, removed_from_name());
    assert forall|k: int| 0 <= k < rm.len() implies !is_ascii_lower(#[trigger] rm[k]) && !removed_from_name().contains(rm[k]) by {
        let j = choose|j: int| 0 <= j < u.len() && u[j] == rm[k];
        assert(!is_ascii_lower(u[j]));
    }
    let ij = lemma_trim(rm);
    let t = spec_trim(rm);
    assert forall|k: int| 0 <= k < t.len() implies !is_ascii_lower(#[trigger] t[k]) && !removed_from_name().contains(t[k]) by {
        assert(t[k] == rm[ij.0 + k]);
    }
    assert(spec_is_whitespace(' '));
    let m = spec_replace(t, seq![' '], seq!['_']);
    lemma_replace_one_char(t, ' ', '_');
    assert forall|k: int| 0 <= k < m.len() implies !is_ascii_lower(#[trigger] m[k]) && m[k] != ' ' && !removed_from_name().contains(m[k]) by {
        if t[k] == ' ' {
            assert(m[k] == '_');
            if removed_from_name().contains('_') {
                let q = choose|q: int| 0 <= q < 7 && removed_from_name()[q] == '_';
            }
        } else {
            assert(m[k] == t[k]);
        }
    }
    let r = spec_replace(m, seq!['_', '_'], seq!['_']);
    assert(r == spec_constant_from_upper(u));
    lemma_replace_chars(m, seq!['_', '_'], seq!['_']);
    assert forall|k: int| 0 <= k < r.len() implies {
        let c = #[trigger] r[k];
        !is_ascii_lower(c) && c != ' ' && !removed_from_name().contains(c)
    } by {
        if seq!['_'].contains(r[k]) {
            assert(seq!['_'][0] == '_');
            let q = choose|q: int| 0 <= q < 1 && seq!['_'][q] == r[k];
            assert(r[k] == '_');
            if removed_from_name().contains('_') {
                let q2 = choose|q2: int| 0 <= q2 < 7 && removed_from_name()[q2] == '_';
            }
        } else {
            let j = choose|j: int| 0 <= j < m.len() && m[j] == r[k];
            assert(!is_ascii_lower(m[j]));
        }
    }
    if r.len() > 0 {
        if m.len() == 0 {
            assert(r == m);
        }
        lemma_collapse_keeps_ends(m);
        assert(t.len() == m.len());
        assert(t[0] == rm[ij.0]);
        assert(t[t.len() - 1] == rm[ij.1 - 1]);
        assert(m[0] == t[0]);
        assert(m[m.len() - 1] == t[t.len() - 1]);
        assert(!spec_is_whitespace(r[0]));
        assert(!spec_is_whitespace(r.last()));
        assert(spec_trim_start(r) == r);
        assert(spec_trim_end(r) == r);
    } else {
        assert(spec_trim_start(r) == r);
        assert(spec_trim_end(r) == r);
    }
}

/// The colours in force after carrying out `instrs` from colours `fg`/`bg`.
pub open spec fn colors_after(instrs: Seq<Instruction>, fg: Rgb, bg: Rgb) -> (Rgb, Rgb)
    decreases instrs.len(),
{
    if instrs.len() == 0 {
        (fg, bg)
    } else {
        let (f, b) = colors_after(instrs.drop_last(), fg, bg);
        match instrs.last() {
            Instruction::SetForeground(c) => (c, b),
            Instruction::SetBackground(c) => (f, c),
            _ => (f, b),
        }
    }
}

/// The characters that carrying out `instrs` from colours `fg`/`bg` draws
/// (the typed ones and the line breaks), each with the foreground and
/// background in force when it is drawn.
pub open spec fn drawn(instrs: Seq<Instruction>, fg: Rgb, bg: Rgb) -> Seq<(char, Rgb, Rgb)>
    decreases instrs.len(),
{
    if instrs.len() == 0 {
        seq![]
    } else {
        let (f, b) = colors_after(instrs.drop_last(), fg, bg);
        drawn(instrs.drop_last(), fg, bg) + match instrs.last() {
            Instruction::Type(c, _) => seq![(c, f, b)],
            Instruction::Newline { .. } => seq![('\n', f, b)],
            _ => seq![],
        }
    }
}

/// The characters of `src`, each in colours `fg`/`bg`.
pub open spec fn paint(src: Seq<char>, fg: Rgb, bg: Rgb) -> Seq<(char, Rgb, Rgb)> {
    Seq::new(src.len(), |i: int| (src[i], fg, bg))
}

/// The characters of the spans, one span after the other, each in its
/// span's colours.
pub open spec fn paint_spans(spans: Seq<Span>) -> Seq<(char, Rgb, Rgb)>
    decreases spans.len(),
{
    if spans.len() == 0 {
        seq![]
    } else {
        paint_spans(spans.drop_last()) + paint(spans.last().src@, spans.last().fg, spans.last().bg)
    }
}

/// What a line shows: its first span (or its indentation) and then its
/// other spans, each in its span's colours.
pub open spec fn paint_line(line: Line) -> Seq<(char, Rgb, Rgb)> {
    paint(head_text(line.head), line.head.fg, line.head.bg) + paint_spans(line.tail@)
}

/// What the lines show, one after the other.
pub open spec fn paint_lines(lines: Seq<Line>) -> Seq<(char, Rgb, Rgb)>
    decreases lines.len(),
{
    if lines.len() == 0 {
        seq![]
    } else {
        paint_lines(lines.drop_last()) + paint_line(lines.last())
    }
}

/// Carrying out two runs of instructions one after the other.
proof fn lemma_run_concat(a: Seq<Instruction>, b: Seq<Instruction>, fg: Rgb, bg: Rgb)
    ensures
        colors_after(a + b, fg, bg) == colors_after(b, colors_after(a, fg, bg).0, colors_after(a, fg, bg).1),
        drawn(a + b, fg, bg) == drawn(a, fg, bg) + drawn(b, colors_after(a, fg, bg).0, colors_after(a, fg, bg).1),
    decreases b.len(),
{
    if b.len() == 0 {
        assert(a + b =~= a);
        assert(drawn(a, fg, bg) + drawn(b, colors_after(a, fg, bg).0, colors_after(a, fg, bg).1) =~= drawn(a, fg, bg));
    } else {
        let ca = colors_after(a, fg, bg);
        lemma_run_concat(a, b.drop_last(), fg, bg);
        assert((a + b).drop_last() =~= a + b.drop_last());
        assert((a + b).last() == b.last());
        let x = match b.last() {
            Instruction::Type(c, _) => seq![(c, colors_after(b.drop_last(), ca.0, ca.1).0, colors_after(b.drop_last(), ca.0, ca.1).1)],
            Instruction::Newline { .. } => seq![('\n', colors_after(b.drop_last(), ca.0, ca.1).0, colors_after(b.drop_last(), ca.0, ca.1).1)],
            _ => seq![],
        };
        assert(drawn(b, ca.0, ca.1) == drawn(b.drop_last(), ca.0, ca.1) + x);
        assert(drawn(a + b, fg, bg) == drawn(a + b.drop_last(), fg, bg) + x);
        assert(drawn(a, fg, bg) + drawn(b.drop_last(), ca.0, ca.1) + x =~= drawn(a, fg, bg) + (drawn(b.drop_last(), ca.0, ca.1) + x));
    }
}

/// Typing a text draws its characters in the colours in force and leaves
/// them as they are.
proof fn lemma_char_instrs_run(src: Seq<char>, bold: bool, fg: Rgb, bg: Rgb)
    ensures
        colors_after(char_instrs(src, bold), fg, bg) == (fg, bg),
        drawn(char_instrs(src, bold), fg, bg) == paint(src, fg, bg),
    decreases src.len(),
{
    let s = char_instrs(src, bold);
    if src.len() > 0 {
        lemma_char_instrs_run(src.drop_last(), bold, fg, bg);
        assert(s.drop_last() =~= char_instrs(src.drop_last(), bold));
        assert(s.last() == char_instr(src.last(), bold));
        assert(paint(src, fg, bg) =~= paint(src.drop_last(), fg, bg) + seq![(src.last(), fg, bg)]);
        if src.last() == '\n' {
            assert(drawn(s, fg, bg) =~= paint(src.drop_last(), fg, bg) + seq![('\n', fg, bg)]);
        } else {
            assert(drawn(s, fg, bg) =~= paint(src.drop_last(), fg, bg) + seq![(src.last(), fg, bg)]);
        }
    } else {
        assert(paint(src, fg, bg) =~= seq![]);
    }
}

/// Instructions that neither type nor break a line draw nothing.
proof fn lemma_no_drawing(s: Seq<Instruction>, fg: Rgb, bg: Rgb)
    requires
        forall|i: int| 0 <= i < s.len() ==> !(#[trigger] s[i] is Type) && !(s[i] is Newline),
    ensures
        drawn(s, fg, bg) == Seq::<(char, Rgb, Rgb)>::empty(),
    decreases s.len(),
{
    if s.len() > 0 {
        let d = s.drop_last();
        assert forall|i: int| 0 <= i < d.len() implies !(#[trigger] d[i] is Type) && !(d[i] is Newline) by {
            assert(d[i] == s[i]);
        }
        lemma_no_drawing(d, fg, bg);
        assert(!(s[s.len() - 1] is Type) && !(s[s.len() - 1] is Newline));
        assert(drawn(s, fg, bg) =~= Seq::<(char, Rgb, Rgb)>::empty());
    }
}

/// Switching to a span's colours draws nothing and leaves its colours in
/// force.
proof fn lemma_style_instrs_run(span: Span, fg: Rgb, bg: Rgb)
    ensures
        colors_after(style_instrs(span, fg, bg), fg, bg) == (span.fg, span.bg),
        drawn(style_instrs(span, fg, bg), fg, bg) == Seq::<(char, Rgb, Rgb)>::empty(),
{
    let s = style_instrs(span, fg, bg);
    if span.fg != fg && span.bg != bg {
        assert(s =~= seq![Instruction::SetForeground(span.fg), Instruction::SetBackground(span.bg)]);
        assert(s.drop_last() =~= seq![Instruction::SetForeground(span.fg)]);
        assert(s.drop_last().drop_last() =~= Seq::<Instruction>::empty());
        assert(colors_after(s.drop_last().drop_last(), fg, bg) == (fg, bg));
        assert(colors_after(s.drop_last(), fg, bg) == (span.fg, bg));
    } else if span.fg != fg {
        assert(s =~= seq![Instruction::SetForeground(span.fg)]);
        assert(s.drop_last() =~= Seq::<Instruction>::empty());
        assert(colors_after(s.drop_last(), fg, bg) == (fg, bg));
    } else if span.bg != bg {
        assert(s =~= seq![Instruction::SetBackground(span.bg)]);
        assert(s.drop_last() =~= Seq::<Instruction>::empty());
        assert(colors_after(s.drop_last(), fg, bg) == (fg, bg));
    } else {
        assert(s =~= Seq::<Instruction>::empty());
    }
    lemma_no_drawing(s, fg, bg);
}

/// Carrying out the instructions of a line's spans after its first, from
/// the first span's colours, draws every character of every span in its
/// own span's colours, and leaves the last span's colours in force.
pub proof fn lemma_tail_spans_drawn_in_own_colors(spans: Seq<Span>, fg: Rgb, bg: Rgb)
    ensures
        drawn(tail_instrs(spans, fg, bg), fg, bg) == paint_spans(spans),
        colors_after(tail_instrs(spans, fg, bg), fg, bg) == if spans.len() == 0 {
            (fg, bg)
        } else {
            (spans.last().fg, spans.last().bg)
        },
    decreases spans.len(),
{
    if spans.len() > 0 {
        let before = spans.drop_last();
        let last = spans.last();
        lemma_tail_spans_drawn_in_own_colors(before, fg, bg);
        let t = tail_instrs(before, fg, bg);
        let prev = if before.len() == 0 { (fg, bg) } else { (before.last().fg, before.last().bg) };
        let (pfg, pbg) = prev;
        let st = style_instrs(last, pfg, pbg);
        let ci = char_instrs(last.src@, last.bold);
        lemma_run_concat(t, st, fg, bg);
        lemma_style_instrs_run(last, pfg, pbg);
        lemma_run_concat(t + st, ci, fg, bg);
        lemma_char_instrs_run(last.src@, last.bold, last.fg, last.bg);
        assert(paint_spans(before) + Seq::<(char, Rgb, Rgb)>::empty() =~= paint_spans(before));
    } else {
        assert(tail_instrs(spans, fg, bg) =~= Seq::<Instruction>::empty());
    }
}

/// Carrying out the instructions of a line, from any colours, draws its
/// first span (or its indentation) in that span's colours and each other
/// span in its own colours, and leaves the line's last colours in force.
pub proof fn lemma_line_drawn_in_own_colors(line: Line, fg: Rgb, bg: Rgb)
    ensures
        drawn(line_instrs(line, fg, bg), fg, bg) == paint_line(line),
        colors_after(line_instrs(line, fg, bg), fg, bg) == colors_after_line(line),
{
    let head = line.head;
    let n = leading_spaces(head.src@);
    let set_x: Seq<Instruction> = if n == 0 { seq![Instruction::SetX(0)] } else { seq![] };
    let st = style_instrs(head, fg, bg);
    let ci = char_instrs(head_text(head), head.bold);
    let tail = tail_instrs(line.tail@, head.fg, head.bg);
    assert(colors_after(set_x, fg, bg) == (fg, bg) && drawn(set_x, fg, bg) =~= Seq::<(char, Rgb, Rgb)>::empty()) by {
        if n == 0 {
            assert(set_x.drop_last() =~= Seq::<Instruction>::empty());
            assert(colors_after(set_x.drop_last(), fg, bg) == (fg, bg));
        } else {
            assert(set_x =~= Seq::<Instruction>::empty());
        }
        lemma_no_drawing(set_x, fg, bg);
    }
    lemma_run_concat(set_x, st, fg, bg);
    lemma_style_instrs_run(head, fg, bg);
    lemma_run_concat(set_x + st, ci, fg, bg);
    lemma_char_instrs_run(head_text(head), head.bold, head.fg, head.bg);
    lemma_run_concat(set_x + st + ci, tail, fg, bg);
    lemma_tail_spans_drawn_in_own_colors(line.tail@, head.fg, head.bg);
    assert(line_instrs(line, fg, bg) == set_x + st + ci + tail);
    assert(Seq::<(char, Rgb, Rgb)>::empty() + Seq::<(char, Rgb, Rgb)>::empty() + paint(head_text(head), head.fg, head.bg)
        =~= paint(head_text(head), head.fg, head.bg));
}

/// Carrying out the drawing instructions of highlighted lines, from white
/// on black, draws every line in order, each span's characters in that
/// span's own colours.
pub proof fn lemma_instructions_draw_spans_in_own_colors(lines: Seq<Line>)
    ensures
        drawn(lines_instrs(lines), white(), black()) == paint_lines(lines),
        lines.len() > 0 ==> colors_after(lines_instrs(lines), white(), black()) == colors_after_line(lines.last()),
    decreases lines.len(),
{
    if lines.len() > 0 {
        let before = lines.drop_last();
        lemma_instructions_draw_spans_in_own_colors(before);
        let (fg, bg) = if before.len() == 0 { (white(), black()) } else { colors_after_line(before.last()) };
        lemma_run_concat(lines_instrs(before), line_instrs(lines.last(), fg, bg), white(), black());
        lemma_line_drawn_in_own_colors(lines.last(), fg, bg);
        if before.len() == 0 {
            assert(lines_instrs(before) =~= Seq::<Instruction>::empty());
        }
    }
}

} // verus!
