//! Character-sequence utilities shared by the editors, the code generator and
//! the renderer: conversion between `String` and `Vec<char>`, substring
//! replacement, trimming and line splitting.

use vstd::prelude::*;

verus! {

/// `String::push` appends one character to the end of the string.
pub assume_specification[ String::push ](s: &mut String, ch: char)
    ensures
        final(s)@ == old(s)@.push(ch),
;

/// The string holding exactly the given characters.
pub fn string_from_chars(chars: &[char]) -> (s: String)
    ensures
        s@ == chars@,
{
    let mut s = String::new();
    let mut i: usize = 0;
    while i < chars.len()
        invariant
            i <= chars@.len(),
            s@ == chars@.take(i as int),
        decreases chars@.len() - i,
    {
        s.push(chars[i]);
        i = i + 1;
        proof {
            assert(chars@.take(i as int) =~= chars@.take(i - 1).push(chars@[i - 1]));
        }
    }
    proof {
        assert(chars@.take(chars@.len() as int) =~= chars@);
    }
    s
}

/// The characters of a string slice, in order.
pub fn chars_of(s: &str) -> (chars: Vec<char>)
    ensures
        chars@ == s@,
{
    let n = s.unicode_len();
    let mut chars: Vec<char> = Vec::new();
    let mut i: usize = 0;
    while i < n
        invariant
            n == s@.len(),
            i <= n,
            chars@ == s@.take(i as int),
        decreases n - i,
    {
        chars.push(s.get_char(i));
        i = i + 1;
        proof {
            assert(chars@ =~= s@.take(i as int));
        }
    }
    proof {
        assert(s@.take(n as int) =~= s@);
    }
    chars
}

/// The first `n` characters of `chars`, or all of them when there are fewer.
pub open spec fn take_at_most(chars: Seq<char>, n: int) -> Seq<char> {
    if n <= chars.len() {
        chars.take(n)
    } else {
        chars
    }
}

/// The first `n` characters of `chars` (all of them when there are fewer).
pub fn take_chars(chars: &[char], n: usize) -> (prefix: Vec<char>)
    ensures
        prefix@ == take_at_most(chars@, n as int),
{
    let end: usize = if n < chars.len() { n } else { chars.len() };
    let mut prefix: Vec<char> = Vec::new();
    let mut i: usize = 0;
    while i < end
        invariant
            end <= chars@.len(),
            end == take_at_most(chars@, n as int).len(),
            i <= end,
            prefix@ == chars@.take(i as int),
        decreases end - i,
    {
        prefix.push(chars[i]);
        i = i + 1;
        proof {
            assert(prefix@ =~= chars@.take(i as int));
        }
    }
    proof {
        assert(prefix@ =~= take_at_most(chars@, n as int));
    }
    prefix
}

/// Whether `pat` occurs in `s` starting at position `i`.
pub open spec fn occurs_at(s: Seq<char>, pat: Seq<char>, i: int) -> bool {
    0 <= i && i + pat.len() <= s.len() && s.subrange(i, i + pat.len()) == pat
}

/// `s` with every non-overlapping occurrence of the non-empty `pat`, found
/// from left to right, replaced by `rep`.
pub open spec fn spec_replace(s: Seq<char>, pat: Seq<char>, rep: Seq<char>) -> Seq<char>
    decreases s.len(),
{
    if pat.len() == 0 || s.len() < pat.len() {
        s
    } else if s.take(pat.len() as int) == pat {
        rep + spec_replace(s.skip(pat.len() as int), pat, rep)
    } else {
        seq![s[0]] + spec_replace(s.skip(1), pat, rep)
    }
}

/// Each character of a replacement's result comes from the replacement or
/// from the text, and a one-character pattern is gone unless the
/// replacement brings it back; a replacement no longer than the pattern
/// does not lengthen the text.
pub(crate) proof fn lemma_replace_chars(s: Seq<char>, pat: Seq<char>, rep: Seq<char>)
    requires
        pat.len() > 0,
    ensures
        forall|k: int|
            0 <= k < spec_replace(s, pat, rep).len() ==> rep.contains(#[trigger] spec_replace(s, pat, rep)[k]) || (
            s.contains(spec_replace(s, pat, rep)[k]) && (pat.len() == 1 ==> spec_replace(s, pat, rep)[k] != pat[0])),
        rep.len() <= pat.len() ==> spec_replace(s, pat, rep).len() <= s.len(),
    decreases s.len(),
{
    let r = spec_replace(s, pat, rep);
    if s.len() < pat.len() {
    } else if s.take(pat.len() as int) == pat {
        let t = s.skip(pat.len() as int);
        lemma_replace_chars(t, pat, rep);
        let rt = spec_replace(t, pat, rep);
        assert(r == rep + rt);
        assert forall|k: int| 0 <= k < r.len() implies rep.contains(#[trigger] r[k]) || (s.contains(r[k]) && (
        pat.len() == 1 ==> r[k] != pat[0])) by {
            if k < rep.len() {
                assert(rep[k] == r[k]);
            } else {
                assert(r[k] == rt[k - rep.len()]);
                if !rep.contains(r[k]) {
                    let j = choose|j: int| 0 <= j < t.len() && t[j] == rt[k - rep.len()];
                    assert(s[j + pat.len()] == t[j]);
                }
            }
        }
    } else {
        let t = s.skip(1);
        lemma_replace_chars(t, pat, rep);
        let rt = spec_replace(t, pat, rep);
        assert(r == seq![s[0]] + rt);
        assert forall|k: int| 0 <= k < r.len() implies rep.contains(#[trigger] r[k]) || (s.contains(r[k]) && (
        pat.len() == 1 ==> r[k] != pat[0])) by {
            if k == 0 {
                assert(s[0] == r[0]);
                if pat.len() == 1 && s[0] == pat[0] {
                    assert(s.take(1) =~= pat);
                }
            } else {
                assert(r[k] == rt[k - 1]);
                if !rep.contains(r[k]) {
                    let j = choose|j: int| 0 <= j < t.len() && t[j] == rt[k - 1];
                    assert(s[j + 1] == t[j]);
                }
            }
        }
    }
}

/// Text without the pattern's first character is left as it is.
pub(crate) proof fn lemma_replace_absent(s: Seq<char>, pat: Seq<char>, rep: Seq<char>)
    requires
        pat.len() > 0,
        !s.contains(pat[0]),
    ensures
        spec_replace(s, pat, rep) == s,
    decreases s.len(),
{
    if s.len() >= pat.len() {
        assert(s.take(pat.len() as int)[0] == s[0]);
        assert(s.take(pat.len() as int) != pat);
        assert(!s.skip(1).contains(pat[0])) by {
            if s.skip(1).contains(pat[0]) {
                let j = choose|j: int| 0 <= j < s.skip(1).len() && s.skip(1)[j] == pat[0];
                assert(s[j + 1] == pat[0]);
            }
        }
        lemma_replace_absent(s.skip(1), pat, rep);
        assert(seq![s[0]] + s.skip(1) =~= s);
    }
}

/// A prefix without the pattern's first character passes through a
/// replacement unchanged.
pub(crate) proof fn lemma_replace_prefix(p: Seq<char>, w: Seq<char>, pat: Seq<char>, rep: Seq<char>)
    requires
        pat.len() > 0,
        !p.contains(pat[0]),
    ensures
        spec_replace(p + w, pat, rep) == p + spec_replace(w, pat, rep),
    decreases p.len(),
{
    if p.len() > 0 {
        let s = p + w;
        assert(s[0] == p[0]);
        assert(p.skip(1) + w =~= s.skip(1));
        assert(!p.skip(1).contains(pat[0])) by {
            if p.skip(1).contains(pat[0]) {
                let j = choose|j: int| 0 <= j < p.skip(1).len() && p.skip(1)[j] == pat[0];
                assert(p[j + 1] == pat[0]);
            }
        }
        lemma_replace_prefix(p.skip(1), w, pat, rep);
        if s.len() >= pat.len() {
            assert(s.take(pat.len() as int)[0] == s[0]);
            assert(s.take(pat.len() as int) != pat);
        }
        assert(seq![p[0]] + (p.skip(1) + spec_replace(w, pat, rep)) =~= p + spec_replace(w, pat, rep));
    } else {
        assert(p + w =~= w);
        assert(p + spec_replace(w, pat, rep) =~= spec_replace(w, pat, rep));
    }
}

/// Text that differs from the pattern at one position of its start, and
/// has the pattern's first character nowhere after its first position, is
/// left as it is.
pub(crate) proof fn lemma_replace_mismatch(w: Seq<char>, pat: Seq<char>, rep: Seq<char>, i: int)
    requires
        0 <= i < pat.len(),
        i < w.len(),
        w[i] != pat[i],
        !w.skip(1).contains(pat[0]),
    ensures
        spec_replace(w, pat, rep) == w,
{
    if w.len() >= pat.len() {
        assert(w.take(pat.len() as int)[i] == w[i]);
        assert(w.take(pat.len() as int) != pat);
        lemma_replace_absent(w.skip(1), pat, rep);
        assert(seq![w[0]] + w.skip(1) =~= w);
    }
}

/// Replacing one character by another maps the text character by
/// character.
pub(crate) proof fn lemma_replace_one_char(s: Seq<char>, a: char, b: char)
    ensures
        spec_replace(s, seq![a], seq![b]).len() == s.len(),
        forall|k: int| 0 <= k < s.len() ==> #[trigger] spec_replace(s, seq![a], seq![b])[k] == (if s[k] == a {
            b
        } else {
            s[k]
        }),
    decreases s.len(),
{
    if s.len() > 0 {
        let t = s.skip(1);
        lemma_replace_one_char(t, a, b);
        let r = spec_replace(s, seq![a], seq![b]);
        let rt = spec_replace(t, seq![a], seq![b]);
        assert(s.take(1) =~= seq![s[0]]);
        if s[0] == a {
            assert(s.take(1) =~= seq![a]);
            assert(r == seq![b] + rt);
        } else {
            assert(s.take(1) != seq![a]) by {
                assert(s.take(1)[0] != seq![a][0]);
            }
            assert(r == seq![s[0]] + rt);
        }
        assert forall|k: int| 0 <= k < s.len() implies #[trigger] r[k] == (if s[k] == a { b } else { s[k] }) by {
            if k > 0 {
                assert(r[k] == rt[k - 1]);
                assert(t[k - 1] == s[k]);
            }
        }
    }
}

/// Collapsing double underscores keeps the first and the last character of
/// a text that has any.
pub(crate) proof fn lemma_collapse_keeps_ends(s: Seq<char>)
    requires
        s.len() > 0,
    ensures
        spec_replace(s, seq!['_', '_'], seq!['_']).len() > 0,
        spec_replace(s, seq!['_', '_'], seq!['_'])[0] == s[0],
        spec_replace(s, seq!['_', '_'], seq!['_']).last() == s.last(),
    decreases s.len(),
{
    let pat = seq!['_', '_'];
    let r = spec_replace(s, pat, seq!['_']);
    if s.len() < 2 {
    } else if s.take(2) == pat {
        assert(s[0] == s.take(2)[0]);
        let t = s.skip(2);
        assert(r == seq!['_'] + spec_replace(t, pat, seq!['_']));
        if t.len() > 0 {
            lemma_collapse_keeps_ends(t);
            assert(t.last() == s.last());
        } else {
            assert(spec_replace(t, pat, seq!['_']) == t);
            assert(s.last() == s.take(2)[1]);
        }
    } else {
        let t = s.skip(1);
        lemma_collapse_keeps_ends(t);
        assert(r == seq![s[0]] + spec_replace(t, pat, seq!['_']));
        assert(t.last() == s.last());
    }
}

/// Whether `pat` occurs in `s` at position `i`.
pub fn matches_at(s: &[char], pat: &[char], i: usize) -> (found: bool)
    ensures
        found == occurs_at(s@, pat@, i as int),
{
    if i > s.len() || pat.len() > s.len() - i {
        return false;
    }
    let slen = s.len();
    let mut k: usize = 0;
    while k < pat.len()
        invariant
            slen == s@.len(),
            i + pat@.len() <= s@.len(),
            k <= pat@.len(),
            forall|j: int| 0 <= j < k ==> s@[i + j] == pat@[j],
        decreases pat@.len() - k,
    {
        assert(i + k < s@.len());
        if s[i + k] != pat[k] {
            proof {
                assert(s@.subrange(i as int, i + pat@.len())[k as int] != pat@[k as int]);
            }
            return false;
        }
        k = k + 1;
    }
    proof {
        assert(s@.subrange(i as int, i + pat@.len()) =~= pat@);
    }
    true
}

proof fn lemma_replace_step(s: Seq<char>, pat: Seq<char>, rep: Seq<char>, i: int)
    requires
        pat.len() > 0,
        0 <= i < s.len(),
    ensures
        occurs_at(s, pat, i) ==> spec_replace(s.skip(i), pat, rep) == rep + spec_replace(
            s.skip(i + pat.len()),
            pat,
            rep,
        ),
        !occurs_at(s, pat, i) ==> spec_replace(s.skip(i), pat, rep) == seq![s[i]] + spec_replace(
            s.skip(i + 1),
            pat,
            rep,
        ),
{
    let t = s.skip(i);
    if t.len() >= pat.len() {
        assert(t.take(pat.len() as int) =~= s.subrange(i, i + pat.len()));
    }
    if i + pat.len() <= s.len() {
        assert(t.skip(pat.len() as int) =~= s.skip(i + pat.len()));
    }
    assert(t.skip(1) =~= s.skip(i + 1));
    if !occurs_at(s, pat, i) && t.len() < pat.len() {
        // fewer characters left than the pattern: the rest is copied as is
        assert(t.skip(1).len() < pat.len());
        assert(spec_replace(t, pat, rep) == t);
        assert(spec_replace(t.skip(1), pat, rep) == t.skip(1));
        assert(t =~= seq![s[i]] + t.skip(1));
    }
}

/// Replaces every occurrence of the non-empty `pat` in `s` with `rep`,
/// scanning from left to right, as `str::replace` does.
pub fn replace(s: &[char], pat: &[char], rep: &[char]) -> (out: Vec<char>)
    requires
        pat@.len() > 0,
    ensures
        out@ == spec_replace(s@, pat@, rep@),
{
    let mut out: Vec<char> = Vec::new();
    let mut i: usize = 0;
    proof {
        assert(s@.skip(0) =~= s@);
        assert(out@ + spec_replace(s@, pat@, rep@) =~= spec_replace(s@, pat@, rep@));
    }
    while i < s.len()
        invariant
            pat@.len() > 0,
            i <= s@.len(),
            out@ + spec_replace(s@.skip(i as int), pat@, rep@) == spec_replace(s@, pat@, rep@),
        decreases s@.len() - i,
    {
        proof {
            lemma_replace_step(s@, pat@, rep@, i as int);
        }
        if matches_at(s, pat, i) {
            let mut k: usize = 0;
            let ghost before = out@;
            while k < rep.len()
                invariant
                    k <= rep@.len(),
                    out@ == before + rep@.take(k as int),
                decreases rep@.len() - k,
            {
                out.push(rep[k]);
                k = k + 1;
                proof {
                    assert(out@ =~= before + rep@.take(k as int));
                }
            }
            proof {
                assert(rep@.take(rep@.len() as int) =~= rep@);
                assert(before + (rep@ + spec_replace(s@.skip(i + pat@.len()), pat@, rep@)) =~= (
                before + rep@) + spec_replace(s@.skip(i + pat@.len()), pat@, rep@));
            }
            i = i + pat.len();
        } else {
            let ghost before = out@;
            out.push(s[i]);
            proof {
                assert(before + (seq![s@[i as int]] + spec_replace(s@.skip(i + 1), pat@, rep@))
                    =~= before.push(s@[i as int]) + spec_replace(s@.skip(i + 1), pat@, rep@));
            }
            i = i + 1;
        }
    }
    proof {
        assert(s@.skip(i as int) =~= Seq::<char>::empty());
        assert(spec_replace(Seq::<char>::empty(), pat@, rep@) == Seq::<char>::empty());
        assert(out@ + Seq::<char>::empty() =~= out@);
    }
    out
}

/// Whether a character has the Unicode `White_Space` property: the 25 code
/// points U+0009 to U+000D, U+0020, U+0085, U+00A0, U+1680, U+2000 to
/// U+200A, U+2028, U+2029, U+202F, U+205F and U+3000.
pub open spec fn spec_is_whitespace(c: char) -> bool {
    let n = c as u32;
    ||| 0x09 <= n <= 0x0D
    ||| n == 0x20
    ||| n == 0x85
    ||| n == 0xA0
    ||| n == 0x1680
    ||| 0x2000 <= n <= 0x200A
    ||| n == 0x2028
    ||| n == 0x2029
    ||| n == 0x202F
    ||| n == 0x205F
    ||| n == 0x3000
}

/// Whether a character has the Unicode `White_Space` property, as
/// `char::is_whitespace` answers.
pub(crate) fn is_whitespace(c: char) -> (ws: bool)
    ensures
        ws == spec_is_whitespace(c),
{
    let n = c as u32;
    (0x09 <= n && n <= 0x0D) || n == 0x20 || n == 0x85 || n == 0xA0 || n == 0x1680 || (0x2000 <= n && n
        <= 0x200A) || n == 0x2028 || n == 0x2029 || n == 0x202F || n == 0x205F || n == 0x3000
}

/// `s` without its leading whitespace.
pub open spec fn spec_trim_start(s: Seq<char>) -> Seq<char>
    decreases s.len(),
{
    if s.len() > 0 && spec_is_whitespace(s[0]) {
        spec_trim_start(s.drop_first())
    } else {
        s
    }
}

/// `s` without its trailing whitespace.
pub open spec fn spec_trim_end(s: Seq<char>) -> Seq<char>
    decreases s.len(),
{
    if s.len() > 0 && spec_is_whitespace(s.last()) {
        spec_trim_end(s.drop_last())
    } else {
        s
    }
}

/// `s` without leading and trailing whitespace, as `str::trim` gives it.
pub open spec fn spec_trim(s: Seq<char>) -> Seq<char> {
    spec_trim_end(spec_trim_start(s))
}

/// What `spec_trim_start` leaves: a suffix of the text that starts with no
/// whitespace; returns where the suffix starts.
pub(crate) proof fn lemma_trim_start(s: Seq<char>) -> (i: int)
    ensures
        0 <= i <= s.len(),
        spec_trim_start(s) == s.subrange(i, s.len() as int),
        spec_trim_start(s).len() > 0 ==> !spec_is_whitespace(spec_trim_start(s)[0]),
    decreases s.len(),
{
    if s.len() > 0 && spec_is_whitespace(s[0]) {
        let i = lemma_trim_start(s.drop_first());
        assert(s.drop_first().subrange(i, s.drop_first().len() as int) =~= s.subrange(i + 1, s.len() as int));
        i + 1
    } else {
        assert(s.subrange(0, s.len() as int) =~= s);
        0
    }
}

/// What `spec_trim_end` leaves: a prefix of the text that ends with no
/// whitespace; returns its length.
pub(crate) proof fn lemma_trim_end(s: Seq<char>) -> (j: int)
    ensures
        0 <= j <= s.len(),
        spec_trim_end(s) == s.take(j),
        j > 0 ==> !spec_is_whitespace(s[j - 1]),
    decreases s.len(),
{
    if s.len() > 0 && spec_is_whitespace(s.last()) {
        let j = lemma_trim_end(s.drop_last());
        assert(s.drop_last().take(j) =~= s.take(j));
        j
    } else {
        assert(s.take(s.len() as int) =~= s);
        s.len() as int
    }
}

/// What `spec_trim` leaves: a piece of the text that neither starts nor
/// ends with whitespace; returns where it starts and ends.
pub(crate) proof fn lemma_trim(s: Seq<char>) -> (ij: (int, int))
    ensures
        0 <= ij.0 <= ij.1 <= s.len(),
        spec_trim(s) == s.subrange(ij.0, ij.1),
        ij.0 < ij.1 ==> !spec_is_whitespace(s[ij.0]) && !spec_is_whitespace(s[ij.1 - 1]),
{
    let i = lemma_trim_start(s);
    let x = spec_trim_start(s);
    let j = lemma_trim_end(x);
    assert(x.take(j) =~= s.subrange(i, i + j));
    if j > 0 {
        assert(x[0] == s[i]);
        assert(x[j - 1] == s[i + j - 1]);
    }
    (i, i + j)
}

/// Removes leading and trailing whitespace.
pub fn trim(s: &[char]) -> (t: Vec<char>)
    ensures
        t@ == spec_trim(s@),
{
    let n = s.len();
    let mut start: usize = 0;
    proof {
        assert(s@.skip(0) =~= s@);
    }
    while start < n && is_whitespace(s[start])
        invariant
            n == s@.len(),
            start <= n,
            spec_trim_start(s@) == spec_trim_start(s@.skip(start as int)),
        decreases n - start,
    {
        proof {
            assert(s@.skip(start as int).drop_first() =~= s@.skip(start + 1));
        }
        start = start + 1;
    }
    proof {
        if start == n {
            assert(s@.skip(start as int).len() == 0);
        }
        assert(spec_trim_start(s@) == s@.skip(start as int));
        assert(s@.skip(start as int) =~= s@.subrange(start as int, n as int));
    }
    let mut end: usize = n;
    while end > start && is_whitespace(s[end - 1])
        invariant
            n == s@.len(),
            start <= end <= n,
            spec_trim(s@) == spec_trim_end(s@.subrange(start as int, end as int)),
        decreases end,
    {
        proof {
            assert(s@.subrange(start as int, end as int).drop_last() =~= s@.subrange(
                start as int,
                end - 1,
            ));
        }
        end = end - 1;
    }
    proof {
        let sub = s@.subrange(start as int, end as int);
        if end > start {
            assert(sub.last() == s@[end - 1]);
        }
        assert(spec_trim_end(sub) == sub);
    }
    let mut t: Vec<char> = Vec::new();
    let mut i: usize = start;
    while i < end
        invariant
            start <= i <= end <= n,
            n == s@.len(),
            t@ == s@.subrange(start as int, i as int),
        decreases end - i,
    {
        t.push(s[i]);
        i = i + 1;
        proof {
            assert(t@ =~= s@.subrange(start as int, i as int));
        }
    }
    t
}

/// `line` without one trailing carriage return.
pub open spec fn strip_cr(line: Seq<char>) -> Seq<char> {
    if line.len() > 0 && line.last() == '\r' {
        line.drop_last()
    } else {
        line
    }
}

/// The lines of `s` when `cur` holds the characters already read of the
/// current line: a newline ends a line (and a carriage return right before
/// it is dropped); a last line without newline counts when it is not empty.
pub open spec fn lines_from(s: Seq<char>, cur: Seq<char>) -> Seq<Seq<char>>
    decreases s.len(),
{
    if s.len() == 0 {
        if cur.len() == 0 {
            seq![]
        } else {
            seq![cur]
        }
    } else if s[0] == '\n' {
        seq![strip_cr(cur)] + lines_from(s.drop_first(), seq![])
    } else {
        lines_from(s.drop_first(), cur.push(s[0]))
    }
}

/// The lines of `s`, as `str::lines` yields them.
pub open spec fn spec_lines(s: Seq<char>) -> Seq<Seq<char>> {
    lines_from(s, seq![])
}

/// Splits `s` into lines, as `str::lines` does.
pub fn lines(s: &[char]) -> (out: Vec<Vec<char>>)
    ensures
        out@.len() == spec_lines(s@).len(),
        forall|i: int| 0 <= i < out@.len() ==> #[trigger] out@[i]@ == spec_lines(s@)[i],
{
    let mut out: Vec<Vec<char>> = Vec::new();
    let mut cur: Vec<char> = Vec::new();
    let mut i: usize = 0;
    let ghost views: Seq<Seq<char>> = seq![];
    proof {
        assert(s@.skip(0) =~= s@);
        assert(views + lines_from(s@, cur@) =~= spec_lines(s@));
    }
    while i < s.len()
        invariant
            i <= s@.len(),
            views.len() == out@.len(),
            forall|k: int| 0 <= k < out@.len() ==> #[trigger] out@[k]@ == views[k],
            views + lines_from(s@.skip(i as int), cur@) == spec_lines(s@),
        decreases s@.len() - i,
    {
        let c = s[i];
        let ghost cur_before = cur@;
        proof {
            assert(s@.skip(i as int).drop_first() =~= s@.skip(i + 1));
            assert(s@.skip(i as int)[0] == c);
        }
        if c == '\n' {
            let ghost line = strip_cr(cur@);
            if cur.len() > 0 && cur[cur.len() - 1] == '\r' {
                cur.pop();
            }
            proof {
                assert(cur@ == line);
            }
            out.push(cur);
            cur = Vec::new();
            proof {
                assert(views.push(line) + lines_from(s@.skip(i + 1), seq![]) =~= views + (seq![line] + lines_from(s@.skip(i + 1), seq![])));
                views = views.push(line);
            }
        } else {
            cur.push(c);
            proof {
                assert(cur@ == cur_before.push(c));
            }
        }
        i = i + 1;
    }
    proof {
        assert(s@.skip(i as int).len() == 0);
    }
    if cur.len() > 0 {
        let ghost line = cur@;
        out.push(cur);
        proof {
            views = views.push(line);
        }
    }
    proof {
        assert(views =~= spec_lines(s@));
    }
    out
}

/// Appends the characters of `s` to `out`.
pub fn push_all(out: &mut Vec<char>, s: &[char])
    ensures
        final(out)@ == old(out)@ + s@,
{
    let ghost start = out@;
    let mut i: usize = 0;
    while i < s.len()
        invariant
            i <= s@.len(),
            out@ == start + s@.take(i as int),
        decreases s@.len() - i,
    {
        out.push(s[i]);
        i = i + 1;
        proof {
            assert(out@ =~= start + s@.take(i as int));
        }
    }
    proof {
        assert(s@.take(s@.len() as int) =~= s@);
    }
}

/// The concatenation of `parts` with `sep` between consecutive parts.
pub open spec fn spec_join(parts: Seq<Seq<char>>, sep: Seq<char>) -> Seq<char>
    decreases parts.len(),
{
    if parts.len() == 0 {
        seq![]
    } else if parts.len() == 1 {
        parts[0]
    } else {
        spec_join(parts.drop_last(), sep) + sep + parts.last()
    }
}

/// Whether two character sequences are equal.
pub fn chars_equal(a: &[char], b: &[char]) -> (eq: bool)
    ensures
        eq <==> a@ == b@,
{
    if a.len() != b.len() {
        return false;
    }
    let mut i: usize = 0;
    while i < a.len()
        invariant
            a@.len() == b@.len(),
            i <= a@.len(),
            forall|k: int| 0 <= k < i ==> a@[k] == b@[k],
        decreases a@.len() - i,
    {
        if a[i] != b[i] {
            return false;
        }
        i = i + 1;
    }
    proof {
        assert(a@ =~= b@);
    }
    true
}

/// Whether two strings hold the same characters.
pub fn str_equal(a: &str, b: &str) -> (eq: bool)
    ensures
        eq <==> a@ == b@,
{
    let ac = chars_of(a);
    let bc = chars_of(b);
    chars_equal(ac.as_slice(), bc.as_slice())
}

/// The decimal digit `d` (for `0 <= d < 10`).
pub open spec fn digit_char(d: int) -> char {
    if d == 0 { '0' } else if d == 1 { '1' } else if d == 2 { '2' } else if d == 3 { '3' }
    else if d == 4 { '4' } else if d == 5 { '5' } else if d == 6 { '6' } else if d == 7 { '7' }
    else if d == 8 { '8' } else { '9' }
}

/// The value of a decimal digit character.
pub open spec fn digit_value(c: char) -> int {
    if c == '0' { 0 } else if c == '1' { 1 } else if c == '2' { 2 } else if c == '3' { 3 }
    else if c == '4' { 4 } else if c == '5' { 5 } else if c == '6' { 6 } else if c == '7' { 7 }
    else if c == '8' { 8 } else { 9 }
}

/// Whether `c` is one of `0` to `9`.
pub open spec fn is_digit(c: char) -> bool {
    '0' <= c && c <= '9'
}

/// The decimal representation of `n`, without leading zeros.
pub open spec fn spec_decimal(n: nat) -> Seq<char>
    decreases n,
{
    if n < 10 {
        seq![digit_char(n as int)]
    } else {
        spec_decimal(n / 10).push(digit_char((n % 10) as int))
    }
}

fn digit(d: u64) -> (c: char)
    requires
        d < 10,
    ensures
        c == digit_char(d as int),
{
    if d == 0 { '0' } else if d == 1 { '1' } else if d == 2 { '2' } else if d == 3 { '3' }
    else if d == 4 { '4' } else if d == 5 { '5' } else if d == 6 { '6' } else if d == 7 { '7' }
    else if d == 8 { '8' } else { '9' }
}

/// The decimal representation of `n`.
pub fn decimal_string(n: u64) -> (s: String)
    ensures
        s@ == spec_decimal(n as nat),
    decreases n,
{
    if n < 10 {
        let mut s = String::new();
        s.push(digit(n));
        s
    } else {
        let mut s = decimal_string(n / 10);
        s.push(digit(n % 10));
        s
    }
}

/// The number written by a sequence of decimal digits.
pub open spec fn digits_value(s: Seq<char>) -> nat
    decreases s.len(),
{
    if s.len() == 0 {
        0
    } else {
        (digits_value(s.drop_last()) * 10 + digit_value(s.last())) as nat
    }
}

/// The digits of a number as `usize::from_str` reads them: an optional `+`
/// followed by at least one decimal digit.
pub open spec fn unsigned_digits(s: Seq<char>) -> Seq<char> {
    if s.len() > 0 && s[0] == '+' {
        s.drop_first()
    } else {
        s
    }
}

/// What `usize::from_str` reads from `s`: the number, when `s` is an
/// optional `+` followed by decimal digits whose value fits in `usize`.
pub open spec fn spec_parse_usize(s: Seq<char>) -> Option<nat> {
    let d = unsigned_digits(s);
    if d.len() > 0 && (forall|i: int| 0 <= i < d.len() ==> is_digit(#[trigger] d[i]))
        && digits_value(d) <= usize::MAX {
        Some(digits_value(d))
    } else {
        None
    }
}

proof fn lemma_digits_value_grows(s: Seq<char>, i: int)
    requires
        0 <= i <= s.len(),
    ensures
        digits_value(s.take(i)) <= digits_value(s),
    decreases s.len() - i,
{
    if i < s.len() {
        lemma_digits_value_grows(s, i + 1);
        assert(s.take(i + 1).drop_last() =~= s.take(i));
    } else {
        assert(s.take(i) =~= s);
    }
}

/// Reads an unsigned number as `usize::from_str` does.
pub fn parse_usize(s: &str) -> (n: Option<usize>)
    ensures
        match spec_parse_usize(s@) {
            Some(v) => n == Some(v as usize),
            None => n is None,
        },
{
    let chars = chars_of(s);
    let start: usize = if chars.len() > 0 && chars[0] == '+' { 1 } else { 0 };
    let ghost d = unsigned_digits(s@);
    proof {
        assert(d =~= chars@.skip(start as int));
    }
    if start >= chars.len() {
        return None;
    }
    let mut value: usize = 0;
    let mut i: usize = start;
    while i < chars.len()
        invariant
            start <= i <= chars@.len(),
            chars@ == s@,
            d == chars@.skip(start as int),
            d == unsigned_digits(s@),
            d.len() > 0,
            forall|k: int| 0 <= k < i - start ==> is_digit(#[trigger] d[k]),
            value == digits_value(d.take(i - start)),
        decreases chars@.len() - i,
    {
        let c = chars[i];
        proof {
            assert(d[i - start] == c);
        }
        if !('0' <= c && c <= '9') {
            proof {
                assert(!is_digit(d[i - start]));
                assert(!(forall|k: int| 0 <= k < d.len() ==> is_digit(#[trigger] d[k])));
                assert(spec_parse_usize(s@) is None);
            }
            return None;
        }
        let dv: usize = if c == '0' { 0 } else if c == '1' { 1 } else if c == '2' { 2 } else if c == '3' { 3 }
            else if c == '4' { 4 } else if c == '5' { 5 } else if c == '6' { 6 } else if c == '7' { 7 }
            else if c == '8' { 8 } else { 9 };
        proof {
            assert(d.take(i + 1 - start).drop_last() =~= d.take(i - start));
            assert(d.take(i + 1 - start).last() == c);
            assert(digits_value(d.take(i + 1 - start)) == value * 10 + dv);
        }
        match value.checked_mul(10) {
            Some(m) => match m.checked_add(dv) {
                Some(v) => {
                    value = v;
                },
                None => {
                    proof {
                        lemma_digits_value_grows(d, i + 1 - start);
                        assert(digits_value(d) > usize::MAX);
                        assert(spec_parse_usize(s@) is None);
                    }
                    return None;
                },
            },
            None => {
                proof {
                    lemma_digits_value_grows(d, i + 1 - start);
                }
                return None;
            },
        }
        i = i + 1;
    }
    proof {
        assert(d.take(i - start) =~= d);
    }
    Some(value)
}

/// The first position at which `pat` occurs in `s`, if any.
pub open spec fn first_occurrence(s: Seq<char>, pat: Seq<char>) -> Option<int> {
    if exists|i: int| occurs_at(s, pat, i) {
        Some(choose|i: int| occurs_at(s, pat, i) && forall|j: int| 0 <= j < i ==> !occurs_at(s, pat, j))
    } else {
        None
    }
}

/// The first position at which `pat` occurs in `s`, as `str::find` reports it.
pub fn find(s: &[char], pat: &[char]) -> (pos: Option<usize>)
    ensures
        match first_occurrence(s@, pat@) {
            Some(i) => pos == Some(i as usize),
            None => pos is None,
        },
        pos matches Some(i) ==> occurs_at(s@, pat@, i as int)
            && forall|j: int| 0 <= j < i ==> !occurs_at(s@, pat@, j),
{
    let mut i: usize = 0;
    loop
        invariant
            i <= s@.len(),
            forall|j: int| 0 <= j < i ==> !occurs_at(s@, pat@, j),
        decreases s@.len() - i,
    {
        if matches_at(s, pat, i) {
            proof {
                let w = choose|k: int| occurs_at(s@, pat@, k) && forall|j: int| 0 <= j < k ==> !occurs_at(s@, pat@, j);
                assert(occurs_at(s@, pat@, i as int) && forall|j: int| 0 <= j < i ==> !occurs_at(s@, pat@, j));
                assert(w == i);
            }
            return Some(i);
        }
        if i == s.len() {
            proof {
                assert forall|k: int| !occurs_at(s@, pat@, k) by {
                    if 0 <= k < i {
                    }
                }
            }
            return None;
        }
        i = i + 1;
    }
}

/// Whether every character of `s` is ASCII.
pub open spec fn is_ascii_text(s: Seq<char>) -> bool {
    forall|i: int| 0 <= i < s.len() ==> (#[trigger] s[i] as u32) < 128
}

/// Whether `c` is an ASCII lower-case letter.
pub open spec fn is_ascii_lower(c: char) -> bool {
    'a' <= c && c <= 'z'
}

/// Whether `c` is an ASCII upper-case letter.
pub open spec fn is_ascii_upper(c: char) -> bool {
    'A' <= c && c <= 'Z'
}

/// The Unicode upper-case mapping of an ASCII character: `a` to `z` become
/// `A` to `Z`, every other ASCII character maps to itself.
pub open spec fn ascii_upper_char(c: char) -> char {
    if is_ascii_lower(c) {
        ((c as u32) - 32) as char
    } else {
        c
    }
}

/// The Unicode lower-case mapping of an ASCII character: `A` to `Z` become
/// `a` to `z`, every other ASCII character maps to itself.
pub open spec fn ascii_lower_char(c: char) -> char {
    if is_ascii_upper(c) {
        ((c as u32) + 32) as char
    } else {
        c
    }
}

/// An ASCII text with every letter upper-cased.
pub open spec fn ascii_upper(s: Seq<char>) -> Seq<char> {
    s.map_values(|c: char| ascii_upper_char(c))
}

/// An ASCII text with every letter lower-cased.
pub open spec fn ascii_lower(s: Seq<char>) -> Seq<char> {
    s.map_values(|c: char| ascii_lower_char(c))
}

/// The lower-case form of a string, as `str::to_lowercase` computes it by
/// the Unicode case mappings.
pub uninterp spec fn spec_to_lowercase(s: Seq<char>) -> Seq<char>;

/// Calls `str::to_lowercase`, whose result follows the Unicode case
/// mapping tables and depends on the string alone; it is named here. On an
/// ASCII string the Unicode mapping is the ASCII one: each letter `A` to
/// `Z` becomes its lower-case letter, every other character stays.
#[verifier::external_body]
pub(crate) fn to_lowercase(s: &str) -> (lower: String)
    ensures
        lower@ == spec_to_lowercase(s@),
        is_ascii_text(s@) ==> lower@ == ascii_lower(s@),
{
    s.to_lowercase()
}

#[verifier::spinoff_prover]
proof fn lemma_decimal_digits(n: nat)
    ensures
        spec_decimal(n).len() > 0,
        forall|i: int| 0 <= i < spec_decimal(n).len() ==> is_digit(#[trigger] spec_decimal(n)[i]),
        spec_decimal(n)[0] != '+',
        digits_value(spec_decimal(n)) == n,
    decreases n,
{
    if n < 10 {
        assert(digits_value(spec_decimal(n)) == digits_value(seq![digit_char(n as int)]));
        assert(seq![digit_char(n as int)].drop_last() =~= seq![]);
        assert(digits_value(Seq::<char>::empty()) == 0);
        assert(digit_value(digit_char(n as int)) == n);
        assert(digits_value(seq![digit_char(n as int)]) == digit_value(digit_char(n as int)));
    } else {
        lemma_decimal_digits(n / 10);
        let d = spec_decimal(n);
        let prefix = spec_decimal(n / 10);
        assert(d.drop_last() =~= prefix);
        assert(d.last() == digit_char((n % 10) as int));
        assert(digit_value(digit_char((n % 10) as int)) == n % 10);
        assert(digits_value(d) == digits_value(prefix) * 10 + digit_value(d.last()));
        assert(n == (n / 10) * 10 + n % 10);
        assert forall|i: int| 0 <= i < d.len() implies is_digit(#[trigger] d[i]) by {
            if i < prefix.len() {
                assert(d[i] == prefix[i]);
            }
        }
        assert(d[0] == prefix[0]);
    }
}

/// Reading back the decimal representation of a number gives the number:
/// `usize::from_str` undoes the formatting of any `usize`.
pub proof fn lemma_parse_decimal(n: nat)
    requires
        n <= usize::MAX,
    ensures
        spec_parse_usize(spec_decimal(n)) == Some(n),
{
    lemma_decimal_digits(n);
    assert(unsigned_digits(spec_decimal(n)) == spec_decimal(n));
}

} // verus!
