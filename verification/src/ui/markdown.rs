//! Markdown rendering into styled lines: headings, lists, quotes, code and thinking
//! blocks, images, inline emphasis, and ANSI-coloured lines.
use vstd::prelude::*;
use crate::ui::color::Color;
use crate::text::{owned, concat2, trim, trim_start, starts_with, ends_with, contains_char, find, views, chars_of, string_from, string_of, push_char, trim_str, str_starts_with, str_ends_with, str_eq, lemma_views_push, split_pieces, split_str, byte_len, str_bytes, trim_start_str};

verus! {

/// How a span looks.
#[derive(Debug, Clone, Copy, PartialEq, Eq, Structural)]
pub struct Style {
    pub fg: Option<Color>,
    pub bg: Option<Color>,
    pub bold: bool,
    pub italic: bool,
    pub underlined: bool,
    pub crossed_out: bool,
}

/// A piece of text with its style.
#[derive(Debug, Clone)]
pub struct Span {
    pub text: String,
    pub style: Style,
}

/// A rendered line.
#[derive(Debug, Clone)]
pub struct Line {
    pub spans: Vec<Span>,
}

/// A span as a value.
pub type SpanView = (Seq<char>, Style);

pub open spec fn span_view(s: Span) -> SpanView {
    (s.text@, s.style)
}

pub open spec fn spans_view(v: Seq<Span>) -> Seq<SpanView> {
    v.map_values(|s: Span| span_view(s))
}

pub open spec fn line_view(l: Line) -> Seq<SpanView> {
    spans_view(l.spans@)
}

pub open spec fn lines_view(v: Seq<Line>) -> Seq<Seq<SpanView>> {
    v.map_values(|l: Line| line_view(l))
}

/// No colours, no emphasis.
pub open spec fn plain() -> Style {
    Style { fg: None, bg: None, bold: false, italic: false, underlined: false, crossed_out: false }
}

/// Foreground colour only.
pub open spec fn fg(c: Color) -> Style {
    Style { fg: Some(c), ..plain() }
}

pub open spec fn text_body() -> Color { Color::Rgb(229, 231, 235) }
pub open spec fn text_muted() -> Color { Color::Rgb(156, 163, 175) }
pub open spec fn text_dim() -> Color { Color::Rgb(75, 85, 99) }
pub open spec fn header_primary() -> Color { Color::Rgb(82, 139, 255) }
pub open spec fn header_secondary() -> Color { Color::Rgb(167, 139, 250) }
pub open spec fn header_tertiary() -> Color { Color::Rgb(129, 140, 248) }
pub open spec fn accent_link() -> Color { Color::Rgb(96, 165, 250) }
pub open spec fn accent_code() -> Color { Color::Rgb(52, 211, 153) }
pub open spec fn accent_quote() -> Color { Color::Rgb(148, 163, 184) }
pub open spec fn accent_list() -> Color { Color::Rgb(251, 191, 36) }
pub open spec fn accent_media() -> Color { Color::Rgb(245, 158, 11) }
pub open spec fn accent_ref() -> Color { Color::Rgb(148, 163, 184) }
pub open spec fn code_bg() -> Color { Color::Rgb(24, 24, 27) }
pub open spec fn code_border() -> Color { Color::Rgb(55, 55, 62) }
pub open spec fn think_border() -> Color { Color::Rgb(88, 88, 110) }
pub open spec fn think_text() -> Color { Color::Rgb(140, 140, 170) }

fn style_plain() -> (s: Style)
    ensures
        s == plain(),
{
    Style { fg: None, bg: None, bold: false, italic: false, underlined: false, crossed_out: false }
}

fn style_fg(c: Color) -> (s: Style)
    ensures
        s == fg(c),
{
    Style { fg: Some(c), bg: None, bold: false, italic: false, underlined: false, crossed_out: false }
}

fn span(text: String, style: Style) -> (s: Span)
    ensures
        span_view(s) == (text@, style),
{
    Span { text, style }
}

fn span_str(text: &str, style: Style) -> (s: Span)
    ensures
        span_view(s) == (text@, style),
{
    Span { text: owned(text), style }
}

fn push_span(v: &mut Vec<Span>, s: Span)
    ensures
        spans_view(final(v)@) == spans_view(old(v)@).push(span_view(s)),
{
    let ghost before = v@;
    v.push(s);
    assert(spans_view(v@) =~= spans_view(before).push(span_view(s)));
}

fn push_line(v: &mut Vec<Line>, l: Line)
    ensures
        lines_view(final(v)@) == lines_view(old(v)@).push(line_view(l)),
{
    let ghost before = v@;
    v.push(l);
    assert(lines_view(v@) =~= lines_view(before).push(line_view(l)));
}

fn append_lines(v: &mut Vec<Line>, more: Vec<Line>)
    ensures
        lines_view(final(v)@) == lines_view(old(v)@) + lines_view(more@),
{
    let mut m = more;
    let ghost before = v@;
    v.append(&mut m);
    assert(lines_view(v@) =~= lines_view(before) + lines_view(more@));
}

/// A line of no spans.
pub open spec fn blank() -> Seq<SpanView> {
    Seq::empty()
}

fn blank_line() -> (l: Line)
    ensures
        line_view(l) == blank(),
{
    let l = Line { spans: Vec::new() };
    assert(line_view(l) =~= blank());
    l
}


// ---------------------------------------------------------------------------
// Inline emphasis
// ---------------------------------------------------------------------------

/// How a run of inline text ends.
pub enum Stop {
    /// Two asterisks in a row (the first is taken)
    DoubleStar,
    /// This character (taken)
    At(char),
}

/// The end of a run starting at `i`: the first position where it stops, or the end.
pub open spec fn run_until(s: Seq<char>, i: int, stop: Stop) -> int
    decreases s.len() - i,
{
    if i < 0 || i >= s.len() {
        s.len() as int
    } else if match stop {
        Stop::DoubleStar => s[i] == '*' && i + 1 < s.len() && s[i + 1] == '*',
        Stop::At(c) => s[i] == c,
    } {
        i
    } else {
        run_until(s, i + 1, stop)
    }
}

/// The position after a run's end marker (the end stays the end).
pub open spec fn past(s: Seq<char>, j: int) -> int {
    if j < s.len() { j + 1 } else { s.len() as int }
}

/// The style of body text, bold, italic, inline code, references and links.
pub open spec fn body_style() -> Style { fg(text_body()) }
pub open spec fn bold_style() -> Style { Style { bold: true, ..fg(text_body()) } }
pub open spec fn italic_style() -> Style { Style { italic: true, ..fg(text_body()) } }
pub open spec fn code_style() -> Style { Style { bg: Some(code_bg()), ..fg(accent_code()) } }
pub open spec fn ref_style() -> Style { Style { bold: true, ..fg(accent_ref()) } }
pub open spec fn link_style() -> Style { Style { underlined: true, ..fg(accent_link()) } }

/// The text gathered so far, as a body span, when there is any.
pub open spec fn flushed(acc: Seq<SpanView>, cur: Seq<char>) -> Seq<SpanView> {
    if cur.len() > 0 { acc.push((cur, body_style())) } else { acc }
}

/// All ASCII digits.
pub open spec fn all_digits(t: Seq<char>) -> bool {
    forall|k: int| 0 <= k < t.len() ==> crate::text::is_ascii_digit(#[trigger] t[k])
}

/// Inline parsing from position `i`: `**bold**`, `*italic*`, `` `code` ``, `[1]`-style
/// references (one to three digits, not followed by `(`), `[text](url)` links (the URL
/// dropped), other brackets kept as text; each marker closes at its match or the end.
pub open spec fn inline_from(s: Seq<char>, i: int, acc: Seq<SpanView>, cur: Seq<char>) -> Seq<SpanView>
    decreases s.len() - i,
{
    if i < 0 || i >= s.len() {
        flushed(acc, cur)
    } else if s[i] == '*' && i + 1 < s.len() && s[i + 1] == '*' {
        let j = run_until(s, i + 2, Stop::DoubleStar);
        let a = past(s, j);
        let a2 = if a < s.len() && s[a] == '*' { a + 1 } else { a };
        proof {
            lemma_run_until_bounds(s, i + 2, Stop::DoubleStar);
        }
        inline_from(s, a2, flushed(acc, cur).push((s.subrange(i + 2, j), bold_style())), Seq::empty())
    } else if s[i] == '*' {
        let j = run_until(s, i + 1, Stop::At('*'));
        proof {
            lemma_run_until_bounds(s, i + 1, Stop::At('*'));
        }
        inline_from(s, past(s, j), flushed(acc, cur).push((s.subrange(i + 1, j), italic_style())), Seq::empty())
    } else if s[i] == '`' {
        let j = run_until(s, i + 1, Stop::At('`'));
        proof {
            lemma_run_until_bounds(s, i + 1, Stop::At('`'));
        }
        inline_from(
            s,
            past(s, j),
            flushed(acc, cur).push((seq![' '] + s.subrange(i + 1, j) + seq![' '], code_style())),
            Seq::empty(),
        )
    } else if s[i] == '[' {
        let j = run_until(s, i + 1, Stop::At(']'));
        proof {
            lemma_run_until_bounds(s, i + 1, Stop::At(']'));
        }
        let t = s.subrange(i + 1, j);
        let n = past(s, j);
        let paren = n < s.len() && s[n] == '(';
        if all_digits(t) && 1 <= t.len() <= 3 && !paren {
            inline_from(s, n, flushed(acc, cur).push((seq!['['] + t + seq![']'], ref_style())), Seq::empty())
        } else if paren {
            let k = run_until(s, n + 1, Stop::At(')'));
            proof {
                lemma_run_until_bounds(s, n + 1, Stop::At(')'));
            }
            inline_from(s, past(s, k), flushed(acc, cur).push((t, link_style())), Seq::empty())
        } else {
            inline_from(s, n, flushed(acc, cur), seq!['['] + t + seq![']'])
        }
    } else {
        inline_from(s, i + 1, acc, cur.push(s[i]))
    }
}

pub proof fn lemma_run_until_bounds(s: Seq<char>, i: int, stop: Stop)
    requires
        0 <= i,
    ensures
        i <= run_until(s, i, stop) <= s.len() || (i > s.len() && run_until(s, i, stop) == s.len()),
        run_until(s, i, stop) >= 0,
        run_until(s, i, stop) <= s.len(),
    decreases s.len() - i,
{
    if i < s.len() {
        lemma_run_until_bounds(s, i + 1, stop);
    }
}

/// A run that stops at `c` ends at the first `c` from `i` on.
proof fn lemma_run_until_first(s: Seq<char>, i: int, j: int, c: char)
    requires
        0 <= i <= j < s.len(),
        s[j] == c,
        forall|k: int| i <= k < j ==> s[k] != c,
    ensures
        run_until(s, i, Stop::At(c)) == j,
    decreases j - i,
{
    if i < j {
        lemma_run_until_first(s, i + 1, j, c);
    }
}

/// Text without `*`, `` ` `` or `[` marks nothing.
pub open spec fn unmarked(t: Seq<char>) -> bool {
    forall|k: int| 0 <= k < t.len() ==> #[trigger] t[k] != '*' && t[k] != '`' && t[k] != '['
}

/// Unmarked characters are gathered into the pending body text.
proof fn lemma_unmarked_run(s: Seq<char>, i: int, m: int, acc: Seq<SpanView>, cur: Seq<char>)
    requires
        0 <= i <= m <= s.len(),
        unmarked(s.subrange(i, m)),
    ensures
        inline_from(s, i, acc, cur) == inline_from(s, m, acc, cur + s.subrange(i, m)),
    decreases m - i,
{
    if i == m {
        assert(cur + s.subrange(i, m) =~= cur);
    } else {
        assert(s.subrange(i, m)[0] == s[i]);
        assert(unmarked(s.subrange(i + 1, m))) by {
            assert forall|k: int| 0 <= k < s.subrange(i + 1, m).len() implies #[trigger] s.subrange(
                i + 1,
                m,
            )[k] != '*' && s.subrange(i + 1, m)[k] != '`' && s.subrange(i + 1, m)[k] != '[' by {
                assert(s.subrange(i + 1, m)[k] == s.subrange(i, m)[k + 1]);
            }
        }
        lemma_unmarked_run(s, i + 1, m, acc, cur.push(s[i]));
        assert(cur.push(s[i]) + s.subrange(i + 1, m) =~= cur + s.subrange(i, m));
    }
}

/// The body span of some text, or none for empty text.
pub open spec fn body_spans(t: Seq<char>) -> Seq<SpanView> {
    if t.len() > 0 { seq![(t, body_style())] } else { seq![] }
}

/// A link `[t](u)` between plain text shows its text `t` in the link style and drops the
/// URL `u`, whatever the URL is; the text around it stays body text.
pub proof fn law_link_shows_its_text(a: Seq<char>, t: Seq<char>, u: Seq<char>, b: Seq<char>)
    requires
        unmarked(a),
        unmarked(b),
        forall|k: int| 0 <= k < t.len() ==> t[k] != ']',
        forall|k: int| 0 <= k < u.len() ==> u[k] != ')',
    ensures
        inline_spans(a + seq!['['] + t + seq![']', '('] + u + seq![')'] + b) == body_spans(a) + seq![
            (t, link_style()),
        ] + body_spans(b),
{
    let s = a + seq!['['] + t + seq![']', '('] + u + seq![')'] + b;
    let i = a.len() as int;
    let j = i + 1 + t.len();
    let n = j + 1;
    let k = n + 1 + u.len();
    assert(s.subrange(0, i) =~= a);
    lemma_unmarked_run(s, 0, i, Seq::empty(), Seq::empty());
    assert(Seq::<char>::empty() + a =~= a);
    assert(s[i] == '[');
    assert(s[j] == ']');
    assert(s[n] == '(');
    assert(s[k] == ')');
    assert forall|q: int| i + 1 <= q < j implies s[q] != ']' by {
        assert(s[q] == t[q - i - 1]);
    }
    lemma_run_until_first(s, i + 1, j, ']');
    assert forall|q: int| n + 1 <= q < k implies s[q] != ')' by {
        assert(s[q] == u[q - n - 1]);
    }
    lemma_run_until_first(s, n + 1, k, ')');
    assert(s.subrange(i + 1, j) =~= t);
    let acc = flushed(Seq::empty(), a).push((t, link_style()));
    assert(inline_from(s, i, Seq::empty(), a) == inline_from(s, k + 1, acc, Seq::empty()));
    assert(s.subrange(k + 1, s.len() as int) =~= b);
    lemma_unmarked_run(s, k + 1, s.len() as int, acc, Seq::empty());
    assert(Seq::<char>::empty() + b =~= b);
    assert(inline_from(s, s.len() as int, acc, b) == flushed(acc, b));
    assert(flushed(acc, b) =~= body_spans(a) + seq![(t, link_style())] + body_spans(b));
}

/// The spans of a text with inline emphasis; the whole text as body when that gives none.
pub open spec fn inline_spans(s: Seq<char>) -> Seq<SpanView> {
    let r = inline_from(s, 0, Seq::empty(), Seq::empty());
    if r.len() == 0 { seq![(s, body_style())] } else { r }
}

fn run_until_exec(v: &Vec<char>, i: usize, double_star: bool, c: char) -> (j: usize)
    requires
        i <= v.len(),
    ensures
        j == run_until(v@, i as int, if double_star { Stop::DoubleStar } else { Stop::At(c) }),
        i <= j <= v.len(),
{
    let ghost stop = if double_star { Stop::DoubleStar } else { Stop::At(c) };
    let mut j = i;
    while j < v.len()
        invariant
            i <= j <= v.len(),
            stop == (if double_star { Stop::DoubleStar } else { Stop::At(c) }),
            run_until(v@, i as int, stop) == run_until(v@, j as int, stop),
        decreases v.len() - j,
    {
        let hit = if double_star {
            v[j] == '*' && j + 1 < v.len() && v[j + 1] == '*'
        } else {
            v[j] == c
        };
        if hit {
            return j;
        }
        j = j + 1;
    }
    j
}

fn flush_spans(spans: &mut Vec<Span>, cur: &mut Vec<char>)
    ensures
        spans_view(final(spans)@) == flushed(spans_view(old(spans)@), old(cur)@),
        final(cur)@.len() == 0,
{
    if cur.len() > 0 {
        let t = string_of(cur);
        push_span(spans, span(t, style_fg(Color::Rgb(229, 231, 235))));
    }
    *cur = Vec::new();
}

fn all_digits_exec(v: &Vec<char>, lo: usize, hi: usize) -> (b: bool)
    requires
        lo <= hi <= v.len(),
    ensures
        b == all_digits(v@.subrange(lo as int, hi as int)),
{
    let mut k = lo;
    while k < hi
        invariant
            lo <= k <= hi <= v.len(),
            forall|m: int| lo <= m < k ==> crate::text::is_ascii_digit(v@[m]),
        decreases hi - k,
    {
        if !crate::text::ascii_digit(v[k]) {
            assert(!crate::text::is_ascii_digit(v@.subrange(lo as int, hi as int)[k - lo]));
            return false;
        }
        k = k + 1;
    }
    true
}

/// The spans of a text with inline emphasis, as `inline_spans` says.
#[verifier::rlimit(60)]
pub fn parse_inline(text: &str) -> (r: Vec<Span>)
    ensures
        spans_view(r@) == inline_spans(text@),
{
    let v = chars_of(text);
    let mut spans: Vec<Span> = Vec::new();
    let mut cur: Vec<char> = Vec::new();
    let mut i: usize = 0;
    let n = v.len();
    assert(spans_view(spans@) =~= Seq::<SpanView>::empty());
    while i < n
        invariant
            i <= n,
            n == v@.len(),
            v@ == text@,
            inline_from(v@, i as int, spans_view(spans@), cur@) == inline_from(v@, 0, Seq::empty(), Seq::empty()),
        decreases n - i,
    {
        let ghost acc0 = spans_view(spans@);
        let ghost cur0 = cur@;
        let c = v[i];
        if c == '*' && i + 1 < n && v[i + 1] == '*' {
            flush_spans(&mut spans, &mut cur);
            let j = run_until_exec(&v, i + 2, true, ' ');
            let content = string_from(&v, i + 2, j);
            push_span(&mut spans, span(content, Style { fg: Some(Color::Rgb(229, 231, 235)), bg: None, bold: true, italic: false, underlined: false, crossed_out: false }));
            let a = if j < n { j + 1 } else { n };
            let a2 = if a < n && v[a] == '*' { a + 1 } else { a };
            proof {
                assert(cur@ =~= Seq::<char>::empty());
                assert(inline_from(v@, i as int, acc0, cur0) == inline_from(v@, a2 as int, spans_view(spans@), cur@));
            }
            i = a2;
        } else if c == '*' {
            flush_spans(&mut spans, &mut cur);
            let j = run_until_exec(&v, i + 1, false, '*');
            let content = string_from(&v, i + 1, j);
            push_span(&mut spans, span(content, Style { fg: Some(Color::Rgb(229, 231, 235)), bg: None, bold: false, italic: true, underlined: false, crossed_out: false }));
            let ni = if j < n { j + 1 } else { n };
            proof {
                assert(cur@ =~= Seq::<char>::empty());
                assert(inline_from(v@, i as int, acc0, cur0) == inline_from(v@, ni as int, spans_view(spans@), cur@));
            }
            i = ni;
        } else if c == '`' {
            flush_spans(&mut spans, &mut cur);
            let j = run_until_exec(&v, i + 1, false, '`');
            let content = string_from(&v, i + 1, j);
            let mut t = String::new();
            push_char(&mut t, ' ');
            t.append(content.as_str());
            push_char(&mut t, ' ');
            assert(t@ =~= seq![' '] + v@.subrange(i + 1, j as int) + seq![' ']);
            push_span(&mut spans, span(t, Style { fg: Some(Color::Rgb(52, 211, 153)), bg: Some(Color::Rgb(24, 24, 27)), bold: false, italic: false, underlined: false, crossed_out: false }));
            let ni = if j < n { j + 1 } else { n };
            proof {
                assert(cur@ =~= Seq::<char>::empty());
                assert(inline_from(v@, i as int, acc0, cur0) == inline_from(v@, ni as int, spans_view(spans@), cur@));
            }
            i = ni;
        } else if c == '[' {
            flush_spans(&mut spans, &mut cur);
            let j = run_until_exec(&v, i + 1, false, ']');
            let nx = if j < n { j + 1 } else { n };
            let paren = nx < n && v[nx] == '(';
            let digits = all_digits_exec(&v, i + 1, j);
            if digits && 1 <= j - (i + 1) && j - (i + 1) <= 3 && !paren {
                let mut t = String::new();
                push_char(&mut t, '[');
                t.append(string_from(&v, i + 1, j).as_str());
                push_char(&mut t, ']');
                assert(t@ =~= seq!['['] + v@.subrange(i + 1, j as int) + seq![']']);
                push_span(&mut spans, span(t, Style { fg: Some(Color::Rgb(148, 163, 184)), bg: None, bold: true, italic: false, underlined: false, crossed_out: false }));
                proof {
                    assert(cur@ =~= Seq::<char>::empty());
                    assert(inline_from(v@, i as int, acc0, cur0) == inline_from(v@, nx as int, spans_view(spans@), cur@));
                }
                i = nx;
            } else if paren {
                let k = run_until_exec(&v, nx + 1, false, ')');
                let t = string_from(&v, i + 1, j);
                push_span(&mut spans, span(t, Style { fg: Some(Color::Rgb(96, 165, 250)), bg: None, bold: false, italic: false, underlined: true, crossed_out: false }));
                let ni = if k < n { k + 1 } else { n };
                proof {
                    assert(cur@ =~= Seq::<char>::empty());
                    assert(inline_from(v@, i as int, acc0, cur0) == inline_from(v@, ni as int, spans_view(spans@), cur@));
                }
                i = ni;
            } else {
                cur.push('[');
                let mut k = i + 1;
                while k < j
                    invariant
                        i + 1 <= k <= j <= n,
                        n == v@.len(),
                        cur@ == seq!['['] + v@.subrange(i + 1, k as int),
                    decreases j - k,
                {
                    cur.push(v[k]);
                    k = k + 1;
                    assert(cur@ =~= seq!['['] + v@.subrange(i + 1, k as int));
                }
                cur.push(']');
                proof {
                    assert(cur@ =~= seq!['['] + v@.subrange(i + 1, j as int) + seq![']']);
                    assert(inline_from(v@, i as int, acc0, cur0) == inline_from(v@, nx as int, spans_view(spans@), cur@));
                }
                i = nx;
            }
        } else {
            cur.push(c);
            proof {
                assert(cur@ =~= cur0.push(c));
                assert(inline_from(v@, i as int, acc0, cur0) == inline_from(v@, i + 1, spans_view(spans@), cur@));
            }
            i = i + 1;
        }
    }
    flush_spans(&mut spans, &mut cur);
    if spans.len() == 0 {
        let mut out: Vec<Span> = Vec::new();
        push_span(&mut out, span_str(text, style_fg(Color::Rgb(229, 231, 235))));
        assert(spans_view(out@) =~= seq![(text@, body_style())]);
        out
    } else {
        spans
    }
}


// ---------------------------------------------------------------------------
// Small text helpers
// ---------------------------------------------------------------------------

/// A text cut to `max` characters with "…" as the last one; as it is when it fits;
/// nothing for zero.
pub open spec fn cut_end(s: Seq<char>, max: int) -> Seq<char> {
    if max == 0 {
        Seq::empty()
    } else if s.len() <= max {
        s
    } else {
        s.take(max - 1).push('…')
    }
}

/// A text cut to `max` characters, as `cut_end` says.
pub fn truncate_end(s: &str, max_len: usize) -> (r: String)
    ensures
        r@ == cut_end(s@, max_len as int),
{
    if max_len == 0 {
        return String::new();
    }
    let v = chars_of(s);
    if v.len() <= max_len {
        return owned(s);
    }
    let mut out = string_from(&v, 0, max_len - 1);
    push_char(&mut out, '…');
    assert(v@.subrange(0, max_len - 1) =~= s@.take(max_len - 1));
    out
}

/// An image line `![alt](url)` (after trimming): its alt text and URL, both trimmed; none
/// when the URL is blank.
pub open spec fn image_syntax(line: Seq<char>) -> Option<(Seq<char>, Seq<char>)> {
    let s = trim(line);
    if !starts_with(s, "!["@) {
        None
    } else {
        match find(s, "]("@) {
            None => None,
            Some(e) => if !ends_with(s, ")"@) {
                None
            } else {
                let url = trim(s.subrange(e + 2, s.len() - 1));
                if url.len() == 0 { None } else { Some((trim(s.subrange(2, e)), url)) }
            },
        }
    }
}

/// The alt text and URL of an image line, as `image_syntax` says.
pub fn parse_image_syntax(line: &str) -> (r: Option<(String, String)>)
    ensures
        match image_syntax(line@) {
            Some((a, u)) => r matches Some((ra, ru)) && ra@ == a && ru@ == u,
            None => r is None,
        },
{
    let st = trim_str(line);
    let s = st.as_str();
    if !str_starts_with(s, "![") {
        return None;
    }
    let v = chars_of(s);
    let e = match crate::text::vec_find(&v, &chars_of("](")) {
        Some(e) => e,
        None => return None,
    };
    if !str_ends_with(s, ")") {
        return None;
    }
    proof {
        reveal_strlit("![");
        reveal_strlit("](");
        reveal_strlit(")");
        crate::text::lemma_find_from_matches(v@, "]("@, 0);
        assert("]("@ =~= seq![']', '(']);
        assert("!["@ =~= seq!['!', '[']);
        assert(v@.subrange(0, 2) == "!["@);
        assert(v@.subrange(0, 2)[0] == v@[0]);
        assert(v@.subrange(0, 2)[1] == v@[1]);
        assert(v@.subrange(e as int, e + 2) == "]("@);
        assert(v@.subrange(e as int, e + 2)[0] == v@[e as int]);
        assert(v@.subrange(e as int, e + 2)[1] == v@[e + 1]);
        assert(")"@ =~= seq![')']);
        assert(v@.subrange(v@.len() - 1, v@.len() as int) == ")"@);
        assert(v@.subrange(v@.len() - 1, v@.len() as int)[0] == v@[v@.len() - 1]);
        if e + 2 > v@.len() - 1 {
            assert(v@[e + 1] == '(');
        }
        assert(e + 2 <= v@.len());
    }
    assert(e + 2 <= v.len());
    let from: usize = e + 2;
    let url = trim_str(string_from(&v, from, v.len() - 1).as_str());
    if url.as_str().is_empty() {
        return None;
    }
    let alt = trim_str(string_from(&v, 2, e).as_str());
    Some((alt, url))
}

/// The text without ANSI escape sequences: from each escape character up to and
/// including the next ASCII letter.
pub open spec fn strip_ansi_from(s: Seq<char>, i: int, in_escape: bool) -> Seq<char>
    decreases s.len() - i,
{
    if i < 0 || i >= s.len() {
        Seq::empty()
    } else if s[i] == '\u{1b}' {
        strip_ansi_from(s, i + 1, true)
    } else if in_escape {
        strip_ansi_from(s, i + 1, !crate::text::is_ascii_alpha(s[i]))
    } else {
        seq![s[i]] + strip_ansi_from(s, i + 1, false)
    }
}

/// The text without ANSI escape sequences, as `strip_ansi_from` says.
pub fn strip_ansi_codes(s: &str) -> (r: String)
    ensures
        r@ == strip_ansi_from(s@, 0, false),
{
    let v = chars_of(s);
    let mut out: Vec<char> = Vec::new();
    let mut esc = false;
    let mut i: usize = 0;
    while i < v.len()
        invariant
            i <= v.len(),
            v@ == s@,
            out@ + strip_ansi_from(v@, i as int, esc) == strip_ansi_from(v@, 0, false),
        decreases v.len() - i,
    {
        let c = v[i];
        let ghost o = out@;
        if c == '\u{1b}' {
            esc = true;
        } else if esc {
            if ('a' <= c && c <= 'z') || ('A' <= c && c <= 'Z') {
                esc = false;
            }
        } else {
            out.push(c);
            assert(o + (seq![c] + strip_ansi_from(v@, i + 1, false)) =~= out@ + strip_ansi_from(v@, i + 1, false));
        }
        i = i + 1;
    }
    string_of(&out)
}


// ---------------------------------------------------------------------------
// ANSI colour codes
// ---------------------------------------------------------------------------

/// The value of decimal digits.
pub open spec fn digits_value(d: Seq<char>) -> nat
    decreases d.len(),
{
    if d.len() == 0 {
        0
    } else {
        digits_value(d.drop_last()) * 10 + ((d.last() as nat) - 48) as nat
    }
}

/// What `str::parse::<u8>` gives: an optional `+`, then one or more decimal digits
/// whose value fits in a byte.
pub open spec fn parsed_u8(s: Seq<char>) -> Option<u8> {
    let d = if s.len() > 0 && s[0] == '+' { s.skip(1) } else { s };
    if d.len() > 0 && all_digits(d) && digits_value(d) <= 255 {
        Some(digits_value(d) as u8)
    } else {
        None
    }
}

/// A byte written in decimal, as `parsed_u8` says.
fn parse_u8(s: &str) -> (r: Option<u8>)
    ensures
        r == parsed_u8(s@),
{
    let v = chars_of(s);
    let start: usize = if v.len() > 0 && v[0] == '+' { 1 } else { 0 };
    let ghost d = if v@.len() > 0 && v@[0] == '+' { v@.skip(1) } else { v@ };
    assert(d =~= v@.subrange(start as int, v@.len() as int));
    if start >= v.len() {
        return None;
    }
    let mut val: u32 = 0;
    let mut big = false;
    let mut i: usize = start;
    while i < v.len()
        invariant
            start <= i <= v.len(),
            v@ == s@,
            d == (if s@.len() > 0 && s@[0] == '+' { s@.skip(1) } else { s@ }),
            d == v@.subrange(start as int, v@.len() as int),
            all_digits(v@.subrange(start as int, i as int)),
            !big ==> val == digits_value(v@.subrange(start as int, i as int)) && val <= 255,
            big ==> digits_value(v@.subrange(start as int, i as int)) > 255,
        decreases v.len() - i,
    {
        let c = v[i];
        if !('0' <= c && c <= '9') {
            assert(d[i - start] == c);
            assert(!crate::text::is_ascii_digit(d[i - start]));
            assert(!all_digits(d));
            return None;
        }
        let ghost before = v@.subrange(start as int, i as int);
        let ghost after = v@.subrange(start as int, i + 1);
        assert(after.drop_last() =~= before);
        assert(after.last() == c);
        assert(all_digits(after)) by {
            assert forall|k: int| 0 <= k < after.len() implies crate::text::is_ascii_digit(
                #[trigger] after[k],
            ) by {
                if k < before.len() {
                    assert(after[k] == before[k]);
                }
            }
        }
        if !big {
            let digit: u32 = (c as u32) - 48;
            let nv: u32 = val * 10 + digit;
            if nv > 255 {
                big = true;
            } else {
                val = nv;
            }
        }
        i += 1;
    }
    assert(v@.subrange(start as int, i as int) == d);
    if big {
        None
    } else {
        Some(val as u8)
    }
}

/// The eight basic ANSI colours, by their index.
pub open spec fn basic_color(i: nat) -> Color {
    if i == 0 {
        Color::Black
    } else if i == 1 {
        Color::Red
    } else if i == 2 {
        Color::Green
    } else if i == 3 {
        Color::Yellow
    } else if i == 4 {
        Color::Blue
    } else if i == 5 {
        Color::Magenta
    } else if i == 6 {
        Color::Cyan
    } else {
        Color::White
    }
}

/// Two decimal digits `d0 d1` as text.
pub open spec fn code2(d0: char, d1: char) -> Seq<char> {
    seq![d0, d1]
}

/// The colours after the SGR parameters from `k` on: 0 resets both; 38;2;r;g;b and
/// 48;2;r;g;b set true-colour foreground and background (when the three numbers parse);
/// 30-37 and 40-47 set a basic colour; 39 and 49 reset one; others are ignored.
pub open spec fn apply_sgr(parts: Seq<Seq<char>>, k: int, f: Option<Color>, b: Option<Color>) -> (Option<Color>, Option<Color>)
    decreases parts.len() - k,
{
    if k < 0 || k >= parts.len() {
        (f, b)
    } else {
        let p = parts[k];
        if p == seq!['0'] {
            apply_sgr(parts, k + 1, None, None)
        } else if (p == code2('3', '8') || p == code2('4', '8')) && k + 4 < parts.len() && parts[k + 1] == seq!['2'] {
            let rgb = match (parsed_u8(parts[k + 2]), parsed_u8(parts[k + 3]), parsed_u8(parts[k + 4])) {
                (Some(r), Some(g), Some(bl)) => Some(Color::Rgb(r, g, bl)),
                _ => None,
            };
            if p == code2('3', '8') {
                apply_sgr(parts, k + 5, if rgb is Some { rgb } else { f }, b)
            } else {
                apply_sgr(parts, k + 5, f, if rgb is Some { rgb } else { b })
            }
        } else if p.len() == 2 && p[0] == '3' && '0' <= p[1] && p[1] <= '7' {
            apply_sgr(parts, k + 1, Some(basic_color((p[1] as nat - 48) as nat)), b)
        } else if p == code2('3', '9') {
            apply_sgr(parts, k + 1, None, b)
        } else if p.len() == 2 && p[0] == '4' && '0' <= p[1] && p[1] <= '7' {
            apply_sgr(parts, k + 1, f, Some(basic_color((p[1] as nat - 48) as nat)))
        } else if p == code2('4', '9') {
            apply_sgr(parts, k + 1, f, None)
        } else {
            apply_sgr(parts, k + 1, f, b)
        }
    }
}

/// The style of text in given colours.
pub open spec fn colored(f: Option<Color>, b: Option<Color>) -> Style {
    Style { fg: f, bg: b, ..plain() }
}

/// Parsing state: spans so far, pending text, foreground, background.
pub type AnsiState = (Seq<SpanView>, Seq<char>, Option<Color>, Option<Color>);

/// The pending text as a span in the current colours, when there is any.
pub open spec fn ansi_flush(st: AnsiState) -> AnsiState {
    if st.1.len() > 0 {
        (st.0.push((st.1, colored(st.2, st.3))), Seq::empty(), st.2, st.3)
    } else {
        st
    }
}

/// The first position at or after `i` holding an ASCII letter, or the end.
pub open spec fn letter_at_or_after(s: Seq<char>, i: int) -> int
    decreases s.len() - i,
{
    if i < 0 || i >= s.len() {
        s.len() as int
    } else if crate::text::is_ascii_alpha(s[i]) {
        i
    } else {
        letter_at_or_after(s, i + 1)
    }
}

pub proof fn lemma_letter_bounds(s: Seq<char>, i: int)
    requires
        0 <= i,
    ensures
        0 <= letter_at_or_after(s, i) <= s.len(),
        i <= s.len() ==> i <= letter_at_or_after(s, i),
    decreases s.len() - i,
{
    if i < s.len() {
        lemma_letter_bounds(s, i + 1);
    }
}

/// Parsing a line with escape sequences from `i`: text gathers in the current colours;
/// an escape character ends it, and an `ESC [ ... letter` sequence applies its SGR
/// parameters (split at `;`).
pub open spec fn ansi_from(s: Seq<char>, i: int, st: AnsiState) -> AnsiState
    decreases s.len() - i,
{
    if i < 0 || i >= s.len() {
        st
    } else if s[i] == '\u{1b}' {
        let st1 = ansi_flush(st);
        if i + 1 < s.len() && s[i + 1] == '[' {
            let j = letter_at_or_after(s, i + 2);
            proof {
                lemma_letter_bounds(s, i + 2);
            }
            let code = s.subrange(i + 2, j);
            let colors = apply_sgr(split_pieces(code, seq![';']), 0, st1.2, st1.3);
            ansi_from(s, if j < s.len() { j + 1 } else { s.len() as int }, (st1.0, Seq::empty(), colors.0, colors.1))
        } else {
            ansi_from(s, i + 1, st1)
        }
    } else {
        ansi_from(s, i + 1, (st.0, st.1.push(s[i]), st.2, st.3))
    }
}

/// The spans of a line with ANSI colour codes; the whole line unstyled when that gives
/// none.
pub open spec fn ansi_spans(s: Seq<char>) -> Seq<SpanView> {
    let st = ansi_flush(ansi_from(s, 0, (Seq::empty(), Seq::empty(), None, None)));
    if st.0.len() == 0 { seq![(s, plain())] } else { st.0 }
}

fn basic_color_exec(i: u32) -> (c: Color)
    ensures
        c == basic_color(i as nat),
{
    if i == 0 {
        Color::Black
    } else if i == 1 {
        Color::Red
    } else if i == 2 {
        Color::Green
    } else if i == 3 {
        Color::Yellow
    } else if i == 4 {
        Color::Blue
    } else if i == 5 {
        Color::Magenta
    } else if i == 6 {
        Color::Cyan
    } else {
        Color::White
    }
}

fn is_two(p: &String, a: char, b: char) -> (r: bool)
    ensures
        r == (p@ == code2(a, b)),
{
    let v = chars_of(p.as_str());
    let r = v.len() == 2 && v[0] == a && v[1] == b;
    proof {
        if v@.len() == 2 && v@[0] == a && v@[1] == b {
            assert(v@ =~= code2(a, b));
        }
    }
    r
}

fn apply_sgr_exec(parts: &Vec<String>, f: Option<Color>, b: Option<Color>) -> (r: (Option<Color>, Option<Color>))
    ensures
        r == apply_sgr(views(parts@), 0, f, b),
{
    let ghost ps = views(parts@);
    let mut fg = f;
    let mut bg = b;
    let mut k: usize = 0;
    while k < parts.len()
        invariant
            k <= parts.len() + 4,
            ps == views(parts@),
            apply_sgr(ps, k as int, fg, bg) == apply_sgr(ps, 0, f, b),
        decreases parts.len() + 5 - k,
    {
        let p = &parts[k];
        let v = chars_of(p.as_str());
        assert(ps[k as int] == p@);
        if v.len() == 1 && v[0] == '0' {
            assert(p@ =~= seq!['0']);
            fg = None;
            bg = None;
            k = k + 1;
        } else if (is_two(p, '3', '8') || is_two(p, '4', '8')) && parts.len() - k > 4 && {
            let w = chars_of(parts[k + 1].as_str());
            w.len() == 1 && w[0] == '2'
        } {
            proof {
                let w = ps[k + 1];
                assert(w.len() == 1 && w[0] == '2' ==> w =~= seq!['2']);
            }
            let r = parse_u8(parts[k + 2].as_str());
            let g = parse_u8(parts[k + 3].as_str());
            let bl = parse_u8(parts[k + 4].as_str());
            let rgb = match (r, g, bl) {
                (Some(r), Some(g), Some(bl)) => Some(Color::Rgb(r, g, bl)),
                _ => None,
            };
            if is_two(p, '3', '8') {
                if rgb.is_some() {
                    fg = rgb;
                }
            } else {
                if rgb.is_some() {
                    bg = rgb;
                }
            }
            k = k + 5;
        } else if v.len() == 2 && v[0] == '3' && '0' <= v[1] && v[1] <= '7' {
            let d: u32 = (v[1] as u32) - 48;
            fg = Some(basic_color_exec(d));
            k = k + 1;
        } else if is_two(p, '3', '9') {
            fg = None;
            k = k + 1;
        } else if v.len() == 2 && v[0] == '4' && '0' <= v[1] && v[1] <= '7' {
            let d: u32 = (v[1] as u32) - 48;
            bg = Some(basic_color_exec(d));
            k = k + 1;
        } else if is_two(p, '4', '9') {
            bg = None;
            k = k + 1;
        } else {
            k = k + 1;
        }
    }
    (fg, bg)
}

fn ansi_flush_exec(spans: &mut Vec<Span>, cur: &mut Vec<char>, f: Option<Color>, b: Option<Color>)
    ensures
        (spans_view(final(spans)@), final(cur)@, f, b) == ansi_flush((spans_view(old(spans)@), old(cur)@, f, b)),
{
    if cur.len() > 0 {
        let t = string_of(cur);
        push_span(spans, span(t, Style { fg: f, bg: b, bold: false, italic: false, underlined: false, crossed_out: false }));
        *cur = Vec::new();
        assert(cur@ =~= Seq::<char>::empty());
    }
}

/// The spans of a line with ANSI colour codes, as `ansi_spans` says.
#[verifier::rlimit(60)]
pub fn parse_ansi_line(s: &str) -> (r: Vec<Span>)
    ensures
        spans_view(r@) == ansi_spans(s@),
{
    let v = chars_of(s);
    let n = v.len();
    let mut spans: Vec<Span> = Vec::new();
    let mut cur: Vec<char> = Vec::new();
    let mut fg: Option<Color> = None;
    let mut bg: Option<Color> = None;
    let mut i: usize = 0;
    assert(spans_view(spans@) =~= Seq::<SpanView>::empty());
    while i < n
        invariant
            i <= n,
            n == v@.len(),
            v@ == s@,
            ansi_from(v@, i as int, (spans_view(spans@), cur@, fg, bg)) == ansi_from(v@, 0, (Seq::empty(), Seq::empty(), None, None)),
        decreases n - i,
    {
        let c = v[i];
        let ghost st = (spans_view(spans@), cur@, fg, bg);
        if c == '\u{1b}' {
            ansi_flush_exec(&mut spans, &mut cur, fg, bg);
            if i + 1 < n && v[i + 1] == '[' {
                let mut j = i + 2;
                while j < n && !(('a' <= v[j] && v[j] <= 'z') || ('A' <= v[j] && v[j] <= 'Z'))
                    invariant
                        i + 2 <= j <= n,
                        n == v@.len(),
                        letter_at_or_after(v@, i + 2) == letter_at_or_after(v@, j as int),
                    decreases n - j,
                {
                    j = j + 1;
                }
                let code = string_from(&v, i + 2, j);
                proof {
                    reveal_strlit(";");
                    assert(";"@ =~= seq![';']);
                }
                let parts = split_str(code.as_str(), ";");
                assert(crate::browser::strs(parts@) =~= views(parts@));
                let colors = apply_sgr_exec(&parts, fg, bg);
                fg = colors.0;
                bg = colors.1;
                let ni = if j < n { j + 1 } else { n };
                proof {
                    assert(cur@ =~= Seq::<char>::empty());
                    assert(ansi_from(v@, i as int, st) == ansi_from(v@, ni as int, (spans_view(spans@), cur@, fg, bg)));
                }
                i = ni;
            } else {
                proof {
                    assert(ansi_from(v@, i as int, st) == ansi_from(v@, i + 1, (spans_view(spans@), cur@, fg, bg)));
                }
                i = i + 1;
            }
        } else {
            cur.push(c);
            proof {
                assert(ansi_from(v@, i as int, st) == ansi_from(v@, i + 1, (spans_view(spans@), cur@, fg, bg)));
            }
            i = i + 1;
        }
    }
    ansi_flush_exec(&mut spans, &mut cur, fg, bg);
    if spans.len() == 0 {
        let mut out: Vec<Span> = Vec::new();
        push_span(&mut out, span_str(s, style_plain()));
        assert(spans_view(out@) =~= seq![(s@, plain())]);
        out
    } else {
        spans
    }
}


// ---------------------------------------------------------------------------
// Block elements
// ---------------------------------------------------------------------------

/// `n` copies of a character.
pub open spec fn repeat(c: char, n: nat) -> Seq<char> {
    Seq::new(n, |i: int| c)
}

fn repeat_exec(c: char, n: usize) -> (r: String)
    ensures
        r@ == repeat(c, n as nat),
{
    let mut s = String::new();
    let mut i: usize = 0;
    while i < n
        invariant
            i <= n,
            s@ == repeat(c, i as nat),
        decreases n - i,
    {
        push_char(&mut s, c);
        i = i + 1;
        assert(s@ =~= repeat(c, i as nat));
    }
    s
}

pub open spec fn min(a: int, b: int) -> int {
    if a <= b { a } else { b }
}

pub open spec fn sat_sub(a: int, b: int) -> int {
    if a >= b { a - b } else { 0 }
}

/// Upper case for Unicode, as `str::to_uppercase` gives it.
pub uninterp spec fn unicode_upper(s: Seq<char>) -> Seq<char>;

/// `str::to_uppercase`: the claim is only that the answer is std's, a function of the
/// text alone.
#[verifier::external_body]
fn to_uppercase(s: &str) -> (r: String)
    ensures
        r@ == unicode_upper(s@),
{
    s.to_uppercase()
}

/// What the regex `^(\d+)\.\s+(.*)$` captures in a line: the number and the text.
pub uninterp spec fn numbered_of(t: Seq<char>) -> Option<(Seq<char>, Seq<char>)>;

/// `Regex::new(r"^(\d+)\.\s+(.*)$")` and `captures`: the claim is only that the captures
/// are the regex crate's, a function of the line alone.
#[verifier::external_body]
fn numbered_item(t: &str) -> (r: Option<(String, String)>)
    ensures
        match r {
            Some((n, x)) => numbered_of(t@) == Some((n@, x@)),
            None => numbered_of(t@) is None,
        },
{
    let re = regex::Regex::new(r"^(\d+)\.\s+(.*)$").ok()?;
    let caps = re.captures(t)?;
    Some((caps.get(1)?.as_str().to_string(), caps.get(2)?.as_str().to_string()))
}

pub open spec fn h1_spans(t: Seq<char>) -> Seq<SpanView> {
    seq![("━━ "@, fg(header_primary())), (unicode_upper(t), Style { bold: true, ..fg(header_primary()) }), (" ━━"@, fg(header_primary()))]
}

pub open spec fn h2_spans(t: Seq<char>) -> Seq<SpanView> {
    seq![("── "@, fg(header_secondary())), (t, Style { bold: true, ..fg(header_secondary()) })]
}

pub open spec fn h3_spans(t: Seq<char>) -> Seq<SpanView> {
    seq![("   "@, plain()), ("▸ "@, fg(header_tertiary())), (t, Style { bold: true, ..fg(header_tertiary()) })]
}

pub open spec fn h4_spans(t: Seq<char>) -> Seq<SpanView> {
    seq![("     "@, plain()), (t, Style { bold: true, underlined: true, ..fg(text_body()) })]
}

pub open spec fn hr_spans(w: int) -> Seq<SpanView> {
    seq![(repeat('─', min(w, 50) as nat), fg(text_dim()))]
}

pub open spec fn quote_spans(t: Seq<char>) -> Seq<SpanView> {
    seq![("   "@, plain()), ("| "@, fg(accent_quote())), (t, Style { italic: true, ..fg(text_muted()) })]
}

/// The indent of a list item at a nesting level: three spaces, then four per level.
pub open spec fn level_indent(level: nat) -> Seq<char> {
    "   "@ + repeat(' ', 4 * level)
}

pub open spec fn bullet_mark(level: nat) -> Seq<char> {
    if level == 0 { "- "@ } else if level == 1 { "* "@ } else { "+ "@ }
}

pub open spec fn bullet_spans(t: Seq<char>, level: nat) -> Seq<SpanView> {
    seq![(level_indent(level), plain()), (bullet_mark(level), fg(accent_list()))] + inline_spans(t)
}

pub open spec fn number_spans(num: Seq<char>, t: Seq<char>, level: nat) -> Seq<SpanView> {
    seq![(level_indent(level), plain()), (num + ". "@, fg(accent_list()))] + inline_spans(t)
}

pub open spec fn task_spans(t: Seq<char>, done: bool, level: nat) -> Seq<SpanView> {
    seq![
        (level_indent(level), plain()),
        (if done { "[x] "@ } else { "[ ] "@ }, if done { fg(accent_code()) } else { fg(text_dim()) }),
        (t, if done { Style { crossed_out: true, ..fg(text_dim()) } } else { fg(text_body()) }),
    ]
}

/// Code lines are padded to this many characters.
pub open spec fn code_width(w: int) -> int {
    min(sat_sub(w, 8), 70)
}

pub open spec fn code_rule(w: int) -> Seq<SpanView> {
    seq![("   +"@, fg(code_border())), (repeat('-', code_width(w) as nat), fg(code_border()))]
}

/// A line padded with spaces to `n` characters.
pub open spec fn pad_right(l: Seq<char>, n: int) -> Seq<char> {
    if l.len() >= n { l } else { l + repeat(' ', (n - l.len()) as nat) }
}

pub open spec fn code_line(l: Seq<char>, w: int) -> Seq<SpanView> {
    seq![("   | "@, fg(code_border())), (pad_right(l, code_width(w)), Style { bg: Some(code_bg()), ..fg(accent_code()) })]
}

pub open spec fn code_block_lines(ls: Seq<Seq<char>>, w: int) -> Seq<Seq<SpanView>> {
    seq![code_rule(w)] + ls.map_values(|l: Seq<char>| code_line(l, w)) + seq![code_rule(w)]
}

pub open spec fn think_line(l: Seq<char>) -> Seq<SpanView> {
    if trim(l).len() == 0 {
        seq![("   │"@, fg(think_border()))]
    } else {
        seq![("   │ "@, fg(think_border())), (l, Style { italic: true, ..fg(think_text()) })]
    }
}

pub open spec fn think_block_lines(ls: Seq<Seq<char>>, w: int) -> Seq<Seq<SpanView>> {
    seq![seq![
        ("   "@, plain()),
        ("╭─ "@, fg(think_border())),
        ("thinking"@, Style { italic: true, ..fg(think_border()) }),
        (" ─"@ + repeat('─', min(sat_sub(w, 20), 50) as nat), fg(think_border())),
    ]] + ls.map_values(|l: Seq<char>| think_line(l)) + seq![seq![
        ("   "@, plain()),
        ("╰"@, fg(think_border())),
        (repeat('─', min(sat_sub(w, 8), 60) as nat), fg(think_border())),
    ]]
}

pub open spec fn paragraph_spans(text: Seq<char>) -> Seq<SpanView> {
    let extra = min(byte_len(text) - byte_len(trim_start(text)), 24);
    seq![("   "@ + repeat(' ', extra as nat), plain())] + inline_spans(trim_start(text))
}

pub open spec fn image_spans(alt: Seq<char>, url: Seq<char>, w: int) -> Seq<SpanView> {
    let limit = if sat_sub(w, 20) >= 20 { sat_sub(w, 20) } else { 20 };
    seq![
        ("   "@, plain()),
        ("[image] "@, Style { bold: true, ..fg(accent_media()) }),
        (alt, Style { underlined: true, ..fg(accent_link()) }),
        ("  "@, plain()),
        (cut_end(url, limit), fg(text_dim())),
    ]
}

/// Breathing room around a heading: a blank line before unless one precedes, another
/// before major headings, and one after.
pub open spec fn spaced(l: Seq<SpanView>, prev_empty: bool, major: bool) -> Seq<Seq<SpanView>> {
    (if !prev_empty { seq![blank()] } else { Seq::empty() }) + (if major { seq![blank()] } else { Seq::empty() })
        + seq![l, blank()]
}

/// How one line renders (outside code and thinking blocks): blank, image, the four
/// heading levels, rules, quotes, bullets (nested by two leading bytes per level),
/// numbered items, tasks, or a paragraph.
pub open spec fn line_lines(line: Seq<char>, prev_empty: bool, w: int) -> Seq<Seq<SpanView>> {
    let t = trim(line);
    if t.len() == 0 {
        seq![blank()]
    } else {
        match image_syntax(t) {
            Some(p) => seq![image_spans(p.0, p.1, w)],
            None => block_lines(line, t, prev_empty, w),
        }
    }
}

/// How a line that is neither blank nor an image renders, `t` being it trimmed.
pub open spec fn block_lines(line: Seq<char>, t: Seq<char>, prev_empty: bool, w: int) -> Seq<Seq<SpanView>> {
    let level = ((byte_len(line) - byte_len(trim_start(line))) / 2) as nat;
    if starts_with(t, "#### "@) {
        spaced(h4_spans(t.skip(5)), prev_empty, false)
    } else if starts_with(t, "### "@) {
        spaced(h3_spans(t.skip(4)), prev_empty, false)
    } else if starts_with(t, "## "@) {
        spaced(h2_spans(t.skip(3)), prev_empty, true)
    } else if starts_with(t, "# "@) {
        spaced(h1_spans(t.skip(2)), prev_empty, true)
    } else if t == "---"@ || t == "***"@ || t == "___"@ {
        seq![blank(), hr_spans(w), blank()]
    } else if starts_with(t, "> "@) {
        seq![quote_spans(t.skip(2))]
    } else if starts_with(t, "- "@) || starts_with(t, "* "@) {
        seq![bullet_spans(t.skip(2), level)]
    } else {
        match numbered_of(t) {
            Some(p) => seq![number_spans(p.0, p.1, level)],
            None => if starts_with(t, "- [ ] "@) {
                seq![task_spans(t.skip(6), false, level)]
            } else if starts_with(t, "- [x] "@) || starts_with(t, "- [X] "@) {
                seq![task_spans(t.skip(6), true, level)]
            } else {
                seq![paragraph_spans(line)]
            },
        }
    }
}


fn line_of(spans: Vec<Span>) -> (l: Line)
    ensures
        line_view(l) == spans_view(spans@),
{
    Line { spans }
}

fn spans3(a: Span, b: Span, c: Span) -> (v: Vec<Span>)
    ensures
        spans_view(v@) == seq![span_view(a), span_view(b), span_view(c)],
{
    let mut v: Vec<Span> = Vec::new();
    push_span(&mut v, a);
    push_span(&mut v, b);
    push_span(&mut v, c);
    assert(spans_view(v@) =~= seq![span_view(a), span_view(b), span_view(c)]);
    v
}

fn spans2(a: Span, b: Span) -> (v: Vec<Span>)
    ensures
        spans_view(v@) == seq![span_view(a), span_view(b)],
{
    let mut v: Vec<Span> = Vec::new();
    push_span(&mut v, a);
    push_span(&mut v, b);
    assert(spans_view(v@) =~= seq![span_view(a), span_view(b)]);
    v
}

fn append_spans(v: &mut Vec<Span>, more: Vec<Span>)
    ensures
        spans_view(final(v)@) == spans_view(old(v)@) + spans_view(more@),
{
    let mut m = more;
    let ghost before = v@;
    v.append(&mut m);
    assert(spans_view(v@) =~= spans_view(before) + spans_view(more@));
}

fn bold_fg(c: Color) -> (s: Style)
    ensures
        s == (Style { bold: true, ..fg(c) }),
{
    Style { fg: Some(c), bg: None, bold: true, italic: false, underlined: false, crossed_out: false }
}

fn italic_fg(c: Color) -> (s: Style)
    ensures
        s == (Style { italic: true, ..fg(c) }),
{
    Style { fg: Some(c), bg: None, bold: false, italic: true, underlined: false, crossed_out: false }
}

fn underlined_fg(c: Color) -> (s: Style)
    ensures
        s == (Style { underlined: true, ..fg(c) }),
{
    Style { fg: Some(c), bg: None, bold: false, italic: false, underlined: true, crossed_out: false }
}

/// Markdown rendering at a width.
pub struct StyledMarkdown {
    width: usize,
}

impl StyledMarkdown {
    /// The width lines are laid out for.
    pub closed spec fn spec_width(&self) -> usize {
        self.width
    }

    /// A renderer for a width (at least 20).
    pub fn new(width: usize) -> (m: StyledMarkdown)
        ensures
            m.spec_width() == if width >= 20 { width } else { 20 },
    {
        StyledMarkdown { width: if width >= 20 { width } else { 20 } }
    }

    fn render_h1(&self, text: &str) -> (l: Line)
        ensures
            line_view(l) == h1_spans(text@),
    {
        let c = Color::Rgb(82, 139, 255);
        line_of(spans3(span_str("━━ ", style_fg(c)), span(to_uppercase(text), bold_fg(c)), span_str(" ━━", style_fg(c))))
    }

    fn render_h2(&self, text: &str) -> (l: Line)
        ensures
            line_view(l) == h2_spans(text@),
    {
        let c = Color::Rgb(167, 139, 250);
        line_of(spans2(span_str("── ", style_fg(c)), span_str(text, bold_fg(c))))
    }

    fn render_h3(&self, text: &str) -> (l: Line)
        ensures
            line_view(l) == h3_spans(text@),
    {
        let c = Color::Rgb(129, 140, 248);
        line_of(spans3(span_str("   ", style_plain()), span_str("▸ ", style_fg(c)), span_str(text, bold_fg(c))))
    }

    fn render_h4(&self, text: &str) -> (l: Line)
        ensures
            line_view(l) == h4_spans(text@),
    {
        let st = Style { fg: Some(Color::Rgb(229, 231, 235)), bg: None, bold: true, italic: false, underlined: true, crossed_out: false };
        line_of(spans2(span_str("     ", style_plain()), span_str(text, st)))
    }

    fn render_hr(&self) -> (l: Line)
        ensures
            line_view(l) == hr_spans(self.spec_width() as int),
    {
        let n = if self.width <= 50 { self.width } else { 50 };
        let mut v: Vec<Span> = Vec::new();
        push_span(&mut v, span(repeat_exec('─', n), style_fg(Color::Rgb(75, 85, 99))));
        assert(spans_view(v@) =~= hr_spans(self.spec_width() as int));
        line_of(v)
    }

    fn render_quote(&self, text: &str) -> (l: Line)
        ensures
            line_view(l) == quote_spans(text@),
    {
        line_of(spans3(
            span_str("   ", style_plain()),
            span_str("| ", style_fg(Color::Rgb(148, 163, 184))),
            span_str(text, italic_fg(Color::Rgb(156, 163, 175))),
        ))
    }

    fn indent_span(level: usize) -> (s: Span)
        requires
            4 * level <= usize::MAX,
        ensures
            span_view(s) == (level_indent(level as nat), plain()),
    {
        let mut t = owned("   ");
        t.append(repeat_exec(' ', 4 * level).as_str());
        span(t, style_plain())
    }

    fn render_bullet(&self, text: &str, level: usize) -> (l: Line)
        requires
            4 * level <= usize::MAX,
        ensures
            line_view(l) == bullet_spans(text@, level as nat),
    {
        let mark = if level == 0 { "- " } else if level == 1 { "* " } else { "+ " };
        let mut v = spans2(Self::indent_span(level), span_str(mark, style_fg(Color::Rgb(251, 191, 36))));
        append_spans(&mut v, parse_inline(text));
        line_of(v)
    }

    fn render_number(&self, num: &str, text: &str, level: usize) -> (l: Line)
        requires
            4 * level <= usize::MAX,
        ensures
            line_view(l) == number_spans(num@, text@, level as nat),
    {
        let mut v = spans2(Self::indent_span(level), span(concat2(num, ". "), style_fg(Color::Rgb(251, 191, 36))));
        append_spans(&mut v, parse_inline(text));
        line_of(v)
    }

    fn render_task(&self, text: &str, done: bool, level: usize) -> (l: Line)
        requires
            4 * level <= usize::MAX,
        ensures
            line_view(l) == task_spans(text@, done, level as nat),
    {
        let check = if done {
            span_str("[x] ", style_fg(Color::Rgb(52, 211, 153)))
        } else {
            span_str("[ ] ", style_fg(Color::Rgb(75, 85, 99)))
        };
        let body = if done {
            span_str(text, Style { fg: Some(Color::Rgb(75, 85, 99)), bg: None, bold: false, italic: false, underlined: false, crossed_out: true })
        } else {
            span_str(text, style_fg(Color::Rgb(229, 231, 235)))
        };
        line_of(spans3(Self::indent_span(level), check, body))
    }

    fn code_rule_line(&self) -> (l: Line)
        ensures
            line_view(l) == code_rule(self.spec_width() as int),
    {
        let w = self.width.saturating_sub(8);
        let n = if w <= 70 { w } else { 70 };
        let c = Color::Rgb(55, 55, 62);
        line_of(spans2(span_str("   +", style_fg(c)), span(repeat_exec('-', n), style_fg(c))))
    }

    fn render_code_block(&self, lines: &Vec<String>) -> (r: Vec<Line>)
        ensures
            lines_view(r@) == code_block_lines(views(lines@), self.spec_width() as int),
    {
        let w = self.width.saturating_sub(8);
        let n = if w <= 70 { w } else { 70 };
        let mut out: Vec<Line> = Vec::new();
        push_line(&mut out, self.code_rule_line());
        let ghost head = lines_view(out@);
        let mut i: usize = 0;
        while i < lines.len()
            invariant
                i <= lines.len(),
                n == code_width(self.spec_width() as int),
                head == seq![code_rule(self.spec_width() as int)],
                lines_view(out@) == head + views(lines@).take(i as int).map_values(|l: Seq<char>| code_line(l, self.spec_width() as int)),
            decreases lines.len() - i,
        {
            let l = &lines[i];
            let cnt = crate::text::char_count(l.as_str());
            let mut padded = l.clone();
            if cnt < n {
                padded.append(repeat_exec(' ', n - cnt).as_str());
            }
            assert(padded@ =~= pad_right(l@, n as int));
            assert(views(lines@)[i as int] == l@);
            let c = Color::Rgb(55, 55, 62);
            let st = Style { fg: Some(Color::Rgb(52, 211, 153)), bg: Some(Color::Rgb(24, 24, 27)), bold: false, italic: false, underlined: false, crossed_out: false };
            let ln = line_of(spans2(span_str("   | ", style_fg(c)), span(padded, st)));
            assert(line_view(ln) == code_line(l@, self.spec_width() as int));
            push_line(&mut out, ln);
            i = i + 1;
            assert(lines_view(out@) =~= head + views(lines@).take(i as int).map_values(|l: Seq<char>| code_line(l, self.spec_width() as int)));
        }
        assert(views(lines@).take(lines@.len() as int) =~= views(lines@));
        push_line(&mut out, self.code_rule_line());
        assert(lines_view(out@) =~= code_block_lines(views(lines@), self.spec_width() as int));
        out
    }

    fn render_think_block(&self, lines: &Vec<String>) -> (r: Vec<Line>)
        ensures
            lines_view(r@) == think_block_lines(views(lines@), self.spec_width() as int),
    {
        let b = Color::Rgb(88, 88, 110);
        let w20 = self.width.saturating_sub(20);
        let n1 = if w20 <= 50 { w20 } else { 50 };
        let mut tail = owned(" ─");
        tail.append(repeat_exec('─', n1).as_str());
        let mut header: Vec<Span> = Vec::new();
        push_span(&mut header, span_str("   ", style_plain()));
        push_span(&mut header, span_str("╭─ ", style_fg(b)));
        push_span(&mut header, span_str("thinking", italic_fg(b)));
        push_span(&mut header, span(tail, style_fg(b)));
        assert(spans_view(header@) =~= think_block_lines(views(lines@), self.spec_width() as int)[0]);
        let mut out: Vec<Line> = Vec::new();
        push_line(&mut out, line_of(header));
        let ghost head = lines_view(out@);
        let mut i: usize = 0;
        while i < lines.len()
            invariant
                i <= lines.len(),
                lines_view(out@) == head + views(lines@).take(i as int).map_values(|l: Seq<char>| think_line(l)),
            decreases lines.len() - i,
        {
            let l = &lines[i];
            assert(views(lines@)[i as int] == l@);
            let blank_text = trim_str(l.as_str()).as_str().is_empty();
            let line = if blank_text {
                let mut v: Vec<Span> = Vec::new();
                push_span(&mut v, span_str("   │", style_fg(Color::Rgb(88, 88, 110))));
                line_of(v)
            } else {
                line_of(spans2(span_str("   │ ", style_fg(Color::Rgb(88, 88, 110))), span(l.clone(), italic_fg(Color::Rgb(140, 140, 170)))))
            };
            assert(line_view(line) =~= think_line(l@));
            push_line(&mut out, line);
            i = i + 1;
            assert(lines_view(out@) =~= head + views(lines@).take(i as int).map_values(|l: Seq<char>| think_line(l)));
        }
        assert(views(lines@).take(lines@.len() as int) =~= views(lines@));
        let w8 = self.width.saturating_sub(8);
        let n2 = if w8 <= 60 { w8 } else { 60 };
        let foot = line_of(spans3(span_str("   ", style_plain()), span_str("╰", style_fg(b)), span(repeat_exec('─', n2), style_fg(b))));
        let ghost tb = think_block_lines(views(lines@), self.spec_width() as int);
        assert(line_view(foot) == tb[tb.len() - 1]);
        push_line(&mut out, foot);
        assert(lines_view(out@) =~= tb);
        out
    }

    fn render_paragraph(&self, text: &str) -> (l: Line)
        ensures
            line_view(l) == paragraph_spans(text@),
    {
        let ts = trim_start_str(text);
        proof {
            crate::text::lemma_trim_start_bytes(text@);
        }
        let lead = str_bytes(text) - str_bytes(ts.as_str());
        let extra = if lead <= 24 { lead } else { 24 };
        let mut prefix = owned("   ");
        prefix.append(repeat_exec(' ', extra).as_str());
        let mut v: Vec<Span> = Vec::new();
        push_span(&mut v, span(prefix, style_plain()));
        append_spans(&mut v, parse_inline(ts.as_str()));
        line_of(v)
    }

    fn render_image(&self, alt: &str, url: &str) -> (l: Line)
        ensures
            line_view(l) == image_spans(alt@, url@, self.spec_width() as int),
    {
        let w = self.width.saturating_sub(20);
        let limit = if w >= 20 { w } else { 20 };
        let u = truncate_end(url, limit);
        let mut v: Vec<Span> = Vec::new();
        push_span(&mut v, span_str("   ", style_plain()));
        push_span(&mut v, span_str("[image] ", bold_fg(Color::Rgb(245, 158, 11))));
        push_span(&mut v, span_str(alt, underlined_fg(Color::Rgb(96, 165, 250))));
        push_span(&mut v, span_str("  ", style_plain()));
        push_span(&mut v, span(u, style_fg(Color::Rgb(75, 85, 99))));
        assert(spans_view(v@) =~= image_spans(alt@, url@, self.spec_width() as int));
        line_of(v)
    }

    fn with_spacing(&self, line: Line, prev_empty: bool, major: bool) -> (r: Vec<Line>)
        ensures
            lines_view(r@) == spaced(line_view(line), prev_empty, major),
    {
        let mut out: Vec<Line> = Vec::new();
        if !prev_empty {
            push_line(&mut out, blank_line());
        }
        if major {
            push_line(&mut out, blank_line());
        }
        push_line(&mut out, line);
        push_line(&mut out, blank_line());
        assert(lines_view(out@) =~= spaced(line_view(line), prev_empty, major));
        out
    }
}


/// The state of rendering: lines so far, whether a code block and a thinking block are
/// open, their pending lines, and whether the last line was blank.
pub type RenderState = (Seq<Seq<SpanView>>, bool, bool, Seq<Seq<char>>, Seq<Seq<char>>, bool);

/// One line of rendering. A `<think>` line opens a thinking block (text after the tag
/// on the same line joins it); a line ending in `</think>` closes it and shows it; lines
/// inside it gather; lines with escape characters show their ANSI colours; fences open
/// and close code blocks (shown when closed); other lines render by themselves.
pub open spec fn render_step(st: RenderState, line: Seq<char>, w: int) -> RenderState {
    let t = trim(line);
    if starts_with(t, "<think>"@) {
        let out = if !st.5 { st.0.push(blank()) } else { st.0 };
        let after = trim(t.skip(7));
        let think = if after.len() > 0 && after != "</think>"@ { st.4.push(after) } else { st.4 };
        (out, st.1, true, st.3, think, st.5)
    } else if ends_with(t, "</think>"@) {
        let out = if st.4.len() > 0 { st.0 + think_block_lines(st.4, w) + seq![blank()] } else { st.0 };
        (out, st.1, false, st.3, Seq::empty(), true)
    } else if st.2 {
        (st.0, st.1, st.2, st.3, st.4.push(line), st.5)
    } else if contains_char(line, '\u{1b}') {
        (st.0.push(ansi_spans(line)), st.1, st.2, st.3, st.4, false)
    } else if starts_with(t, "```"@) {
        if st.1 {
            (st.0 + code_block_lines(st.3, w) + seq![blank()], false, st.2, Seq::empty(), st.4, true)
        } else {
            (if !st.5 { st.0.push(blank()) } else { st.0 }, true, st.2, st.3, st.4, st.5)
        }
    } else if st.1 {
        (st.0, st.1, st.2, st.3.push(line), st.4, st.5)
    } else {
        (st.0 + line_lines(line, st.5, w), st.1, st.2, st.3, st.4, t.len() == 0)
    }
}

/// The state after some lines.
pub open spec fn render_state(lines: Seq<Seq<char>>, w: int) -> RenderState
    decreases lines.len(),
{
    if lines.len() == 0 {
        (Seq::empty(), false, false, Seq::empty(), Seq::empty(), true)
    } else {
        render_step(render_state(lines.drop_last(), w), lines.last(), w)
    }
}

/// Rendered lines: every line's rendering, then an unclosed code block and an unclosed
/// thinking block.
pub open spec fn rendered(lines: Seq<Seq<char>>, w: int) -> Seq<Seq<SpanView>> {
    let st = render_state(lines, w);
    st.0 + (if st.3.len() > 0 { code_block_lines(st.3, w) } else { Seq::empty() }) + (if st.4.len() > 0 {
        think_block_lines(st.4, w)
    } else {
        Seq::empty()
    })
}

/// Every line fits in an allocation (`isize::MAX` bytes).
pub open spec fn lines_fit(lines: Seq<String>) -> bool {
    forall|i: int| 0 <= i < lines.len() ==> byte_len(#[trigger] lines[i]@) <= isize::MAX
}

impl StyledMarkdown {
    /// How one line renders, as `line_lines` says.
    pub fn render_line(&self, line: &str, prev_empty: bool) -> (r: Vec<Line>)
        requires
            byte_len(line@) <= isize::MAX,
        ensures
            lines_view(r@) == line_lines(line@, prev_empty, self.spec_width() as int),
    {
        let ts = trim_str(line);
        let t = ts.as_str();
        let mut out: Vec<Line> = Vec::new();
        if t.is_empty() {
            push_line(&mut out, blank_line());
            assert(lines_view(out@) =~= seq![blank()]);
            return out;
        }
        match parse_image_syntax(t) {
            Some((alt, url)) => {
                push_line(&mut out, self.render_image(alt.as_str(), url.as_str()));
                assert(lines_view(out@) =~= line_lines(line@, prev_empty, self.spec_width() as int));
                return out;
            },
            None => {},
        }
        self.render_block(line, t, prev_empty)
    }

    #[verifier::rlimit(60)]
    fn render_block(&self, line: &str, t: &str, prev_empty: bool) -> (r: Vec<Line>)
        requires
            byte_len(line@) <= isize::MAX,
            t@ == trim(line@),
        ensures
            lines_view(r@) == block_lines(line@, t@, prev_empty, self.spec_width() as int),
    {
        let ts = trim_start_str(line);
        proof {
            crate::text::lemma_trim_start_bytes(line@);
        }
        let level = (str_bytes(line) - str_bytes(ts.as_str())) / 2;
        let mut out: Vec<Line> = Vec::new();
        proof {
            reveal_strlit("#### ");
            reveal_strlit("### ");
            reveal_strlit("## ");
            reveal_strlit("# ");
            reveal_strlit("> ");
            reveal_strlit("- ");
            reveal_strlit("* ");
            reveal_strlit("- [ ] ");
            reveal_strlit("- [x] ");
            reveal_strlit("- [X] ");
        }
        if str_starts_with(t, "#### ") {
            return self.with_spacing(self.render_h4(str_skip(t, 5).as_str()), prev_empty, false);
        }
        if str_starts_with(t, "### ") {
            return self.with_spacing(self.render_h3(str_skip(t, 4).as_str()), prev_empty, false);
        }
        if str_starts_with(t, "## ") {
            return self.with_spacing(self.render_h2(str_skip(t, 3).as_str()), prev_empty, true);
        }
        if str_starts_with(t, "# ") {
            return self.with_spacing(self.render_h1(str_skip(t, 2).as_str()), prev_empty, true);
        }
        if str_eq(t, "---") || str_eq(t, "***") || str_eq(t, "___") {
            push_line(&mut out, blank_line());
            push_line(&mut out, self.render_hr());
            push_line(&mut out, blank_line());
            assert(lines_view(out@) =~= block_lines(line@, t@, prev_empty, self.spec_width() as int));
            return out;
        }
        if str_starts_with(t, "> ") {
            push_line(&mut out, self.render_quote(str_skip(t, 2).as_str()));
            assert(lines_view(out@) =~= block_lines(line@, t@, prev_empty, self.spec_width() as int));
            return out;
        }
        if str_starts_with(t, "- ") || str_starts_with(t, "* ") {
            push_line(&mut out, self.render_bullet(str_skip(t, 2).as_str(), level));
            assert(lines_view(out@) =~= block_lines(line@, t@, prev_empty, self.spec_width() as int));
            return out;
        }
        match numbered_item(t) {
            Some((num, text)) => {
                push_line(&mut out, self.render_number(num.as_str(), text.as_str(), level));
                assert(lines_view(out@) =~= block_lines(line@, t@, prev_empty, self.spec_width() as int));
                return out;
            },
            None => {},
        }
        if str_starts_with(t, "- [ ] ") {
            push_line(&mut out, self.render_task(str_skip(t, 6).as_str(), false, level));
        } else if str_starts_with(t, "- [x] ") || str_starts_with(t, "- [X] ") {
            push_line(&mut out, self.render_task(str_skip(t, 6).as_str(), true, level));
        } else {
            push_line(&mut out, self.render_paragraph(line));
        }
        assert(lines_view(out@) =~= block_lines(line@, t@, prev_empty, self.spec_width() as int));
        out
    }
}

fn str_skip(s: &str, k: usize) -> (r: String)
    requires
        k <= s@.len(),
    ensures
        r@ == s@.skip(k as int),
{
    let v = chars_of(s);
    assert(v@.subrange(k as int, v@.len() as int) =~= s@.skip(k as int));
    string_from(&v, k, v.len())
}


impl StyledMarkdown {
    /// Render lines, as `rendered` says.
    #[verifier::rlimit(80)]
    pub fn render(&self, lines: &[String]) -> (r: Vec<Line>)
        requires
            lines_fit(lines@),
        ensures
            lines_view(r@) == rendered(views(lines@), self.spec_width() as int),
    {
        let ghost w = self.spec_width() as int;
        let ghost ls = views(lines@);
        let mut out: Vec<Line> = Vec::new();
        let mut in_code = false;
        let mut in_think = false;
        let mut code: Vec<String> = Vec::new();
        let mut think: Vec<String> = Vec::new();
        let mut prev_empty = true;
        let mut i: usize = 0;
        assert(lines_view(out@) =~= Seq::<Seq<SpanView>>::empty());
        assert(views(code@) =~= Seq::<Seq<char>>::empty());
        assert(views(think@) =~= Seq::<Seq<char>>::empty());
        while i < lines.len()
            invariant
                i <= lines.len(),
                ls == views(lines@),
                w == self.spec_width() as int,
                lines_fit(lines@),
                (lines_view(out@), in_code, in_think, views(code@), views(think@), prev_empty) == render_state(ls.take(i as int), w),
            decreases lines.len() - i,
        {
            proof {
                assert(ls.take(i as int + 1).drop_last() =~= ls.take(i as int));
                assert(ls.take(i as int + 1).last() == lines@[i as int]@);
            }
            let ghost st = (lines_view(out@), in_code, in_think, views(code@), views(think@), prev_empty);
            let line = &lines[i];
            let ts = trim_str(line.as_str());
            let t = ts.as_str();
            proof {
                reveal_strlit("<think>");
                reveal_strlit("</think>");
            }
            if str_starts_with(t, "<think>") {
                if !prev_empty {
                    push_line(&mut out, blank_line());
                }
                in_think = true;
                let after = trim_str(str_skip(t, 7).as_str());
                if !after.as_str().is_empty() && !str_eq(after.as_str(), "</think>") {
                    let ghost before = think@;
                    think.push(after);
                    proof {
                        lemma_views_push(before, think@.last());
                    }
                }
            } else if str_ends_with(t, "</think>") {
                if think.len() > 0 {
                    append_lines(&mut out, self.render_think_block(&think));
                    push_line(&mut out, blank_line());
                }
                think = Vec::new();
                in_think = false;
                prev_empty = true;
                assert(views(think@) =~= Seq::<Seq<char>>::empty());
            } else if in_think {
                let ghost before = think@;
                think.push(line.clone());
                proof {
                    lemma_views_push(before, think@.last());
                }
            } else if crate::text::vec_contains_char(&chars_of(line.as_str()), '\u{1b}') {
                let mut l: Vec<Span> = parse_ansi_line(line.as_str());
                push_line(&mut out, line_of(l));
                prev_empty = false;
            } else if str_starts_with(t, "```") {
                if in_code {
                    append_lines(&mut out, self.render_code_block(&code));
                    push_line(&mut out, blank_line());
                    code = Vec::new();
                    in_code = false;
                    prev_empty = true;
                    assert(views(code@) =~= Seq::<Seq<char>>::empty());
                } else {
                    if !prev_empty {
                        push_line(&mut out, blank_line());
                    }
                    in_code = true;
                }
            } else if in_code {
                let ghost before = code@;
                code.push(line.clone());
                proof {
                    lemma_views_push(before, code@.last());
                }
            } else {
                assert(byte_len(lines@[i as int]@) <= isize::MAX);
                let rendered_lines = self.render_line(line.as_str(), prev_empty);
                prev_empty = t.is_empty();
                append_lines(&mut out, rendered_lines);
            }
            assert((lines_view(out@), in_code, in_think, views(code@), views(think@), prev_empty) == render_step(st, ls[i as int], w));
            i = i + 1;
        }
        assert(ls.take(lines@.len() as int) =~= ls);
        if code.len() > 0 {
            append_lines(&mut out, self.render_code_block(&code));
        }
        if think.len() > 0 {
            append_lines(&mut out, self.render_think_block(&think));
        }
        proof {
            let st = render_state(ls, w);
            if st.3.len() == 0 {
                assert(st.0 + Seq::<Seq<SpanView>>::empty() =~= st.0);
            }
        }
        assert(lines_view(out@) =~= rendered(ls, w));
        out
    }
}

} // verus!
