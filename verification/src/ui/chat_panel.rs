//! The lines the chat panel shows: each message laid out by its role, then wrapped to
//! the panel's width.
use vstd::prelude::*;
use crate::chat::{ChatMessage, Role, ToolCall};
use crate::text::{views, lines, str_lines, byte_len, chars_of, longer_than_bytes, owned, char_count};
use crate::ui::color::Color;
use crate::ui::markdown::{Style, Span, Line, SpanView, span_view, spans_view, line_view, lines_view, plain, StyledMarkdown, rendered};
use crate::ui::view::{truncated, truncate_to_width, user_display, user_message_display, wrapped, wrap_text, display_width, str_width};

verus! {

/// The colours of the chat: the user's prompt mark, the user's text, tool calls, and
/// tool results.
#[derive(Debug, Clone, Copy)]
pub struct ChatColors {
    pub prefix: Color,
    pub text: Color,
    pub tool: Color,
    pub tool_result: Color,
}

/// A style with only a foreground colour.
pub open spec fn fg(c: Color) -> Style {
    Style { fg: Some(c), ..plain() }
}

fn fg_style(c: Color) -> (s: Style)
    ensures
        s == fg(c),
{
    Style { fg: Some(c), bg: None, bold: false, italic: false, underlined: false, crossed_out: false }
}

/// `a - b`, or zero where `b` is larger.
pub open spec fn sat(a: int, b: int) -> int {
    if a >= b { a - b } else { 0 }
}

/// The lines of one tool call: a gear and the tool's name.
pub open spec fn tool_call_lines(tcs: Seq<ToolCall>, c: ChatColors) -> Seq<Seq<SpanView>> {
    Seq::new(tcs.len(), |i: int| seq![("  ⚙ "@, fg(c.tool)), (tcs[i].name@, fg(c.tool))])
}

/// How a message shows: the system's not at all; the user's on one line after a prompt
/// mark, cut to the width; the assistant's tool calls, then its text rendered as markdown
/// with the first line indented; a tool's result on one line, cut to the width.
pub open spec fn message_lines(m: ChatMessage, w: usize, c: ChatColors) -> Seq<Seq<SpanView>> {
    match m.role {
        Role::System => Seq::empty(),
        Role::User => seq![seq![("› "@, fg(c.prefix)), (truncated(user_display(m.content@), sat(w as int, 3)), fg(c.text))]],
        Role::Assistant => {
            let calls = match m.tool_calls {
                Some(tcs) => tool_call_lines(tcs@, c),
                None => Seq::empty(),
            };
            let styled = rendered(lines(m.content@), if w >= 20 { w as int } else { 20 });
            calls + if m.content@.len() > 0 && styled.len() > 0 {
                seq![seq![("  "@, plain())] + styled[0]] + styled.skip(1)
            } else {
                Seq::empty()
            }
        },
        Role::Tool => seq![seq![("    ↳ "@, fg(c.tool_result)), (truncated(m.content@, sat(w as int, 6)), fg(c.tool_result))]],
    }
}

/// Every message's lines, in order.
pub open spec fn messages_lines(ms: Seq<ChatMessage>, w: usize, c: ChatColors) -> Seq<Seq<SpanView>>
    decreases ms.len(),
{
    if ms.len() == 0 {
        Seq::empty()
    } else {
        messages_lines(ms.drop_last(), w, c) + message_lines(ms.last(), w, c)
    }
}

/// The display width of a line: the sum of its spans' widths.
pub open spec fn line_width(l: Seq<SpanView>) -> nat
    decreases l.len(),
{
    if l.len() == 0 { 0 } else { line_width(l.drop_last()) + display_width(l.last().0) }
}

/// A line's text: its spans' texts one after another.
pub open spec fn line_text(l: Seq<SpanView>) -> Seq<char>
    decreases l.len(),
{
    if l.len() == 0 { Seq::empty() } else { line_text(l.drop_last()) + l.last().0 }
}

/// A line as it is shown at width `ww`: as it is when it is blank or fits in `ww` bytes;
/// else its text wrapped, each piece in the style of its first span.
pub open spec fn wrap_line(l: Seq<SpanView>, ww: usize) -> Seq<Seq<SpanView>> {
    if line_width(l) == 0 {
        seq![l]
    } else if byte_len(line_text(l)) > ww && ww > 0 {
        let style = if l.len() > 0 { l[0].1 } else { plain() };
        let pieces = wrapped(line_text(l), ww);
        Seq::new(pieces.len(), |i: int| seq![(pieces[i], style)])
    } else {
        seq![l]
    }
}

/// Every line as it is shown at width `ww`.
pub open spec fn wrap_lines(ls: Seq<Seq<SpanView>>, ww: usize) -> Seq<Seq<SpanView>>
    decreases ls.len(),
{
    if ls.len() == 0 { Seq::empty() } else { wrap_lines(ls.drop_last(), ww) + wrap_line(ls.last(), ww) }
}

/// Every assistant message's lines fit in an allocation.
pub open spec fn messages_fit(ms: Seq<ChatMessage>) -> bool {
    forall|i: int, j: int| 0 <= i < ms.len() && 0 <= j < lines(ms[i].content@).len()
        ==> byte_len(#[trigger] lines(ms[i].content@)[j]) <= isize::MAX
}

fn span(text: String, style: Style) -> (s: Span)
    ensures
        span_view(s) == (text@, style),
{
    Span { text, style }
}

fn two_span_line(a: String, sa: Style, b: String, sb: Style) -> (l: Line)
    ensures
        line_view(l) == seq![(a@, sa), (b@, sb)],
{
    let mut spans: Vec<Span> = Vec::new();
    spans.push(span(a, sa));
    spans.push(span(b, sb));
    assert(spans_view(spans@) =~= seq![(a@, sa), (b@, sb)]);
    Line { spans }
}

fn one_span_line(a: String, sa: Style) -> (l: Line)
    ensures
        line_view(l) == seq![(a@, sa)],
{
    let mut spans: Vec<Span> = Vec::new();
    spans.push(span(a, sa));
    assert(spans_view(spans@) =~= seq![(a@, sa)]);
    Line { spans }
}

fn message_lines_of(m: &ChatMessage, md: &StyledMarkdown, w: usize, c: ChatColors) -> (r: Vec<Line>)
    requires
        md.spec_width() == if w >= 20 { w } else { 20 },
        forall|j: int| 0 <= j < lines(m.content@).len() ==> byte_len(#[trigger] lines(m.content@)[j]) <= isize::MAX,
    ensures
        lines_view(r@) == message_lines(*m, w, c),
{
    let mut r: Vec<Line> = Vec::new();
    match m.role {
        Role::System => {
            assert(lines_view(r@) =~= message_lines(*m, w, c));
        },
        Role::User => {
            let shown = user_message_display(m.content.as_str());
            let cut = truncate_to_width(shown.as_str(), w.saturating_sub(3));
            let l = two_span_line(owned("› "), fg_style(c.prefix), cut, fg_style(c.text));
            r.push(l);
            assert(lines_view(r@) =~= seq![line_view(l)]);
            assert(lines_view(r@) =~= message_lines(*m, w, c));
        },
        Role::Assistant => {
            match &m.tool_calls {
                Some(tcs) => {
                    let mut i: usize = 0;
                    while i < tcs.len()
                        invariant
                            i <= tcs@.len(),
                            lines_view(r@) == tool_call_lines(tcs@, c).take(i as int),
                        decreases tcs.len() - i,
                    {
                        let l = two_span_line(owned("  ⚙ "), fg_style(c.tool), owned(tcs[i].name.as_str()), fg_style(c.tool));
                        assert(line_view(l) =~= tool_call_lines(tcs@, c)[i as int]);
                        let ghost before = r@;
                        r.push(l);
                        assert(lines_view(r@) =~= lines_view(before).push(line_view(l)));
                        assert(tool_call_lines(tcs@, c).take(i + 1) =~= tool_call_lines(tcs@, c).take(i as int).push(tool_call_lines(tcs@, c)[i as int]));
                        i = i + 1;
                    }
                    assert(tool_call_lines(tcs@, c).take(tcs@.len() as int) =~= tool_call_lines(tcs@, c));
                },
                None => {
                    assert(lines_view(r@) =~= Seq::<Seq<SpanView>>::empty());
                },
            }
            let ghost calls = lines_view(r@);
            if char_count(m.content.as_str()) > 0 {
                let ls = str_lines(m.content.as_str());
                proof {
                    assert forall|j: int| 0 <= j < ls@.len() implies byte_len(#[trigger] ls@[j]@) <= isize::MAX by {
                        assert(views(ls@)[j] == ls@[j]@);
                    }
                }
                let sl = ls.as_slice();
                assert(sl@ == ls@);
                let styled = md.render(sl);
                if styled.len() > 0 {
                    let mut first: Vec<Span> = Vec::new();
                    first.push(span(owned("  "), plain_style()));
                    let mut k: usize = 0;
                    while k < styled[0].spans.len()
                        invariant
                            styled@.len() > 0,
                            k <= styled@[0].spans@.len(),
                            spans_view(first@) == seq![("  "@, plain())] + spans_view(styled@[0].spans@).take(k as int),
                        decreases styled@[0].spans@.len() - k,
                    {
                        let sp = &styled[0].spans[k];
                        let ghost before = first@;
                        first.push(span(owned(sp.text.as_str()), sp.style));
                        assert(spans_view(first@) =~= spans_view(before).push(span_view(styled@[0].spans@[k as int])));
                        assert(spans_view(styled@[0].spans@).take(k + 1) =~= spans_view(styled@[0].spans@).take(k as int).push(span_view(styled@[0].spans@[k as int])));
                        k = k + 1;
                    }
                    assert(spans_view(styled@[0].spans@).take(styled@[0].spans@.len() as int) =~= spans_view(styled@[0].spans@));
                    let ghost before = r@;
                    r.push(Line { spans: first });
                    let mut j: usize = 1;
                    while j < styled.len()
                        invariant
                            1 <= j <= styled@.len(),
                            lines_view(r@) == calls + seq![seq![("  "@, plain())] + line_view(styled@[0])] + lines_view(styled@).subrange(1, j as int),
                        decreases styled.len() - j,
                    {
                        let l = Line { spans: copy_spans(&styled[j].spans) };
                        let ghost b2 = r@;
                        r.push(l);
                        assert(lines_view(r@) =~= lines_view(b2).push(line_view(styled@[j as int])));
                        assert(lines_view(styled@).subrange(1, j + 1) =~= lines_view(styled@).subrange(1, j as int).push(line_view(styled@[j as int])));
                        j = j + 1;
                    }
                    assert(lines_view(styled@).subrange(1, styled@.len() as int) =~= lines_view(styled@).skip(1));
                    assert(lines_view(r@) =~= message_lines(*m, w, c));
                } else {
                    assert(lines_view(r@) =~= message_lines(*m, w, c));
                }
            } else {
                assert(lines_view(r@) =~= message_lines(*m, w, c));
            }
        },
        Role::Tool => {
            let cut = truncate_to_width(m.content.as_str(), w.saturating_sub(6));
            let l = two_span_line(owned("    ↳ "), fg_style(c.tool_result), cut, fg_style(c.tool_result));
            r.push(l);
            assert(lines_view(r@) =~= seq![line_view(l)]);
            assert(lines_view(r@) =~= message_lines(*m, w, c));
        },
    }
    r
}

fn plain_style() -> (s: Style)
    ensures
        s == plain(),
{
    Style { fg: None, bg: None, bold: false, italic: false, underlined: false, crossed_out: false }
}

fn copy_spans(v: &Vec<Span>) -> (r: Vec<Span>)
    ensures
        spans_view(r@) == spans_view(v@),
{
    let mut r: Vec<Span> = Vec::new();
    let mut i: usize = 0;
    while i < v.len()
        invariant
            i <= v@.len(),
            spans_view(r@) == spans_view(v@).take(i as int),
        decreases v.len() - i,
    {
        let ghost before = r@;
        r.push(span(owned(v[i].text.as_str()), v[i].style));
        assert(spans_view(r@) =~= spans_view(before).push(span_view(v@[i as int])));
        assert(spans_view(v@).take(i + 1) =~= spans_view(v@).take(i as int).push(span_view(v@[i as int])));
        i = i + 1;
    }
    assert(spans_view(v@).take(v@.len() as int) =~= spans_view(v@));
    r
}

fn line_width_of(l: &Line) -> (r: (bool, String))
    ensures
        r.0 == (line_width(line_view(*l)) == 0),
        r.1@ == line_text(line_view(*l)),
{
    let mut zero = true;
    let mut text = String::new();
    let mut i: usize = 0;
    while i < l.spans.len()
        invariant
            i <= l.spans@.len(),
            zero == (line_width(line_view(*l).take(i as int)) == 0),
            text@ == line_text(line_view(*l).take(i as int)),
        decreases l.spans.len() - i,
    {
        let w = str_width(l.spans[i].text.as_str());
        proof {
            assert(line_view(*l).take(i + 1).drop_last() =~= line_view(*l).take(i as int));
        }
        if w > 0 {
            zero = false;
        }
        text.append(l.spans[i].text.as_str());
        i = i + 1;
    }
    assert(line_view(*l).take(l.spans@.len() as int) =~= line_view(*l));
    (zero, text)
}

fn lay_out(messages: &Vec<ChatMessage>, md_width: usize, colors: ChatColors) -> (r: Vec<Line>)
    requires
        messages_fit(messages@),
    ensures
        lines_view(r@) == messages_lines(messages@, md_width, colors),
{
    let md = StyledMarkdown::new(md_width);
    let mut all: Vec<Line> = Vec::new();
    let mut i: usize = 0;
    while i < messages.len()
        invariant
            i <= messages@.len(),
            md.spec_width() == if md_width >= 20 { md_width } else { 20 },
            messages_fit(messages@),
            lines_view(all@) == messages_lines(messages@.take(i as int), md_width, colors),
        decreases messages.len() - i,
    {
        proof {
            assert forall|j: int| 0 <= j < lines(messages@[i as int].content@).len()
                implies byte_len(#[trigger] lines(messages@[i as int].content@)[j]) <= isize::MAX by {
            }
        }
        let ls = message_lines_of(&messages[i], &md, md_width, colors);
        let ghost before = all@;
        let mut k: usize = 0;
        while k < ls.len()
            invariant
                k <= ls@.len(),
                lines_view(all@) == lines_view(before) + lines_view(ls@).take(k as int),
            decreases ls.len() - k,
        {
            let l = Line { spans: copy_spans(&ls[k].spans) };
            let ghost b2 = all@;
            all.push(l);
            assert(lines_view(all@) =~= lines_view(b2).push(line_view(ls@[k as int])));
            assert(lines_view(ls@).take(k + 1) =~= lines_view(ls@).take(k as int).push(line_view(ls@[k as int])));
            k = k + 1;
        }
        assert(lines_view(ls@).take(ls@.len() as int) =~= lines_view(ls@));
        assert(messages@.take(i + 1).drop_last() =~= messages@.take(i as int));
        i = i + 1;
    }
    assert(messages@.take(messages@.len() as int) =~= messages@);
    all
}

fn wrap_one(l: &Line, wrap_width: usize) -> (r: Vec<Line>)
    ensures
        lines_view(r@) == wrap_line(line_view(*l), wrap_width),
{
    let (zero, text) = line_width_of(l);
    let tv = chars_of(text.as_str());
    let mut out: Vec<Line> = Vec::new();
    if !zero && wrap_width > 0 && longer_than_bytes(&tv, wrap_width) {
        let style = if l.spans.len() > 0 { l.spans[0].style } else { plain_style() };
        let pieces = wrap_text(text.as_str(), wrap_width);
        let mut p: usize = 0;
        while p < pieces.len()
            invariant
                p <= pieces@.len(),
                views(pieces@) == wrapped(text@, wrap_width),
                lines_view(out@) == Seq::new(p as nat, |q: int| seq![(views(pieces@)[q], style)]),
            decreases pieces.len() - p,
        {
            let one = one_span_line(owned(pieces[p].as_str()), style);
            let ghost b2 = out@;
            out.push(one);
            assert(lines_view(out@) =~= lines_view(b2).push(seq![(views(pieces@)[p as int], style)]));
            assert(lines_view(out@) =~= Seq::new((p + 1) as nat, |q: int| seq![(views(pieces@)[q], style)]));
            p = p + 1;
        }
        assert(lines_view(out@) =~= wrap_line(line_view(*l), wrap_width));
    } else {
        let c = Line { spans: copy_spans(&l.spans) };
        out.push(c);
        assert(lines_view(out@) =~= wrap_line(line_view(*l), wrap_width));
    }
    out
}

/// The chat panel's lines: every message laid out (markdown at `md_width`, at least 20),
/// then every line wrapped at `wrap_width`.
pub fn chat_lines(messages: &Vec<ChatMessage>, md_width: usize, wrap_width: usize, colors: ChatColors) -> (r: Vec<Line>)
    requires
        messages_fit(messages@),
    ensures
        lines_view(r@) == wrap_lines(messages_lines(messages@, md_width, colors), wrap_width),
{
    let all = lay_out(messages, md_width, colors);
    let ghost laid = lines_view(all@);
    let mut out: Vec<Line> = Vec::new();
    let mut j: usize = 0;
    while j < all.len()
        invariant
            j <= all@.len(),
            laid == lines_view(all@),
            lines_view(out@) == wrap_lines(laid.take(j as int), wrap_width),
        decreases all.len() - j,
    {
        let ws = wrap_one(&all[j], wrap_width);
        proof {
            assert(laid.take(j + 1).drop_last() =~= laid.take(j as int));
            assert(laid.take(j + 1).last() == line_view(all@[j as int]));
        }
        let ghost before = out@;
        let mut k: usize = 0;
        while k < ws.len()
            invariant
                k <= ws@.len(),
                lines_view(out@) == lines_view(before) + lines_view(ws@).take(k as int),
            decreases ws.len() - k,
        {
            let l = Line { spans: copy_spans(&ws[k].spans) };
            let ghost b2 = out@;
            out.push(l);
            assert(lines_view(out@) =~= lines_view(b2).push(line_view(ws@[k as int])));
            assert(lines_view(ws@).take(k + 1) =~= lines_view(ws@).take(k as int).push(line_view(ws@[k as int])));
            k = k + 1;
        }
        assert(lines_view(ws@).take(ws@.len() as int) =~= lines_view(ws@));
        j = j + 1;
    }
    assert(laid.take(all@.len() as int) =~= laid);
    out
}

} // verus!
