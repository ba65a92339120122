//! What the screen shows, computed from the browser's state: scroll windows, titles,
//! line reflow and truncation. Drawing it is the terminal's business.
use vstd::prelude::*;
use crate::text::{owned, concat2, trim, trim_start, trim_end, starts_with, contains, join, views, split_pieces, split_str, decimal, usize_to_string, str_starts_with, str_contains, str_eq, chars_of, string_from, trim_str, lemma_views_push, push_char};
use crate::ui::panes::Rect;

verus! {

pub open spec fn sat_sub(a: int, b: int) -> int {
    if a >= b { a - b } else { 0 }
}

pub open spec fn min(a: int, b: int) -> int {
    if a <= b { a } else { b }
}

/// The lines shown of `total`, in a window of `visible` lines scrolled down by
/// `scroll` (stopping when the last line shows): `(start, end)`.
pub open spec fn top_window(total: int, visible: int, scroll: int) -> (int, int) {
    let start = min(scroll, sat_sub(total, visible));
    (start, min(start + visible, total))
}

/// The lines shown, scrolled from the top, as `top_window` says.
pub fn scroll_window(total: usize, visible: usize, scroll: usize) -> (r: (usize, usize))
    ensures
        (r.0 as int, r.1 as int) == top_window(total as int, visible as int, scroll as int),
{
    let max_scroll = total.saturating_sub(visible);
    let start = if scroll <= max_scroll { scroll } else { max_scroll };
    let end = if visible <= total - start { start + visible } else { total };
    (start, end)
}

/// The first line shown when the window keeps to the bottom and `scroll` counts lines
/// scrolled up from there (stopping at the first line).
pub open spec fn bottom_start(total: int, visible: int, scroll: int) -> int {
    let max_scroll = sat_sub(total, visible);
    max_scroll - min(scroll, max_scroll)
}

/// The first line shown, scrolled from the bottom, as `bottom_start` says.
pub fn bottom_window_start(total: usize, visible: usize, scroll: usize) -> (r: usize)
    ensures
        r == bottom_start(total as int, visible as int, scroll as int),
{
    let max_scroll = total.saturating_sub(visible);
    let s = if scroll <= max_scroll { scroll } else { max_scroll };
    max_scroll - s
}

/// The results title: the position of the first shown line and how far down it is,
/// when not every line fits.
pub open spec fn results_title_spec(start: int, total: int, height: int) -> Seq<char> {
    if total > height {
        let max_scroll = sat_sub(total, height);
        let pos = if max_scroll > 0 { (start * 100) / max_scroll } else { 0 };
        " Results ("@ + decimal((start + 1) as nat) + "/"@ + decimal(total as nat) + "  "@ + decimal(
            pos as nat,
        ) + "%) "@
    } else {
        " Results "@
    }
}

/// The results title, as `results_title_spec` says.
pub fn results_title(start: usize, total: usize, height: usize) -> (r: String)
    requires
        start <= total,
        total * 100 <= usize::MAX,
    ensures
        r@ == results_title_spec(start as int, total as int, height as int),
{
    if total > height {
        let max_scroll = total - height;
        let pos = if max_scroll > 0 { (start * 100) / max_scroll } else { 0 };
        let mut s = owned(" Results (");
        s.append(usize_to_string(start + 1).as_str());
        s.append("/");
        s.append(usize_to_string(total).as_str());
        s.append("  ");
        s.append(usize_to_string(pos).as_str());
        s.append("%) ");
        s
    } else {
        owned(" Results ")
    }
}

/// The model's short name for the chat title: after the last `/`, before the first `:`;
/// "chat" without a session.
pub open spec fn model_label(model: Option<Seq<char>>) -> Seq<char> {
    match model {
        Some(m) => split_pieces(split_pieces(m, "/"@).last(), ":"@)[0],
        None => "chat"@,
    }
}

/// The chat title's model name, as `model_label` says.
pub fn chat_model_label(model: Option<&str>) -> (r: String)
    ensures
        r@ == model_label(match model {
            Some(m) => Some(m@),
            None => None,
        }),
{
    proof {
        reveal_strlit("/");
        reveal_strlit(":");
    }
    match model {
        Some(m) => {
            let pieces = split_str(m, "/");
            proof {
                crate::text::lemma_split_nonempty(m@, "/"@);
            }
            let last = &pieces[pieces.len() - 1];
            let parts = split_str(last.as_str(), ":");
            proof {
                crate::text::lemma_split_nonempty(last@, ":"@);
            }
            parts[0].clone()
        },
        None => owned("chat"),
    }
}

/// The chat input box's height: the input's lines (counting its length in bytes plus
/// three for the prompt and cursor, at the wrap width, between one and six) and two for
/// the border.
pub open spec fn input_height(input_bytes: int, wrap_width: int) -> int {
    let w = if wrap_width >= 1 { wrap_width } else { 1 };
    let n = (input_bytes + 3) / w + 1;
    let lines = if n < 1 { 1 } else if n > 6 { 6 } else { n };
    lines + 2
}

/// The chat input box's height, as `input_height` says.
pub fn chat_input_height(input_bytes: usize, wrap_width: usize) -> (h: u16)
    requires
        input_bytes + 4 <= usize::MAX,
    ensures
        h == input_height(input_bytes as int, wrap_width as int),
{
    let w = if wrap_width >= 1 { wrap_width } else { 1 };
    let n = (input_bytes + 3) / w + 1;
    let lines: usize = if n < 1 { 1 } else if n > 6 { 6 } else { n };
    (lines + 2) as u16
}

/// The chat cursor blinks: shown when the chat has the focus, for eight ticks out of
/// sixteen.
pub fn cursor_shown(focused: bool, tick: usize) -> (b: bool)
    ensures
        b == (focused && (tick / 8) % 2 == 0),
{
    focused && (tick / 8) % 2 == 0
}

/// What the chat shows of a user message: only its last paragraph when the browser's
/// context was put in front of it.
pub open spec fn user_display(content: Seq<char>) -> Seq<char> {
    if contains(content, "[Browser Context]"@) {
        split_pieces(content, "\n\n"@).last()
    } else {
        content
    }
}

/// What the chat shows of a user message, as `user_display` says.
pub fn user_message_display(content: &str) -> (r: String)
    ensures
        r@ == user_display(content@),
{
    if str_contains(content, "[Browser Context]") {
        proof {
            reveal_strlit("\n\n");
            crate::text::lemma_split_nonempty(content@, "\n\n"@);
        }
        let pieces = split_str(content, "\n\n");
        pieces[pieces.len() - 1].clone()
    } else {
        owned(content)
    }
}

/// The reading column inside the content pane: at most 72 columns (and at least 20),
/// centred.
pub open spec fn column_of(inner: Rect) -> Rect {
    let w = if inner.width <= 72 { inner.width as int } else { 72 };
    let w2 = if w >= 20 { w } else { 20 };
    Rect {
        x: (inner.x + sat_sub(inner.width as int, w2) / 2) as u16,
        y: inner.y,
        width: w2 as u16,
        height: inner.height,
    }
}

/// The reading column, as `column_of` says.
pub fn reading_column(inner: Rect) -> (r: Rect)
    requires
        inner.x + inner.width <= u16::MAX,
    ensures
        r == column_of(inner),
{
    let w = if inner.width <= 72 { inner.width } else { 72 };
    let w2 = if w >= 20 { w } else { 20 };
    let x = inner.x + inner.width.saturating_sub(w2) / 2;
    Rect { x, y: inner.y, width: w2, height: inner.height }
}

/// The content pane's title: the view's name, in capitals when focused.
pub fn content_title(focused: bool, raw: bool) -> (r: &'static str)
    ensures
        r@ == if raw {
            if focused { " RAW "@ } else { " raw "@ }
        } else {
            if focused { " CONTENT "@ } else { " content "@ }
        },
{
    if raw {
        if focused { " RAW " } else { " raw " }
    } else {
        if focused { " CONTENT " } else { " content " }
    }
}

/// The lines textwrap breaks a text into at a width.
pub uninterp spec fn wrapped(text: Seq<char>, width: usize) -> Seq<Seq<char>>;

/// `textwrap::wrap(text, width)` with its default options: the claim is only that the
/// lines are textwrap's, a function of the text and the width.
#[verifier::external_body]
pub(crate) fn wrap_text(text: &str, width: usize) -> (r: Vec<String>)
    ensures
        views(r@) == wrapped(text@, width),
{
    textwrap::wrap(text, width).into_iter().map(|c| c.into_owned()).collect()
}

/// Display width in terminal columns, as unicode-width counts it.
pub uninterp spec fn display_width(s: Seq<char>) -> nat;

/// `UnicodeWidthStr::width`: the claim is only that the width is unicode-width's, a
/// function of the text alone.
#[verifier::external_body]
pub(crate) fn str_width(s: &str) -> (w: usize)
    ensures
        w == display_width(s@),
{
    unicode_width::UnicodeWidthStr::width(s)
}

/// How many of the characters fit in `max` columns with room for "..." after them:
/// the first `n` where the widths so far plus the next one plus three pass `max`.
pub open spec fn fit_count(s: Seq<char>, max: int, i: int, used: int) -> int
    decreases s.len() - i,
{
    if i >= s.len() || i < 0 {
        s.len() as int
    } else if used + display_width(seq![s[i]]) + 3 > max {
        i
    } else {
        fit_count(s, max, i + 1, used + display_width(seq![s[i]]))
    }
}

/// A text cut to fit `max` columns: as it is when it fits; else the characters that
/// fit with "..." after them (no "..." when every character fits by itself).
pub open spec fn truncated(s: Seq<char>, max: int) -> Seq<char> {
    if display_width(s) <= max {
        s
    } else {
        let n = fit_count(s, max, 0, 0);
        if n < s.len() { s.take(n) + "..."@ } else { s }
    }
}

/// A text cut to fit `max` columns, as `truncated` says.
pub fn truncate_to_width(text: &str, max_width: usize) -> (r: String)
    ensures
        r@ == truncated(text@, max_width as int),
{
    if str_width(text) <= max_width {
        return owned(text);
    }
    let v = chars_of(text);
    let mut result = String::new();
    let mut width: usize = 0;
    let mut i: usize = 0;
    while i < v.len()
        invariant
            i <= v.len(),
            v@ == text@,
            display_width(text@) > max_width,
            result@ == v@.take(i as int),
            width <= max_width,
            fit_count(v@, max_width as int, i as int, width as int) == fit_count(v@, max_width as int, 0, 0),
        decreases v.len() - i,
    {
        let mut one = String::new();
        push_char(&mut one, v[i]);
        assert(one@ =~= seq![v@[i as int]]);
        let w = str_width(one.as_str());
        let room = max_width - width;
        if w > room || room - w < 3 {
            assert(w == display_width(seq![v@[i as int]]));
            assert(fit_count(v@, max_width as int, i as int, width as int) == i as int);
            assert(display_width(text@) > max_width);
            result.append("...");
            return result;
        }
        push_char(&mut result, v[i]);
        width = width + w;
        i = i + 1;
        assert(result@ =~= v@.take(i as int));
    }
    assert(v@.take(v@.len() as int) =~= v@);
    result
}


/// The first position at or after `i` that does not hold `c` (the length when all do).
pub open spec fn run_end(t: Seq<char>, c: char, i: int) -> int
    decreases t.len() - i,
{
    if i < 0 || i >= t.len() || t[i] != c {
        i
    } else {
        run_end(t, c, i + 1)
    }
}

/// Where the literal pattern `\d+\.\s+` (a backslash, `d`s, a backslash, any character
/// but a line feed, a backslash, `s`s) matches at the start of `t`: the end of the match,
/// taking every `s` that follows.
pub open spec fn backslash_marker_end(t: Seq<char>) -> Option<int> {
    let k = run_end(t, 'd', 1);
    if t.len() >= 1 && t[0] == '\\' && k >= 2 && k + 3 < t.len() && t[k] == '\\' && t[k + 1]
        != '\n' && t[k + 2] == '\\' && t[k + 3] == 's' {
        Some(run_end(t, 's', k + 3))
    } else {
        None
    }
}

/// `Regex::new(r"^\\d+\\.\\s+")` and `is_match`: the pattern's doubled backslashes make it
/// match a literal backslash, `d`s, a backslash, one character, a backslash and `s`s at
/// the start; the claim is that the regex crate matches exactly that.
#[verifier::external_body]
fn literal_numbered(t: &str) -> (b: bool)
    ensures
        b == (backslash_marker_end(t@) is Some),
{
    regex::Regex::new(r"^\\d+\\.\\s+").map(|re| re.is_match(t)).unwrap_or(false)
}

/// `Regex::new(r"^(\\d+\\.\\s+)(.*)$")` and `captures`: the marker as above, then the rest
/// up to the end when it holds no line feed; the claim is that the regex crate captures
/// exactly that.
#[verifier::external_body]
fn literal_numbered_parts(t: &str) -> (r: Option<(String, String)>)
    ensures
        match r {
            Some((m, rest)) => backslash_marker_end(t@) matches Some(e) && m@ == t@.take(e) && rest@
                == t@.skip(e) && !crate::text::contains_char(t@.skip(e), '\n'),
            None => !(backslash_marker_end(t@) matches Some(e) && !crate::text::contains_char(
                t@.skip(e),
                '\n',
            )),
        },
{
    let re = regex::Regex::new(r"^(\\d+\\.\\s+)(.*)$").ok()?;
    let caps = re.captures(t)?;
    Some((caps.get(1)?.as_str().to_string(), caps.get(2)?.as_str().to_string()))
}

/// Lines that keep their own structure when text is reflowed: headings, rules, quotes,
/// images, list and task items (and the literal backslash pattern above).
pub open spec fn block_line(t: Seq<char>) -> bool {
    ||| starts_with(t, "# "@) || starts_with(t, "## "@) || starts_with(t, "### "@) || starts_with(t, "#### "@)
    ||| t == "---"@ || t == "***"@ || t == "___"@
    ||| starts_with(t, "> "@) || starts_with(t, "!["@)
    ||| starts_with(t, "- "@) || starts_with(t, "* "@) || starts_with(t, "+ "@)
    ||| starts_with(t, "- [ ] "@) || starts_with(t, "- [x] "@) || starts_with(t, "- [X] "@)
    ||| backslash_marker_end(t) is Some
}

/// Whether a trimmed line keeps its own structure, as `block_line` says.
pub fn is_markdown_block_line(t: &str) -> (b: bool)
    ensures
        b == block_line(t@),
{
    str_starts_with(t, "# ") || str_starts_with(t, "## ") || str_starts_with(t, "### ") || str_starts_with(t, "#### ")
        || str_eq(t, "---") || str_eq(t, "***") || str_eq(t, "___") || str_starts_with(t, "> ")
        || str_starts_with(t, "![") || str_starts_with(t, "- ") || str_starts_with(t, "* ")
        || str_starts_with(t, "+ ") || str_starts_with(t, "- [ ] ") || str_starts_with(t, "- [x] ")
        || str_starts_with(t, "- [X] ") || literal_numbered(t)
}

/// `n` spaces.
pub open spec fn spaces(n: nat) -> Seq<char> {
    Seq::new(n, |i: int| ' ')
}

fn make_spaces(n: usize) -> (r: String)
    ensures
        r@ == spaces(n as nat),
{
    let mut s = String::new();
    let mut i: usize = 0;
    while i < n
        invariant
            i <= n,
            s@ == spaces(i as nat),
        decreases n - i,
    {
        push_char(&mut s, ' ');
        i = i + 1;
        assert(s@ =~= spaces(i as nat));
    }
    s
}

/// A structured line wrapped with a marker: the line's leading whitespace (one space per
/// byte) and the marker start the first line, later lines are indented as far; the text
/// is wrapped to the width left (at least ten).
pub open spec fn marked_lines(raw: Seq<char>, marker: Seq<char>, text: Seq<char>, w: int) -> Seq<Seq<char>> {
    let leading = crate::text::byte_len(raw) - crate::text::byte_len(trim_start(raw));
    let base = spaces(leading as nat) + marker;
    let avail = if sat_sub(w, crate::text::byte_len(base) as int) >= 10 { sat_sub(w, crate::text::byte_len(base) as int) } else { 10 };
    let ws = wrapped(trim(text), avail as usize);
    if ws.len() == 0 {
        seq![base]
    } else {
        Seq::new(ws.len(), |i: int| if i == 0 { base + ws[0] } else { spaces(crate::text::byte_len(base)) + ws[i] })
    }
}

fn wrap_marked(raw: &str, marker: &str, text: &str, max_width: usize) -> (r: Vec<String>)
    ensures
        views(r@) == marked_lines(raw@, marker@, text@, max_width as int),
{
    let ts = crate::text::trim_start_str(raw);
    proof {
        crate::text::lemma_trim_start_bytes(raw@);
    }
    let leading = crate::text::str_bytes(raw) - crate::text::str_bytes(ts.as_str());
    let mut base = make_spaces(leading);
    base.append(marker);
    let blen = crate::text::str_bytes(base.as_str());
    let d = max_width.saturating_sub(blen);
    let avail = if d >= 10 { d } else { 10 };
    let t = trim_str(text);
    let ws = wrap_text(t.as_str(), avail);
    let mut out: Vec<String> = Vec::new();
    if ws.len() == 0 {
        out.push(base);
        assert(views(out@) =~= seq![base@]);
        return out;
    }
    let pad = make_spaces(blen);
    let mut i: usize = 0;
    while i < ws.len()
        invariant
            i <= ws.len(),
            views(ws@) == wrapped(trim(text@), avail as usize),
            ws@.len() > 0,
            base@ == spaces(leading as nat) + marker@,
            leading == crate::text::byte_len(raw@) - crate::text::byte_len(trim_start(raw@)),
            blen == crate::text::byte_len(base@),
            avail == (if sat_sub(max_width as int, blen as int) >= 10 { sat_sub(max_width as int, blen as int) } else { 10 }),
            pad@ == spaces(crate::text::byte_len(base@)),
            views(out@) == marked_lines(raw@, marker@, text@, max_width as int).take(i as int),
        decreases ws.len() - i,
    {
        let line = if i == 0 { concat2(base.as_str(), ws[0].as_str()) } else { concat2(pad.as_str(), ws[i].as_str()) };
        let ghost before = out@;
        out.push(line);
        proof {
            lemma_views_push(before, out@.last());
        }
        i = i + 1;
        assert(views(out@) =~= marked_lines(raw@, marker@, text@, max_width as int).take(i as int));
    }
    assert(marked_lines(raw@, marker@, text@, max_width as int).take(ws@.len() as int) =~= marked_lines(raw@, marker@, text@, max_width as int));
    out
}

/// A structured line, wrapped: quotes, task items (their box in lower case), list items
/// and the literal backslash pattern keep their marker; other lines stay as they are,
/// without trailing whitespace.
pub open spec fn structured_lines(raw: Seq<char>, w: int) -> Seq<Seq<char>> {
    let trimmed = trim_end(raw);
    let t = trim_start(trimmed);
    if starts_with(t, "> "@) {
        marked_lines(trimmed, "> "@, t.skip(2), w)
    } else if starts_with(t, "- [ ] "@) {
        marked_lines(trimmed, "- [ ] "@, t.skip(6), w)
    } else if starts_with(t, "- [x] "@) || starts_with(t, "- [X] "@) {
        marked_lines(trimmed, "- [x] "@, t.skip(6), w)
    } else if starts_with(t, "- "@) || starts_with(t, "* "@) || starts_with(t, "+ "@) {
        marked_lines(trimmed, t.take(2), t.skip(2), w)
    } else {
        match backslash_marker_end(t) {
            Some(e) => if !crate::text::contains_char(t.skip(e), '\n') {
                marked_lines(trimmed, t.take(e), t.skip(e), w)
            } else {
                seq![trimmed]
            },
            None => seq![trimmed],
        }
    }
}


fn str_skip(s: &str, k: usize) -> (r: String)
    requires
        k <= s@.len(),
    ensures
        r@ == s@.skip(k as int),
{
    let v = chars_of(s);
    assert(v@.subrange(k as int, v@.len() as int) =~= s@.skip(k as int));
    string_from(&v, k, v.len())
}

fn str_take(s: &str, k: usize) -> (r: String)
    requires
        k <= s@.len(),
    ensures
        r@ == s@.take(k as int),
{
    let v = chars_of(s);
    assert(v@.subrange(0, k as int) =~= s@.take(k as int));
    string_from(&v, 0, k)
}

/// A structured line, wrapped, as `structured_lines` says.
pub fn wrap_structured_line(raw: &str, max_width: usize) -> (r: Vec<String>)
    ensures
        views(r@) == structured_lines(raw@, max_width as int),
{
    let trimmed = crate::text::trim_end_str(raw);
    let ts = crate::text::trim_start_str(trimmed.as_str());
    let t = ts.as_str();
    if str_starts_with(t, "> ") {
        proof { reveal_strlit("> "); }
        return wrap_marked(trimmed.as_str(), "> ", str_skip(t, 2).as_str(), max_width);
    }
    if str_starts_with(t, "- [ ] ") {
        proof { reveal_strlit("- [ ] "); }
        return wrap_marked(trimmed.as_str(), "- [ ] ", str_skip(t, 6).as_str(), max_width);
    }
    if str_starts_with(t, "- [x] ") || str_starts_with(t, "- [X] ") {
        proof {
            reveal_strlit("- [x] ");
            reveal_strlit("- [X] ");
        }
        return wrap_marked(trimmed.as_str(), "- [x] ", str_skip(t, 6).as_str(), max_width);
    }
    if str_starts_with(t, "- ") || str_starts_with(t, "* ") || str_starts_with(t, "+ ") {
        proof {
            reveal_strlit("- ");
            reveal_strlit("* ");
            reveal_strlit("+ ");
        }
        return wrap_marked(trimmed.as_str(), str_take(t, 2).as_str(), str_skip(t, 2).as_str(), max_width);
    }
    match literal_numbered_parts(t) {
        Some((m, rest)) => wrap_marked(trimmed.as_str(), m.as_str(), rest.as_str(), max_width),
        None => {
            let mut out: Vec<String> = Vec::new();
            out.push(trimmed);
            assert(views(out@) =~= seq![trim_end(raw@)]);
            out
        },
    }
}

/// A line without the carriage returns and line feeds that end it.
pub open spec fn strip_line_end(s: Seq<char>) -> Seq<char>
    decreases s.len(),
{
    if s.len() > 0 && (s.last() == '\r' || s.last() == '\n') {
        strip_line_end(s.drop_last())
    } else {
        s
    }
}

/// The reflowed lines after a paragraph ends: its trimmed text wrapped, unless blank.
pub open spec fn flush_para(out: Seq<Seq<char>>, para: Seq<char>, w: int) -> Seq<Seq<char>> {
    if trim(para).len() == 0 { out } else { out + wrapped(trim(para), w as usize) }
}

/// One line of reflow: the output so far, the paragraph being gathered, and whether a
/// code fence is open. Fences and code pass as they are; a blank line ends a paragraph
/// and stays; a structured line ends a paragraph and is wrapped by itself; other lines
/// join the paragraph, separated by spaces.
pub open spec fn reflow_step(st: (Seq<Seq<char>>, Seq<char>, bool), line: Seq<char>, w: int) -> (Seq<Seq<char>>, Seq<char>, bool) {
    let raw = strip_line_end(line);
    let t = trim(raw);
    if starts_with(t, "```"@) {
        (flush_para(st.0, st.1, w).push(t), Seq::empty(), !st.2)
    } else if st.2 {
        (st.0.push(raw), st.1, st.2)
    } else if t.len() == 0 {
        (flush_para(st.0, st.1, w).push(Seq::empty()), Seq::empty(), st.2)
    } else if block_line(t) {
        (flush_para(st.0, st.1, w) + structured_lines(raw, w), Seq::empty(), st.2)
    } else {
        (st.0, if st.1.len() > 0 { st.1 + " "@ + t } else { t }, st.2)
    }
}

/// The reflow state after some lines.
pub open spec fn reflow(lines: Seq<Seq<char>>, w: int) -> (Seq<Seq<char>>, Seq<char>, bool)
    decreases lines.len(),
{
    if lines.len() == 0 {
        (Seq::empty(), Seq::empty(), false)
    } else {
        reflow_step(reflow(lines.drop_last(), w), lines.last(), w)
    }
}

/// Lines reflowed to a width, keeping markdown structure; width zero leaves them.
pub open spec fn formatted(lines: Seq<Seq<char>>, w: int) -> Seq<Seq<char>> {
    if w == 0 {
        lines
    } else {
        let st = reflow(lines, w);
        flush_para(st.0, st.1, w)
    }
}

fn strip_line_end_str(s: &str) -> (r: String)
    ensures
        r@ == strip_line_end(s@),
{
    let v = chars_of(s);
    let mut n = v.len();
    assert(v@.take(v@.len() as int) =~= s@);
    while n > 0 && (v[n - 1] == '\r' || v[n - 1] == '\n')
        invariant
            n <= v.len(),
            v@ == s@,
            strip_line_end(s@) == strip_line_end(v@.take(n as int)),
        decreases n,
    {
        assert(v@.take(n as int).drop_last() =~= v@.take(n - 1));
        n = n - 1;
    }
    assert(v@.subrange(0, n as int) =~= v@.take(n as int));
    let r = string_from(&v, 0, n);
    proof {
        if n > 0 {
            assert(v@.take(n as int).last() == v@[n - 1]);
        }
    }
    r
}

fn flush_into(out: &mut Vec<String>, para: &mut String, w: usize)
    ensures
        views(final(out)@) == flush_para(views(old(out)@), old(para)@, w as int),
        final(para)@.len() == 0,
{
    let t = trim_str(para.as_str());
    if !t.as_str().is_empty() {
        let ws = wrap_text(t.as_str(), w);
        let ghost start = views(out@);
        let mut i: usize = 0;
        while i < ws.len()
            invariant
                i <= ws.len(),
                views(out@) == start + views(ws@).take(i as int),
            decreases ws.len() - i,
        {
            let ghost before = out@;
            out.push(ws[i].clone());
            proof {
                lemma_views_push(before, out@.last());
            }
            i = i + 1;
            assert(views(out@) =~= start + views(ws@).take(i as int));
        }
        assert(views(ws@).take(ws@.len() as int) =~= views(ws@));
    }
    *para = String::new();
}

fn push_all(out: &mut Vec<String>, more: Vec<String>)
    ensures
        views(final(out)@) == views(old(out)@) + views(more@),
{
    let ghost start = views(out@);
    let mut i: usize = 0;
    while i < more.len()
        invariant
            i <= more.len(),
            views(out@) == start + views(more@).take(i as int),
        decreases more.len() - i,
    {
        let ghost before = out@;
        out.push(more[i].clone());
        proof {
            lemma_views_push(before, out@.last());
        }
        i = i + 1;
        assert(views(out@) =~= start + views(more@).take(i as int));
    }
    assert(views(more@).take(more@.len() as int) =~= views(more@));
}

/// Lines reflowed to a width, as `formatted` says.
#[verifier::rlimit(40)]
pub fn format_lines(lines: &Vec<String>, max_width: usize) -> (r: Vec<String>)
    ensures
        views(r@) == formatted(views(lines@), max_width as int),
{
    if max_width == 0 {
        return crate::browser::copy_strings(lines);
    }
    let ghost ls = views(lines@);
    let mut out: Vec<String> = Vec::new();
    let mut para = String::new();
    let mut in_code = false;
    let mut i: usize = 0;
    while i < lines.len()
        invariant
            i <= lines.len(),
            max_width > 0,
            ls == views(lines@),
            (views(out@), para@, in_code) == reflow(ls.take(i as int), max_width as int),
        decreases lines.len() - i,
    {
        let ghost st = (views(out@), para@, in_code);
        proof {
            assert(ls.take(i as int + 1).drop_last() =~= ls.take(i as int));
            assert(ls.take(i as int + 1).last() == lines@[i as int]@);
        }
        let ghost line = lines@[i as int]@;
        let raw = strip_line_end_str(lines[i].as_str());
        let t = trim_str(raw.as_str());
        if str_starts_with(t.as_str(), "```") {
            flush_into(&mut out, &mut para, max_width);
            let ghost before = out@;
            out.push(t);
            proof {
                lemma_views_push(before, out@.last());
                assert(para@ =~= Seq::<char>::empty());
            }
            in_code = !in_code;
        } else if in_code {
            let ghost before = out@;
            out.push(raw);
            proof {
                lemma_views_push(before, out@.last());
            }
        } else if t.as_str().is_empty() {
            flush_into(&mut out, &mut para, max_width);
            let ghost before = out@;
            out.push(String::new());
            proof {
                lemma_views_push(before, out@.last());
                assert(para@ =~= Seq::<char>::empty());
            }
        } else if is_markdown_block_line(t.as_str()) {
            flush_into(&mut out, &mut para, max_width);
            let more = wrap_structured_line(raw.as_str(), max_width);
            push_all(&mut out, more);
            proof {
                assert(para@ =~= Seq::<char>::empty());
            }
        } else {
            if !para.as_str().is_empty() {
                push_char(&mut para, ' ');
            }
            para.append(t.as_str());
            proof {
                if st.1.len() > 0 {
                    assert(para@ =~= st.1 + " "@ + t@) by {
                        reveal_strlit(" ");
                    }
                } else {
                    assert(para@ =~= t@);
                }
            }
        }
        assert((views(out@), para@, in_code) == reflow_step(st, line, max_width as int));
        i = i + 1;
    }
    assert(ls.take(lines@.len() as int) =~= ls);
    flush_into(&mut out, &mut para, max_width);
    out
}

/// The AI summary put in front of the page: a heading, the summary wrapped to the width,
/// and a rule.
pub open spec fn summary_lines(summary: Seq<char>, w: usize) -> Seq<Seq<char>> {
    seq!["# AI Summary"@, Seq::empty()] + wrapped(summary, w) + seq![Seq::empty(), "---"@, Seq::empty()]
}

/// The AI summary block, as `summary_lines` says.
pub fn summary_block(summary: &str, wrap_width: usize) -> (r: Vec<String>)
    ensures
        views(r@) == summary_lines(summary@, wrap_width),
{
    let mut out: Vec<String> = Vec::new();
    out.push(owned("# AI Summary"));
    out.push(String::new());
    assert(views(out@) =~= seq!["# AI Summary"@, Seq::<char>::empty()]);
    let ws = wrap_text(summary, wrap_width);
    push_all(&mut out, ws);
    let mut tail: Vec<String> = Vec::new();
    tail.push(String::new());
    tail.push(owned("---"));
    tail.push(String::new());
    assert(views(tail@) =~= seq![Seq::<char>::empty(), "---"@, Seq::<char>::empty()]);
    push_all(&mut out, tail);
    out
}


/// The lines the content pane shows of a page, before scrolling: the rendered lines
/// (reflowed when formatting is on) or the raw source's lines, after the AI summary when
/// there is one.
pub open spec fn pane_lines(
    content: Seq<Seq<char>>,
    raw: Seq<char>,
    raw_view: bool,
    format: bool,
    w: usize,
    summary: Option<Seq<char>>,
) -> Seq<Seq<char>> {
    let base = if raw_view {
        crate::text::lines(raw)
    } else if format {
        formatted(content, w as int)
    } else {
        content
    };
    match summary {
        Some(s) => summary_lines(s, w) + base,
        None => base,
    }
}

/// The lines the content pane shows, as `pane_lines` says.
pub fn content_pane_lines(
    page: &crate::browser::Page,
    raw_view: bool,
    format: bool,
    wrap_width: usize,
    summary: &Option<String>,
) -> (r: Vec<String>)
    ensures
        views(r@) == pane_lines(
            views(page.content_lines@),
            page.raw_content@,
            raw_view,
            format,
            wrap_width,
            match summary {
                Some(s) => Some(s@),
                None => None,
            },
        ),
{
    let base = if raw_view {
        crate::text::str_lines(page.raw_content.as_str())
    } else if format {
        format_lines(&page.content_lines, wrap_width)
    } else {
        let c = crate::browser::copy_strings(&page.content_lines);
        assert(views(c@) =~= crate::browser::strs(c@));
        assert(views(page.content_lines@) =~= crate::browser::strs(page.content_lines@));
        c
    };
    match summary {
        Some(s) => {
            let mut out = summary_block(s.as_str(), wrap_width);
            push_all(&mut out, base);
            out
        },
        None => base,
    }
}

} // verus!
