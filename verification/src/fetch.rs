//! What a fetched response becomes: how its content is classified, the pages shown for
//! documents that cannot be displayed, and how HTML turns into a page.
use vstd::prelude::*;
use vstd::string::StringSliceAdditionalSpecFns;
use crate::browser::{Link, Page, strs, links_view};
use crate::text::{
    owned, concat2, lower_seq, upper_seq, contains, starts_with, ends_with, trim, join, views,
    split_pieces, lines, byte_len, utf8_width, ascii_lower, ascii_upper, str_contains,
    str_starts_with, str_ends_with, str_eq, split_str, str_lines, trim_str, join_strings, chars_of,
    string_of, lemma_views_push,
};

verus! {

/// The rule drawn above and below the headers of generated pages.
pub const BAR: &'static str = "═══════════════════════════════════════════";

/// What kind of content a response holds.
#[derive(Debug, Clone, Copy, PartialEq, Eq, Structural)]
pub enum ContentKind {
    Pdf,
    Image,
    /// Another binary type, known from its header
    Binary,
    /// Text to read as HTML
    Document,
}

/// The URL with its scheme: as it is when it starts with `http://` or `https://`, else
/// with `https://` put in front.
pub open spec fn with_scheme_spec(url: Seq<char>) -> Seq<char> {
    if starts_with(url, "http://"@) || starts_with(url, "https://"@) {
        url
    } else {
        "https://"@ + url
    }
}

/// The URL with its scheme, as `with_scheme_spec` says.
pub fn with_scheme(url: &str) -> (r: String)
    ensures
        r@ == with_scheme_spec(url@),
{
    if str_starts_with(url, "http://") || str_starts_with(url, "https://") {
        owned(url)
    } else {
        concat2("https://", url)
    }
}

/// Whether the url crate parses `s` as an absolute URL.
pub uninterp spec fn url_parses(s: Seq<char>) -> bool;

/// `url::Url::parse(s).is_ok()`: the claim is only that the answer is the parser's, a
/// function of the text alone.
#[verifier::external_body]
pub(crate) fn url_is_valid(s: &str) -> (b: bool)
    ensures
        b == url_parses(s@),
{
    url::Url::parse(s).is_ok()
}

/// The address a page is fetched from: the input with its scheme, or the error that it is
/// no URL.
pub fn fetch_url(url: &str) -> (r: Result<String, String>)
    ensures
        url_parses(with_scheme_spec(url@)) ==> (r matches Ok(u) && u@ == with_scheme_spec(url@)),
        !url_parses(with_scheme_spec(url@)) ==> (r matches Err(e) && e@ == "Invalid URL"@),
{
    let u = with_scheme(url);
    if url_is_valid(u.as_str()) {
        Ok(u)
    } else {
        Err(owned("Invalid URL"))
    }
}

/// The content type a response names, in lower case (empty where it names none).
pub fn content_type_of(header: Option<&str>) -> (r: String)
    ensures
        r@ == match header { Some(h) => unicode_lower(h@), None => Seq::empty() },
{
    match header {
        Some(h) => to_lowercase(h),
        None => String::new(),
    }
}

/// What the url crate makes of `href` relative to `base`: the serialized URL, or `None`
/// when `base` does not parse or `href` does not resolve against it.
pub uninterp spec fn url_joined(base: Seq<char>, href: Seq<char>) -> Option<Seq<char>>;

/// `url::Url::parse(base)` then `Url::join(href)`, serialized: the claim is only that
/// the answer is the url crate's, a function of the two texts alone.
#[verifier::external_body]
fn join_url(base: &str, href: &str) -> (r: Option<String>)
    ensures
        match r {
            Some(u) => url_joined(base@, href@) == Some(u@),
            None => url_joined(base@, href@) is None,
        },
{
    match url::Url::parse(base) {
        Ok(b) => match b.join(href) {
            Ok(u) => Some(u.to_string()),
            Err(_) => None,
        },
        Err(_) => None,
    }
}

/// A link target resolved against the page's URL: absolute `http(s)` links stay,
/// scheme-relative ones get `https:`, others are joined to the base (kept as they are
/// when that fails).
pub open spec fn resolved(base: Seq<char>, href: Seq<char>) -> Seq<char> {
    if starts_with(href, "http://"@) || starts_with(href, "https://"@) {
        href
    } else if starts_with(href, "//"@) {
        "https:"@ + href
    } else {
        match url_joined(base, href) {
            Some(u) => u,
            None => href,
        }
    }
}

/// Resolve a link target against the page's URL, as `resolved` says.
pub fn resolve_url(base: &str, href: &str) -> (r: String)
    ensures
        r@ == resolved(base@, href@),
{
    if str_starts_with(href, "http://") || str_starts_with(href, "https://") {
        return owned(href);
    }
    if str_starts_with(href, "//") {
        return concat2("https:", href);
    }
    match join_url(base, href) {
        Some(u) => u,
        None => owned(href),
    }
}

/// How a response is classified, from its final URL and its Content-Type header (both
/// compared in ASCII lower case): PDF first, then images, then other binary types.
pub open spec fn content_kind(url: Seq<char>, content_type: Seq<char>) -> ContentKind {
    let u = lower_seq(url);
    let c = lower_seq(content_type);
    if contains(c, "application/pdf"@) || ends_with(u, ".pdf"@) || contains(u, ".pdf?"@) {
        ContentKind::Pdf
    } else if contains(c, "image/"@) || ends_with(u, ".png"@) || ends_with(u, ".jpg"@) || ends_with(
        u,
        ".jpeg"@,
    ) || ends_with(u, ".gif"@) || ends_with(u, ".webp"@) || ends_with(u, ".svg"@) {
        ContentKind::Image
    } else if contains(c, "application/octet-stream"@) || contains(c, "application/zip"@)
        || contains(c, "application/x-"@) || contains(c, "video/"@) || contains(c, "audio/"@) {
        ContentKind::Binary
    } else {
        ContentKind::Document
    }
}

/// Classify a response, as `content_kind` says. URLs and header values are ASCII, so the
/// ASCII lower case used here is their lower case.
pub fn classify_content(url: &str, content_type: &str) -> (k: ContentKind)
    ensures
        k == content_kind(url@, content_type@),
{
    let ul = ascii_lower(url);
    let cl = ascii_lower(content_type);
    let u = ul.as_str();
    let c = cl.as_str();
    if str_contains(c, "application/pdf") || str_ends_with(u, ".pdf") || str_contains(u, ".pdf?") {
        ContentKind::Pdf
    } else if str_contains(c, "image/") || str_ends_with(u, ".png") || str_ends_with(u, ".jpg")
        || str_ends_with(u, ".jpeg") || str_ends_with(u, ".gif") || str_ends_with(u, ".webp")
        || str_ends_with(u, ".svg") {
        ContentKind::Image
    } else if str_contains(c, "application/octet-stream") || str_contains(c, "application/zip")
        || str_contains(c, "application/x-") || str_contains(c, "video/") || str_contains(c, "audio/") {
        ContentKind::Binary
    } else {
        ContentKind::Document
    }
}

/// The image type shown for an image: the subtype of an `image/` Content-Type, else the
/// URL's last dot-separated piece, in upper case.
pub open spec fn image_kind(url: Seq<char>, content_type: Seq<char>) -> Seq<char> {
    let u = lower_seq(url);
    let c = lower_seq(content_type);
    upper_seq(
        if contains(c, "image/"@) {
            split_pieces(c, "/"@)[1]
        } else {
            split_pieces(u, "."@).last()
        },
    )
}

/// The image type, as `image_kind` says.
pub fn image_type(url: &str, content_type: &str) -> (r: String)
    ensures
        r@ == image_kind(url@, content_type@),
{
    let ul = ascii_lower(url);
    let cl = ascii_lower(content_type);
    proof {
        reveal_strlit("/");
        reveal_strlit(".");
    }
    if str_contains(cl.as_str(), "image/") {
        let pieces = split_str(cl.as_str(), "/");
        proof {
            reveal_strlit("image/");
            let i = choose|i: int| crate::text::matches_at(cl@, "image/"@, i);
            assert(cl@.subrange(i, i + 6)[5] == '/');
            assert(cl@.subrange(i + 5, i + 6) =~= "/"@);
            assert(crate::text::matches_at(cl@, "/"@, i + 5));
            crate::text::lemma_find_from_matches(cl@, "/"@, 0);
            crate::text::lemma_split_second(cl@, "/"@);
        }
        ascii_upper(pieces[1].as_str())
    } else {
        let pieces = split_str(ul.as_str(), ".");
        proof {
            crate::text::lemma_split_nonempty(ul@, "."@);
        }
        ascii_upper(pieces[pieces.len() - 1].as_str())
    }
}

/// Append a line.
fn push_line(v: &mut Vec<String>, s: &str)
    ensures
        strs(final(v)@) == strs(old(v)@).push(s@),
{
    let ghost before = v@;
    v.push(owned(s));
    proof {
        lemma_views_push(before, v@.last());
        assert(strs(v@) =~= views(v@));
        assert(strs(before) =~= views(before));
    }
}

/// The header lines of a generated page.
pub open spec fn banner(heading: Seq<char>) -> Seq<Seq<char>> {
    seq![BAR@, heading, BAR@]
}

/// The lines of a PDF page: a banner, the URL and a hint, then the extracted text's
/// lines; or, when extraction failed, the reason and how to get the tool that extracts.
pub open spec fn pdf_lines(url: Seq<char>, extracted: Result<String, String>) -> Seq<Seq<char>> {
    match extracted {
        Ok(text) => banner("              PDF Document"@) + seq![
            "URL: "@ + url,
            "Press 'o' to open in system PDF viewer"@,
            BAR@,
            ""@,
        ] + lines(text@),
        Err(e) => banner("              PDF Document"@) + seq![
            ""@,
            "URL: "@ + url,
            ""@,
            "Failed to extract text: "@ + e@,
            ""@,
            "Install poppler-utils for PDF text extraction:"@,
            "  sudo apt install poppler-utils"@,
            ""@,
            "Or press 'o' to open in system viewer"@,
            ""@,
        ],
    }
}

/// The page shown for a PDF document.
pub fn pdf_page(url: String, extracted: Result<String, String>) -> (p: Page)
    ensures
        p.url@ == url@,
        p.title@ == "PDF Document"@,
        strs(p.content_lines@) == pdf_lines(url@, extracted),
        p.raw_content@.len() == 0,
        p.links@.len() == 0,
{
    let mut v: Vec<String> = Vec::new();
    push_line(&mut v, BAR);
    push_line(&mut v, "              PDF Document");
    push_line(&mut v, BAR);
    let url_line = concat2("URL: ", url.as_str());
    match &extracted {
        Ok(text) => {
            push_line(&mut v, url_line.as_str());
            push_line(&mut v, "Press 'o' to open in system PDF viewer");
            push_line(&mut v, BAR);
            push_line(&mut v, "");
            let ghost head = strs(v@);
            let ls = str_lines(text.as_str());
            let mut i: usize = 0;
            while i < ls.len()
                invariant
                    i <= ls.len(),
                    strs(v@) == head + views(ls@).take(i as int),
                decreases ls.len() - i,
            {
                let ghost before = v@;
                v.push(ls[i].clone());
                proof {
                    lemma_views_push(before, v@.last());
                    assert(strs(v@) =~= views(v@));
                    assert(strs(before) =~= views(before));
                    assert(strs(v@) =~= head + views(ls@).take(i as int + 1));
                }
                i = i + 1;
            }
            assert(views(ls@).take(ls@.len() as int) =~= views(ls@));
            assert(strs(v@) =~= pdf_lines(url@, extracted));
        },
        Err(e) => {
            push_line(&mut v, "");
            push_line(&mut v, url_line.as_str());
            push_line(&mut v, "");
            let fail = concat2("Failed to extract text: ", e.as_str());
            push_line(&mut v, fail.as_str());
            push_line(&mut v, "");
            push_line(&mut v, "Install poppler-utils for PDF text extraction:");
            push_line(&mut v, "  sudo apt install poppler-utils");
            push_line(&mut v, "");
            push_line(&mut v, "Or press 'o' to open in system viewer");
            push_line(&mut v, "");
            assert(strs(v@) =~= pdf_lines(url@, extracted));
        },
    }
    Page {
        url,
        title: owned("PDF Document"),
        content_lines: v,
        raw_content: String::new(),
        links: Vec::new(),
    }
}

/// Text extracted from a PDF, unless it is blank (then the PDF holds only images, or no
/// text at all).
pub fn check_pdf_text(text: String) -> (r: Result<String, String>)
    ensures
        trim(text@).len() == 0 ==> (r matches Err(e) && e@
            == "PDF appears to be image-based or has no extractable text"@),
        trim(text@).len() > 0 ==> (r matches Ok(t) && t@ == text@),
{
    if trim_str(text.as_str()).as_str().is_empty() {
        Err(owned("PDF appears to be image-based or has no extractable text"))
    } else {
        Ok(text)
    }
}

/// The lines of an image page.
pub open spec fn image_lines(url: Seq<char>, kind: Seq<char>) -> Seq<Seq<char>> {
    banner("              Image ("@ + kind + ")"@) + seq![
        ""@,
        "URL: "@ + url,
        ""@,
        "This is an image file. Terminal browsers"@,
        "cannot display images directly."@,
        ""@,
        "Options:"@,
        "  • Press 'o' to open in system viewer"@,
        "  • Copy the URL and open in a browser"@,
        ""@,
    ]
}

/// The page shown for an image of the given type.
pub fn image_page(url: String, kind: &str) -> (p: Page)
    ensures
        p.url@ == url@,
        p.title@ == "Image ("@ + kind@ + ")"@,
        strs(p.content_lines@) == image_lines(url@, kind@),
        p.raw_content@.len() == 0,
        p.links@.len() == 0,
{
    let mut v: Vec<String> = Vec::new();
    push_line(&mut v, BAR);
    let heading = crate::text::concat3("              Image (", kind, ")");
    push_line(&mut v, heading.as_str());
    push_line(&mut v, BAR);
    push_line(&mut v, "");
    let url_line = concat2("URL: ", url.as_str());
    push_line(&mut v, url_line.as_str());
    push_line(&mut v, "");
    push_line(&mut v, "This is an image file. Terminal browsers");
    push_line(&mut v, "cannot display images directly.");
    push_line(&mut v, "");
    push_line(&mut v, "Options:");
    push_line(&mut v, "  • Press 'o' to open in system viewer");
    push_line(&mut v, "  • Copy the URL and open in a browser");
    push_line(&mut v, "");
    assert(strs(v@) =~= image_lines(url@, kind@));
    Page {
        url,
        title: crate::text::concat3("Image (", kind, ")"),
        content_lines: v,
        raw_content: String::new(),
        links: Vec::new(),
    }
}

/// The lines of the page for a binary type named by its header.
pub open spec fn binary_type_lines(url: Seq<char>, content_type: Seq<char>) -> Seq<Seq<char>> {
    banner("              Binary File"@) + seq![
        ""@,
        "URL: "@ + url,
        "Type: "@ + lower_seq(content_type),
        ""@,
        "This is a binary file that cannot be"@,
        "displayed in a terminal browser."@,
        ""@,
        "Options:"@,
        "  • Press 'o' to open/download"@,
        "  • Copy the URL and download manually"@,
        ""@,
    ]
}

/// The page shown for a binary type named by its header (shown in lower case).
pub fn binary_type_page(url: String, content_type: &str) -> (p: Page)
    ensures
        p.url@ == url@,
        p.title@ == "Binary File"@,
        strs(p.content_lines@) == binary_type_lines(url@, content_type@),
        p.raw_content@.len() == 0,
        p.links@.len() == 0,
{
    let mut v: Vec<String> = Vec::new();
    push_line(&mut v, BAR);
    push_line(&mut v, "              Binary File");
    push_line(&mut v, BAR);
    push_line(&mut v, "");
    let url_line = concat2("URL: ", url.as_str());
    push_line(&mut v, url_line.as_str());
    let lc = ascii_lower(content_type);
    let type_line = concat2("Type: ", lc.as_str());
    push_line(&mut v, type_line.as_str());
    push_line(&mut v, "");
    push_line(&mut v, "This is a binary file that cannot be");
    push_line(&mut v, "displayed in a terminal browser.");
    push_line(&mut v, "");
    push_line(&mut v, "Options:");
    push_line(&mut v, "  • Press 'o' to open/download");
    push_line(&mut v, "  • Copy the URL and download manually");
    push_line(&mut v, "");
    assert(strs(v@) =~= binary_type_lines(url@, content_type@));
    Page {
        url,
        title: owned("Binary File"),
        content_lines: v,
        raw_content: String::new(),
        links: Vec::new(),
    }
}

/// The lines of the page for a body that turned out to be binary.
pub open spec fn binary_data_lines(url: Seq<char>) -> Seq<Seq<char>> {
    banner("              Binary File"@) + seq![
        ""@,
        "URL: "@ + url,
        ""@,
        "This file contains binary data that cannot"@,
        "be displayed in a terminal browser."@,
        ""@,
        "Options:"@,
        "  • Press 'o' to open in system viewer"@,
        "  • Copy the URL and open in a browser"@,
        ""@,
    ]
}

/// The page shown for a body that turned out to be binary.
pub fn binary_data_page(url: String) -> (p: Page)
    ensures
        p.url@ == url@,
        p.title@ == "Binary File"@,
        strs(p.content_lines@) == binary_data_lines(url@),
        p.raw_content@.len() == 0,
        p.links@.len() == 0,
{
    let mut v: Vec<String> = Vec::new();
    push_line(&mut v, BAR);
    push_line(&mut v, "              Binary File");
    push_line(&mut v, BAR);
    push_line(&mut v, "");
    let url_line = concat2("URL: ", url.as_str());
    push_line(&mut v, url_line.as_str());
    push_line(&mut v, "");
    push_line(&mut v, "This file contains binary data that cannot");
    push_line(&mut v, "be displayed in a terminal browser.");
    push_line(&mut v, "");
    push_line(&mut v, "Options:");
    push_line(&mut v, "  • Press 'o' to open in system viewer");
    push_line(&mut v, "  • Copy the URL and open in a browser");
    push_line(&mut v, "");
    assert(strs(v@) =~= binary_data_lines(url@));
    Page {
        url,
        title: owned("Binary File"),
        content_lines: v,
        raw_content: String::new(),
        links: Vec::new(),
    }
}


/// The bytes start with `p`.
pub open spec fn bytes_start(b: Seq<u8>, p: Seq<u8>) -> bool {
    p.len() <= b.len() && b.take(p.len() as int) == p
}

/// ASCII graphic characters and ASCII whitespace.
pub open spec fn printable(c: char) -> bool {
    ('!' <= c && c <= '~') || c == ' ' || c == '\t' || c == '\n' || c == '\u{c}' || c == '\r'
}

/// How many characters of `s` are not printable.
pub open spec fn unprintable_count(s: Seq<char>) -> nat
    decreases s.len(),
{
    if s.len() == 0 {
        0
    } else {
        unprintable_count(s.drop_last()) + if printable(s.last()) { 0nat } else { 1nat }
    }
}

/// A body looks binary when it starts like a PDF, PNG, GIF, JPEG or ZIP file, or when
/// more than a quarter of its first thousand characters (counted against their length
/// in bytes) are not printable.
pub open spec fn looks_binary(s: Seq<char>) -> bool {
    let b = vstd::utf8::encode_utf8(s);
    let sample = if s.len() <= 1000 { s } else { s.take(1000) };
    ||| starts_with(s, "%PDF"@)
    ||| bytes_start(b, seq![0x89u8, 0x50u8, 0x4eu8, 0x47u8])
    ||| starts_with(s, "GIF8"@)
    ||| bytes_start(b, seq![0xffu8, 0xd8u8, 0xffu8])
    ||| bytes_start(b, seq![0x50u8, 0x4bu8, 0x03u8, 0x04u8])
    ||| unprintable_count(sample) > byte_len(sample) / 4
}

fn is_printable(c: char) -> (b: bool)
    ensures
        b == printable(c),
{
    ('!' <= c && c <= '~') || c == ' ' || c == '\t' || c == '\n' || c == '\u{c}' || c == '\r'
}

fn char_width(c: char) -> (w: usize)
    ensures
        w == utf8_width(c),
{
    let v: u32 = c as u32;
    if v <= 0x7f {
        1
    } else if v <= 0x7ff {
        2
    } else if v <= 0xffff {
        3
    } else {
        4
    }
}

/// Whether a body looks binary, as `looks_binary` says.
pub fn is_likely_binary(s: &str) -> (r: bool)
    ensures
        r == looks_binary(s@),
{
    let b = s.as_bytes();
    let png = b.len() >= 4 && b[0] == 0x89u8 && b[1] == 0x50u8 && b[2] == 0x4eu8 && b[3] == 0x47u8;
    let jpeg = b.len() >= 3 && b[0] == 0xffu8 && b[1] == 0xd8u8 && b[2] == 0xffu8;
    let zip = b.len() >= 4 && b[0] == 0x50u8 && b[1] == 0x4bu8 && b[2] == 0x03u8 && b[3] == 0x04u8;
    proof {
        let e = vstd::utf8::encode_utf8(s@);
        assert(b@ == e);
        if e.len() >= 4 {
            assert(png == (e.take(4) =~= seq![0x89u8, 0x50u8, 0x4eu8, 0x47u8]));
            assert(zip == (e.take(4) =~= seq![0x50u8, 0x4bu8, 0x03u8, 0x04u8]));
        }
        if e.len() >= 3 {
            assert(jpeg == (e.take(3) =~= seq![0xffu8, 0xd8u8, 0xffu8]));
        }
    }
    if str_starts_with(s, "%PDF") || png || str_starts_with(s, "GIF8") || jpeg || zip {
        return true;
    }
    let v = chars_of(s);
    let n = if v.len() <= 1000 { v.len() } else { 1000 };
    let ghost sample = if s@.len() <= 1000 { s@ } else { s@.take(1000) };
    let mut bad: usize = 0;
    let mut bytes: usize = 0;
    let mut i: usize = 0;
    assert(sample.take(0) =~= Seq::<char>::empty());
    assert(vstd::utf8::encode_utf8(Seq::<char>::empty()) =~= Seq::<u8>::empty());
    while i < n
        invariant
            i <= n,
            n == sample.len(),
            v@ == s@,
            sample == (if s@.len() <= 1000 { s@ } else { s@.take(1000) }),
            bad == unprintable_count(sample.take(i as int)),
            bytes == byte_len(sample.take(i as int)),
            bad <= i,
            bytes <= 4 * i,
        decreases n - i,
    {
        let c = v[i];
        proof {
            assert(sample[i as int] == c);
            assert(sample.take(i + 1).drop_last() =~= sample.take(i as int));
            assert(sample.take(i + 1) =~= sample.take(i as int).push(c));
            crate::text::lemma_byte_len_push(sample.take(i as int), c);
        }
        if !is_printable(c) {
            bad = bad + 1;
        }
        bytes = bytes + char_width(c);
        i = i + 1;
    }
    assert(sample.take(n as int) =~= sample);
    bad > bytes / 4
}

/// Whether a character is alphanumeric for Unicode.
pub uninterp spec fn unicode_alphanumeric(c: char) -> bool;

/// `char::is_alphanumeric`: the claim is only that the answer is std's, a function of the
/// character alone.
#[verifier::external_body]
fn is_alphanumeric(c: char) -> (b: bool)
    ensures
        b == unicode_alphanumeric(c),
{
    c.is_alphanumeric()
}

/// ASCII punctuation.
pub open spec fn ascii_punctuation(c: char) -> bool {
    ('!' <= c && c <= '/') || (':' <= c && c <= '@') || ('[' <= c && c <= '`') || ('{' <= c && c <= '~')
}

/// A character of page text as shown: ASCII graphics, space and tab stay, so do
/// alphanumerics and punctuation beyond U+00A0; anything else becomes a space.
pub open spec fn sanitized_char(c: char) -> char {
    if ('!' <= c && c <= '~') || c == ' ' || c == '\t' {
        c
    } else if (c as u32) > 0xa0 && (unicode_alphanumeric(c) || ascii_punctuation(c)) {
        c
    } else {
        ' '
    }
}

/// A line of page text as shown.
pub open spec fn sanitized(s: Seq<char>) -> Seq<char> {
    Seq::new(s.len(), |i: int| sanitized_char(s[i]))
}

/// A line of page text as shown, as `sanitized` says.
pub fn sanitize_line(s: &str) -> (r: String)
    ensures
        r@ == sanitized(s@),
{
    let v = chars_of(s);
    let mut out: Vec<char> = Vec::new();
    let mut i: usize = 0;
    while i < v.len()
        invariant
            i <= v.len(),
            v@ == s@,
            out@ == sanitized(v@).take(i as int),
        decreases v.len() - i,
    {
        let c = v[i];
        let k = if ('!' <= c && c <= '~') || c == ' ' || c == '\t' {
            c
        } else if (c as u32) > 0xa0 && (is_alphanumeric(c) || ('!' <= c && c <= '/') || (':' <= c
            && c <= '@') || ('[' <= c && c <= '`') || ('{' <= c && c <= '~')) {
            c
        } else {
            ' '
        };
        out.push(k);
        i = i + 1;
        assert(out@ =~= sanitized(v@).take(i as int));
    }
    assert(sanitized(v@).take(v@.len() as int) =~= sanitized(v@));
    string_of(&out)
}

/// An `<a href>` element of a document: its target and its text pieces.
#[derive(Debug, Clone)]
pub struct Anchor {
    pub href: String,
    pub texts: Vec<String>,
}

/// The view of the anchors.
pub open spec fn anchors_view(v: Seq<Anchor>) -> Seq<(Seq<char>, Seq<Seq<char>>)> {
    v.map_values(|a: Anchor| (a.href@, views(a.texts@)))
}

/// The `<a href>` elements that scraper finds in a document, in document order, each with
/// its `href` and its text nodes.
pub uninterp spec fn html_anchors_of(html: Seq<char>) -> Seq<(Seq<char>, Seq<Seq<char>>)>;

/// scraper: `Html::parse_document`, then `select("a[href]")`, each element's `href`
/// attribute and `text()` pieces. The claim is only that the list is scraper's, a function
/// of the document text alone.
#[verifier::external_body]
pub(crate) fn html_anchors(html: &str) -> (r: Vec<Anchor>)
    ensures
        anchors_view(r@) == html_anchors_of(html@),
{
    let doc = scraper::Html::parse_document(html);
    let sel = scraper::Selector::parse("a[href]").unwrap();
    doc.select(&sel).map(|el| Anchor {
        href: el.value().attr("href").unwrap_or("").to_string(),
        texts: el.text().map(|t| t.to_string()).collect(),
    }).collect()
}

/// The inner HTML of the first `<title>` element that scraper finds, if any.
pub uninterp spec fn html_title_of(html: Seq<char>) -> Option<Seq<char>>;

/// scraper: `Html::parse_document`, then `select("title")`, the first element's
/// `inner_html`. The claim is only that the answer is scraper's, a function of the
/// document text alone.
#[verifier::external_body]
pub(crate) fn html_title(html: &str) -> (r: Option<String>)
    ensures
        match r {
            Some(t) => html_title_of(html@) == Some(t@),
            None => html_title_of(html@) is None,
        },
{
    let doc = scraper::Html::parse_document(html);
    let sel = scraper::Selector::parse("title").unwrap();
    doc.select(&sel).next().map(|el| el.inner_html())
}

/// The text html2text renders from a document at a width, or `None` when it cannot
/// render it.
pub uninterp spec fn html_text_of(html: Seq<char>, width: usize) -> Option<Seq<char>>;

/// html2text's plain configuration: `config::plain().string_from_read(html, width)`. The
/// claim is only that the answer is html2text's, a function of the document and the width.
#[verifier::external_body]
pub(crate) fn html_to_text(html: &str, width: usize) -> (r: Option<String>)
    ensures
        match r {
            Some(t) => html_text_of(html@, width) == Some(t@),
            None => html_text_of(html@, width) is None,
        },
{
    html2text::config::plain().string_from_read(html.as_bytes(), width).ok()
}

/// A page title: the title element's text trimmed, or "Untitled" without one.
pub open spec fn title_text(t: Option<Seq<char>>) -> Seq<char> {
    match t {
        Some(x) => trim(x),
        None => "Untitled"@,
    }
}

/// The link an anchor gives: its text pieces joined by spaces and trimmed, its target
/// resolved; none when the text is empty or the target is `#` or a `javascript:` URL.
pub open spec fn anchor_link(base: Seq<char>, a: (Seq<char>, Seq<Seq<char>>)) -> Option<(Seq<char>, Seq<char>)> {
    let text = trim(join(a.1, " "@));
    if text.len() == 0 || a.0 == "#"@ || starts_with(a.0, "javascript:"@) {
        None
    } else {
        Some((text, resolved(base, a.0)))
    }
}

/// The links of a list of anchors, in order.
pub open spec fn links_from(base: Seq<char>, anchors: Seq<(Seq<char>, Seq<Seq<char>>)>) -> Seq<(Seq<char>, Seq<char>)>
    decreases anchors.len(),
{
    if anchors.len() == 0 {
        Seq::empty()
    } else {
        let r = links_from(base, anchors.drop_last());
        match anchor_link(base, anchors.last()) {
            Some(l) => r.push(l),
            None => r,
        }
    }
}

/// Pieces that are not empty and do not start or end with white space.
pub open spec fn tight_pieces(ts: Seq<Seq<char>>) -> bool {
    forall|i: int|
        0 <= i < ts.len() ==> #[trigger] ts[i].len() > 0 && !crate::text::is_ws(ts[i][0])
            && !crate::text::is_ws(ts[i].last())
}

/// Pieces joined by spaces start with the first piece's first character and end with
/// the last piece's last character.
proof fn lemma_join_ends(ts: Seq<Seq<char>>)
    requires
        ts.len() > 0,
        tight_pieces(ts),
    ensures
        join(ts, " "@).len() > 0,
        join(ts, " "@)[0] == ts[0][0],
        join(ts, " "@).last() == ts.last().last(),
    decreases ts.len(),
{
    assert(ts[0].len() > 0);
    assert(ts[ts.len() - 1].len() > 0);
    if ts.len() > 1 {
        let d = ts.drop_last();
        assert(tight_pieces(d)) by {
            assert forall|i: int| 0 <= i < d.len() implies #[trigger] d[i].len() > 0 && !crate::text::is_ws(
                d[i][0],
            ) && !crate::text::is_ws(d[i].last()) by {
                assert(d[i] == ts[i]);
            }
        }
        lemma_join_ends(d);
        assert(d[0] == ts[0]);
    }
}

/// Text that starts and ends with a non-blank character is its own trim.
proof fn lemma_trim_tight(t: Seq<char>)
    requires
        t.len() > 0,
        !crate::text::is_ws(t[0]),
        !crate::text::is_ws(t.last()),
    ensures
        trim(t) == t,
{
    assert(crate::text::trim_start(t) == t);
    assert(crate::text::trim_end(t) == t);
}

/// A link's text is the text of the whole anchor: all of its pieces, joined by single
/// spaces; one more piece in the anchor adds a space and that piece to the text, and the
/// target is resolved against the page address either way.
pub proof fn law_link_text_joins_pieces(base: Seq<char>, h: Seq<char>, ts: Seq<Seq<char>>, x: Seq<char>)
    requires
        ts.len() > 0,
        tight_pieces(ts),
        tight_pieces(seq![x]),
        h != "#"@,
        !starts_with(h, "javascript:"@),
    ensures
        links_from(base, seq![(h, seq![x])]) == seq![(x, resolved(base, h))],
        links_from(base, seq![(h, ts)]).len() == 1,
        links_from(base, seq![(h, ts.push(x))]) == seq![
            (links_from(base, seq![(h, ts)])[0].0 + " "@ + x, resolved(base, h)),
        ],
{
    reveal_strlit(" ");
    assert(seq![x][0] == x);
    assert(seq![x][0].len() > 0);
    assert(ts[0].len() > 0);
    assert(ts[ts.len() - 1].len() > 0);
    let one = seq![(h, seq![x])];
    assert(one.drop_last() =~= Seq::<(Seq<char>, Seq<Seq<char>>)>::empty());
    assert(join(seq![x], " "@) == x);
    lemma_trim_tight(x);
    let a = seq![(h, ts)];
    assert(a.drop_last() =~= Seq::<(Seq<char>, Seq<Seq<char>>)>::empty());
    lemma_join_ends(ts);
    let j = join(ts, " "@);
    lemma_trim_tight(j);
    let tx = ts.push(x);
    let b = seq![(h, tx)];
    assert(b.drop_last() =~= Seq::<(Seq<char>, Seq<Seq<char>>)>::empty());
    assert(tx.drop_last() =~= ts);
    assert(join(tx, " "@) == j + " "@ + x);
    let jx = j + " "@ + x;
    assert(jx[0] == j[0]);
    assert(jx.last() == x.last());
    lemma_trim_tight(jx);
    assert(a.last() == (h, ts));
    assert(b.last() == (h, tx));
    assert(links_from(base, a.drop_last()) == Seq::<(Seq<char>, Seq<char>)>::empty());
    assert(links_from(base, b.drop_last()) == Seq::<(Seq<char>, Seq<char>)>::empty());
    assert(anchor_link(base, (h, ts)) == Some((j, resolved(base, h))));
    assert(anchor_link(base, (h, tx)) == Some((jx, resolved(base, h))));
    assert(links_from(base, a) =~= seq![(j, resolved(base, h))]);
    assert(links_from(base, b) =~= seq![(jx, resolved(base, h))]);
}

/// The links of a document's anchors, as `links_from` says.
pub fn collect_links(base: &str, anchors: &Vec<Anchor>) -> (r: Vec<Link>)
    ensures
        links_view(r@) == links_from(base@, anchors_view(anchors@)),
{
    let ghost av = anchors_view(anchors@);
    let mut out: Vec<Link> = Vec::new();
    let mut i: usize = 0;
    while i < anchors.len()
        invariant
            i <= anchors.len(),
            av == anchors_view(anchors@),
            links_view(out@) == links_from(base@, av.take(i as int)),
        decreases anchors.len() - i,
    {
        let a = &anchors[i];
        proof {
            assert(av.take(i as int + 1).drop_last() =~= av.take(i as int));
            assert(av.take(i as int + 1).last() == (a.href@, views(a.texts@)));
            reveal_strlit("#");
        }
        let joined = join_strings(&a.texts, " ");
        let text = trim_str(joined.as_str());
        if !(text.as_str().is_empty() || str_eq(a.href.as_str(), "#") || str_starts_with(
            a.href.as_str(),
            "javascript:",
        )) {
            let url = resolve_url(base, a.href.as_str());
            let ghost before = out@;
            out.push(Link { text, url });
            proof {
                assert(links_view(out@) =~= links_view(before).push(out@.last().deep_view()));
            }
        }
        i = i + 1;
    }
    assert(av.take(anchors@.len() as int) =~= av);
    out
}

/// The lines html2text renders, each as shown.
pub open spec fn shown_lines(text: Seq<char>) -> Seq<Seq<char>> {
    lines(text).map_values(|l: Seq<char>| sanitized(l))
}

/// The page a fetched HTML document gives. A body that looks binary gives the binary
/// page; otherwise the title, the links (resolved against `base`) and the text html2text
/// renders at width 100, each line as shown. `None` when html2text cannot render it.
pub fn document_page(base: &str, url: String, html: String) -> (r: Option<Page>)
    ensures
        looks_binary(html@) ==> (r matches Some(p) && p.url@ == url@ && p.title@ == "Binary File"@
            && strs(p.content_lines@) == binary_data_lines(url@) && p.raw_content@.len() == 0
            && p.links@.len() == 0),
        !looks_binary(html@) ==> match html_text_of(html@, 100) {
            None => r is None,
            Some(t) => r matches Some(p) && p.url@ == url@ && p.title@ == title_text(html_title_of(html@))
                && strs(p.content_lines@) == shown_lines(t) && p.raw_content@ == html@ && links_view(
                p.links@,
            ) == links_from(base@, html_anchors_of(html@)),
        },
{
    if is_likely_binary(html.as_str()) {
        return Some(binary_data_page(url));
    }
    match html_to_text(html.as_str(), 100) {
        None => None,
        Some(text) => {
            let title = page_title(html.as_str());
            let anchors = html_anchors(html.as_str());
            let links = collect_links(base, &anchors);
            let ls = str_lines(text.as_str());
            let mut content: Vec<String> = Vec::new();
            let mut i: usize = 0;
            while i < ls.len()
                invariant
                    i <= ls.len(),
                    strs(content@) == views(ls@).take(i as int).map_values(|l: Seq<char>| sanitized(l)),
                decreases ls.len() - i,
            {
                let line = sanitize_line(ls[i].as_str());
                let ghost before = content@;
                content.push(line);
                proof {
                    lemma_views_push(before, content@.last());
                    assert(strs(content@) =~= views(content@));
                    assert(strs(before) =~= views(before));
                    assert(strs(content@) =~= views(ls@).take(i as int + 1).map_values(
                        |l: Seq<char>| sanitized(l),
                    ));
                }
                i = i + 1;
            }
            assert(views(ls@).take(ls@.len() as int) =~= views(ls@));
            Some(Page { url, title, content_lines: content, raw_content: html, links })
        },
    }
}

/// The page title of a document, as `title_text` says.
pub fn page_title(html: &str) -> (r: String)
    ensures
        r@ == title_text(html_title_of(html@)),
{
    match html_title(html) {
        Some(t) => trim_str(t.as_str()),
        None => owned("Untitled"),
    }
}

/// The page a document rendered by a browser engine gives: the title, the links
/// (resolved against `base`) and the text html2text renders at width 100, lines as they
/// are. `None` when html2text cannot render it.
pub fn rendered_page(base: &str, url: String, html: String) -> (r: Option<Page>)
    ensures
        match html_text_of(html@, 100) {
            None => r is None,
            Some(t) => r matches Some(p) && p.url@ == url@ && p.title@ == title_text(html_title_of(html@))
                && strs(p.content_lines@) == lines(t) && p.raw_content@ == html@ && links_view(p.links@)
                == links_from(base@, html_anchors_of(html@)),
        },
{
    match html_to_text(html.as_str(), 100) {
        None => None,
        Some(text) => {
            let title = page_title(html.as_str());
            let anchors = html_anchors(html.as_str());
            let links = collect_links(base, &anchors);
            let content = str_lines(text.as_str());
            assert(strs(content@) =~= views(content@));
            Some(Page { url, title, content_lines: content, raw_content: html, links })
        },
    }
}

/// Lower case for Unicode, as `str::to_lowercase` gives it.
pub uninterp spec fn unicode_lower(s: Seq<char>) -> Seq<char>;

/// `str::to_lowercase`: the claim is only that the answer is std's, a function of the
/// text alone.
#[verifier::external_body]
pub(crate) fn to_lowercase(s: &str) -> (r: String)
    ensures
        r@ == unicode_lower(s@),
{
    s.to_lowercase()
}

/// The total length in bytes of some lines.
pub open spec fn total_bytes(ls: Seq<Seq<char>>) -> nat
    decreases ls.len(),
{
    if ls.len() == 0 {
        0
    } else {
        total_bytes(ls.drop_last()) + byte_len(ls.last())
    }
}

/// Whether a statically fetched page probably needs JavaScript: under 200 bytes of text;
/// or text (lower-cased) asking to enable JavaScript, or mentioning noscript; or a
/// React, Next, Vue, Nuxt or Angular marker in the raw HTML with under 500 bytes of text.
pub open spec fn needs_js(p: Page) -> bool {
    let total = total_bytes(strs(p.content_lines@));
    let content = unicode_lower(join(strs(p.content_lines@), " "@));
    let raw = unicode_lower(p.raw_content@);
    let framework = contains(raw, "react"@) || contains(raw, "__next"@) || contains(raw, "vue"@)
        || contains(raw, "nuxt"@) || contains(raw, "ng-app"@) || contains(raw, "angular"@);
    ||| total < 200
    ||| contains(content, "javascript"@) && contains(content, "enable"@)
    ||| contains(content, "noscript"@)
    ||| framework && total < 500
}

/// The length in bytes of `s`, or `cap` when it is longer.
fn capped_byte_len(s: &str, cap: usize) -> (n: usize)
    ensures
        n == if byte_len(s@) < cap { byte_len(s@) } else { cap as nat },
{
    if cap == 0 {
        return 0;
    }
    let v = chars_of(s);
    let mut total: usize = 0;
    let mut i: usize = 0;
    assert(v@.take(0) =~= Seq::<char>::empty());
    assert(vstd::utf8::encode_utf8(Seq::<char>::empty()) =~= Seq::<u8>::empty());
    while i < v.len()
        invariant
            i <= v.len(),
            v@ == s@,
            total == byte_len(v@.take(i as int)),
            total < cap,
        decreases v.len() - i,
    {
        let w = char_width(v[i]);
        proof {
            assert(v@.take(i + 1) =~= v@.take(i as int).push(v@[i as int]));
            crate::text::lemma_byte_len_push(v@.take(i as int), v@[i as int]);
        }
        if w >= cap - total {
            proof {
                crate::text::lemma_byte_len_prefix_le(v@, i + 1);
            }
            return cap;
        }
        total = total + w;
        i = i + 1;
    }
    assert(v@.take(v@.len() as int) =~= v@);
    total
}

/// Whether a statically fetched page probably needs JavaScript, as `needs_js` says.
pub fn needs_javascript(page: &Page) -> (b: bool)
    ensures
        b == needs_js(*page),
{
    let ghost ls = strs(page.content_lines@);
    let mut acc: usize = 0;
    let mut i: usize = 0;
    while i < page.content_lines.len()
        invariant
            i <= page.content_lines.len(),
            ls == strs(page.content_lines@),
            acc == if total_bytes(ls.take(i as int)) < 500 { total_bytes(ls.take(i as int)) } else { 500nat },
        decreases page.content_lines.len() - i,
    {
        proof {
            assert(ls.take(i as int + 1).drop_last() =~= ls.take(i as int));
        }
        if acc < 500 {
            let n = capped_byte_len(page.content_lines[i].as_str(), 500 - acc);
            acc = acc + n;
        }
        i = i + 1;
    }
    assert(ls.take(ls.len() as int) =~= ls);
    if acc < 200 {
        return true;
    }
    let joined = join_strings(&page.content_lines, " ");
    assert(views(page.content_lines@) =~= ls);
    let content = to_lowercase(joined.as_str());
    let c = content.as_str();
    if str_contains(c, "javascript") && str_contains(c, "enable") {
        return true;
    }
    if str_contains(c, "noscript") {
        return true;
    }
    let raw = to_lowercase(page.raw_content.as_str());
    let r = raw.as_str();
    let framework = str_contains(r, "react") || str_contains(r, "__next") || str_contains(r, "vue")
        || str_contains(r, "nuxt") || str_contains(r, "ng-app") || str_contains(r, "angular");
    framework && acc < 500
}

} // verus!
