//! Recorded pages: where the page recorded for an address is kept.
use vstd::prelude::*;
use crate::text::{trim, trim_str, starts_with, is_ascii_alnum, lower, chars_of, to_ascii_lower, owned, concat2,
    push_char, vec_starts_with};

verus! {

/// `s` without the `/` characters at its end.
pub open spec fn trim_end_slashes(s: Seq<char>) -> Seq<char>
    decreases s.len(),
{
    if s.len() > 0 && s.last() == '/' { trim_end_slashes(s.drop_last()) } else { s }
}

/// `s` without a leading `https://`, else without a leading `http://`.
pub open spec fn strip_scheme(s: Seq<char>) -> Seq<char> {
    if starts_with(s, "https://"@) {
        s.skip(8)
    } else if starts_with(s, "http://"@) {
        s.skip(7)
    } else {
        s
    }
}

/// An ASCII letter or digit in lower case; any other character becomes `_`.
pub open spec fn slug_char(c: char) -> char {
    if is_ascii_alnum(c) { lower(c) } else { '_' }
}

/// The file name stem of the page recorded for `url`: the address trimmed, without
/// trailing slashes and scheme, each character made a slug character.
pub open spec fn url_slug(url: Seq<char>) -> Seq<char> {
    strip_scheme(trim_end_slashes(trim(url))).map_values(|c: char| slug_char(c))
}

/// The file name stem of the page recorded for `url`.
pub fn slug_for_url(url: &str) -> (r: String)
    ensures
        r@ == url_slug(url@),
{
    proof {
        reveal_strlit("https://");
        reveal_strlit("http://");
    }
    let t = trim_str(url);
    let v = chars_of(t.as_str());
    let mut end = v.len();
    assert(v@.take(end as int) =~= v@);
    while end > 0 && v[end - 1] == '/'
        invariant
            end <= v@.len(),
            trim_end_slashes(v@) == trim_end_slashes(v@.take(end as int)),
        decreases end,
    {
        assert(v@.take(end as int).drop_last() =~= v@.take(end - 1));
        end = end - 1;
    }
    assert(trim_end_slashes(v@.take(end as int)) == v@.take(end as int));
    let ghost kept = v@.take(end as int);
    let https: Vec<char> = chars_of("https://");
    let http: Vec<char> = chars_of("http://");
    let mut prefix: Vec<char> = Vec::new();
    let mut i: usize = 0;
    while i < end
        invariant
            end <= v@.len(),
            i <= end,
            prefix@ == v@.take(i as int),
        decreases end - i,
    {
        prefix.push(v[i]);
        assert(v@.take(i + 1) =~= v@.take(i as int).push(v@[i as int]));
        i = i + 1;
    }
    assert(prefix@ =~= kept);
    let start: usize = if vec_starts_with(&prefix, &https) {
        8
    } else if vec_starts_with(&prefix, &http) {
        7
    } else {
        0
    };
    assert(strip_scheme(kept) == kept.skip(start as int));
    let mut out = String::new();
    let mut j: usize = start;
    while j < end
        invariant
            start <= j <= end,
            end <= v@.len(),
            kept == v@.take(end as int),
            start <= end || start == 0,
            out@ == kept.skip(start as int).take(j - start).map_values(|c: char| slug_char(c)),
        decreases end - j,
    {
        let c = v[j];
        let d = if ('a' <= c && c <= 'z') || ('A' <= c && c <= 'Z') || ('0' <= c && c <= '9') {
            to_ascii_lower(c)
        } else {
            '_'
        };
        push_char(&mut out, d);
        proof {
            assert(kept.skip(start as int).take(j - start + 1) =~= kept.skip(start as int).take(j - start).push(kept[j as int]));
        }
        j = j + 1;
    }
    proof {
        if start <= end {
            assert(kept.skip(start as int).take(end - start) =~= kept.skip(start as int));
        }
    }
    out
}

/// `a` joined with the relative path `b`, as `Path::join` does: a separator between them
/// unless `a` is empty or already ends with one.
pub open spec fn path_join(a: Seq<char>, b: Seq<char>) -> Seq<char> {
    if a.len() == 0 {
        b
    } else if a.last() == '/' {
        a + b
    } else {
        a + "/"@ + b
    }
}

fn join_path(a: &str, b: &str) -> (r: String)
    ensures
        r@ == path_join(a@, b@),
{
    let v = chars_of(a);
    if v.len() == 0 {
        owned(b)
    } else if v[v.len() - 1] == '/' {
        concat2(a, b)
    } else {
        let mut r = concat2(a, "/");
        r.append(b);
        r
    }
}

/// Where the page recorded for `url` is kept under `root`: `<root>/pages/<slug>.json`.
pub fn page_path(root: &str, url: &str) -> (r: String)
    ensures
        r@ == path_join(path_join(root@, "pages"@), url_slug(url@) + ".json"@),
{
    let dir = join_path(root, "pages");
    let name = concat2(slug_for_url(url).as_str(), ".json");
    join_path(dir.as_str(), name.as_str())
}

} // verus!

verus! {

/// The name of a recorded page keeps one character for each character of the address
/// (trimmed, without trailing slashes and scheme), and holds only lower-case ASCII
/// letters, digits and underscores.
pub proof fn law_url_slug_is_safe(url: Seq<char>)
    ensures
        url_slug(url).len() == strip_scheme(trim_end_slashes(trim(url))).len(),
        forall|k: int| 0 <= k < url_slug(url).len() ==> {
            let c = #[trigger] url_slug(url)[k];
            ('a' <= c && c <= 'z') || ('0' <= c && c <= '9') || c == '_'
        },
{
}

} // verus!
