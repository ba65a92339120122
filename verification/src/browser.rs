//! Pages, links and render modes.
use vstd::prelude::*;
use crate::text::owned;

verus! {

/// A hyperlink: its visible text and its target.
#[derive(Debug, Clone)]
pub struct Link {
    pub text: String,
    pub url: String,
}

/// A loaded (or generated) page.
#[derive(Debug, Clone)]
pub struct Page {
    pub url: String,
    pub title: String,
    pub content_lines: Vec<String>,
    pub raw_content: String,
    pub links: Vec<Link>,
}

/// How a page is fetched.
#[derive(Debug, Clone, Copy, PartialEq, Eq, Structural)]
pub enum RenderMode {
    /// Fast HTTP-only fetch (no JavaScript)
    Static,
    /// Full browser rendering with JavaScript
    JavaScript,
    /// Try static first, fall back to JavaScript if the page looks empty
    Auto,
}

impl DeepView for Link {
    type V = (Seq<char>, Seq<char>);

    open spec fn deep_view(&self) -> (Seq<char>, Seq<char>) {
        (self.text@, self.url@)
    }
}

/// The view of a sequence of strings.
pub open spec fn strs(v: Seq<String>) -> Seq<Seq<char>> {
    v.map_values(|s: String| s@)
}

/// The view of a sequence of links.
pub open spec fn links_view(v: Seq<Link>) -> Seq<(Seq<char>, Seq<char>)> {
    v.map_values(|l: Link| (l.text@, l.url@))
}

pub proof fn lemma_links_view_push(s: Seq<Link>, l: Link)
    ensures
        links_view(s.push(l)) == links_view(s).push((l.text@, l.url@)),
{
    assert(links_view(s.push(l)) =~= links_view(s).push((l.text@, l.url@)));
}

pub proof fn lemma_strs_push(s: Seq<String>, x: String)
    ensures
        strs(s.push(x)) == strs(s).push(x@),
{
    assert(strs(s.push(x)) =~= strs(s).push(x@));
}

impl Link {
    pub fn new(text: &str, url: &str) -> (l: Link)
        ensures
            l.text@ == text@,
            l.url@ == url@,
    {
        Link { text: owned(text), url: owned(url) }
    }

    /// A copy with the same contents.
    pub fn duplicate(&self) -> (l: Link)
        ensures
            l.text@ == self.text@,
            l.url@ == self.url@,
    {
        Link { text: self.text.clone(), url: self.url.clone() }
    }
}

/// A copy of a vector of strings.
pub fn copy_strings(v: &Vec<String>) -> (r: Vec<String>)
    ensures
        strs(r@) == strs(v@),
        r@.len() == v@.len(),
{
    let mut r: Vec<String> = Vec::new();
    let mut i: usize = 0;
    while i < v.len()
        invariant
            0 <= i <= v.len(),
            r@.len() == i,
            forall|j: int| 0 <= j < i ==> r@[j]@ == v@[j]@,
        decreases v.len() - i,
    {
        r.push(v[i].clone());
        i += 1;
    }
    assert(strs(r@) =~= strs(v@));
    r
}

/// A copy of a vector of links.
pub fn copy_links(v: &Vec<Link>) -> (r: Vec<Link>)
    ensures
        links_view(r@) == links_view(v@),
        r@.len() == v@.len(),
{
    let mut r: Vec<Link> = Vec::new();
    let mut i: usize = 0;
    while i < v.len()
        invariant
            0 <= i <= v.len(),
            r@.len() == i,
            forall|j: int|
                0 <= j < i ==> r@[j].text@ == v@[j].text@ && r@[j].url@ == v@[j].url@,
        decreases v.len() - i,
    {
        r.push(v[i].duplicate());
        i += 1;
    }
    assert(links_view(r@) =~= links_view(v@));
    r
}

impl Page {
    /// Whether two pages hold the same text everywhere.
    pub open spec fn same(&self, other: &Page) -> bool {
        &&& self.url@ == other.url@
        &&& self.title@ == other.title@
        &&& strs(self.content_lines@) == strs(other.content_lines@)
        &&& self.raw_content@ == other.raw_content@
        &&& links_view(self.links@) == links_view(other.links@)
    }

    pub open spec fn is_empty_page(&self) -> bool {
        &&& self.url@.len() == 0
        &&& self.title@.len() == 0
        &&& self.content_lines@.len() == 0
        &&& self.raw_content@.len() == 0
        &&& self.links@.len() == 0
    }

    pub fn empty() -> (p: Page)
        ensures
            p.is_empty_page(),
    {
        Page {
            url: String::new(),
            title: String::new(),
            content_lines: Vec::new(),
            raw_content: String::new(),
            links: Vec::new(),
        }
    }

    /// A copy with the same contents.
    pub fn duplicate(&self) -> (p: Page)
        ensures
            p.same(self),
    {
        Page {
            url: self.url.clone(),
            title: self.title.clone(),
            content_lines: copy_strings(&self.content_lines),
            raw_content: self.raw_content.clone(),
            links: copy_links(&self.links),
        }
    }
}

} // verus!
