//! The local knowledge base (home-rag): the requests it is sent and how its answers are read.
use vstd::prelude::*;
use crate::config::Config;
use crate::json::{json_quote, json_quoted};
use crate::text::{owned, concat2, concat3, usize_to_string, decimal, byte_len, char_boundary, byte_prefix,
    chars_of, longer_than_bytes, str_byte_prefix};

verus! {

/// A source document the knowledge base cites: its content, under either of two names.
#[derive(Debug, Clone)]
pub struct RagSource {
    pub content: String,
    pub text: Option<String>,
}

/// The knowledge base's answer to a query; `metadata` is JSON text.
#[derive(Debug, Clone)]
pub struct RagResponse {
    pub answer: String,
    pub sources: Vec<RagSource>,
    pub query: String,
    pub metadata: String,
}

/// A client of the knowledge base: its address and whether it answered when asked.
#[derive(Debug, Clone)]
pub struct RagClient {
    base_url: String,
    enabled: bool,
}

/// The body of a query: the query, the number of sources where given, and the request to
/// use the graph, as compact JSON.
pub open spec fn query_body(query: Seq<char>, top_k: Option<usize>) -> Seq<char> {
    "{\"query\":"@ + json_quoted(query) + match top_k {
        Some(k) => ",\"top_k\":"@ + decimal(k as nat),
        None => Seq::empty(),
    } + ",\"use_graph\":true}"@
}

impl RagClient {
    pub closed spec fn spec_base_url(&self) -> Seq<char> {
        self.base_url@
    }

    pub closed spec fn spec_enabled(&self) -> bool {
        self.enabled
    }

    /// A client for the knowledge base at `base_url`; `healthy` is whether it answered its
    /// health check (or its root address).
    pub fn new(base_url: String, healthy: bool) -> (c: RagClient)
        ensures
            c.spec_base_url() == base_url@,
            c.spec_enabled() == healthy,
    {
        RagClient { base_url, enabled: healthy }
    }

    /// The address of the configured knowledge base; none where none is configured.
    pub fn configured_url(config: &Config) -> (r: Option<String>)
        ensures
            match config.rag_base_url {
                Some(u) => r matches Some(x) && x@ == u@,
                None => r is None,
            },
    {
        match &config.rag_base_url {
            Some(u) => Some(owned(u.as_str())),
            None => None,
        }
    }

    /// Whether the knowledge base answered.
    pub fn is_available(&self) -> (b: bool)
        ensures
            b == self.spec_enabled(),
    {
        self.enabled
    }

    /// The knowledge base's address.
    pub fn base_url(&self) -> (s: &str)
        ensures
            s@ == self.spec_base_url(),
    {
        self.base_url.as_str()
    }

    /// Where its health is checked.
    pub fn health_url(&self) -> (s: String)
        ensures
            s@ == self.spec_base_url() + "/health"@,
    {
        concat2(self.base_url.as_str(), "/health")
    }

    /// Where queries are sent.
    pub fn query_url(&self) -> (s: String)
        ensures
            s@ == self.spec_base_url() + "/query"@,
    {
        concat2(self.base_url.as_str(), "/query")
    }

    /// The body of a query; an error naming the address where the knowledge base is not
    /// available.
    pub fn query_request(&self, query: &str, top_k: Option<usize>) -> (r: Result<String, String>)
        ensures
            !self.spec_enabled() ==> (r matches Err(e)
                && e@ == "RAG service is not available. Check home-rag at "@ + self.spec_base_url()),
            self.spec_enabled() ==> (r matches Ok(b) && b@ == query_body(query@, top_k)),
    {
        if !self.enabled {
            return Err(concat2("RAG service is not available. Check home-rag at ", self.base_url.as_str()));
        }
        let mut b = concat2("{\"query\":", json_quote(query).as_str());
        match top_k {
            Some(k) => {
                b.append(",\"top_k\":");
                b.append(usize_to_string(k).as_str());
            },
            None => {},
        }
        b.append(",\"use_graph\":true}");
        Ok(b)
    }

    /// Records the outcome of a health check and returns it.
    pub fn health_check(&mut self, healthy: bool) -> (b: bool)
        ensures
            b == healthy,
            final(self).spec_enabled() == healthy,
            final(self).spec_base_url() == old(self).spec_base_url(),
    {
        self.enabled = healthy;
        healthy
    }
}

/// The error of a refused query: `RAG query failed (<status>): <body>`.
pub fn query_failed(status: &str, body: &str) -> (r: String)
    ensures
        r@ == "RAG query failed ("@ + status@ + "): "@ + body@,
{
    let mut r = concat3("RAG query failed (", status, "): ");
    r.append(body);
    r
}

/// At most the first 300 bytes of a reply.
pub open spec fn reply_excerpt(text: Seq<char>) -> Seq<char> {
    if byte_len(text) > 300 { byte_prefix(text, 300) } else { text }
}

/// The error of a reply that is no answer: the parser's error and the start of the reply.
pub fn parse_failed(error: &str, text: &str) -> (r: String)
    requires
        byte_len(text@) > 300 ==> char_boundary(text@, 300),
    ensures
        r@ == "Failed to parse RAG response: "@ + error@ + ". Response: "@ + reply_excerpt(text@),
{
    let mut r = concat3("Failed to parse RAG response: ", error, ". Response: ");
    let v = chars_of(text);
    if longer_than_bytes(&v, 300) {
        r.append(str_byte_prefix(text, 300).as_str());
    } else {
        r.append(text);
    }
    r
}

/// A source's text: under its second name where given, else its content.
pub open spec fn source_text(s: RagSource) -> Seq<char> {
    match s.text {
        Some(t) => t@,
        None => s.content@,
    }
}

/// The text of each source of an answer, in order.
pub fn get_context(response: &RagResponse) -> (r: Vec<String>)
    ensures
        r@.len() == response.sources@.len(),
        forall|i: int| 0 <= i < r@.len() ==> (#[trigger] r@[i])@ == source_text(response.sources@[i]),
{
    let mut r: Vec<String> = Vec::new();
    let mut i: usize = 0;
    while i < response.sources.len()
        invariant
            i <= response.sources@.len(),
            r@.len() == i,
            forall|k: int| 0 <= k < i ==> (#[trigger] r@[k])@ == source_text(response.sources@[k]),
        decreases response.sources.len() - i,
    {
        let s = &response.sources[i];
        let t = match &s.text {
            Some(t) => owned(t.as_str()),
            None => owned(s.content.as_str()),
        };
        r.push(t);
        i = i + 1;
    }
    r
}

} // verus!
