//! Configuration: themes, AI settings and how the environment overrides them.
use vstd::prelude::*;
use crate::browser::strs;
use crate::text::{owned, chars_of, trim, trim_range, string_from, str_eq};

verus! {

/// Browser configuration.
#[derive(Debug, Clone)]
pub struct Config {
    pub theme: Theme,
    pub ai: Option<AIConfig>,
    pub refresh_rate_ms: u64,
    pub rag_base_url: Option<String>,
    pub memory_scope: Option<String>,
    pub exa_api_key: Option<String>,
}

/// Colors of the interface, as hex strings.
#[derive(Debug, Clone)]
pub struct Theme {
    pub accent: String,
    pub border: String,
    pub text: String,
    pub background: String,
}

/// Settings of the AI provider.
#[derive(Debug, Clone)]
pub struct AIConfig {
    pub provider: Option<String>,
    pub api_key: Option<String>,
    pub model: Option<String>,
    pub models: Option<Vec<String>>,
    pub fallback_models: Option<Vec<String>>,
    pub base_url: Option<String>,
}

/// Default accent color (warm tan).
pub fn default_accent() -> (s: String)
    ensures
        s@ == "#9f8a60"@,
{
    owned("#9f8a60")
}

/// Default border color (charcoal).
pub fn default_border() -> (s: String)
    ensures
        s@ == "#33312f"@,
{
    owned("#33312f")
}

/// Default text color (warm cream).
pub fn default_text() -> (s: String)
    ensures
        s@ == "#f0ece0"@,
{
    owned("#f0ece0")
}

/// Default background color (rich charcoal).
pub fn default_bg() -> (s: String)
    ensures
        s@ == "#1b1b1b"@,
{
    owned("#1b1b1b")
}

/// Default refresh rate, in milliseconds.
pub fn default_refresh_rate() -> (r: u64)
    ensures
        r == 200,
{
    200
}

/// The view of an optional string.
pub open spec fn opt_view(o: Option<String>) -> Option<Seq<char>> {
    match o {
        Some(s) => Some(s@),
        None => None,
    }
}

/// The view of an optional list of strings.
pub open spec fn opt_list_view(o: Option<Vec<String>>) -> Option<Seq<Seq<char>>> {
    match o {
        Some(v) => Some(strs(v@)),
        None => None,
    }
}

impl Theme {
    pub open spec fn is_default(&self) -> bool {
        &&& self.accent@ == "#9f8a60"@
        &&& self.border@ == "#33312f"@
        &&& self.text@ == "#f0ece0"@
        &&& self.background@ == "#1b1b1b"@
    }

    pub fn default_theme() -> (t: Theme)
        ensures
            t.is_default(),
    {
        Theme {
            accent: default_accent(),
            border: default_border(),
            text: default_text(),
            background: default_bg(),
        }
    }
}

impl Default for Theme {
    fn default() -> (t: Theme)
        ensures
            t.is_default(),
    {
        Theme::default_theme()
    }
}

impl AIConfig {
    /// An AI configuration with nothing set.
    pub fn unset() -> (a: AIConfig)
        ensures
            a.provider is None,
            a.api_key is None,
            a.model is None,
            a.models is None,
            a.fallback_models is None,
            a.base_url is None,
    {
        AIConfig {
            provider: None,
            api_key: None,
            model: None,
            models: None,
            fallback_models: None,
            base_url: None,
        }
    }
}

/// The model chosen when an OpenRouter key is set and no model is.
pub open spec fn default_openrouter_model() -> Seq<char> {
    "qwen/qwen3-235b-a22b:free"@
}

/// The free fallback models used when none are configured.
pub open spec fn default_fallbacks() -> Seq<Seq<char>> {
    seq![
        "x-ai/grok-4.1-fast:free"@,
        "kwaipilot/kat-coder-pro:free"@,
        "z-ai/glm-4.5-air:free"@,
        "moonshotai/kimi-k2:free"@,
    ]
}

/// The free fallback models used when none are configured.
pub fn fallback_model_list() -> (v: Vec<String>)
    ensures
        strs(v@) == default_fallbacks(),
{
    let mut v: Vec<String> = Vec::new();
    v.push(owned("x-ai/grok-4.1-fast:free"));
    v.push(owned("kwaipilot/kat-coder-pro:free"));
    v.push(owned("z-ai/glm-4.5-air:free"));
    v.push(owned("moonshotai/kimi-k2:free"));
    assert(strs(v@) =~= default_fallbacks());
    v
}

impl Config {
    pub open spec fn is_default(&self) -> bool {
        &&& self.theme.is_default()
        &&& self.ai is None
        &&& self.refresh_rate_ms == 200
        &&& self.rag_base_url is None
        &&& self.memory_scope is None
        &&& self.exa_api_key is None
    }

    pub fn default_config() -> (c: Config)
        ensures
            c.is_default(),
    {
        Config {
            theme: Theme::default_theme(),
            ai: None,
            refresh_rate_ms: default_refresh_rate(),
            rag_base_url: None,
            memory_scope: None,
            exa_api_key: None,
        }
    }

    pub open spec fn spec_api_key(&self) -> Option<Seq<char>> {
        match self.ai {
            Some(ai) => opt_view(ai.api_key),
            None => None,
        }
    }

    pub open spec fn spec_ai_model(&self) -> Option<Seq<char>> {
        match self.ai {
            Some(ai) => opt_view(ai.model),
            None => None,
        }
    }

    pub open spec fn spec_fallback_models(&self) -> Option<Seq<Seq<char>>> {
        match self.ai {
            Some(ai) => opt_list_view(ai.fallback_models),
            None => None,
        }
    }

    pub open spec fn spec_ai_base_url(&self) -> Option<Seq<char>> {
        match self.ai {
            Some(ai) => opt_view(ai.base_url),
            None => None,
        }
    }

    /// The API key for AI features.
    pub fn get_api_key(&self) -> (r: Option<&str>)
        ensures
            match r {
                Some(k) => self.spec_api_key() == Some(k@),
                None => self.spec_api_key() is None,
            },
    {
        match &self.ai {
            Some(ai) => match &ai.api_key {
                Some(k) => Some(k.as_str()),
                None => None,
            },
            None => None,
        }
    }

    /// The AI model to use.
    pub fn get_ai_model(&self) -> (r: Option<&str>)
        ensures
            match r {
                Some(k) => self.spec_ai_model() == Some(k@),
                None => self.spec_ai_model() is None,
            },
    {
        match &self.ai {
            Some(ai) => match &ai.model {
                Some(k) => Some(k.as_str()),
                None => None,
            },
            None => None,
        }
    }

    /// The fallback models.
    pub fn get_fallback_models(&self) -> (r: Option<Vec<String>>)
        ensures
            opt_list_view(r) == self.spec_fallback_models(),
    {
        match &self.ai {
            Some(ai) => match &ai.fallback_models {
                Some(v) => Some(crate::browser::copy_strings(v)),
                None => None,
            },
            None => None,
        }
    }

    /// The AI base URL.
    pub fn get_ai_base_url(&self) -> (r: Option<&str>)
        ensures
            match r {
                Some(k) => self.spec_ai_base_url() == Some(k@),
                None => self.spec_ai_base_url() is None,
            },
    {
        match &self.ai {
            Some(ai) => match &ai.base_url {
                Some(k) => Some(k.as_str()),
                None => None,
            },
            None => None,
        }
    }

    /// The Exa API key: the configured one, else the value of the environment's
    /// `EXA_API_KEY` (read by the caller and handed in).
    pub fn get_exa_api_key(&self, env_exa_key: Option<String>) -> (r: Option<String>)
        ensures
            opt_view(r) == match self.exa_api_key {
                Some(k) => Some(k@),
                None => opt_view(env_exa_key),
            },
    {
        match &self.exa_api_key {
            Some(k) => Some(k.clone()),
            None => env_exa_key,
        }
    }
}

impl Default for Config {
    fn default() -> (c: Config)
        ensures
            c.is_default(),
    {
        Config::default_config()
    }
}

// ---------------------------------------------------------------------------
// Lists in environment variables
// ---------------------------------------------------------------------------

/// The separators of a list: comma, space, newline and tab.
pub open spec fn is_list_sep(c: char) -> bool {
    c == ',' || c == ' ' || c == '\n' || c == '\t'
}

/// The piece `p`, trimmed, as a one-element list, or nothing when it is blank.
pub open spec fn keep_piece(p: Seq<char>) -> Seq<Seq<char>> {
    if trim(p).len() > 0 {
        seq![trim(p)]
    } else {
        Seq::empty()
    }
}

/// Reading `s` left to right: the finished entries and the piece being read.
pub open spec fn split_state(s: Seq<char>) -> (Seq<Seq<char>>, Seq<char>)
    decreases s.len(),
{
    if s.len() == 0 {
        (Seq::empty(), Seq::empty())
    } else {
        let prev = split_state(s.drop_last());
        if is_list_sep(s.last()) {
            (prev.0 + keep_piece(prev.1), Seq::empty())
        } else {
            (prev.0, prev.1.push(s.last()))
        }
    }
}

/// The entries of a comma/space/newline/tab separated list, trimmed, blanks dropped.
pub open spec fn split_list_spec(s: Seq<char>) -> Seq<Seq<char>> {
    split_state(s).0 + keep_piece(split_state(s).1)
}

fn push_piece(out: &mut Vec<String>, v: &Vec<char>, lo: usize, hi: usize)
    requires
        lo <= hi <= v.len(),
    ensures
        strs(final(out)@) == strs(old(out)@) + keep_piece(v@.subrange(lo as int, hi as int)),
{
    let (a, b) = trim_range(v, lo, hi);
    if a < b {
        let ghost before = old(out)@;
        out.push(string_from(v, a, b));
        assert(strs(out@) =~= strs(before) + keep_piece(v@.subrange(lo as int, hi as int)));
    } else {
        assert(strs(out@) =~= strs(old(out)@) + keep_piece(v@.subrange(lo as int, hi as int)));
    }
}

/// Split a comma/space/newline/tab separated list into trimmed, non-blank entries.
pub fn split_list(value: &str) -> (r: Vec<String>)
    ensures
        strs(r@) == split_list_spec(value@),
{
    let v = chars_of(value);
    let mut out: Vec<String> = Vec::new();
    let mut start: usize = 0;
    let mut i: usize = 0;
    while i < v.len()
        invariant
            0 <= start <= i <= v.len(),
            v@ == value@,
            split_state(v@.take(i as int)) == (strs(out@), v@.subrange(start as int, i as int)),
        decreases v.len() - i,
    {
        assert(v@.take(i + 1).drop_last() =~= v@.take(i as int));
        let c = v[i];
        if c == ',' || c == ' ' || c == '\n' || c == '\t' {
            push_piece(&mut out, &v, start, i);
            start = i + 1;
            assert(v@.subrange(start as int, i + 1) =~= Seq::<char>::empty());
        } else {
            assert(v@.subrange(start as int, i + 1) =~= v@.subrange(start as int, i as int).push(c));
        }
        i += 1;
    }
    assert(v@.take(v@.len() as int) =~= v@);
    push_piece(&mut out, &v, start, v.len());
    out
}

/// Whether a value is set and not empty.
pub open spec fn is_set(o: Option<String>) -> bool {
    match o {
        Some(v) => v@.len() > 0,
        None => false,
    }
}

/// The first value that is set and not empty.
pub open spec fn first_set(s: Seq<Option<String>>) -> Option<Seq<char>>
    decreases s.len(),
{
    if s.len() == 0 {
        None
    } else if is_set(s[0]) {
        opt_view(s[0])
    } else {
        first_set(s.drop_first())
    }
}

/// The first value that is set and not empty (the environment variables tried in order).
pub fn first_non_empty(values: &Vec<Option<String>>) -> (r: Option<String>)
    ensures
        opt_view(r) == first_set(values@),
{
    let mut i: usize = 0;
    assert(values@.skip(0) =~= values@);
    while i < values.len()
        invariant
            0 <= i <= values@.len(),
            first_set(values@) == first_set(values@.skip(i as int)),
        decreases values.len() - i,
    {
        assert(values@.skip(i as int).drop_first() =~= values@.skip(i + 1));
        if let Some(v) = &values[i] {
            if !v.as_str().is_empty() {
                return Some(v.clone());
            }
        }
        i += 1;
    }
    None
}

} // verus!

verus! {

/// What the environment says about the AI settings, as read by the caller.
#[derive(Debug, Clone)]
pub struct EnvSettings {
    /// The first non-empty of `OPENROUTER_API_KEY`, `AZUL_AI_API_KEY`
    pub api_key: Option<String>,
    /// `AZUL_AI_PROVIDER`
    pub provider: Option<String>,
    /// The first non-empty of `OPENROUTER_MODEL`, `AZUL_AI_MODEL`
    pub model: Option<String>,
    /// `AZUL_AI_MODELS`
    pub models: Option<String>,
    /// `AZUL_AI_FALLBACK_MODELS`
    pub fallback_models: Option<String>,
}

/// A value from the environment replaces the configured one when it is set and not empty;
/// the flag says whether that changed anything.
pub open spec fn override_value(cur: Option<Seq<char>>, env: Option<Seq<char>>) -> (
    Option<Seq<char>>,
    bool,
) {
    match env {
        Some(e) => if e.len() > 0 && cur != Some(e) {
            (Some(e), true)
        } else {
            (cur, false)
        },
        None => (cur, false),
    }
}

/// A list from the environment replaces the configured one when it has entries (which
/// always counts as a change).
pub open spec fn override_list(cur: Option<Seq<Seq<char>>>, env: Option<Seq<char>>) -> (
    Option<Seq<Seq<char>>>,
    bool,
) {
    match env {
        Some(e) => if split_list_spec(e).len() > 0 {
            (Some(split_list_spec(e)), true)
        } else {
            (cur, false)
        },
        None => (cur, false),
    }
}

/// The AI settings as values: provider, key, model, models, fallback models, base URL.
pub type AiModel = (
    Option<Seq<char>>,
    Option<Seq<char>>,
    Option<Seq<char>>,
    Option<Seq<Seq<char>>>,
    Option<Seq<Seq<char>>>,
    Option<Seq<char>>,
);

pub open spec fn ai_model(a: AIConfig) -> AiModel {
    (
        opt_view(a.provider),
        opt_view(a.api_key),
        opt_view(a.model),
        opt_list_view(a.models),
        opt_list_view(a.fallback_models),
        opt_view(a.base_url),
    )
}

pub open spec fn env_model(e: EnvSettings) -> (
    Option<Seq<char>>,
    Option<Seq<char>>,
    Option<Seq<char>>,
    Option<Seq<char>>,
    Option<Seq<char>>,
) {
    (
        opt_view(e.api_key),
        opt_view(e.provider),
        opt_view(e.model),
        opt_view(e.models),
        opt_view(e.fallback_models),
    )
}

/// The AI settings after the environment overrides and the defaults that follow a key,
/// and whether the configuration should then be saved.
pub open spec fn environment_applied(
    a: AiModel,
    e: (Option<Seq<char>>, Option<Seq<char>>, Option<Seq<char>>, Option<Seq<char>>, Option<Seq<char>>),
) -> (AiModel, bool) {
    let key = override_value(a.1, e.0);
    let provider = override_value(a.0, e.1);
    let model = override_value(a.2, e.2);
    let models = override_list(a.3, e.3);
    let fallbacks = override_list(a.4, e.4);
    let changed = key.1 || provider.1 || model.1 || models.1 || fallbacks.1;
    if key.0 is Some {
        let p2 = if provider.0 is None { Some("openrouter"@) } else { provider.0 };
        let m2 = if p2 == Some("openrouter"@) && model.0 is None {
            Some(default_openrouter_model())
        } else {
            model.0
        };
        let f2 = if fallbacks.0 is None { Some(default_fallbacks()) } else { fallbacks.0 };
        let changed2 = changed || provider.0 is None || (p2 == Some("openrouter"@) && model.0 is None)
            || fallbacks.0 is None;
        ((p2, key.0, m2, models.0, f2, a.5), changed2 && p2 is Some)
    } else {
        ((provider.0, key.0, model.0, models.0, fallbacks.0, a.5), false)
    }
}

fn override_field(cur: &mut Option<String>, env: &Option<String>) -> (changed: bool)
    ensures
        (opt_view(*final(cur)), changed) == override_value(opt_view(*old(cur)), opt_view(*env)),
{
    match env {
        Some(e) => {
            let same = match cur {
                Some(c) => str_eq(c.as_str(), e.as_str()),
                None => false,
            };
            if !e.as_str().is_empty() && !same {
                *cur = Some(e.clone());
                true
            } else {
                false
            }
        },
        None => false,
    }
}

fn override_list_field(cur: &mut Option<Vec<String>>, env: &Option<String>) -> (changed: bool)
    ensures
        (opt_list_view(*final(cur)), changed) == override_list(opt_list_view(*old(cur)), opt_view(*env)),
{
    match env {
        Some(e) => {
            let list = split_list(e.as_str());
            if list.len() > 0 {
                *cur = Some(list);
                true
            } else {
                false
            }
        },
        None => false,
    }
}

fn is_openrouter(p: &Option<String>) -> (b: bool)
    ensures
        b == (opt_view(*p) == Some("openrouter"@)),
{
    match p {
        Some(s) => str_eq(s.as_str(), "openrouter"),
        None => false,
    }
}

impl Config {
    /// Apply the environment's AI settings over the configured ones (creating the AI
    /// section if missing); with a key set, fill in the OpenRouter provider, its default
    /// model and the default fallback models. Returns whether the result should be saved.
    pub fn apply_environment(&mut self, env: &EnvSettings) -> (should_save: bool)
        ensures
            final(self).ai is Some,
            (ai_model(final(self).ai->0), should_save) == environment_applied(
                match old(self).ai {
                    Some(a) => ai_model(a),
                    None => (None, None, None, None, None, None),
                },
                env_model(*env),
            ),
            final(self).theme == old(self).theme,
            final(self).refresh_rate_ms == old(self).refresh_rate_ms,
            final(self).rag_base_url == old(self).rag_base_url,
            final(self).memory_scope == old(self).memory_scope,
            final(self).exa_api_key == old(self).exa_api_key,
    {
        let mut ai = match self.ai.take() {
            Some(a) => a,
            None => AIConfig::unset(),
        };
        let c1 = override_field(&mut ai.api_key, &env.api_key);
        let c2 = override_field(&mut ai.provider, &env.provider);
        let c3 = override_field(&mut ai.model, &env.model);
        let c4 = override_list_field(&mut ai.models, &env.models);
        let c5 = override_list_field(&mut ai.fallback_models, &env.fallback_models);
        let mut changed = c1 || c2 || c3 || c4 || c5;
        if ai.api_key.is_some() {
            if ai.provider.is_none() {
                ai.provider = Some(owned("openrouter"));
                changed = true;
            }
            if is_openrouter(&ai.provider) && ai.model.is_none() {
                ai.model = Some(owned("qwen/qwen3-235b-a22b:free"));
                changed = true;
            }
            if ai.fallback_models.is_none() {
                ai.fallback_models = Some(fallback_model_list());
                changed = true;
            }
        }
        let save = changed && ai.api_key.is_some() && ai.provider.is_some();
        self.ai = Some(ai);
        save
    }
}

} // verus!
