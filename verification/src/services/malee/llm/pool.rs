//! The language-model backend pool: parsing its configuration string and
//! deciding which client each entry becomes.
use vstd::prelude::*;
use crate::error::MaleeError;
use crate::text::{chars_of, lowercase_of, string_of, sub_chars, to_lowercase, trim, trim_chars};

verus! {

/// A language-model provider.
#[derive(Debug, Clone, Copy, PartialEq, Eq, Structural)]
pub enum LlmProvider {
    Groq,
    Ollama,
    OpenAi,
    Anthropic,
    Google,
    Cerebras,
    Fireworks,
}

/// One backend of the pool.
#[derive(Debug)]
pub struct LlmBackendConfig {
    pub provider: LlmProvider,
    pub model: String,
    pub api_key: String,
    pub prompt_profile: String,
    pub endpoint: Option<String>,
}

/// A backend as plain values: provider, model, key, prompt profile, endpoint.
pub type ConfigView = (LlmProvider, Seq<char>, Seq<char>, Seq<char>, Option<Seq<char>>);

/// The plain values of a backend.
pub open spec fn config_view(c: LlmBackendConfig) -> ConfigView {
    (
        c.provider,
        c.model@,
        c.api_key@,
        c.prompt_profile@,
        match c.endpoint {
            Some(e) => Some(e@),
            None => None,
        },
    )
}

/// The views of a list of character vectors.
pub open spec fn views(v: Seq<Vec<char>>) -> Seq<Seq<char>> {
    v.map_values(|x: Vec<char>| x@)
}

/// `s` split at every `sep` (`str::split` with a `char` pattern), with `cur`
/// as the start of the first piece.
pub open spec fn split_acc(s: Seq<char>, sep: char, cur: Seq<char>) -> Seq<Seq<char>>
    decreases s.len(),
{
    if s.len() == 0 {
        seq![cur]
    } else if s[0] == sep {
        seq![cur] + split_acc(s.drop_first(), sep, seq![])
    } else {
        split_acc(s.drop_first(), sep, cur.push(s[0]))
    }
}

/// `s` split at `:`, where `::` stands for a literal `:` inside a piece; the
/// pieces found so far are `parts` and the current piece begins with `cur`.
pub open spec fn split_escaped(s: Seq<char>, cur: Seq<char>, parts: Seq<Seq<char>>) -> Seq<
    Seq<char>,
>
    decreases s.len(),
{
    if s.len() == 0 {
        parts.push(cur)
    } else if s[0] == ':' {
        if s.len() > 1 && s[1] == ':' {
            split_escaped(s.skip(2), cur.push(':'), parts)
        } else {
            split_escaped(s.drop_first(), seq![], parts.push(cur))
        }
    } else {
        split_escaped(s.drop_first(), cur.push(s[0]), parts)
    }
}

/// Index of the first `c` in `s`.
pub open spec fn index_of(s: Seq<char>, c: char) -> Option<int>
    decreases s.len(),
{
    if s.len() == 0 {
        None
    } else if s[0] == c {
        Some(0)
    } else {
        match index_of(s.drop_first(), c) {
            Some(i) => Some(i + 1),
            None => None,
        }
    }
}

/// The provider a lower-cased name denotes.
pub open spec fn provider_named(l: Seq<char>) -> Option<LlmProvider> {
    if l == "groq"@ {
        Some(LlmProvider::Groq)
    } else if l == "ollama"@ {
        Some(LlmProvider::Ollama)
    } else if l == "openai"@ {
        Some(LlmProvider::OpenAi)
    } else if l == "anthropic"@ {
        Some(LlmProvider::Anthropic)
    } else if l == "google"@ {
        Some(LlmProvider::Google)
    } else if l == "cerebras"@ {
        Some(LlmProvider::Cerebras)
    } else if l == "fireworks"@ {
        Some(LlmProvider::Fireworks)
    } else {
        None
    }
}

/// One trimmed, non-empty pool segment
/// `provider:model:api_key[:prompt_profile][@endpoint]` as a backend, or the
/// message of the error it raises.
pub open spec fn segment_spec(seg: Seq<char>) -> Result<ConfigView, Seq<char>> {
    let (rest, endpoint) = match index_of(seg, '@') {
        Some(i) => (seg.take(i), Some(seg.skip(i + 1))),
        None => (seg, None),
    };
    let parts = split_escaped(rest, seq![], seq![]);
    if parts.len() < 3 {
        Err("Invalid LLM pool segment: "@ + seg)
    } else {
        match provider_named(lowercase_of(parts[0])) {
            None => Err("Unknown provider: "@ + parts[0]),
            Some(p) => Ok(
                (
                    p,
                    parts[1],
                    parts[2],
                    if parts.len() > 3 {
                        parts[3]
                    } else {
                        "default"@
                    },
                    endpoint,
                ),
            ),
        }
    }
}

/// The backends of the segments `segs`, after those already in `acc`; the
/// first failing segment's message otherwise, or `LLM pool is empty`.
pub open spec fn pool_spec(segs: Seq<Seq<char>>, acc: Seq<ConfigView>) -> Result<
    Seq<ConfigView>,
    Seq<char>,
>
    decreases segs.len(),
{
    if segs.len() == 0 {
        if acc.len() == 0 {
            Err("LLM pool is empty"@)
        } else {
            Ok(acc)
        }
    } else if trim(segs[0]).len() == 0 {
        pool_spec(segs.drop_first(), acc)
    } else {
        match segment_spec(trim(segs[0])) {
            Ok(c) => pool_spec(segs.drop_first(), acc.push(c)),
            Err(m) => Err(m),
        }
    }
}

/// The characters of `s` split at every `sep`.
pub fn split_chars(s: &Vec<char>, sep: char) -> (r: Vec<Vec<char>>)
    ensures
        views(r@) == split_acc(s@, sep, seq![]),
{
    let mut done: Vec<Vec<char>> = Vec::new();
    let mut cur: Vec<char> = Vec::new();
    let mut i: usize = 0;
    proof {
        assert(s@.skip(0) =~= s@);
        assert(views(done@) + split_acc(s@.skip(0), sep, cur@) =~= split_acc(s@, sep, seq![]));
    }
    while i < s.len()
        invariant
            i <= s@.len(),
            views(done@) + split_acc(s@.skip(i as int), sep, cur@) == split_acc(s@, sep, seq![]),
        decreases s@.len() - i,
    {
        let ghost rest = s@.skip(i as int);
        proof {
            assert(rest.drop_first() =~= s@.skip(i + 1));
            assert(rest[0] == s@[i as int]);
        }
        if s[i] == sep {
            let ghost old_done = views(done@);
            let piece = cur;
            done.push(piece);
            cur = Vec::new();
            proof {
                assert(views(done@) =~= old_done.push(piece@));
                assert(old_done + (seq![piece@] + split_acc(s@.skip(i + 1), sep, seq![]))
                    =~= views(done@) + split_acc(s@.skip(i + 1), sep, cur@));
            }
        } else {
            cur.push(s[i]);
        }
        i = i + 1;
    }
    let ghost old_done = views(done@);
    let piece = cur;
    done.push(piece);
    proof {
        assert(s@.skip(i as int).len() == 0);
        assert(views(done@) =~= old_done.push(piece@));
    }
    done
}

/// The characters of `s` split at unescaped `:`.
fn split_escaped_chars(s: &Vec<char>) -> (r: Vec<Vec<char>>)
    ensures
        views(r@) == split_escaped(s@, seq![], seq![]),
{
    let mut parts: Vec<Vec<char>> = Vec::new();
    let mut cur: Vec<char> = Vec::new();
    let mut i: usize = 0;
    let n = s.len();
    proof {
        assert(s@.skip(0) =~= s@);
        assert(views(parts@) =~= seq![]);
    }
    while i < n
        invariant
            i <= n,
            n == s@.len(),
            split_escaped(s@.skip(i as int), cur@, views(parts@)) == split_escaped(
                s@,
                seq![],
                seq![],
            ),
        decreases n - i,
    {
        let ghost rest = s@.skip(i as int);
        proof {
            assert(rest.drop_first() =~= s@.skip(i + 1));
            assert(rest[0] == s@[i as int]);
        }
        if s[i] == ':' {
            if i + 1 < n && s[i + 1] == ':' {
                proof {
                    assert(rest.skip(2) =~= s@.skip(i + 2));
                    assert(rest[1] == s@[i + 1]);
                }
                cur.push(':');
                i = i + 2;
            } else {
                let ghost old = views(parts@);
                let piece = cur;
                parts.push(piece);
                cur = Vec::new();
                proof {
                    assert(views(parts@) =~= old.push(piece@));
                    assert(cur@ =~= seq![]);
                }
                i = i + 1;
            }
        } else {
            cur.push(s[i]);
            i = i + 1;
        }
    }
    let ghost old = views(parts@);
    let piece = cur;
    parts.push(piece);
    proof {
        assert(s@.skip(i as int).len() == 0);
        assert(views(parts@) =~= old.push(piece@));
    }
    parts
}

/// `index_of` finds exactly the first occurrence.
pub proof fn lemma_index_of(s: Seq<char>, c: char)
    ensures
        match index_of(s, c) {
            Some(i) => 0 <= i < s.len() && s[i] == c && forall|j: int| 0 <= j < i ==> s[j] != c,
            None => forall|j: int| 0 <= j < s.len() ==> s[j] != c,
        },
    decreases s.len(),
{
    if s.len() > 0 && s[0] != c {
        lemma_index_of(s.drop_first(), c);
        assert forall|j: int| 1 <= j < s.len() implies s[j] == s.drop_first()[j - 1] by {}
    }
}

fn find_char(s: &Vec<char>, c: char) -> (r: Option<usize>)
    ensures
        r matches Some(i) ==> i < s@.len() && index_of(s@, c) == Some(i as int),
        r is None ==> index_of(s@, c) is None,
{
    proof {
        lemma_index_of(s@, c);
    }
    let mut i: usize = 0;
    while i < s.len()
        invariant
            i <= s@.len(),
            forall|j: int| 0 <= j < i ==> s@[j] != c,
            match index_of(s@, c) {
                Some(k) => 0 <= k < s@.len() && s@[k] == c && forall|j: int|
                    0 <= j < k ==> s@[j] != c,
                None => forall|j: int| 0 <= j < s@.len() ==> s@[j] != c,
            },
        decreases s@.len() - i,
    {
        if s[i] == c {
            return Some(i);
        }
        i = i + 1;
    }
    None
}

fn literal_is(s: &String, lit: &str) -> (r: bool)
    ensures
        r == (s@ == lit@),
{
    *s == String::from_str(lit)
}

/// Parses one trimmed, non-empty segment.
fn parse_segment(seg: &Vec<char>) -> (r: Result<LlmBackendConfig, String>)
    ensures
        match segment_spec(seg@) {
            Ok(c) => r matches Ok(cfg) && config_view(cfg) == c,
            Err(m) => r matches Err(e) && e@ == m,
        },
{
    let n = seg.len();
    let (rest, endpoint) = match find_char(seg, '@') {
        Some(i) => {
            let r = sub_chars(seg, 0, i);
            let e = sub_chars(seg, i + 1, n);
            proof {
                assert(r@ =~= seg@.take(i as int));
                assert(e@ =~= seg@.skip(i + 1));
            }
            (r, Some(string_of(e.as_slice())))
        },
        None => (sub_chars(seg, 0, n), None),
    };
    proof {
        assert(seg@.subrange(0, n as int) =~= seg@);
    }
    let parts = split_escaped_chars(&rest);
    if parts.len() < 3 {
        let mut m = String::from_str("Invalid LLM pool segment: ");
        let s = string_of(seg.as_slice());
        m.append(s.as_str());
        return Err(m);
    }
    let name = string_of(parts[0].as_slice());
    let lower = to_lowercase(name.as_str());
    let provider = if literal_is(&lower, "groq") {
        LlmProvider::Groq
    } else if literal_is(&lower, "ollama") {
        LlmProvider::Ollama
    } else if literal_is(&lower, "openai") {
        LlmProvider::OpenAi
    } else if literal_is(&lower, "anthropic") {
        LlmProvider::Anthropic
    } else if literal_is(&lower, "google") {
        LlmProvider::Google
    } else if literal_is(&lower, "cerebras") {
        LlmProvider::Cerebras
    } else if literal_is(&lower, "fireworks") {
        LlmProvider::Fireworks
    } else {
        let mut m = String::from_str("Unknown provider: ");
        m.append(name.as_str());
        return Err(m);
    };
    let model = string_of(parts[1].as_slice());
    let api_key = string_of(parts[2].as_slice());
    let prompt_profile = if parts.len() > 3 {
        string_of(parts[3].as_slice())
    } else {
        String::from_str("default")
    };
    Ok(LlmBackendConfig { provider, model, api_key, prompt_profile, endpoint })
}

impl LlmBackendConfig {
    /// Parses a pool description: segments separated by `;`, each
    /// `provider:model:api_key[:prompt_profile][@endpoint]`, where `::` stands
    /// for a literal `:` and the profile defaults to `default`. Blank segments
    /// are skipped; a segment with fewer than three fields or an unknown
    /// provider fails, and so does a pool with no segment.
    pub fn parse_pool(pool_str: &str) -> (r: Result<Vec<Self>, MaleeError>)
        ensures
            match pool_spec(split_acc(pool_str@, ';', seq![]), seq![]) {
                Ok(cs) => r matches Ok(v) && v@.map_values(|c: LlmBackendConfig| config_view(c))
                    == cs,
                Err(m) => r matches Err(MaleeError::LlmError(e)) && e@ == m,
            },
    {
        let cs = chars_of(pool_str);
        let segs = split_chars(&cs, ';');
        let ghost all = views(segs@);
        let mut configs: Vec<LlmBackendConfig> = Vec::new();
        let mut k: usize = 0;
        proof {
            assert(all.skip(0) =~= all);
            assert(configs@.map_values(|c: LlmBackendConfig| config_view(c)) =~= seq![]);
        }
        while k < segs.len()
            invariant
                k <= segs@.len(),
                all == views(segs@),
                pool_spec(all.skip(k as int), configs@.map_values(|c: LlmBackendConfig| config_view(c)))
                    == pool_spec(split_acc(pool_str@, ';', seq![]), seq![]),
                all == split_acc(pool_str@, ';', seq![]),
            decreases segs@.len() - k,
        {
            let ghost acc = configs@.map_values(|c: LlmBackendConfig| config_view(c));
            proof {
                assert(all.skip(k as int).drop_first() =~= all.skip(k + 1));
                assert(all.skip(k as int)[0] == segs@[k as int]@);
            }
            let seg = trim_chars(&segs[k]);
            if seg.len() > 0 {
                match parse_segment(&seg) {
                    Ok(c) => {
                        configs.push(c);
                        proof {
                            assert(configs@.map_values(|c: LlmBackendConfig| config_view(c))
                                =~= acc.push(config_view(c)));
                        }
                    },
                    Err(m) => {
                        return Err(MaleeError::LlmError(m));
                    },
                }
            }
            k = k + 1;
        }
        if configs.len() == 0 {
            return Err(MaleeError::LlmError(String::from_str("LLM pool is empty")));
        }
        Ok(configs)
    }
}

/// `p` with every `:` written as `::`.
pub open spec fn escape_colons(p: Seq<char>) -> Seq<char>
    decreases p.len(),
{
    if p.len() == 0 {
        seq![]
    } else if p[0] == ':' {
        seq![':', ':'] + escape_colons(p.drop_first())
    } else {
        seq![p[0]] + escape_colons(p.drop_first())
    }
}

/// The pieces `ps`, each escaped, joined with `:`.
pub open spec fn join_escaped(ps: Seq<Seq<char>>) -> Seq<char>
    decreases ps.len(),
{
    if ps.len() <= 1 {
        if ps.len() == 1 {
            escape_colons(ps[0])
        } else {
            seq![]
        }
    } else {
        escape_colons(ps[0]) + seq![':'] + join_escaped(ps.drop_first())
    }
}

/// A list of pieces that `:`-joining keeps apart: every piece after the first
/// is non-empty, unless it is the last, and does not begin with `:`.
pub open spec fn separable(ps: Seq<Seq<char>>) -> bool {
    forall|k: int|
        1 <= k < ps.len() ==> ((#[trigger] ps[k]).len() > 0 ==> ps[k][0] != ':') && (ps[k].len()
            == 0 ==> k == ps.len() - 1)
}

proof fn lemma_escape_consumed(p: Seq<char>, rest: Seq<char>, cur: Seq<char>, acc: Seq<Seq<char>>)
    ensures
        split_escaped(escape_colons(p) + rest, cur, acc) == split_escaped(rest, cur + p, acc),
    decreases p.len(),
{
    let s = escape_colons(p) + rest;
    if p.len() == 0 {
        assert(s =~= rest);
        assert(cur + p =~= cur);
    } else {
        lemma_escape_consumed(p.drop_first(), rest, cur.push(p[0]), acc);
        assert(cur.push(p[0]) + p.drop_first() =~= cur + p);
        if p[0] == ':' {
            assert(s.skip(2) =~= escape_colons(p.drop_first()) + rest);
        } else {
            assert(s.drop_first() =~= escape_colons(p.drop_first()) + rest);
        }
    }
}

proof fn lemma_escape_first(p: Seq<char>)
    ensures
        p.len() > 0 ==> escape_colons(p).len() > 0 && escape_colons(p)[0] == p[0],
        p.len() == 0 ==> escape_colons(p) == Seq::<char>::empty(),
{
}

proof fn lemma_join_split(ps: Seq<Seq<char>>, acc: Seq<Seq<char>>)
    requires
        ps.len() >= 1,
        separable(ps),
    ensures
        split_escaped(join_escaped(ps), seq![], acc) == acc + ps,
    decreases ps.len(),
{
    if ps.len() == 1 {
        lemma_escape_consumed(ps[0], seq![], seq![], acc);
        assert(escape_colons(ps[0]) + Seq::<char>::empty() =~= escape_colons(ps[0]));
        assert(Seq::<char>::empty() + ps[0] =~= ps[0]);
        assert(acc.push(ps[0]) =~= acc + ps);
    } else {
        let tail = seq![':'] + join_escaped(ps.drop_first());
        assert(join_escaped(ps) =~= escape_colons(ps[0]) + tail);
        lemma_escape_consumed(ps[0], tail, seq![], acc);
        assert(Seq::<char>::empty() + ps[0] =~= ps[0]);
        let rest = ps.drop_first();
        assert forall|k: int| 1 <= k < rest.len() implies ((#[trigger] rest[k]).len() > 0
            ==> rest[k][0] != ':') && (rest[k].len() == 0 ==> k == rest.len() - 1) by {
            assert(rest[k] == ps[k + 1]);
        }
        lemma_join_split(rest, acc.push(ps[0]));
        assert(rest[0] == ps[1]);
        lemma_escape_first(rest[0]);
        let j = join_escaped(rest);
        if rest.len() > 1 {
            assert(j =~= escape_colons(rest[0]) + seq![':'] + join_escaped(rest.drop_first()));
            assert(rest[0].len() > 0);
            assert(j[0] == escape_colons(rest[0])[0]);
        } else {
            assert(j == escape_colons(rest[0]));
        }
        assert(tail.drop_first() =~= j);
        assert(j.len() == 0 || j[0] != ':');
        assert(acc.push(ps[0]) + rest =~= acc + ps);
    }
}

/// Escaping `:` as `::` inside each piece and joining the pieces with `:`
/// gives a string that splits back into exactly those pieces, for every list
/// of pieces that `:`-joining keeps apart.
pub proof fn law_escaped_split_roundtrip(ps: Seq<Seq<char>>)
    requires
        ps.len() >= 1,
        separable(ps),
    ensures
        split_escaped(join_escaped(ps), seq![], seq![]) == ps,
{
    lemma_join_split(ps, seq![]);
    assert(Seq::<Seq<char>>::empty() + ps =~= ps);
}

/// Which client speaks to a backend.
#[derive(Debug, Clone, Copy, PartialEq, Eq, Structural)]
pub enum ClientKind {
    /// The OpenAI chat-completions streaming protocol.
    OpenAiCompatible,
    /// Ollama's native chat protocol.
    Ollama,
}

/// What the router builds for one backend.
#[derive(Debug)]
pub struct BackendPlan {
    pub kind: ClientKind,
    pub model: String,
    pub api_key: String,
    pub base_url: String,
}

/// A plan as plain values: client kind, model, key, base URL.
pub type PlanView = (ClientKind, Seq<char>, Seq<char>, Seq<char>);

/// The endpoint used for a provider when the configuration names none.
pub open spec fn default_endpoint(p: LlmProvider) -> Seq<char> {
    match p {
        LlmProvider::Groq => "https://api.groq.com/openai/v1"@,
        LlmProvider::Ollama => "http://localhost:11434"@,
        LlmProvider::Cerebras => "https://api.cerebras.ai/v1"@,
        LlmProvider::Fireworks => "https://api.fireworks.ai/inference/v1"@,
        LlmProvider::Google => "https://generativelanguage.googleapis.com/v1beta/openai"@,
        _ => "https://api.openai.com/v1"@,
    }
}

/// The plans of the backends `cs`, in order; Anthropic backends get none.
pub open spec fn plans_of(cs: Seq<ConfigView>) -> Seq<PlanView>
    decreases cs.len(),
{
    if cs.len() == 0 {
        seq![]
    } else {
        let c = cs.last();
        let prev = plans_of(cs.drop_last());
        if c.0 == LlmProvider::Anthropic {
            prev
        } else {
            prev.push(
                (
                    if c.0 == LlmProvider::Ollama {
                        ClientKind::Ollama
                    } else {
                        ClientKind::OpenAiCompatible
                    },
                    c.1,
                    c.2,
                    match c.4 {
                        Some(e) => e,
                        None => default_endpoint(c.0),
                    },
                ),
            )
        }
    }
}

/// The plain values of a plan.
pub open spec fn plan_view(p: BackendPlan) -> PlanView {
    (p.kind, p.model@, p.api_key@, p.base_url@)
}

fn default_endpoint_of(p: LlmProvider) -> (r: String)
    ensures
        r@ == default_endpoint(p),
{
    match p {
        LlmProvider::Groq => String::from_str("https://api.groq.com/openai/v1"),
        LlmProvider::Ollama => String::from_str("http://localhost:11434"),
        LlmProvider::Cerebras => String::from_str("https://api.cerebras.ai/v1"),
        LlmProvider::Fireworks => String::from_str("https://api.fireworks.ai/inference/v1"),
        LlmProvider::Google => String::from_str(
            "https://generativelanguage.googleapis.com/v1beta/openai",
        ),
        _ => String::from_str("https://api.openai.com/v1"),
    }
}

/// Decides the client of each backend: Ollama backends get the native
/// client, Groq, OpenAI, Cerebras, Fireworks and Google the OpenAI-compatible
/// one, each at its configured endpoint or its provider's default; Anthropic
/// backends are skipped.
pub fn plan_backends(configs: &Vec<LlmBackendConfig>) -> (r: Vec<BackendPlan>)
    ensures
        r@.map_values(|p: BackendPlan| plan_view(p)) == plans_of(
            configs@.map_values(|c: LlmBackendConfig| config_view(c)),
        ),
{
    let ghost cv = configs@.map_values(|c: LlmBackendConfig| config_view(c));
    let mut plans: Vec<BackendPlan> = Vec::new();
    let mut i: usize = 0;
    proof {
        assert(cv.take(0) =~= seq![]);
        assert(plans@.map_values(|p: BackendPlan| plan_view(p)) =~= seq![]);
    }
    while i < configs.len()
        invariant
            i <= configs@.len(),
            cv == configs@.map_values(|c: LlmBackendConfig| config_view(c)),
            plans@.map_values(|p: BackendPlan| plan_view(p)) == plans_of(cv.take(i as int)),
        decreases configs@.len() - i,
    {
        let ghost before = plans@.map_values(|p: BackendPlan| plan_view(p));
        let c = &configs[i];
        proof {
            assert(cv.take(i + 1).drop_last() =~= cv.take(i as int));
            assert(cv.take(i + 1).last() == config_view(*c));
        }
        if c.provider != LlmProvider::Anthropic {
            let kind = if c.provider == LlmProvider::Ollama {
                ClientKind::Ollama
            } else {
                ClientKind::OpenAiCompatible
            };
            let base_url = match &c.endpoint {
                Some(e) => e.clone(),
                None => default_endpoint_of(c.provider),
            };
            let plan = BackendPlan {
                kind,
                model: c.model.clone(),
                api_key: c.api_key.clone(),
                base_url,
            };
            plans.push(plan);
            proof {
                assert(plans@.map_values(|p: BackendPlan| plan_view(p)) =~= before.push(
                    plan_view(plan),
                ));
            }
        }
        i = i + 1;
    }
    proof {
        assert(cv.take(i as int) =~= cv);
    }
    plans
}

} // verus!
