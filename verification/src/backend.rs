//! The decisions of the generation backends: which backend serves a
//! model, where its API lives, how many tokens to ask for, how streamed
//! answers are collected, and what the answers become.

use vstd::prelude::*;

use crate::message::{Message, MessageModel};
use crate::query::{lemma_list_models, models, Batch, Bulk, GenerateMetadata, Query, QueryModel, Repeat};
use crate::text::{owned, push_text, same_text, views};

use std::time::Duration;
use vstd::string::StringSliceAdditionalSpecFns;

verus! {

broadcast use vstd::std_specs::vec::group_vec_axioms;

/// The model was not found: no backend serves the model's name.
#[derive(Debug, Clone, Copy, PartialEq, Eq)]
pub struct ModelNotFoundError;

/// How a generation runs.
#[derive(Debug, Clone, Copy, PartialEq, Eq)]
pub struct GenerateOptions {
    /// Prepare the query rather than execute it?
    pub prepare: Option<bool>,
    /// Capture timing information (time to first token, inter-token latency)
    pub time: bool,
    /// Completely silent mode: no output, no progress bars, no timing report
    pub silent: bool,
}

impl GenerateOptions {
    /// Execute, without timing, not silent (what `Default` gives).
    pub fn new() -> (r: GenerateOptions)
        ensures
            r.prepare is None,
            !r.time,
            !r.silent,
    {
        GenerateOptions { prepare: None, time: false, silent: false }
    }
}

/// The OpenAI-compatible providers.
#[derive(Debug, Clone, Copy, PartialEq, Eq)]
pub enum Provider {
    OpenAI,
    Gemini,
    Ollama,
}

/// The reasoning effort asked of a provider.
#[derive(Debug, Clone, Copy, PartialEq, Eq)]
pub enum ReasoningEffort {
    Low,
    NoReasoning,
}

/// The environment variable that overrides a provider's API base.
pub open spec fn spec_api_base_variable(p: Provider) -> Seq<char> {
    match p {
        Provider::OpenAI => "OPENAI_API_BASE"@,
        Provider::Gemini => "GEMINI_API_BASE"@,
        Provider::Ollama => "OLLAMA_API_BASE"@,
    }
}

/// The API base of a provider, given the value of its environment
/// variable (if set), and the reasoning effort to ask for. No trailing
/// slash: for Ollama the variable names the server and "/v1" is added.
pub open spec fn spec_api_base(p: Provider, env: Option<Seq<char>>) -> (Seq<char>, ReasoningEffort) {
    match p {
        Provider::OpenAI => (
            match env {
                Some(b) => b,
                None => "https://api.openai.com/v1"@,
            },
            ReasoningEffort::Low,
        ),
        Provider::Gemini => (
            match env {
                Some(b) => b,
                None => "https://generativelanguage.googleapis.com/v1beta/openai"@,
            },
            ReasoningEffort::Low,
        ),
        Provider::Ollama => (
            match env {
                Some(b) => b + "/v1"@,
                None => "http://localhost:11434/v1"@,
            },
            ReasoningEffort::NoReasoning,
        ),
    }
}

/// The environment variable that overrides a provider's API base.
pub fn api_base_variable(provider: Provider) -> (r: &'static str)
    ensures
        r@ == spec_api_base_variable(provider),
{
    match provider {
        Provider::OpenAI => "OPENAI_API_BASE",
        Provider::Gemini => "GEMINI_API_BASE",
        Provider::Ollama => "OLLAMA_API_BASE",
    }
}

/// The API base of a provider and the reasoning effort to ask for, given
/// the value of the provider's environment variable, if it is set.
pub fn api_base(provider: Provider, env: Option<String>) -> (r: (String, ReasoningEffort))
    ensures
        (r.0@, r.1) == spec_api_base(
            provider,
            match env {
                Some(b) => Some(b@),
                None => None,
            },
        ),
{
    match provider {
        Provider::OpenAI => (
            match env {
                Some(b) => b,
                None => owned("https://api.openai.com/v1"),
            },
            ReasoningEffort::Low,
        ),
        Provider::Gemini => (
            match env {
                Some(b) => b,
                None => owned("https://generativelanguage.googleapis.com/v1beta/openai"),
            },
            ReasoningEffort::Low,
        ),
        Provider::Ollama => (
            match env {
                Some(b) => {
                    let mut b = b;
                    push_text(&mut b, "/v1");
                    b
                },
                None => owned("http://localhost:11434/v1"),
            },
            ReasoningEffort::NoReasoning,
        ),
    }
}

/// The token limit to send to an OpenAI-compatible server: the query's
/// limit, except that none or zero asks for 2048 (some servers refuse 0).
pub fn completion_max_tokens(max_tokens: Option<i32>) -> (r: u32)
    ensures
        r == match max_tokens {
            Some(mt) => if mt == 0 {
                2048u32
            } else {
                mt as u32
            },
            None => 2048u32,
        },
{
    match max_tokens {
        Some(mt) => if mt == 0 {
            2048u32
        } else {
            mt as u32
        },
        None => 2048u32,
    }
}

/// The token limit of a local generation: the query's limit, except that
/// none or zero means 2048.
pub fn local_max_tokens(max_tokens: Option<i32>) -> (r: usize)
    ensures
        r == match max_tokens {
            Some(mt) => if mt == 0 {
                2048usize
            } else {
                mt as usize
            },
            None => 2048usize,
        },
{
    match max_tokens {
        Some(mt) => if mt == 0 {
            2048usize
        } else {
            mt as usize
        },
        None => 2048usize,
    }
}

/// The backends that generation can be routed to.
#[derive(Debug, Clone, Copy, PartialEq, Eq)]
pub enum Backend {
    Ollama,
    OpenAI,
    Gemini,
    Spnl,
    Local,
}

/// The position of the first '/' of `s`, or its length when it has none.
pub open spec fn first_slash(s: Seq<char>) -> nat
    decreases s.len(),
{
    if s.len() == 0 {
        0
    } else if s[0] == '/' {
        0
    } else {
        1 + first_slash(s.drop_first())
    }
}

/// The name of a backend's provider prefix.
pub open spec fn backend_prefix(b: Backend) -> Seq<char> {
    match b {
        Backend::Ollama => "ollama"@,
        Backend::OpenAI => "openai"@,
        Backend::Gemini => "gemini"@,
        Backend::Spnl => "spnl"@,
        Backend::Local => "local"@,
    }
}

/// Where a "provider/model" name goes: the text before the first '/'
/// names the backend, and the rest is the model's name there. A name
/// without '/', or with an unknown provider, goes nowhere.
pub open spec fn spec_route(model: Seq<char>) -> Option<(Backend, Seq<char>)> {
    let k = first_slash(model);
    if k >= model.len() {
        None
    } else {
        let p = model.take(k as int);
        let rest = model.skip(k as int + 1);
        if p == "ollama"@ {
            Some((Backend::Ollama, rest))
        } else if p == "openai"@ {
            Some((Backend::OpenAI, rest))
        } else if p == "gemini"@ {
            Some((Backend::Gemini, rest))
        } else if p == "spnl"@ {
            Some((Backend::Spnl, rest))
        } else if p == "local"@ {
            Some((Backend::Local, rest))
        } else {
            None
        }
    }
}

proof fn lemma_first_slash_skip(s: Seq<char>, i: int)
    requires
        0 <= i < s.len(),
        s[i] != '/',
    ensures
        first_slash(s.skip(i)) == 1 + first_slash(s.skip(i + 1)),
{
    assert(s.skip(i).drop_first() =~= s.skip(i + 1));
}

proof fn lemma_first_slash_concat(p: Seq<char>, rest: Seq<char>)
    requires
        forall|i: int| 0 <= i < p.len() ==> p[i] != '/',
    ensures
        first_slash(p + seq!['/'] + rest) == p.len(),
    decreases p.len(),
{
    let s = p + seq!['/'] + rest;
    if p.len() == 0 {
        assert(s[0] == '/');
    } else {
        assert(s[0] == p[0]);
        assert(s.drop_first() =~= p.drop_first() + seq!['/'] + rest);
        lemma_first_slash_concat(p.drop_first(), rest);
    }
}

/// A model named with a backend's provider prefix, a '/' and the
/// model's own name goes to that backend under that name.
pub proof fn law_route_prefix(b: Backend, m: Seq<char>)
    ensures
        spec_route(backend_prefix(b) + "/"@ + m) == Some((b, m)),
{
    reveal_strlit("ollama");
    reveal_strlit("openai");
    reveal_strlit("gemini");
    reveal_strlit("spnl");
    reveal_strlit("local");
    reveal_strlit("/");
    let p = backend_prefix(b);
    let s = p + "/"@ + m;
    assert("/"@ =~= seq!['/']);
    lemma_first_slash_concat(p, m);
    assert(s.take(p.len() as int) =~= p);
    assert(s.skip(p.len() as int + 1) =~= m);
    assert("ollama"@ != "openai"@) by {
        assert("ollama"@[1] != "openai"@[1]);
    }
    assert("ollama"@ != "gemini"@) by {
        assert("ollama"@[0] != "gemini"@[0]);
    }
    assert("openai"@ != "gemini"@) by {
        assert("openai"@[0] != "gemini"@[0]);
    }
}

/// The backend that serves a "provider/model" name, and the model's name
/// there; fails when no backend serves it.
pub fn route(model: &str) -> (r: Result<(Backend, String), ModelNotFoundError>)
    ensures
        match r {
            Ok((b, m)) => spec_route(model@) == Some((b, m@)),
            Err(_) => spec_route(model@) is None,
        },
{
    let n = model.unicode_len();
    let mut k: usize = 0;
    assert(model@.skip(0) =~= model@);
    while k < n && model.get_char(k) != '/'
        invariant
            n == model@.len(),
            k <= n,
            first_slash(model@) == k + first_slash(model@.skip(k as int)),
        decreases n - k,
    {
        proof {
            lemma_first_slash_skip(model@, k as int);
        }
        k = k + 1;
    }
    if k >= n {
        assert(model@.skip(k as int).len() == 0);
        return Err(ModelNotFoundError);
    }
    assert(model@.skip(k as int)[0] == '/');
    let p = model.substring_char(0, k);
    let rest = owned(model.substring_char(k + 1, n));
    assert(p@ =~= model@.take(k as int));
    assert(rest@ =~= model@.skip(k + 1));
    if same_text(p, "ollama") {
        Ok((Backend::Ollama, rest))
    } else if same_text(p, "openai") {
        Ok((Backend::OpenAI, rest))
    } else if same_text(p, "gemini") {
        Ok((Backend::Gemini, rest))
    } else if same_text(p, "spnl") {
        Ok((Backend::Spnl, rest))
    } else if same_text(p, "local") {
        Ok((Backend::Local, rest))
    } else {
        Err(ModelNotFoundError)
    }
}

/// The answers of a generation as a query: a single answer is an
/// assistant message, several are assistant messages in parallel.
pub open spec fn answers_query(answers: Seq<Seq<char>>) -> QueryModel {
    if answers.len() == 1 {
        QueryModel::Message(MessageModel::Assistant(answers[0]))
    } else {
        QueryModel::Par(
            Seq::new(answers.len(), |i: int| QueryModel::Message(MessageModel::Assistant(answers[i]))),
        )
    }
}

/// The answers of a generation as a query (see [`answers_query`]).
pub fn responses_to_query(answers: Vec<String>) -> (r: Query)
    ensures
        r@ == answers_query(views(answers@)),
{
    let mut answers = answers;
    if answers.len() == 1 {
        let a = answers.pop().unwrap();
        return Query::Message(Message::Assistant(a));
    }
    let out = assistant_list(&answers);
    proof {
        lemma_list_models(out);
    }
    Query::Par(out)
}

/// One assistant message for each answer.
pub open spec fn assistant_models(s: Seq<Seq<char>>) -> Seq<QueryModel> {
    Seq::new(s.len(), |k: int| QueryModel::Message(MessageModel::Assistant(s[k])))
}

/// The answers as assistant messages, in order.
fn assistant_list(answers: &Vec<String>) -> (r: Vec<Query>)
    ensures
        models(r@) == assistant_models(views(answers@)),
{
    let ghost s = views(answers@);
    let n = answers.len();
    let mut out: Vec<Query> = Vec::new();
    let mut i: usize = 0;
    while i < n
        invariant
            n == answers@.len(),
            s == views(answers@),
            i <= n,
            out@.len() == i,
            models(out@) == Seq::new(
                i as nat,
                |k: int| QueryModel::Message(MessageModel::Assistant(s[k])),
            ),
        decreases n - i,
    {
        let a = answers[i].clone();
        assert(a@ == s[i as int]);
        let ghost before = out@;
        out.push(Query::Message(Message::Assistant(a)));
        assert forall|k: int| 0 <= k < i + 1 implies #[trigger] models(out@)[k]
            == QueryModel::Message(MessageModel::Assistant(s[k])) by {
            if k < i {
                assert(out@[k] == before[k]);
                assert(models(before)[k] == QueryModel::Message(MessageModel::Assistant(s[k])));
            }
        }
        assert(models(out@) =~= Seq::new(
            (i + 1) as nat,
            |k: int| QueryModel::Message(MessageModel::Assistant(s[k])),
        ));
        i = i + 1;
    }
    assert(models(out@) =~= assistant_models(s));
    out
}

/// The local engine takes no prepare requests.
#[derive(Debug, Clone, Copy, PartialEq, Eq)]
pub struct PrepareUnsupported;

/// Whether the local engine takes the request: it refuses prepare mode.
pub fn local_accepts(options: &GenerateOptions) -> (r: Result<(), PrepareUnsupported>)
    ensures
        (r is Ok) == (options.prepare != Some(true)),
{
    if options.prepare == Some(true) {
        Err(PrepareUnsupported)
    } else {
        Ok(())
    }
}

/// The answers of the local engine as a query: always a parallel list of
/// assistant messages, one per answer, even for a single answer.
pub fn local_answers_query(answers: Vec<String>) -> (r: Query)
    ensures
        r@ == QueryModel::Par(assistant_models(views(answers@))),
{
    let out = assistant_list(&answers);
    proof {
        lemma_list_models(out);
    }
    Query::Par(out)
}

/// A bulk request for the span-query server.
pub enum Spec {
    Batch(Batch),
    Repeat(Repeat),
}

impl Spec {
    /// How many answers the request gives.
    pub fn n(&self) -> (r: usize)
        ensures
            r == match self {
                Spec::Batch(b) => b.inputs@.len(),
                Spec::Repeat(rp) => rp.n as nat,
            },
    {
        match self {
            Spec::Batch(b) => b.inputs.len(),
            Spec::Repeat(rp) => rp.n as usize,
        }
    }

    /// The metadata of the request's generations.
    pub fn metadata(&self) -> (r: GenerateMetadata)
        ensures
            r@ == match self {
                Spec::Batch(b) => b.metadata@,
                Spec::Repeat(rp) => rp.generate.metadata@,
            },
    {
        match self {
            Spec::Batch(b) => b.metadata.duplicate(),
            Spec::Repeat(rp) => rp.generate.metadata.duplicate(),
        }
    }

    /// The request as a query.
    pub fn query(self) -> (r: Query)
        ensures
            r == match self {
                Spec::Batch(b) => Query::Bulk(Bulk::Batch(b)),
                Spec::Repeat(rp) => Query::Bulk(Bulk::Repeat(rp)),
            },
    {
        match self {
            Spec::Batch(b) => Query::Bulk(Bulk::Batch(b)),
            Spec::Repeat(rp) => Query::Bulk(Bulk::Repeat(rp)),
        }
    }
}

/// The span-query server's endpoint: prepare, when asked to, else execute.
pub fn query_endpoint(options: &GenerateOptions) -> (r: &'static str)
    ensures
        r@ == if options.prepare == Some(true) {
            "http://localhost:8000/v1/query/prepare"@
        } else {
            "http://localhost:8000/v1/query/execute"@
        },
{
    match options.prepare {
        Some(true) => "http://localhost:8000/v1/query/prepare",
        _ => "http://localhost:8000/v1/query/execute",
    }
}

/// Whether the server answers in one piece: only for a one-token limit.
pub fn non_streaming(metadata: &GenerateMetadata) -> (r: bool)
    ensures
        r == (metadata.max_tokens == Some(1i32)),
{
    match metadata.max_tokens {
        Some(mt) => mt == 1,
        None => false,
    }
}

/// The bytes of a streamed chunk that hold its data: a server-sent event
/// prefixed with "data: " loses the prefix; any other chunk is kept whole.
pub fn event_data(chunk: &[u8]) -> (r: &[u8])
    ensures
        r@ == if chunk@.len() >= 6 && chunk@.take(6) == seq![100u8, 97u8, 116u8, 97u8, 58u8, 32u8] {
            chunk@.skip(6)
        } else {
            chunk@
        },
{
    if chunk.len() >= 6 && chunk[0] == 100u8 && chunk[1] == 97u8 && chunk[2] == 116u8 && chunk[3]
        == 97u8 && chunk[4] == 58u8 && chunk[5] == 32u8 {
        assert(chunk@.take(6) =~= seq![100u8, 97u8, 116u8, 97u8, 58u8, 32u8]);
        let r = vstd::slice::slice_subrange(chunk, 6, chunk.len());
        assert(r@ =~= chunk@.skip(6));
        r
    } else {
        proof {
            if chunk@.len() >= 6 && chunk@.take(6) == seq![100u8, 97u8, 116u8, 97u8, 58u8, 32u8] {
                assert(chunk@.take(6)[0] == chunk@[0]);
                assert(chunk@.take(6)[1] == chunk@[1]);
                assert(chunk@.take(6)[2] == chunk@[2]);
                assert(chunk@.take(6)[3] == chunk@[3]);
                assert(chunk@.take(6)[4] == chunk@[4]);
                assert(chunk@.take(6)[5] == chunk@[5]);
            }
        }
        chunk
    }
}

/// The answers of a generation as they stream in, with the number of
/// bytes received and whether any text has arrived yet.
pub struct ResponseCollector {
    pub responses: Vec<String>,
    pub byte_count: u64,
    pub first_text_seen: bool,
}

/// `n` empty answers.
pub open spec fn empty_answers(n: nat) -> Seq<Seq<char>> {
    Seq::new(n, |i: int| Seq::<char>::empty())
}

impl ResponseCollector {
    /// A collector for `n` answers, all empty so far.
    pub fn new(n: usize) -> (r: ResponseCollector)
        ensures
            views(r.responses@) == empty_answers(n as nat),
            r.byte_count == 0,
            !r.first_text_seen,
    {
        let mut responses: Vec<String> = Vec::new();
        let mut i: usize = 0;
        while i < n
            invariant
                i <= n,
                responses@.len() == i,
                views(responses@) == empty_answers(i as nat),
            decreases n - i,
        {
            let ghost before = responses@;
            responses.push(String::new());
            assert forall|k: int| 0 <= k < i + 1 implies #[trigger] views(responses@)[k]
                == Seq::<char>::empty() by {
                if k < i {
                    assert(responses@[k] == before[k]);
                    assert(views(before)[k] == Seq::<char>::empty());
                }
            }
            assert(views(responses@) =~= empty_answers((i + 1) as nat));
            i = i + 1;
        }
        ResponseCollector { responses, byte_count: 0, first_text_seen: false }
    }

    /// A piece of text for answer `idx`: appended to that answer when
    /// there is one, and counted. Gives whether this is the first
    /// non-empty text of the generation (when time to first token is taken).
    pub fn on_text(&mut self, idx: usize, text: &str) -> (first: bool)
        requires
            old(self).byte_count + text.len() <= u64::MAX,
        ensures
            views(final(self).responses@) == if idx < old(self).responses@.len() {
                views(old(self).responses@).update(
                    idx as int,
                    views(old(self).responses@)[idx as int] + text@,
                )
            } else {
                views(old(self).responses@)
            },
            final(self).byte_count == old(self).byte_count + text.len(),
            first == (!old(self).first_text_seen && text@.len() > 0),
            final(self).first_text_seen == (old(self).first_text_seen || text@.len() > 0),
    {
        let first = !self.first_text_seen && !text.is_empty();
        if first {
            self.first_text_seen = true;
        }
        self.byte_count = self.byte_count + text.len() as u64;
        if idx < self.responses.len() {
            let ghost before = views(self.responses@);
            let mut s = self.responses[idx].clone();
            push_text(&mut s, text);
            self.responses.set(idx, s);
            assert(views(self.responses@) =~= before.update(idx as int, before[idx as int] + text@));
        }
        first
    }

    /// The final text of answer `idx`, which stands in for it only when
    /// nothing streamed in for it; counted when used.
    pub fn on_final(&mut self, idx: usize, content: &str)
        requires
            idx < old(self).responses@.len(),
            old(self).byte_count + content.len() <= u64::MAX,
        ensures
            old(self).responses@[idx as int]@.len() == 0 ==> {
                &&& views(final(self).responses@) == views(old(self).responses@).update(
                    idx as int,
                    content@,
                )
                &&& final(self).byte_count == old(self).byte_count + content.len()
            },
            old(self).responses@[idx as int]@.len() > 0 ==> *final(self) == *old(self),
            final(self).first_text_seen == old(self).first_text_seen,
    {
        if self.responses[idx].as_str().unicode_len() == 0 {
            let ghost before = views(self.responses@);
            self.responses.set(idx, owned(content));
            self.byte_count = self.byte_count + content.len() as u64;
            assert(views(self.responses@) =~= before.update(idx as int, content@));
        }
    }

    /// Answer `idx` is `text`, in place of what it held.
    pub fn set_response(&mut self, idx: usize, text: String)
        requires
            idx < old(self).responses@.len(),
        ensures
            views(final(self).responses@) == views(old(self).responses@).update(idx as int, text@),
            final(self).byte_count == old(self).byte_count,
            final(self).first_text_seen == old(self).first_text_seen,
    {
        let ghost before = views(self.responses@);
        self.responses.set(idx, text);
        assert(views(self.responses@) =~= before.update(idx as int, text@));
    }

    /// The answers as a query (see [`answers_query`]).
    pub fn into_query(self) -> (r: Query)
        ensures
            r@ == answers_query(views(self.responses@)),
    {
        responses_to_query(self.responses)
    }
}

/// Timing data for a single task.
#[derive(Debug, Clone, Copy)]
pub struct TaskTiming {
    pub ttft: Option<Duration>,
    pub total_duration: Duration,
    pub token_count: u64,
}

/// The timing of each task, from what was collected: task `i` has the
/// `i`-th time to first token, the `i`-th duration (or, when there is
/// none, its time to first token) and the `i`-th token count (or 0).
pub fn prepare_timing_metrics(all_ttft: &[Duration], all_task_durations: &[Duration], all_token_counts: &[u64]) -> (r: Vec<TaskTiming>)
    ensures
        r@.len() == all_ttft@.len(),
        forall|i: int|
            0 <= i < r@.len() ==> {
                &&& (#[trigger] r@[i]).ttft == Some(all_ttft@[i])
                &&& r@[i].total_duration == if i < all_task_durations@.len() {
                    all_task_durations@[i]
                } else {
                    all_ttft@[i]
                }
                &&& r@[i].token_count == if i < all_token_counts@.len() {
                    all_token_counts@[i]
                } else {
                    0
                }
            },
{
    let mut out: Vec<TaskTiming> = Vec::new();
    let n = all_ttft.len();
    let mut i: usize = 0;
    while i < n
        invariant
            n == all_ttft@.len(),
            i <= n,
            out@.len() == i,
            forall|k: int|
                0 <= k < i ==> {
                    &&& (#[trigger] out@[k]).ttft == Some(all_ttft@[k])
                    &&& out@[k].total_duration == if k < all_task_durations@.len() {
                        all_task_durations@[k]
                    } else {
                        all_ttft@[k]
                    }
                    &&& out@[k].token_count == if k < all_token_counts@.len() {
                        all_token_counts@[k]
                    } else {
                        0
                    }
                },
        decreases n - i,
    {
        let ttft = all_ttft[i];
        let total_duration = if i < all_task_durations.len() {
            all_task_durations[i]
        } else {
            ttft
        };
        let token_count = if i < all_token_counts.len() {
            all_token_counts[i]
        } else {
            0
        };
        out.push(TaskTiming { ttft: Some(ttft), total_duration, token_count });
        i = i + 1;
    }
    out
}

/// The message of a progress bar: "Generating" for a single answer,
/// "Bulk Generation (k)" for answer `k` (from 1) of several.
pub fn bar_message(n: usize, idx: usize) -> (r: String)
    requires
        idx < usize::MAX,
    ensures
        r@ == if n == 1 {
            "Generating"@
        } else {
            "Bulk Generation ("@ + crate::text::decimal((idx + 1) as nat) + ")"@
        },
{
    if n == 1 {
        owned("Generating")
    } else {
        let mut r = owned("Bulk Generation (");
        push_text(&mut r, crate::text::decimal_string((idx + 1) as u64).as_str());
        push_text(&mut r, ")");
        r
    }
}

/// The length of a progress bar: four times the token limit (a token is
/// about four characters), or none without a limit.
pub fn bar_length(metadata: &GenerateMetadata) -> (r: Option<u64>)
    ensures
        r == match metadata.max_tokens {
            Some(mt) => Some((((mt as u64) as nat * 4) % 0x1_0000_0000_0000_0000) as u64),
            None => None::<u64>,
        },
{
    match metadata.max_tokens {
        Some(mt) => {
            let m: u64 = mt as u64;
            Some(m.wrapping_mul(4))
        },
        None => None,
    }
}

} // verus!
