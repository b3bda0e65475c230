//! Flattening a query into the chat messages that it holds: for a chat
//! template, for an OpenAI-style chat request, and for an embedding request.

use vstd::prelude::*;

use crate::chat_template::{apply, detect, messages_model, spec_apply, spec_detect, ModelNotFoundError};
use crate::message::{Message, MessageModel};
use crate::pretty_print::display;
use crate::query::{lemma_list_models, models, Query, QueryModel};
use crate::text::{push_text, views};

use tokenizers::Tokenizer;

verus! {

broadcast use vstd::std_specs::vec::group_vec_axioms;

/// The messages of a query, in order: a message stands for itself, the
/// entries of a Sequence, Par, Cross or Plus are flattened, anything
/// else holds none.
pub open spec fn messages_in(q: QueryModel) -> Seq<MessageModel>
    decreases q, 1nat,
{
    match q {
        QueryModel::Message(m) => seq![m],
        QueryModel::Sequence(v) => messages_in_list(v),
        QueryModel::Par(v) => messages_in_list(v),
        QueryModel::Cross(v) => messages_in_list(v),
        QueryModel::Plus(v) => messages_in_list(v),
        _ => Seq::empty(),
    }
}

/// The messages of each query of a list, concatenated.
pub open spec fn messages_in_list(s: Seq<QueryModel>) -> Seq<MessageModel>
    decreases s, 0nat,
{
    if s.len() == 0 {
        Seq::empty()
    } else {
        messages_in_list(s.drop_last()) + messages_in(s.last())
    }
}

/// A query made of messages and lists of them only.
pub open spec fn only_messages(q: QueryModel) -> bool
    decreases q, 1nat,
{
    match q {
        QueryModel::Message(_) => true,
        QueryModel::Sequence(v) => only_messages_list(v),
        QueryModel::Par(v) => only_messages_list(v),
        QueryModel::Cross(v) => only_messages_list(v),
        QueryModel::Plus(v) => only_messages_list(v),
        _ => false,
    }
}

/// Every query of a list is made of messages and lists of them only.
pub open spec fn only_messages_list(s: Seq<QueryModel>) -> bool
    decreases s, 0nat,
{
    if s.len() == 0 {
        true
    } else {
        only_messages_list(s.drop_last()) && only_messages(s.last())
    }
}

/// The messages of a chat request for a query: lists are flattened,
/// system and assistant messages stand for themselves, and any other
/// query becomes a user message with the text that it shows, unless
/// that text is empty.
pub open spec fn chat_request(q: QueryModel) -> Seq<MessageModel>
    decreases q, 1nat,
{
    match q {
        QueryModel::Sequence(v) => chat_request_list(v),
        QueryModel::Par(v) => chat_request_list(v),
        QueryModel::Cross(v) => chat_request_list(v),
        QueryModel::Plus(v) => chat_request_list(v),
        QueryModel::Message(MessageModel::System(s)) => seq![MessageModel::System(s)],
        QueryModel::Message(MessageModel::Assistant(s)) => seq![MessageModel::Assistant(s)],
        _ => if display(q).len() == 0 {
            Seq::empty()
        } else {
            seq![MessageModel::User(display(q))]
        },
    }
}

/// The chat request messages of each query of a list, concatenated.
pub open spec fn chat_request_list(s: Seq<QueryModel>) -> Seq<MessageModel>
    decreases s, 0nat,
{
    if s.len() == 0 {
        Seq::empty()
    } else {
        chat_request_list(s.drop_last()) + chat_request(s.last())
    }
}

/// The texts to embed for a query: the entries of a Sequence, Cross or
/// Plus are flattened, assistant and system messages give their text,
/// and any other query gives the text that it shows, unless it is empty.
pub open spec fn contents(q: QueryModel) -> Seq<Seq<char>>
    decreases q, 1nat,
{
    match q {
        QueryModel::Sequence(v) => contents_list(v),
        QueryModel::Cross(v) => contents_list(v),
        QueryModel::Plus(v) => contents_list(v),
        QueryModel::Message(MessageModel::Assistant(s)) => seq![s],
        QueryModel::Message(MessageModel::System(s)) => seq![s],
        _ => if display(q).len() == 0 {
            Seq::empty()
        } else {
            seq![display(q)]
        },
    }
}

/// The texts to embed for each query of a list, concatenated.
pub open spec fn contents_list(s: Seq<QueryModel>) -> Seq<Seq<char>>
    decreases s, 0nat,
{
    if s.len() == 0 {
        Seq::empty()
    } else {
        contents_list(s.drop_last()) + contents(s.last())
    }
}

/// The prompt text for a model: the messages of the query rendered with
/// the model's chat template and the assistant cue, then "/no_think".
pub open spec fn chat_prompt_text(t: crate::chat_template::ChatTemplate, q: QueryModel) -> Seq<char> {
    spec_apply(t, messages_in(q), true) + "/no_think"@
}

/// A query of messages and lists of them, with no empty user message.
pub open spec fn plain_chat(q: QueryModel) -> bool
    decreases q, 1nat,
{
    match q {
        QueryModel::Message(MessageModel::User(s)) => s.len() > 0,
        QueryModel::Message(_) => true,
        QueryModel::Sequence(v) => plain_chat_list(v),
        QueryModel::Par(v) => plain_chat_list(v),
        QueryModel::Cross(v) => plain_chat_list(v),
        QueryModel::Plus(v) => plain_chat_list(v),
        _ => false,
    }
}

/// Every query of a list is a plain chat.
pub open spec fn plain_chat_list(s: Seq<QueryModel>) -> bool
    decreases s, 0nat,
{
    if s.len() == 0 {
        true
    } else {
        plain_chat_list(s.drop_last()) && plain_chat(s.last())
    }
}

/// For a query of messages and lists of them with no empty user
/// message, the chat request holds exactly the query's messages.
pub proof fn law_chat_request_is_messages(q: QueryModel)
    requires
        plain_chat(q),
    ensures
        chat_request(q) == messages_in(q),
    decreases q, 1nat,
{
    match q {
        QueryModel::Sequence(v) => lemma_chat_request_list(v),
        QueryModel::Par(v) => lemma_chat_request_list(v),
        QueryModel::Cross(v) => lemma_chat_request_list(v),
        QueryModel::Plus(v) => lemma_chat_request_list(v),
        QueryModel::Message(MessageModel::User(s)) => {
            assert(display(q) == s);
        },
        _ => {},
    }
}

proof fn lemma_chat_request_list(s: Seq<QueryModel>)
    requires
        plain_chat_list(s),
    ensures
        chat_request_list(s) == messages_in_list(s),
    decreases s, 0nat,
{
    if s.len() > 0 {
        lemma_chat_request_list(s.drop_last());
        law_chat_request_is_messages(s.last());
    }
}

proof fn lemma_prefix_snoc(s: Seq<QueryModel>, i: int)
    requires
        0 <= i < s.len(),
    ensures
        s.subrange(0, i + 1).drop_last() == s.subrange(0, i),
        s.subrange(0, i + 1).last() == s[i],
{
    assert(s.subrange(0, i + 1).drop_last() =~= s.subrange(0, i));
}

/// Append to `out` the messages of the queries of `v`.
fn extract_list_into(v: &Vec<Query>, out: &mut Vec<Message>)
    ensures
        messages_model(final(out)@) == messages_model(old(out)@) + messages_in_list(models(v@)),
    decreases v, 0nat,
{
    let ghost s = models(v@);
    let ghost start = messages_model(out@);
    let n = v.len();
    let mut i: usize = 0;
    assert(s.subrange(0, 0) =~= Seq::<QueryModel>::empty());
    assert(start + Seq::<MessageModel>::empty() =~= start);
    while i < n
        invariant
            n == v@.len(),
            s == models(v@),
            i <= n,
            messages_model(out@) == start + messages_in_list(s.subrange(0, i as int)),
        decreases n - i,
    {
        proof {
            assert(decreases_to!(v => v@[i as int]));
        }
        extract_into(&v[i], out);
        proof {
            lemma_prefix_snoc(s, i as int);
            assert(s[i as int] == v@[i as int]@);
            assert(start + messages_in_list(s.subrange(0, i as int)) + messages_in(s[i as int])
                =~= start + (messages_in_list(s.subrange(0, i as int)) + messages_in(
                s[i as int],
            )));
        }
        i = i + 1;
    }
    assert(s.subrange(0, n as int) =~= s);
}

/// Append to `out` the messages of `q`.
fn extract_into(q: &Query, out: &mut Vec<Message>)
    ensures
        messages_model(final(out)@) == messages_model(old(out)@) + messages_in(q@),
    decreases q, 1nat,
{
    match q {
        Query::Message(m) => {
            let ghost before = out@;
            out.push(m.duplicate());
            assert(messages_model(out@) =~= messages_model(before) + seq![m@]);
        },
        Query::Sequence(v) | Query::Par(v) | Query::Cross(v) | Query::Plus(v) => {
            proof {
                lemma_list_models(*v);
            }
            extract_list_into(v, out);
        },
        _ => {
            assert(messages_in(q@) =~= Seq::<MessageModel>::empty());
            assert(messages_model(out@) =~= messages_model(out@) + Seq::<MessageModel>::empty());
        },
    }
}

/// The messages of a query, in order (see [`messages_in`]).
pub fn extract_messages(input: &Query) -> (r: Vec<Message>)
    ensures
        messages_model(r@) == messages_in(input@),
{
    let mut out: Vec<Message> = Vec::new();
    assert(messages_model(out@) =~= Seq::<MessageModel>::empty());
    extract_into(input, &mut out);
    assert(Seq::<MessageModel>::empty() + messages_in(input@) =~= messages_in(input@));
    out
}

/// Whether every query of `v` is made of messages and lists of them.
fn all_only_messages(v: &Vec<Query>) -> (r: bool)
    ensures
        r == only_messages_list(models(v@)),
    decreases v, 0nat,
{
    let ghost s = models(v@);
    let n = v.len();
    let mut i: usize = 0;
    while i < n
        invariant
            n == v@.len(),
            s == models(v@),
            i <= n,
            only_messages_list(s.subrange(0, i as int)),
        decreases n - i,
    {
        proof {
            assert(decreases_to!(v => v@[i as int]));
            lemma_prefix_snoc(s, i as int);
            assert(s[i as int] == v@[i as int]@);
        }
        if !is_only_messages(&v[i]) {
            proof {
                lemma_only_messages_prefix(s, i as int + 1, n as int);
            }
            return false;
        }
        i = i + 1;
    }
    assert(s.subrange(0, n as int) =~= s);
    true
}

/// A list with a prefix that has a query of another kind has one too.
proof fn lemma_only_messages_prefix(s: Seq<QueryModel>, k: int, n: int)
    requires
        0 < k <= n == s.len(),
        !only_messages_list(s.subrange(0, k)),
    ensures
        !only_messages_list(s),
    decreases n - k,
{
    if k < n {
        lemma_prefix_snoc(s, k);
        lemma_only_messages_prefix(s, k + 1, n);
    } else {
        assert(s.subrange(0, n) =~= s);
    }
}

/// Whether `q` is made of messages and lists of them.
fn is_only_messages(q: &Query) -> (r: bool)
    ensures
        r == only_messages(q@),
    decreases q, 1nat,
{
    match q {
        Query::Message(_) => true,
        Query::Sequence(v) | Query::Par(v) | Query::Cross(v) | Query::Plus(v) => {
            proof {
                lemma_list_models(*v);
            }
            all_only_messages(v)
        },
        _ => false,
    }
}

/// A query that holds something other than messages and lists of them,
/// which a chat request built from messages alone cannot carry.
#[derive(Debug, Clone, Copy, PartialEq, Eq)]
pub struct UnsupportedQuery;

/// The messages of a query that is made of messages and lists of them
/// only; any other query is refused.
pub fn chat_messages(query: &Query) -> (r: Result<Vec<Message>, UnsupportedQuery>)
    ensures
        match r {
            Ok(v) => only_messages(query@) && messages_model(v@) == messages_in(query@),
            Err(_) => !only_messages(query@),
        },
{
    if is_only_messages(query) {
        Ok(extract_messages(query))
    } else {
        Err(UnsupportedQuery)
    }
}

/// Append to `out` the chat request messages of the queries of `v`.
fn messagify_list_into(v: &Vec<Query>, out: &mut Vec<Message>)
    ensures
        messages_model(final(out)@) == messages_model(old(out)@) + chat_request_list(models(v@)),
    decreases v, 0nat,
{
    let ghost s = models(v@);
    let ghost start = messages_model(out@);
    let n = v.len();
    let mut i: usize = 0;
    assert(s.subrange(0, 0) =~= Seq::<QueryModel>::empty());
    assert(start + Seq::<MessageModel>::empty() =~= start);
    while i < n
        invariant
            n == v@.len(),
            s == models(v@),
            i <= n,
            messages_model(out@) == start + chat_request_list(s.subrange(0, i as int)),
        decreases n - i,
    {
        proof {
            assert(decreases_to!(v => v@[i as int]));
        }
        messagify_into(&v[i], out);
        proof {
            lemma_prefix_snoc(s, i as int);
            assert(s[i as int] == v@[i as int]@);
            assert(start + chat_request_list(s.subrange(0, i as int)) + chat_request(s[i as int])
                =~= start + (chat_request_list(s.subrange(0, i as int)) + chat_request(
                s[i as int],
            )));
        }
        i = i + 1;
    }
    assert(s.subrange(0, n as int) =~= s);
}

/// Append to `out` the chat request messages of `q`.
fn messagify_into(q: &Query, out: &mut Vec<Message>)
    ensures
        messages_model(final(out)@) == messages_model(old(out)@) + chat_request(q@),
    decreases q, 1nat,
{
    let ghost before = out@;
    match q {
        Query::Sequence(v) | Query::Par(v) | Query::Cross(v) | Query::Plus(v) => {
            proof {
                lemma_list_models(*v);
            }
            messagify_list_into(v, out);
        },
        Query::Message(Message::System(s)) => {
            out.push(Message::System(s.clone()));
            assert(messages_model(out@) =~= messages_model(before) + chat_request(q@));
        },
        Query::Message(Message::Assistant(s)) => {
            out.push(Message::Assistant(s.clone()));
            assert(messages_model(out@) =~= messages_model(before) + chat_request(q@));
        },
        _ => {
            let s = q.display_text();
            if s.as_str().unicode_len() == 0 {
                assert(messages_model(out@) =~= messages_model(before) + chat_request(q@));
            } else {
                out.push(Message::User(s));
                assert(messages_model(out@) =~= messages_model(before) + chat_request(q@));
            }
        },
    }
}

/// The messages of an OpenAI-style chat request for `input` (see
/// [`chat_request`]).
pub fn messagify(input: &Query) -> (r: Vec<Message>)
    ensures
        messages_model(r@) == chat_request(input@),
{
    let mut out: Vec<Message> = Vec::new();
    assert(messages_model(out@) =~= Seq::<MessageModel>::empty());
    messagify_into(input, &mut out);
    assert(Seq::<MessageModel>::empty() + chat_request(input@) =~= chat_request(input@));
    out
}

/// Append to `out` the texts to embed for the queries of `v`.
fn contentify_list_into(v: &Vec<Query>, out: &mut Vec<String>)
    ensures
        views(final(out)@) == views(old(out)@) + contents_list(models(v@)),
    decreases v, 0nat,
{
    let ghost s = models(v@);
    let ghost start = views(out@);
    let n = v.len();
    let mut i: usize = 0;
    assert(s.subrange(0, 0) =~= Seq::<QueryModel>::empty());
    assert(start + Seq::<Seq<char>>::empty() =~= start);
    while i < n
        invariant
            n == v@.len(),
            s == models(v@),
            i <= n,
            views(out@) == start + contents_list(s.subrange(0, i as int)),
        decreases n - i,
    {
        proof {
            assert(decreases_to!(v => v@[i as int]));
        }
        contentify_into(&v[i], out);
        proof {
            lemma_prefix_snoc(s, i as int);
            assert(s[i as int] == v@[i as int]@);
            assert(start + contents_list(s.subrange(0, i as int)) + contents(s[i as int])
                =~= start + (contents_list(s.subrange(0, i as int)) + contents(s[i as int])));
        }
        i = i + 1;
    }
    assert(s.subrange(0, n as int) =~= s);
}

/// Append to `out` the texts to embed for `q`.
fn contentify_into(q: &Query, out: &mut Vec<String>)
    ensures
        views(final(out)@) == views(old(out)@) + contents(q@),
    decreases q, 1nat,
{
    let ghost before = out@;
    match q {
        Query::Sequence(v) | Query::Cross(v) | Query::Plus(v) => {
            proof {
                lemma_list_models(*v);
            }
            contentify_list_into(v, out);
        },
        Query::Message(Message::Assistant(s)) | Query::Message(Message::System(s)) => {
            out.push(s.clone());
            assert(views(out@) =~= views(before) + contents(q@));
        },
        _ => {
            let s = q.display_text();
            if s.as_str().unicode_len() == 0 {
                assert(views(out@) =~= views(before) + contents(q@));
            } else {
                out.push(s);
                assert(views(out@) =~= views(before) + contents(q@));
            }
        },
    }
}

/// The texts to embed for `input` (see [`contents`]).
pub fn contentify(input: &Query) -> (r: Vec<String>)
    ensures
        views(r@) == contents(input@),
{
    let mut out: Vec<String> = Vec::new();
    assert(views(out@) =~= Seq::<Seq<char>>::empty());
    contentify_into(input, &mut out);
    assert(Seq::<Seq<char>>::empty() + contents(input@) =~= contents(input@));
    out
}

/// The prompt for a model: the messages of `input` rendered with the
/// chat template that the model's name selects, with the assistant cue,
/// followed by "/no_think". Fails when no template fits the name.
pub fn chat_prompt(input: &Query, model_name: &str) -> (r: Result<String, ModelNotFoundError>)
    ensures
        match r {
            Ok(s) => spec_detect(model_name@) is Some && s@ == chat_prompt_text(
                spec_detect(model_name@)->0,
                input@,
            ),
            Err(_) => spec_detect(model_name@) is None,
        },
{
    let template = match detect(model_name) {
        Ok(t) => t,
        Err(e) => {
            return Err(e);
        },
    };
    let messages = extract_messages(input);
    let mut prompt = apply(template, messages.as_slice(), true);
    push_text(&mut prompt, "/no_think");
    Ok(prompt)
}

/// The tokenizer of the `tokenizers` crate, carried through unopened.
#[verifier::external_type_specification]
#[verifier::external_body]
pub struct ExTokenizer(Tokenizer);

/// Why a prompt could not be tokenized.
#[derive(Debug, Clone, PartialEq)]
pub enum TokenizeError {
    /// No chat template fits the model's name.
    UnknownTemplate,
    /// The tokenizer refused the prompt, with its message.
    Tokenizer(String),
}

/// `tokenizers::Tokenizer::encode` on `text`, without special tokens;
/// gives the ids of the encoding, or the message of the tokenizer's
/// error. Nothing is stated of the ids: they depend on everything the
/// tokenizer was loaded with, and a BPE model with dropout draws random
/// numbers while it merges, so the same text need not give the same ids.
#[verifier::external_body]
fn encode_ids(tokenizer: &Tokenizer, text: String) -> (r: Result<Vec<u32>, String>) {
    match tokenizer.encode(text, false) {
        Ok(encoding) => Ok(encoding.get_ids().to_vec()),
        Err(e) => Err(e.to_string()),
    }
}

/// The token ids of the prompt for `input` (see [`chat_prompt`]), as
/// `tokenizer` encodes it. Fails with `UnknownTemplate` exactly when no
/// chat template fits the model's name; otherwise the tokenizer decides:
/// the ids of its encoding, or its error.
pub fn tokenize_with_chat_template(input: &Query, tokenizer: &Tokenizer, model_name: &str) -> (r:
    Result<Vec<u32>, TokenizeError>)
    ensures
        spec_detect(model_name@) is None ==> r == Err::<Vec<u32>, TokenizeError>(
            TokenizeError::UnknownTemplate,
        ),
        r is Ok ==> spec_detect(model_name@) is Some,
        spec_detect(model_name@) is Some ==> (r is Ok || r matches Err(TokenizeError::Tokenizer(_))),
{
    match chat_prompt(input, model_name) {
        Err(_) => Err(TokenizeError::UnknownTemplate),
        Ok(prompt) => match encode_ids(tokenizer, prompt) {
            Ok(ids) => Ok(ids),
            Err(message) => Err(TokenizeError::Tokenizer(message)),
        },
    }
}

} // verus!
