//! Text renderings of a query: the plain text that `Display` shows, and
//! the label and children of each node in the tree view.

use vstd::prelude::*;

use crate::message::{Message, MessageModel};
use crate::query::{lemma_list_models, models, Batch, Bulk, Generate, Query, QueryModel, Repeat};
use crate::text::{
    decimal, join, join_strings, owned, push_text, replace, replace_all, signed_decimal,
    signed_decimal_string, decimal_string, trimmed, views,
};

verus! {

broadcast use vstd::std_specs::vec::group_vec_axioms;

/// The first `max_chars` characters of `s` followed by an ellipsis, or
/// `s` itself when it has no more than `max_chars` characters.
pub open spec fn truncated(s: Seq<char>, max_chars: nat) -> Seq<char> {
    if s.len() <= max_chars {
        s
    } else {
        s.take(max_chars as int) + "\u{2026}"@
    }
}

/// Truncation keeps short text whole, and cuts longer text to a prefix
/// of the given length followed by a single ellipsis.
pub proof fn law_truncate_is_prefix(s: Seq<char>, max_chars: nat)
    ensures
        s.len() <= max_chars ==> truncated(s, max_chars) == s,
        s.len() > max_chars ==> {
            &&& truncated(s, max_chars).len() == max_chars + 1
            &&& truncated(s, max_chars).take(max_chars as int) == s.take(max_chars as int)
            &&& truncated(s, max_chars).last() == '\u{2026}'
        },
{
    reveal_strlit("\u{2026}");
    if s.len() > max_chars {
        assert((s.take(max_chars as int) + "\u{2026}"@).take(max_chars as int) =~= s.take(max_chars as int));
    }
}

/// A one-line excerpt: truncated, trimmed, with newlines turned into spaces.
pub open spec fn excerpt(s: Seq<char>, max_chars: nat) -> Seq<char> {
    replace_all(trimmed(truncated(s, max_chars)), "\n"@, " "@)
}

/// The text that a query shows: the message text of a message, the
/// texts of the entries of a Plus or Cross one per line, and nothing
/// for any other query.
pub open spec fn display(q: QueryModel) -> Seq<char>
    decreases q,
{
    match q {
        QueryModel::Message(m) => m.content(),
        QueryModel::Cross(v) => join(display_each(v), "\n"@),
        QueryModel::Plus(v) => join(display_each(v), "\n"@),
        _ => Seq::empty(),
    }
}

/// The text that each query of a list shows.
pub open spec fn display_each(v: Seq<QueryModel>) -> Seq<Seq<char>>
    decreases v,
{
    Seq::new(v.len(), |i: int| if 0 <= i < v.len() { display(v[i]) } else { Seq::empty() })
}

/// The `max_tokens=` fragment of a Generate label, shown only for a
/// non-zero limit.
pub open spec fn max_tokens_fragment(max_tokens: Option<i32>) -> Seq<char> {
    match max_tokens {
        Some(mt) => if mt != 0 {
            "max_tokens="@ + signed_decimal(mt as int) + " "@
        } else {
            ""@
        },
        None => ""@,
    }
}

/// The label of a node in the tree view (before styling).
pub open spec fn label(q: QueryModel) -> Seq<char> {
    match q {
        QueryModel::Message(MessageModel::Assistant(s)) => "\x1b[32mAssistant\x1b[0m "@ + excerpt(
            s,
            700,
        ),
        QueryModel::Message(MessageModel::User(s)) => "\x1b[33mUser\x1b[0m "@ + excerpt(s, 700),
        QueryModel::Message(MessageModel::System(s)) => "\x1b[34mSystem\x1b[0m "@ + excerpt(
            s,
            700,
        ),
        QueryModel::Sequence(_) => "\x1b[31;1mSequence\x1b[0m"@,
        QueryModel::Par(_) => "\x1b[31;1mParallel\x1b[0m"@,
        QueryModel::Plus(_) => "\x1b[31;1mPlus\x1b[0m"@,
        QueryModel::Cross(_) => "\x1b[31;1mCross\x1b[0m"@,
        QueryModel::Generate(g) => "\x1b[31;1mGenerate\x1b[0m \x1b[2m"@ + max_tokens_fragment(
            g.metadata.max_tokens,
        ) + "model="@ + g.metadata.model + "\x1b[0m"@,
        QueryModel::Monad(_) => "\x1b[2mMonad\x1b[0m"@,
        QueryModel::Repeat(n, _) => "Repeat "@ + decimal(n as nat),
        QueryModel::Batch(_, inputs) => "Map "@ + decimal(inputs.len()),
        QueryModel::Zip(_, _) => "Zip"@,
    }
}

/// The children of a node in the tree view.
pub open spec fn children(q: QueryModel) -> Seq<QueryModel> {
    match q {
        QueryModel::Sequence(v) => v,
        QueryModel::Par(v) => v,
        QueryModel::Plus(v) => v,
        QueryModel::Cross(v) => v,
        QueryModel::Monad(b) => seq![*b],
        QueryModel::Repeat(_, g) => seq![*g.input],
        QueryModel::Generate(g) => seq![*g.input],
        QueryModel::Zip(a, b) => seq![*a, *b],
        QueryModel::Batch(_, _) => Seq::empty(),
        QueryModel::Message(_) => Seq::empty(),
    }
}

/// `s` cut to `max_chars` characters, with an ellipsis when cut.
pub fn truncate(s: &str, max_chars: usize) -> (r: String)
    ensures
        r@ == truncated(s@, max_chars as nat),
{
    let n = s.unicode_len();
    if n <= max_chars {
        owned(s)
    } else {
        let mut r = owned(s.substring_char(0, max_chars));
        push_text(&mut r, "\u{2026}");
        assert(s@.subrange(0, max_chars as int) =~= s@.take(max_chars as int));
        r
    }
}

/// A one-line excerpt of `s` of at most `max_chars` characters (and an ellipsis).
pub fn trim(s: &str, max_chars: usize) -> (r: String)
    ensures
        r@ == excerpt(s@, max_chars as nat),
{
    let t = truncate(s, max_chars);
    let u = crate::text::trim(t.as_str());
    proof {
        reveal_strlit("\n");
    }
    replace(u.as_str(), "\n", " ")
}

/// The texts of the queries of `v`, one per line.
fn display_list(v: &Vec<Query>) -> (r: String)
    ensures
        r@ == join(Seq::new(v@.len(), |k: int| display(models(v@)[k])), "\n"@),
    decreases v,
{
    let ghost s = models(v@);
    let mut parts: Vec<String> = Vec::new();
    let n = v.len();
    let mut i: usize = 0;
    while i < n
        invariant
            n == v@.len(),
            s == models(v@),
            i <= n,
            views(parts@) == Seq::new(i as nat, |k: int| display(s[k])),
        decreases n - i,
    {
        let t = v[i].display_text();
        let ghost before = parts@;
        parts.push(t);
        assert(views(parts@) =~= views(before).push(t@));
        assert(s[i as int] == v@[i as int]@);
        assert(views(parts@) =~= Seq::new((i + 1) as nat, |k: int| display(s[k])));
        i = i + 1;
    }
    join_strings(&parts, "\n")
}

proof fn lemma_display_list(s: Seq<QueryModel>)
    ensures
        display(QueryModel::Cross(s)) == join(Seq::new(s.len(), |k: int| display(s[k])), "\n"@),
        display(QueryModel::Plus(s)) == join(Seq::new(s.len(), |k: int| display(s[k])), "\n"@),
{
    assert(Seq::new(s.len(), |k: int| display(s[k])) =~= display_each(s));
}

impl Query {
    /// The text that the query shows (its `Display`).
    pub fn display_text(&self) -> (r: String)
        ensures
            r@ == display(self@),
        decreases self,
    {
        match self {
            Query::Cross(v) => {
                proof {
                    lemma_list_models(*v);
                    lemma_display_list(models(v@));
                }
                display_list(v)
            },
            Query::Plus(v) => {
                proof {
                    lemma_list_models(*v);
                    lemma_display_list(models(v@));
                }
                display_list(v)
            },
            Query::Message(m) => m.display_text(),
            _ => String::new(),
        }
    }

    /// The label of this node in the tree view (before styling).
    pub fn tree_label(&self) -> (r: String)
        ensures
            r@ == label(self@),
    {
        match self {
            Query::Message(Message::Assistant(s)) => {
                let mut r = owned("\x1b[32mAssistant\x1b[0m ");
                push_text(&mut r, trim(s.as_str(), 700).as_str());
                r
            },
            Query::Message(Message::User(s)) => {
                let mut r = owned("\x1b[33mUser\x1b[0m ");
                push_text(&mut r, trim(s.as_str(), 700).as_str());
                r
            },
            Query::Message(Message::System(s)) => {
                let mut r = owned("\x1b[34mSystem\x1b[0m ");
                push_text(&mut r, trim(s.as_str(), 700).as_str());
                r
            },
            Query::Sequence(_) => owned("\x1b[31;1mSequence\x1b[0m"),
            Query::Par(_) => owned("\x1b[31;1mParallel\x1b[0m"),
            Query::Plus(_) => owned("\x1b[31;1mPlus\x1b[0m"),
            Query::Cross(_) => owned("\x1b[31;1mCross\x1b[0m"),
            Query::Generate(Generate { metadata, .. }) => {
                let mut r = owned("\x1b[31;1mGenerate\x1b[0m \x1b[2m");
                match metadata.max_tokens {
                    Some(mt) => {
                        if mt != 0 {
                            let mut f = owned("max_tokens=");
                            push_text(&mut f, signed_decimal_string(mt as i64).as_str());
                            push_text(&mut f, " ");
                            push_text(&mut r, f.as_str());
                        } else {
                            push_text(&mut r, "");
                        }
                    },
                    None => {
                        push_text(&mut r, "");
                    },
                }
                push_text(&mut r, "model=");
                push_text(&mut r, metadata.model.as_str());
                push_text(&mut r, "\x1b[0m");
                r
            },
            Query::Monad(_) => owned("\x1b[2mMonad\x1b[0m"),
            Query::Bulk(Bulk::Repeat(Repeat { n, .. })) => {
                let mut r = owned("Repeat ");
                push_text(&mut r, decimal_string(*n as u64).as_str());
                r
            },
            Query::Bulk(Bulk::Batch(Batch { inputs, .. })) => {
                let mut r = owned("Map ");
                push_text(&mut r, decimal_string(inputs.len() as u64).as_str());
                proof {
                    assert(views(inputs@).len() == inputs@.len());
                }
                r
            },
            Query::Zip(_) => owned("Zip"),
        }
    }

    /// The children of this node in the tree view.
    pub fn tree_children(&self) -> (r: Vec<Query>)
        ensures
            models(r@) == children(self@),
    {
        match self {
            Query::Sequence(v) | Query::Par(v) | Query::Plus(v) | Query::Cross(v) => {
                proof {
                    lemma_list_models(*v);
                }
                crate::query::duplicate_all(v)
            },
            Query::Monad(q) => {
                let r = vec![q.duplicate()];
                assert(models(r@) =~= children(self@));
                r
            },
            Query::Bulk(Bulk::Repeat(Repeat { generate, .. })) => {
                let r = vec![generate.input.duplicate()];
                assert(models(r@) =~= children(self@));
                r
            },
            Query::Generate(Generate { input, .. }) => {
                let r = vec![input.duplicate()];
                assert(models(r@) =~= children(self@));
                r
            },
            Query::Zip(z) => {
                let r = vec![z.first.duplicate(), z.second.duplicate()];
                assert(models(r@) =~= children(self@));
                r
            },
            Query::Bulk(Bulk::Batch(_)) | Query::Message(_) => {
                let r: Vec<Query> = Vec::new();
                assert(models(r@) =~= children(self@));
                r
            },
        }
    }
}

} // verus!
