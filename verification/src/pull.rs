//! The models that a query uses, and which of them Ollama must pull.

use vstd::prelude::*;

use crate::order::{sort_unique, strictly_sorted};
use crate::query::{lemma_list_models, models, Bulk, Query, QueryModel};
use crate::text::{has_prefix, owned, starts_with, views};

verus! {

broadcast use vstd::std_specs::vec::group_vec_axioms;

/// The models named anywhere in a query: by each generation (and the
/// queries nested in its input) and each bulk operation, in order (with
/// repeats).
pub open spec fn models_used(q: QueryModel) -> Seq<Seq<char>>
    decreases q, 1nat,
{
    match q {
        QueryModel::Generate(g) => seq![g.metadata.model] + models_used(*g.input),
        QueryModel::Repeat(_, g) => seq![g.metadata.model] + models_used(*g.input),
        QueryModel::Batch(md, _) => seq![md.model],
        QueryModel::Sequence(v) => models_used_list(v),
        QueryModel::Par(v) => models_used_list(v),
        QueryModel::Plus(v) => models_used_list(v),
        QueryModel::Cross(v) => models_used_list(v),
        QueryModel::Monad(b) => models_used(*b),
        QueryModel::Zip(x, y) => models_used(*x) + models_used(*y),
        QueryModel::Message(_) => Seq::empty(),
    }
}

/// The models used by each query of a list, concatenated.
pub open spec fn models_used_list(s: Seq<QueryModel>) -> Seq<Seq<char>>
    decreases s, 0nat,
{
    if s.len() == 0 {
        Seq::empty()
    } else {
        models_used_list(s.drop_last()) + models_used(s.last())
    }
}

/// Append to `out` the models used by the queries of `v`.
fn extract_list_into(v: &Vec<Query>, out: &mut Vec<String>)
    ensures
        views(final(out)@) == views(old(out)@) + models_used_list(models(v@)),
    decreases v, 0nat,
{
    let ghost s = models(v@);
    let ghost start = views(out@);
    let n = v.len();
    let mut i: usize = 0;
    assert(s.subrange(0, 0) =~= Seq::<QueryModel>::empty());
    assert(start + Seq::<Seq<char>>::empty() =~= start);
    while i < n
        invariant
            n == v@.len(),
            s == models(v@),
            i <= n,
            views(out@) == start + models_used_list(s.subrange(0, i as int)),
        decreases n - i,
    {
        proof {
            assert(decreases_to!(v => v@[i as int]));
        }
        extract_into(&v[i], out);
        proof {
            let t = s.subrange(0, i + 1);
            assert(t.drop_last() =~= s.subrange(0, i as int));
            assert(t.last() == s[i as int]);
            assert(s[i as int] == v@[i as int]@);
            assert(start + models_used_list(s.subrange(0, i as int)) + models_used(s[i as int])
                =~= start + (models_used_list(s.subrange(0, i as int)) + models_used(s[i as int])));
        }
        i = i + 1;
    }
    assert(s.subrange(0, n as int) =~= s);
}

/// Append to `out` the models used by `q`.
fn extract_into(q: &Query, out: &mut Vec<String>)
    ensures
        views(final(out)@) == views(old(out)@) + models_used(q@),
    decreases q, 1nat,
{
    let ghost before = views(out@);
    match q {
        Query::Generate(g) => {
            out.push(g.metadata.model.clone());
            let ghost mid = views(out@);
            assert(mid =~= before + seq![g.metadata.model@]);
            extract_into(&g.input, out);
            assert(views(out@) =~= before + models_used(q@));
        },
        Query::Bulk(Bulk::Repeat(r)) => {
            out.push(r.generate.metadata.model.clone());
            let ghost mid = views(out@);
            assert(mid =~= before + seq![r.generate.metadata.model@]);
            extract_into(&r.generate.input, out);
            assert(views(out@) =~= before + models_used(q@));
        },
        Query::Bulk(Bulk::Batch(b)) => {
            out.push(b.metadata.model.clone());
            assert(views(out@) =~= before + models_used(q@));
        },
        Query::Sequence(v) | Query::Par(v) | Query::Plus(v) | Query::Cross(v) => {
            proof {
                lemma_list_models(*v);
            }
            extract_list_into(v, out);
        },
        Query::Monad(m) => {
            extract_into(m, out);
        },
        Query::Zip(z) => {
            extract_into(&z.first, out);
            let ghost mid = views(out@);
            extract_into(&z.second, out);
            assert(views(out@) =~= before + models_used(q@));
        },
        Query::Message(_) => {
            assert(views(out@) =~= before + models_used(q@));
        },
    }
}

/// The models referenced by the query, each once, in increasing order.
pub fn extract_models(query: &Query) -> (r: Vec<String>)
    ensures
        strictly_sorted(views(r@)),
        views(r@).to_set() == models_used(query@).to_set(),
{
    let mut found: Vec<String> = Vec::new();
    assert(views(found@) =~= Seq::<Seq<char>>::empty());
    extract_into(query, &mut found);
    assert(Seq::<Seq<char>>::empty() + models_used(query@) =~= models_used(query@));
    sort_unique(found)
}

/// The name to pull with Ollama: what follows "ollama/" or
/// "ollama_chat/"; other models are not pulled.
pub open spec fn spec_ollama_model(model: Seq<char>) -> Option<Seq<char>> {
    if has_prefix(model, "ollama/"@) {
        Some(model.skip(7))
    } else if has_prefix(model, "ollama_chat/"@) {
        Some(model.skip(12))
    } else {
        None
    }
}

/// The name to pull with Ollama, if the model is served by Ollama.
pub fn ollama_model(model: &str) -> (r: Option<String>)
    ensures
        match r {
            Some(m) => spec_ollama_model(model@) == Some(m@),
            None => spec_ollama_model(model@) is None,
        },
{
    proof {
        reveal_strlit("ollama/");
        reveal_strlit("ollama_chat/");
    }
    let n = model.unicode_len();
    if starts_with(model, "ollama/") {
        Some(owned(model.substring_char(7, n)))
    } else if starts_with(model, "ollama_chat/") {
        Some(owned(model.substring_char(12, n)))
    } else {
        None
    }
}

} // verus!
