//! The planner: inline nested generation into the generation that holds
//! it, then tidy the query (singleton and nested sequences, a Plus that
//! starts with a list, a Cross that ends with a Cross).

use vstd::prelude::*;

use crate::query::{lemma_list_models, models, Generate, GenerateModel, Query, QueryModel};
use crate::simplify::{
    append_all, flatten_sequences, generate_of, lemma_messages_concat, lemma_messages_first,
    lemma_messages_flatten_sequences, lemma_messages_single, lemma_only_concat, splice_sequences,
};
use crate::flatten::{messages_in, messages_in_list, only_messages, only_messages_list};
use crate::message::MessageModel;

verus! {

broadcast use vstd::std_specs::vec::group_vec_axioms;

/// Options of the planner.
#[derive(Debug, Default)]
pub struct PlanOptions {}

/// The nested-generation rewrite of a planned input: a sequence of a
/// message and a Plus of only generations becomes the message followed
/// by, in parallel, each generation's input next to the generation.
pub open spec fn plan_nested(p: QueryModel) -> Option<QueryModel> {
    match p {
        QueryModel::Sequence(s) => if s.len() == 2 && s[0] is Message && s[1] is Plus {
            match s[1] {
                QueryModel::Plus(plus) => if forall|k: int|
                    0 <= k < plus.len() ==> (#[trigger] plus[k]) is Generate {
                    Some(
                        QueryModel::Sequence(
                            seq![
                                s[0],
                                QueryModel::Par(
                                    Seq::new(
                                        plus.len(),
                                        |k: int|
                                            QueryModel::Plus(
                                                seq![*generate_of(plus[k]).input, plus[k]],
                                            ),
                                    ),
                                ),
                            ],
                        ),
                    )
                } else {
                    None
                },
                _ => None,
            }
        } else {
            None
        },
        _ => None,
    }
}

/// The planned query: the entries of a Plus or Cross are planned; a
/// generation's input is planned and rewritten when it nests generation
/// (otherwise it becomes a one-entry sequence); anything else stays.
pub open spec fn planned(q: QueryModel) -> QueryModel
    decreases q,
{
    match q {
        QueryModel::Plus(v) => QueryModel::Plus(
            Seq::new(
                v.len(),
                |i: int|
                    if 0 <= i < v.len() {
                        planned(v[i])
                    } else {
                        QueryModel::Sequence(Seq::empty())
                    },
            ),
        ),
        QueryModel::Cross(v) => QueryModel::Cross(
            Seq::new(
                v.len(),
                |i: int|
                    if 0 <= i < v.len() {
                        planned(v[i])
                    } else {
                        QueryModel::Sequence(Seq::empty())
                    },
            ),
        ),
        QueryModel::Generate(g) => {
            let p = planned(*g.input);
            let input = match plan_nested(p) {
                Some(r) => r,
                None => QueryModel::Sequence(seq![p]),
            };
            QueryModel::Generate(GenerateModel { metadata: g.metadata, input: Box::new(input) })
        },
        _ => q,
    }
}

/// The planned queries of a list.
pub open spec fn planned_list(v: Seq<QueryModel>) -> Seq<QueryModel> {
    Seq::new(v.len(), |i: int| planned(v[i]))
}

/// The tidied query: a one-entry Sequence or Par is its entry; the
/// entries of a Sequence are tidied and inner sequences spliced in; a
/// Plus that starts with a Sequence or Plus takes that list's entries in
/// its place; a Cross that ends with a Cross takes its entries in its
/// place; a generation's input is tidied; the rest stays.
pub open spec fn tidied(q: QueryModel) -> QueryModel
    decreases q, 1nat,
{
    match q {
        QueryModel::Sequence(v) => if v.len() == 1 {
            tidied(v[0])
        } else {
            QueryModel::Sequence(flatten_sequences(tidy_list(v)))
        },
        QueryModel::Par(v) => if v.len() == 1 {
            tidied(v[0])
        } else {
            QueryModel::Par(tidy_list(v))
        },
        QueryModel::Plus(v) => QueryModel::Plus(
            if v.len() > 0 {
                match v[0] {
                    QueryModel::Sequence(v2) => tidy_list(v2) + tidy_list(v.drop_first()),
                    QueryModel::Plus(v2) => tidy_list(v2) + tidy_list(v.drop_first()),
                    _ => tidy_list(v),
                }
            } else {
                tidy_list(v)
            },
        ),
        QueryModel::Cross(v) => QueryModel::Cross(
            if v.len() > 0 && v.last() is Cross {
                match v.last() {
                    QueryModel::Cross(v2) => tidy_list(v.drop_last()) + tidy_list(v2),
                    _ => Seq::empty(),
                }
            } else {
                tidy_list(v)
            },
        ),
        QueryModel::Generate(g) => QueryModel::Generate(
            GenerateModel { metadata: g.metadata, input: Box::new(tidied(*g.input)) },
        ),
        _ => q,
    }
}

/// The tidied queries of a list.
pub open spec fn tidy_list(s: Seq<QueryModel>) -> Seq<QueryModel>
    decreases s, 0nat,
{
    if s.len() == 0 {
        Seq::empty()
    } else {
        tidy_list(s.drop_last()).push(tidied(s.last()))
    }
}

/// The whole plan: the planned query as a one-entry sequence, tidied five times.
pub open spec fn spec_plan(q: QueryModel) -> QueryModel {
    tidied(tidied(tidied(tidied(tidied(QueryModel::Sequence(seq![planned(q)]))))))
}

proof fn lemma_planned_list(v: Seq<QueryModel>)
    ensures
        planned(QueryModel::Plus(v)) == QueryModel::Plus(planned_list(v)),
        planned(QueryModel::Cross(v)) == QueryModel::Cross(planned_list(v)),
{
    let s = Seq::new(
        v.len(),
        |i: int|
            if 0 <= i < v.len() {
                planned(v[i])
            } else {
                QueryModel::Sequence(Seq::empty())
            },
    );
    assert(planned_list(v) =~= s);
    if let QueryModel::Plus(t) = planned(QueryModel::Plus(v)) {
        assert(t =~= s);
    }
    if let QueryModel::Cross(t) = planned(QueryModel::Cross(v)) {
        assert(t =~= s);
    }
}

/// Plan each query of a list.
fn plan_vec_iter(v: &Vec<Query>) -> (r: Vec<Query>)
    ensures
        models(r@) == planned_list(models(v@)),
    decreases v,
{
    let mut out: Vec<Query> = Vec::new();
    let n = v.len();
    let mut i: usize = 0;
    while i < n
        invariant
            n == v@.len(),
            i <= n,
            models(out@) == planned_list(models(v@)).subrange(0, i as int),
        decreases n - i,
    {
        let q = plan_iter(&v[i]);
        let ghost before = out@;
        out.push(q);
        assert(models(out@) =~= models(before) + seq![q@]);
        assert(models(out@) =~= planned_list(models(v@)).subrange(0, i + 1));
        i = i + 1;
    }
    assert(planned_list(models(v@)).subrange(0, n as int) =~= planned_list(models(v@)));
    out
}

/// The nested-generation rewrite of a planned input, when it applies.
fn nested_input(p: &Query) -> (r: Option<Query>)
    ensures
        match r {
            Some(x) => plan_nested(p@) == Some(x@),
            None => plan_nested(p@) is None,
        },
{
    match p {
        Query::Sequence(seq) => {
            proof {
                lemma_list_models(*seq);
            }
            let ghost s = models(seq@);
            if seq.len() != 2 {
                return None;
            }
            match (&seq[0], &seq[1]) {
                (Query::Message(m), Query::Plus(plus)) => {
                    proof {
                        lemma_list_models(*plus);
                    }
                    let ghost pl = models(plus@);
                    assert(s[0] == QueryModel::Message(m@));
                    assert(s[1] == QueryModel::Plus(pl));
                    let n = plus.len();
                    let mut par: Vec<Query> = Vec::new();
                    let mut i: usize = 0;
                    while i < n
                        invariant
                            n == plus@.len(),
                            pl == models(plus@),
                            p@ == QueryModel::Sequence(s),
                            s.len() == 2,
                            s[0] is Message,
                            s[1] == QueryModel::Plus(pl),
                            i <= n,
                            forall|k: int| 0 <= k < i ==> (#[trigger] pl[k]) is Generate,
                            models(par@) == Seq::new(
                                i as nat,
                                |k: int| QueryModel::Plus(seq![*generate_of(pl[k]).input, pl[k]]),
                            ),
                        decreases n - i,
                    {
                        match &plus[i] {
                            Query::Generate(g) => {
                                assert(pl[i as int] == QueryModel::Generate(g@));
                                let pair = vec![g.input.duplicate(), Query::Generate(g.duplicate())];
                                proof {
                                    lemma_list_models(pair);
                                    assert(models(pair@) =~= seq![
                                        *generate_of(pl[i as int]).input,
                                        pl[i as int],
                                    ]);
                                }
                                let ghost before = par@;
                                let x = Query::Plus(pair);
                                par.push(x);
                                assert(models(par@) =~= models(before) + seq![x@]);
                            },
                            _ => {
                                assert(!(pl[i as int] is Generate));
                                return None;
                            },
                        }
                        i = i + 1;
                    }
                    proof {
                        lemma_list_models(par);
                    }
                    let pieces = vec![Query::Message(m.duplicate()), Query::Par(par)];
                    proof {
                        lemma_list_models(pieces);
                        assert(models(pieces@) =~= seq![
                            s[0],
                            QueryModel::Par(
                                Seq::new(
                                    pl.len(),
                                    |k: int| QueryModel::Plus(seq![*generate_of(pl[k]).input, pl[k]]),
                                ),
                            ),
                        ]);
                    }
                    Some(Query::Sequence(pieces))
                },
                _ => None,
            }
        },
        _ => None,
    }
}

/// Plan a query (see [`planned`]).
fn plan_iter(query: &Query) -> (r: Query)
    ensures
        r@ == planned(query@),
    decreases query,
{
    match query {
        Query::Plus(v) => {
            let w = plan_vec_iter(v);
            proof {
                lemma_list_models(*v);
                lemma_list_models(w);
                lemma_planned_list(models(v@));
            }
            Query::Plus(w)
        },
        Query::Cross(v) => {
            let w = plan_vec_iter(v);
            proof {
                lemma_list_models(*v);
                lemma_list_models(w);
                lemma_planned_list(models(v@));
            }
            Query::Cross(w)
        },
        Query::Generate(g) => {
            let p = plan_iter(&g.input);
            let input = match nested_input(&p) {
                Some(x) => x,
                None => {
                    let one = vec![p];
                    proof {
                        lemma_list_models(one);
                        assert(models(one@) =~= seq![one@[0]@]);
                    }
                    Query::Sequence(one)
                },
            };
            Query::Generate(Generate::new(g.metadata.duplicate(), input))
        },
        otherwise => otherwise.duplicate(),
    }
}

proof fn lemma_tidy_list_snoc(s: Seq<QueryModel>, lo: int, k: int)
    requires
        0 <= lo <= k < s.len(),
    ensures
        tidy_list(s.subrange(lo, k + 1)) == tidy_list(s.subrange(lo, k)).push(tidied(s[k])),
{
    let t = s.subrange(lo, k + 1);
    assert(t.drop_last() =~= s.subrange(lo, k));
    assert(t.last() == s[k]);
}

/// Append to `out` the tidied queries of `v[lo..hi]`.
fn tidy_range_into(v: &Vec<Query>, lo: usize, hi: usize, out: &mut Vec<Query>)
    requires
        lo <= hi <= v@.len(),
    ensures
        models(final(out)@) == models(old(out)@) + tidy_list(models(v@).subrange(lo as int, hi as int)),
    decreases v, 0nat,
{
    let ghost s = models(v@);
    let ghost start = models(out@);
    let mut i = lo;
    assert(s.subrange(lo as int, lo as int) =~= Seq::<QueryModel>::empty());
    assert(start + Seq::<QueryModel>::empty() =~= start);
    while i < hi
        invariant
            lo <= i <= hi <= v@.len(),
            s == models(v@),
            models(out@) == start + tidy_list(s.subrange(lo as int, i as int)),
        decreases hi - i,
    {
        proof {
            assert(decreases_to!(v => v@[i as int]));
        }
        let q = tidy(&v[i]);
        let ghost before = out@;
        out.push(q);
        proof {
            lemma_tidy_list_snoc(s, lo as int, i as int);
            assert(s[i as int] == v@[i as int]@);
            assert(models(out@) =~= models(before).push(q@));
            assert(start + tidy_list(s.subrange(lo as int, i as int)).push(tidied(s[i as int]))
                =~= (start + tidy_list(s.subrange(lo as int, i as int))).push(tidied(s[i as int])));
        }
        i = i + 1;
    }
}

/// The tidied queries of a list.
fn tidy_all(v: &Vec<Query>) -> (r: Vec<Query>)
    ensures
        models(r@) == tidy_list(models(v@)),
    decreases v, 1nat,
{
    let mut out: Vec<Query> = Vec::new();
    tidy_range_into(v, 0, v.len(), &mut out);
    assert(models(v@).subrange(0, v@.len() as int) =~= models(v@));
    assert(models(Seq::<Query>::empty()) =~= Seq::<QueryModel>::empty());
    assert(Seq::<QueryModel>::empty() + tidy_list(models(v@)) =~= tidy_list(models(v@)));
    out
}

/// Tidy a query (see [`tidied`]).
pub fn tidy(query: &Query) -> (r: Query)
    ensures
        r@ == tidied(query@),
    decreases query, 2nat,
{
    match query {
        Query::Sequence(v) => {
            proof {
                lemma_list_models(*v);
            }
            if v.len() == 1 {
                proof {
                    assert(decreases_to!(v => v@[0]));
                }
                tidy(&v[0])
            } else {
                let w = tidy_all(v);
                let f = splice_sequences(w);
                proof {
                    lemma_list_models(f);
                }
                Query::Sequence(f)
            }
        },
        Query::Par(v) => {
            proof {
                lemma_list_models(*v);
            }
            if v.len() == 1 {
                proof {
                    assert(decreases_to!(v => v@[0]));
                }
                tidy(&v[0])
            } else {
                let w = tidy_all(v);
                proof {
                    lemma_list_models(w);
                }
                Query::Par(w)
            }
        },
        Query::Plus(v) => {
            proof {
                lemma_list_models(*v);
            }
            let ghost s = models(v@);
            let n = v.len();
            let mut out: Vec<Query> = Vec::new();
            assert(models(out@) =~= Seq::<QueryModel>::empty());
            if n > 0 {
                match &v[0] {
                    Query::Sequence(v2) | Query::Plus(v2) => {
                        proof {
                            lemma_list_models(*v2);
                            assert(decreases_to!(v => v@[0]));
                            assert(s.drop_first() =~= s.subrange(1, n as int));
                        }
                        let first = tidy_all(v2);
                        append_all(&mut out, first);
                        tidy_range_into(v, 1, n, &mut out);
                        assert(Seq::<QueryModel>::empty() + tidy_list(models(v2@)) =~= tidy_list(
                            models(v2@),
                        ));
                    },
                    _ => {
                        tidy_range_into(v, 0, n, &mut out);
                        assert(s.subrange(0, n as int) =~= s);
                        assert(Seq::<QueryModel>::empty() + tidy_list(s) =~= tidy_list(s));
                    },
                }
            } else {
                assert(tidy_list(s) =~= Seq::<QueryModel>::empty());
            }
            proof {
                lemma_list_models(out);
            }
            Query::Plus(out)
        },
        Query::Cross(v) => {
            proof {
                lemma_list_models(*v);
            }
            let ghost s = models(v@);
            let n = v.len();
            let mut out: Vec<Query> = Vec::new();
            assert(models(out@) =~= Seq::<QueryModel>::empty());
            let mut done = false;
            if n > 0 {
                if let Query::Cross(v2) = &v[n - 1] {
                    proof {
                        lemma_list_models(*v2);
                        assert(decreases_to!(v => v@[n - 1]));
                        assert(s.drop_last() =~= s.subrange(0, n - 1));
                        assert(s.last() == QueryModel::Cross(models(v2@)));
                    }
                    tidy_range_into(v, 0, n - 1, &mut out);
                    let tail = tidy_all(v2);
                    append_all(&mut out, tail);
                    assert(Seq::<QueryModel>::empty() + tidy_list(s.subrange(0, n - 1))
                        =~= tidy_list(s.subrange(0, n - 1)));
                    done = true;
                }
            }
            if !done {
                tidy_range_into(v, 0, n, &mut out);
                assert(s.subrange(0, n as int) =~= s);
                assert(Seq::<QueryModel>::empty() + tidy_list(s) =~= tidy_list(s));
            }
            proof {
                lemma_list_models(out);
            }
            Query::Cross(out)
        },
        Query::Generate(g) => {
            let input = tidy(&g.input);
            Query::Generate(Generate::new(g.metadata.duplicate(), input))
        },
        otherwise => otherwise.duplicate(),
    }
}

/// Plan a query: plan it (see [`planned`]), take it as a one-entry
/// sequence, and tidy that five times.
pub fn plan(query: &Query, po: &PlanOptions) -> (r: Query)
    ensures
        r@ == spec_plan(query@),
{
    let p = plan_iter(query);
    let one = vec![p];
    proof {
        lemma_list_models(one);
        assert(models(one@) =~= seq![one@[0]@]);
    }
    let q = Query::Sequence(one);
    tidy(&tidy(&tidy(&tidy(&tidy(&q)))))
}

proof fn lemma_messages_push(a: Seq<QueryModel>, x: QueryModel)
    ensures
        messages_in_list(a.push(x)) == messages_in_list(a) + messages_in(x),
        only_messages_list(a.push(x)) == (only_messages_list(a) && only_messages(x)),
{
    assert(a.push(x).drop_last() =~= a);
    assert(a.push(x).last() == x);
}

proof fn lemma_only_flatten_sequences(s: Seq<QueryModel>)
    requires
        only_messages_list(s),
    ensures
        only_messages_list(flatten_sequences(s)),
    decreases s.len(),
{
    if s.len() > 0 {
        assert(only_messages_list(s) == (only_messages_list(s.drop_last()) && only_messages(
            s.last(),
        )));
        lemma_only_flatten_sequences(s.drop_last());
        let tail = match s.last() {
            QueryModel::Sequence(w) => w,
            x => seq![x],
        };
        assert(flatten_sequences(s) == flatten_sequences(s.drop_last()) + tail);
        lemma_only_concat(flatten_sequences(s.drop_last()), tail);
        match s.last() {
            QueryModel::Sequence(w) => {
                assert(only_messages(s.last()) == only_messages_list(w));
            },
            _ => {
                lemma_messages_single(s.last());
            },
        }
    }
}

proof fn lemma_tidied_keeps(q: QueryModel)
    requires
        only_messages(q),
    ensures
        only_messages(tidied(q)),
        messages_in(tidied(q)) == messages_in(q),
    decreases q, 1nat,
{
    match q {
        QueryModel::Sequence(v) => {
            if v.len() == 1 {
                lemma_messages_first(v);
                assert(v.drop_first() =~= Seq::<QueryModel>::empty());
                assert(messages_in(v[0]) + Seq::<MessageModel>::empty() =~= messages_in(v[0]));
                lemma_tidied_keeps(v[0]);
            } else {
                lemma_tidy_list_keeps(v);
                lemma_messages_flatten_sequences(tidy_list(v));
                lemma_only_flatten_sequences(tidy_list(v));
            }
        },
        QueryModel::Par(v) => {
            if v.len() == 1 {
                lemma_messages_first(v);
                assert(v.drop_first() =~= Seq::<QueryModel>::empty());
                assert(messages_in(v[0]) + Seq::<MessageModel>::empty() =~= messages_in(v[0]));
                lemma_tidied_keeps(v[0]);
            } else {
                lemma_tidy_list_keeps(v);
            }
        },
        QueryModel::Plus(v) => {
            if v.len() > 0 {
                lemma_messages_first(v);
                match v[0] {
                    QueryModel::Sequence(v2) => {
                        assert(only_messages(v[0]) == only_messages_list(v2));
                        assert(messages_in(v[0]) == messages_in_list(v2));
                        lemma_tidy_list_keeps(v2);
                        lemma_tidy_list_keeps(v.drop_first());
                        lemma_messages_concat(tidy_list(v2), tidy_list(v.drop_first()));
                        lemma_only_concat(tidy_list(v2), tidy_list(v.drop_first()));
                    },
                    QueryModel::Plus(v2) => {
                        assert(only_messages(v[0]) == only_messages_list(v2));
                        assert(messages_in(v[0]) == messages_in_list(v2));
                        lemma_tidy_list_keeps(v2);
                        lemma_tidy_list_keeps(v.drop_first());
                        lemma_messages_concat(tidy_list(v2), tidy_list(v.drop_first()));
                        lemma_only_concat(tidy_list(v2), tidy_list(v.drop_first()));
                    },
                    _ => {
                        lemma_tidy_list_keeps(v);
                    },
                }
            } else {
                lemma_tidy_list_keeps(v);
            }
        },
        QueryModel::Cross(v) => {
            if v.len() > 0 && v.last() is Cross {
                match v.last() {
                    QueryModel::Cross(v2) => {
                        assert(only_messages_list(v) == (only_messages_list(v.drop_last())
                            && only_messages(v.last())));
                        assert(messages_in_list(v) == messages_in_list(v.drop_last())
                            + messages_in(v.last()));
                        assert(only_messages(v.last()) == only_messages_list(v2));
                        assert(messages_in(v.last()) == messages_in_list(v2));
                        lemma_tidy_list_keeps(v.drop_last());
                        lemma_tidy_list_keeps(v2);
                        lemma_messages_concat(tidy_list(v.drop_last()), tidy_list(v2));
                        lemma_only_concat(tidy_list(v.drop_last()), tidy_list(v2));
                    },
                    _ => {},
                }
            } else {
                lemma_tidy_list_keeps(v);
            }
        },
        _ => {},
    }
}

proof fn lemma_tidy_list_keeps(s: Seq<QueryModel>)
    requires
        only_messages_list(s),
    ensures
        only_messages_list(tidy_list(s)),
        messages_in_list(tidy_list(s)) == messages_in_list(s),
    decreases s, 0nat,
{
    if s.len() > 0 {
        assert(only_messages_list(s) == (only_messages_list(s.drop_last()) && only_messages(
            s.last(),
        )));
        lemma_tidy_list_keeps(s.drop_last());
        lemma_tidied_keeps(s.last());
        lemma_messages_push(tidy_list(s.drop_last()), tidied(s.last()));
    }
}

/// Tidying keeps every message of a query made of messages and lists of
/// them: the tidied query is still made of messages and lists, and holds
/// the same messages in the same order.
pub proof fn law_tidy_keeps_messages(q: QueryModel)
    requires
        only_messages(q),
    ensures
        only_messages(tidied(q)),
        messages_in(tidied(q)) == messages_in(q),
{
    lemma_tidied_keeps(q);
}

proof fn lemma_planned_keeps(q: QueryModel)
    requires
        only_messages(q),
    ensures
        only_messages(planned(q)),
        messages_in(planned(q)) == messages_in(q),
    decreases q, 1nat,
{
    match q {
        QueryModel::Plus(v) => {
            lemma_planned_list(v);
            lemma_planned_list_keeps(v);
        },
        QueryModel::Cross(v) => {
            lemma_planned_list(v);
            lemma_planned_list_keeps(v);
        },
        _ => {},
    }
}

proof fn lemma_planned_list_keeps(s: Seq<QueryModel>)
    requires
        only_messages_list(s),
    ensures
        only_messages_list(planned_list(s)),
        messages_in_list(planned_list(s)) == messages_in_list(s),
    decreases s, 0nat,
{
    if s.len() > 0 {
        assert(only_messages_list(s) == (only_messages_list(s.drop_last()) && only_messages(
            s.last(),
        )));
        assert(planned_list(s) =~= planned_list(s.drop_last()).push(planned(s.last())));
        lemma_planned_list_keeps(s.drop_last());
        lemma_planned_keeps(s.last());
        lemma_messages_push(planned_list(s.drop_last()), planned(s.last()));
    }
}

/// Planning keeps every message of a query made of messages and lists of
/// them: the plan holds the same messages in the same order.
pub proof fn law_plan_keeps_messages(q: QueryModel)
    requires
        only_messages(q),
    ensures
        messages_in(spec_plan(q)) == messages_in(q),
{
    lemma_planned_keeps(q);
    lemma_messages_single(planned(q));
    let q0 = QueryModel::Sequence(seq![planned(q)]);
    lemma_tidied_keeps(q0);
    lemma_tidied_keeps(tidied(q0));
    lemma_tidied_keeps(tidied(tidied(q0)));
    lemma_tidied_keeps(tidied(tidied(tidied(q0))));
    lemma_tidied_keeps(tidied(tidied(tidied(tidied(q0)))));
}

} // verus!
