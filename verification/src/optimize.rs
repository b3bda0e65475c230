//! The high-level optimizer: rewrite nested generation for providers that
//! understand spans, then simplify the result.

use vstd::prelude::*;

use crate::capabilities::{spec_supports_spans, supports_spans};
use crate::query::{
    lemma_list_models, models, Bulk, Generate, GenerateModel, Query, QueryModel, Repeat,
};
use crate::simplify::{generate_of, simplified, simplify};

verus! {

broadcast use vstd::std_specs::vec::group_vec_axioms;

/// Options of the optimizer.
#[derive(Debug, Default)]
pub struct Options {}

/// A generation whose input is wrapped in a one-entry Plus.
pub open spec fn wrapped_plus(g: GenerateModel) -> GenerateModel {
    GenerateModel { metadata: g.metadata, input: Box::new(QueryModel::Plus(seq![*g.input])) }
}

/// The nested-generation rewrite of an (already optimized) input: a
/// message followed by a Plus of only generations becomes the message
/// followed by, in parallel, each generation's input next to the
/// generation itself (its input wrapped in a Plus).
pub open spec fn nested_rewrite(input: QueryModel) -> Option<QueryModel> {
    match input {
        QueryModel::Sequence(s) => if s.len() == 2 && s[0] is Message && s[1] is Plus {
            match s[1] {
                QueryModel::Plus(plus) => if forall|k: int|
                    0 <= k < plus.len() ==> (#[trigger] plus[k]) is Generate {
                    Some(
                        QueryModel::Sequence(
                            seq![
                                s[0],
                                QueryModel::Par(
                                    Seq::new(
                                        plus.len(),
                                        |k: int|
                                            QueryModel::Plus(
                                                seq![
                                                    *generate_of(plus[k]).input,
                                                    QueryModel::Generate(
                                                        wrapped_plus(generate_of(plus[k])),
                                                    ),
                                                ],
                                            ),
                                    ),
                                ),
                            ],
                        ),
                    )
                } else {
                    None
                },
                _ => None,
            }
        } else {
            None
        },
        _ => None,
    }
}

/// One optimizer pass over a query.
pub open spec fn optimized(q: QueryModel) -> QueryModel
    decreases q,
{
    match q {
        QueryModel::Plus(v) => QueryModel::Plus(
            Seq::new(
                v.len(),
                |i: int|
                    if 0 <= i < v.len() {
                        optimized(v[i])
                    } else {
                        QueryModel::Sequence(Seq::empty())
                    },
            ),
        ),
        QueryModel::Cross(v) => QueryModel::Cross(
            Seq::new(
                v.len(),
                |i: int|
                    if 0 <= i < v.len() {
                        optimized(v[i])
                    } else {
                        QueryModel::Sequence(Seq::empty())
                    },
            ),
        ),
        QueryModel::Repeat(n, g) => QueryModel::Repeat(
            n,
            GenerateModel { metadata: g.metadata, input: Box::new(optimized(*g.input)) },
        ),
        QueryModel::Generate(g) => {
            let oi = optimized(*g.input);
            let input = if !spec_supports_spans(g.metadata.model) {
                oi
            } else {
                match nested_rewrite(oi) {
                    Some(r) => r,
                    None => oi,
                }
            };
            QueryModel::Generate(GenerateModel { metadata: g.metadata, input: Box::new(input) })
        },
        _ => q,
    }
}

/// The optimizer pass over each query of a list.
pub open spec fn optimized_list(v: Seq<QueryModel>) -> Seq<QueryModel> {
    Seq::new(v.len(), |i: int| optimized(v[i]))
}

/// The whole optimization: one optimizer pass, then five rounds of simplification.
pub open spec fn spec_optimize(q: QueryModel) -> QueryModel {
    simplified(simplified(simplified(simplified(simplified(optimized(q))))))
}

proof fn lemma_optimized_list(v: Seq<QueryModel>)
    ensures
        optimized(QueryModel::Plus(v)) == QueryModel::Plus(optimized_list(v)),
        optimized(QueryModel::Cross(v)) == QueryModel::Cross(optimized_list(v)),
{
    let s = Seq::new(
        v.len(),
        |i: int|
            if 0 <= i < v.len() {
                optimized(v[i])
            } else {
                QueryModel::Sequence(Seq::empty())
            },
    );
    assert(optimized_list(v) =~= s);
    if let QueryModel::Plus(t) = optimized(QueryModel::Plus(v)) {
        assert(t =~= s);
    }
    if let QueryModel::Cross(t) = optimized(QueryModel::Cross(v)) {
        assert(t =~= s);
    }
}

/// No generation that the optimizer visits (through Plus, Cross, bulk
/// repeats and generation inputs) is served by a span-capable provider.
pub open spec fn span_free(q: QueryModel) -> bool
    decreases q,
{
    match q {
        QueryModel::Plus(v) => forall|i: int| 0 <= i < v.len() ==> span_free(#[trigger] v[i]),
        QueryModel::Cross(v) => forall|i: int| 0 <= i < v.len() ==> span_free(#[trigger] v[i]),
        QueryModel::Repeat(_, g) => span_free(*g.input),
        QueryModel::Generate(g) => !spec_supports_spans(g.metadata.model) && span_free(*g.input),
        _ => true,
    }
}

/// The optimizer changes nothing in a query that no span-capable
/// provider serves: optimizing it is simplifying it five times.
pub proof fn law_optimize_without_spans(q: QueryModel)
    requires
        span_free(q),
    ensures
        optimized(q) == q,
        spec_optimize(q) == simplified(simplified(simplified(simplified(simplified(q))))),
    decreases q,
{
    match q {
        QueryModel::Plus(v) => {
            assert forall|i: int| 0 <= i < v.len() implies optimized(v[i]) == v[i] by {
                law_optimize_without_spans(v[i]);
            }
            lemma_optimized_list(v);
            assert(optimized_list(v) =~= v);
        },
        QueryModel::Cross(v) => {
            assert forall|i: int| 0 <= i < v.len() implies optimized(v[i]) == v[i] by {
                law_optimize_without_spans(v[i]);
            }
            lemma_optimized_list(v);
            assert(optimized_list(v) =~= v);
        },
        QueryModel::Repeat(n, g) => {
            law_optimize_without_spans(*g.input);
        },
        QueryModel::Generate(g) => {
            law_optimize_without_spans(*g.input);
        },
        _ => {},
    }
}

/// Apply the optimizer pass across the given list of queries.
fn optimize_vec_iter(v: &Vec<Query>) -> (r: Vec<Query>)
    ensures
        models(r@) == optimized_list(models(v@)),
    decreases v,
{
    let mut out: Vec<Query> = Vec::new();
    let n = v.len();
    let mut i: usize = 0;
    while i < n
        invariant
            n == v@.len(),
            i <= n,
            models(out@) == optimized_list(models(v@)).subrange(0, i as int),
        decreases n - i,
    {
        let q = optimize_iter(&v[i]);
        let ghost before = out@;
        out.push(q);
        assert(models(out@) =~= models(before) + seq![q@]);
        assert(models(out@) =~= optimized_list(models(v@)).subrange(0, i + 1));
        i = i + 1;
    }
    assert(optimized_list(models(v@)).subrange(0, n as int) =~= optimized_list(models(v@)));
    out
}

/// The nested-generation rewrite, when it applies.
fn nested_gen_input(optimized_input: &Query) -> (r: Option<Query>)
    ensures
        match r {
            Some(x) => nested_rewrite(optimized_input@) == Some(x@),
            None => nested_rewrite(optimized_input@) is None,
        },
{
    match optimized_input {
        Query::Sequence(seq) => {
            proof {
                lemma_list_models(*seq);
            }
            let ghost s = models(seq@);
            if seq.len() != 2 {
                return None;
            }
            match (&seq[0], &seq[1]) {
                (Query::Message(m), Query::Plus(plus)) => {
                    proof {
                        lemma_list_models(*plus);
                    }
                    let ghost p = models(plus@);
                    assert(s[0] == QueryModel::Message(m@));
                    assert(s[1] == QueryModel::Plus(p));
                    let n = plus.len();
                    let mut par: Vec<Query> = Vec::new();
                    let mut i: usize = 0;
                    while i < n
                        invariant
                            n == plus@.len(),
                            p == models(plus@),
                            optimized_input@ == QueryModel::Sequence(s),
                            s.len() == 2,
                            s[0] is Message,
                            s[1] == QueryModel::Plus(p),
                            i <= n,
                            forall|k: int| 0 <= k < i ==> (#[trigger] p[k]) is Generate,
                            models(par@) == Seq::new(
                                i as nat,
                                |k: int|
                                    QueryModel::Plus(
                                        seq![
                                            *generate_of(p[k]).input,
                                            QueryModel::Generate(wrapped_plus(generate_of(p[k]))),
                                        ],
                                    ),
                            ),
                        decreases n - i,
                    {
                        match &plus[i] {
                            Query::Generate(g) => {
                                assert(p[i as int] == QueryModel::Generate(g@));
                                let pair = vec![
                                    g.input.duplicate(),
                                    Query::Generate(g.wrap_plus()),
                                ];
                                proof {
                                    lemma_list_models(pair);
                                    assert(models(pair@) =~= seq![
                                        *generate_of(p[i as int]).input,
                                        QueryModel::Generate(wrapped_plus(generate_of(p[i as int]))),
                                    ]);
                                }
                                let ghost before = par@;
                                let x = Query::Plus(pair);
                                par.push(x);
                                assert(models(par@) =~= models(before) + seq![x@]);
                            },
                            _ => {
                                assert(!(p[i as int] is Generate));
                                return None;
                            },
                        }
                        i = i + 1;
                    }
                    proof {
                        lemma_list_models(par);
                    }
                    let pieces = vec![Query::Message(m.duplicate()), Query::Par(par)];
                    proof {
                        lemma_list_models(pieces);
                        assert(models(pieces@) =~= seq![
                            s[0],
                            QueryModel::Par(
                                Seq::new(
                                    p.len(),
                                    |k: int|
                                        QueryModel::Plus(
                                            seq![
                                                *generate_of(p[k]).input,
                                                QueryModel::Generate(
                                                    wrapped_plus(generate_of(p[k])),
                                                ),
                                            ],
                                        ),
                                ),
                            ),
                        ]);
                    }
                    Some(Query::Sequence(pieces))
                },
                _ => None,
            }
        },
        _ => None,
    }
}

/// One optimizer pass: rewrite nested generation for span-capable providers.
fn optimize_iter(query: &Query) -> (r: Query)
    ensures
        r@ == optimized(query@),
    decreases query,
{
    match query {
        Query::Plus(v) => {
            let w = optimize_vec_iter(v);
            proof {
                lemma_list_models(*v);
                lemma_list_models(w);
                lemma_optimized_list(models(v@));
            }
            Query::Plus(w)
        },
        Query::Cross(v) => {
            let w = optimize_vec_iter(v);
            proof {
                lemma_list_models(*v);
                lemma_list_models(w);
                lemma_optimized_list(models(v@));
            }
            Query::Cross(w)
        },
        Query::Bulk(Bulk::Repeat(Repeat { n, generate })) => {
            let input = optimize_iter(&generate.input);
            Query::Bulk(
                Bulk::Repeat(
                    Repeat { n: *n, generate: Generate::new(generate.metadata.duplicate(), input) },
                ),
            )
        },
        Query::Generate(g) => {
            let optimized_input = optimize_iter(&g.input);
            let nested = if !supports_spans(g.metadata.model.as_str()) {
                None
            } else {
                nested_gen_input(&optimized_input)
            };
            let input = match nested {
                Some(x) => x,
                None => optimized_input,
            };
            Query::Generate(Generate::new(g.metadata.duplicate(), input))
        },
        otherwise => otherwise.duplicate(),
    }
}

/// Optimize a query: the nested-generation pass, then repeated simplification.
pub fn optimize(query: &Query, po: &Options) -> (r: Query)
    ensures
        r@ == spec_optimize(query@),
{
    let once = optimize_iter(query);
    simplify(&simplify(&simplify(&simplify(&simplify(&once)))))
}

} // verus!
