//! Removal of unnecessary syntactic complexity from a query: singleton
//! and nested sequences, Plus-of-Plus, Cross with a tail Cross, empty
//! messages; consolidation of uniform generations into a bulk map, and
//! unrolling of bulk operations that the target provider cannot execute.

use vstd::prelude::*;

use crate::capabilities::{
    spec_supports_bulk_map, spec_supports_bulk_repeat, supports_bulk_map, supports_bulk_repeat,
};
use crate::message::{Message, MessageModel};
use crate::query::{
    MetadataModel,
    batch_generates, from_list, lemma_list_models, metadata_eq, models, Batch, Bulk, Generate,
    GenerateModel, Query, QueryModel, Repeat,
};
use crate::text::views;
use crate::flatten::{messages_in, messages_in_list, only_messages, only_messages_list};

verus! {

broadcast use vstd::std_specs::vec::group_vec_axioms;

/// The generation held by a `Generate` query.
pub open spec fn generate_of(q: QueryModel) -> GenerateModel {
    match q {
        QueryModel::Generate(g) => g,
        _ => arbitrary(),
    }
}

/// The message held by a `Message` query.
pub open spec fn message_of(q: QueryModel) -> MessageModel {
    match q {
        QueryModel::Message(m) => m,
        _ => arbitrary(),
    }
}

/// A list of queries can be consolidated into one bulk map: it has more
/// than one entry, every entry generates with metadata equal to the
/// first's, and every input is a message of the same kind as the first's.
pub open spec fn mapifiable(qs: Seq<QueryModel>) -> bool {
    &&& qs.len() > 1
    &&& forall|i: int| 0 <= i < qs.len() ==> (#[trigger] qs[i]) is Generate
    &&& forall|i: int|
        0 <= i < qs.len() ==> metadata_eq(
            generate_of(qs[0]).metadata,
            (#[trigger] generate_of(qs[i])).metadata,
        )
    &&& forall|i: int| 0 <= i < qs.len() ==> (*(#[trigger] generate_of(qs[i])).input) is Message
    &&& forall|i: int|
        0 <= i < qs.len() ==> message_of(*generate_of(qs[0]).input).same_kind(
            message_of(*(#[trigger] generate_of(qs[i])).input),
        )
}

/// The inputs of the consolidated bulk map: the message texts, in order.
pub open spec fn mapified_inputs(qs: Seq<QueryModel>) -> Seq<Seq<char>> {
    Seq::new(qs.len(), |i: int| message_of(*generate_of(qs[i]).input).content())
}

/// Sequences in a list spliced into it.
pub open spec fn flatten_sequences(s: Seq<QueryModel>) -> Seq<QueryModel>
    decreases s.len(),
{
    if s.len() == 0 {
        Seq::empty()
    } else {
        flatten_sequences(s.drop_last()) + match s.last() {
            QueryModel::Sequence(w) => w,
            x => seq![x],
        }
    }
}

/// Plus queries in a list spliced into it.
pub open spec fn flatten_pluses(s: Seq<QueryModel>) -> Seq<QueryModel>
    decreases s.len(),
{
    if s.len() == 0 {
        Seq::empty()
    } else {
        flatten_pluses(s.drop_last()) + match s.last() {
            QueryModel::Plus(w) => w,
            x => seq![x],
        }
    }
}

/// `n` copies of a generation, to run in parallel.
pub open spec fn repeated(n: nat, g: GenerateModel) -> Seq<QueryModel> {
    Seq::new(n, |i: int| QueryModel::Generate(g))
}

/// A Repeat is kept as it is when its provider runs it directly, or when
/// the provider takes no prompt lists; otherwise it is unrolled.
pub open spec fn keeps_repeat(model: Seq<char>) -> bool {
    spec_supports_bulk_repeat(model) || !spec_supports_bulk_map(model)
}

/// One simplification step on a query, giving the list of queries that
/// stand in its place.
pub open spec fn simplify_step(q: QueryModel) -> Seq<QueryModel>
    decreases q, 0nat,
{
    match q {
        QueryModel::Repeat(n, g) => if keeps_repeat(g.metadata.model) {
            seq![q]
        } else {
            seq![QueryModel::Par(repeated(n as nat, g))]
        },
        QueryModel::Batch(md, inputs) => if spec_supports_bulk_map(md.model) {
            seq![q]
        } else {
            seq![QueryModel::Plus(batch_generates(md, inputs))]
        },
        QueryModel::Sequence(v) => if v.len() == 0 {
            Seq::empty()
        } else if v.len() == 1 {
            simplify_step(v[0])
        } else {
            seq![QueryModel::Sequence(flatten_sequences(simplify_list(v)))]
        },
        QueryModel::Par(v) => if v.len() == 1 {
            simplify_step(v[0])
        } else {
            seq![QueryModel::Par(simplify_list(v))]
        },
        QueryModel::Plus(v) => if v.len() == 0 {
            Seq::empty()
        } else if mapifiable(v) {
            seq![
                QueryModel::Batch(generate_of(v[0]).metadata, mapified_inputs(v)),
            ]
        } else {
            seq![
                QueryModel::Plus(
                    match v[0] {
                        QueryModel::Sequence(v2) => simplify_list(v2) + simplify_list(
                            v.drop_first(),
                        ),
                        QueryModel::Plus(v2) => simplify_list(v2) + simplify_list(v.drop_first()),
                        _ => flatten_pluses(simplify_list(v)),
                    },
                ),
            ]
        },
        QueryModel::Cross(v) => seq![
            QueryModel::Cross(
                if v.len() > 0 && v.last() is Cross {
                    match v.last() {
                        QueryModel::Cross(v2) => simplify_list(v.drop_last()) + simplify_list(v2),
                        _ => Seq::empty(),
                    }
                } else {
                    simplify_list(v)
                },
            ),
        ],
        QueryModel::Generate(g) => seq![
            QueryModel::Generate(
                GenerateModel { metadata: g.metadata, input: Box::new(simplified(*g.input)) },
            ),
        ],
        QueryModel::Monad(b) => seq![QueryModel::Monad(Box::new(simplified(*b)))],
        QueryModel::Message(m) => if m.content().len() == 0 {
            Seq::empty()
        } else {
            seq![q]
        },
        QueryModel::Zip(_, _) => seq![q],
    }
}

/// The simplification steps of each query of a list, concatenated.
pub open spec fn simplify_list(s: Seq<QueryModel>) -> Seq<QueryModel>
    decreases s, 0nat,
{
    if s.len() == 0 {
        Seq::empty()
    } else {
        simplify_list(s.drop_last()) + simplify_step(s.last())
    }
}

/// The simplified query: the simplification step's list, as one query.
pub open spec fn simplified(q: QueryModel) -> QueryModel
    decreases q, 1nat,
{
    from_list(simplify_step(q))
}

proof fn lemma_simplify_list_snoc(s: Seq<QueryModel>, lo: int, k: int)
    requires
        0 <= lo <= k < s.len(),
    ensures
        simplify_list(s.subrange(lo, k + 1)) == simplify_list(s.subrange(lo, k)) + simplify_step(
            s[k],
        ),
{
    let t = s.subrange(lo, k + 1);
    assert(t.drop_last() =~= s.subrange(lo, k));
    assert(t.last() == s[k]);
}

proof fn lemma_flatten_sequences_snoc(s: Seq<QueryModel>, x: QueryModel)
    ensures
        flatten_sequences(s.push(x)) == flatten_sequences(s) + match x {
            QueryModel::Sequence(w) => w,
            y => seq![y],
        },
{
    assert(s.push(x).drop_last() =~= s);
}

proof fn lemma_flatten_pluses_snoc(s: Seq<QueryModel>, x: QueryModel)
    ensures
        flatten_pluses(s.push(x)) == flatten_pluses(s) + match x {
            QueryModel::Plus(w) => w,
            y => seq![y],
        },
{
    assert(s.push(x).drop_last() =~= s);
}

/// Append to `out` the simplification steps of `v[lo..hi]`.
fn simplify_range_into(v: &Vec<Query>, lo: usize, hi: usize, out: &mut Vec<Query>)
    requires
        lo <= hi <= v@.len(),
    ensures
        models(final(out)@) == models(old(out)@) + simplify_list(
            models(v@).subrange(lo as int, hi as int),
        ),
    decreases v, 0nat,
{
    let ghost s = models(v@);
    let ghost start = models(out@);
    let mut i = lo;
    assert(s.subrange(lo as int, lo as int) =~= Seq::<QueryModel>::empty());
    assert(start + Seq::<QueryModel>::empty() =~= start);
    while i < hi
        invariant
            lo <= i <= hi <= v@.len(),
            s == models(v@),
            models(out@) == start + simplify_list(s.subrange(lo as int, i as int)),
        decreases hi - i,
    {
        let part = simplify_iter(&v[i]);
        let ghost before = out@;
        append_all(out, part);
        proof {
            lemma_simplify_list_snoc(s, lo as int, i as int);
            assert(start + simplify_list(s.subrange(lo as int, i as int)) + simplify_step(s[i as int])
                =~= start + (simplify_list(s.subrange(lo as int, i as int)) + simplify_step(
                s[i as int],
            )));
        }
        i = i + 1;
    }
}

/// Move every query of `part` onto the end of `out`.
pub(crate) fn append_all(out: &mut Vec<Query>, part: Vec<Query>)
    ensures
        models(final(out)@) == models(old(out)@) + models(part@),
{
    let mut part = part;
    let ghost whole = part@;
    let ghost start = out@;
    let n = part.len();
    let mut rest: Vec<Query> = Vec::new();
    // move the entries out front to back, keeping their order
    let mut k: usize = 0;
    while k < n
        invariant
            n == whole.len(),
            k <= n,
            part@ == whole.subrange(0, (n - k) as int),
            rest@.len() == k,
            forall|j: int| 0 <= j < k ==> #[trigger] rest@[j] == whole[n - 1 - j],
        decreases n - k,
    {
        let q = part.pop().unwrap();
        rest.push(q);
        k = k + 1;
    }
    let mut j: usize = 0;
    while j < n
        invariant
            n == whole.len(),
            j <= n,
            rest@.len() == n - j,
            forall|t: int| 0 <= t < n - j ==> #[trigger] rest@[t] == whole[n - 1 - t],
            models(out@) == models(start) + models(whole.subrange(0, j as int)),
        decreases n - j,
    {
        let q = rest.pop().unwrap();
        let ghost before = out@;
        out.push(q);
        proof {
            assert(q == whole[j as int]);
            assert(models(out@) =~= models(before) + seq![q@]);
            assert(models(whole.subrange(0, j + 1)) =~= models(whole.subrange(0, j as int))
                + seq![whole[j as int]@]);
        }
        j = j + 1;
    }
    assert(whole.subrange(0, n as int) =~= whole);
}

/// Whether the entries of `qs` can be consolidated into one bulk map;
/// if so, the bulk map (the first generation's metadata, the message texts).
fn bulk_mapify(qs: &Vec<Query>) -> (r: Option<Batch>)
    ensures
        match r {
            Some(b) => {
                &&& mapifiable(models(qs@))
                &&& b.metadata@ == generate_of(models(qs@)[0]).metadata
                &&& views(b.inputs@) == mapified_inputs(models(qs@))
            },
            None => !mapifiable(models(qs@)),
        },
{
    let ghost s = models(qs@);
    let n = qs.len();
    if n <= 1 {
        return None;
    }
    let first = match &qs[0] {
        Query::Generate(g) => g,
        _ => {
            return None;
        },
    };
    let first_message = match &*first.input {
        Query::Message(m) => m,
        _ => {
            assert(!((*generate_of(s[0]).input) is Message));
            return None;
        },
    };
    let mut inputs: Vec<String> = Vec::new();
    let mut i: usize = 0;
    while i < n
        invariant
            n == qs@.len(),
            s == models(qs@),
            n > 1,
            s[0] == QueryModel::Generate(first@),
            (*first.input)@ == QueryModel::Message(first_message@),
            i <= n,
            inputs@.len() == i,
            forall|k: int| 0 <= k < i ==> (#[trigger] s[k]) is Generate,
            forall|k: int|
                0 <= k < i ==> metadata_eq(
                    first.metadata@,
                    (#[trigger] generate_of(s[k])).metadata,
                ),
            forall|k: int| 0 <= k < i ==> (*(#[trigger] generate_of(s[k])).input) is Message,
            forall|k: int|
                0 <= k < i ==> first_message@.same_kind(
                    message_of(*(#[trigger] generate_of(s[k])).input),
                ),
            forall|k: int|
                0 <= k < i ==> #[trigger] inputs@[k]@ == message_of(
                    *generate_of(s[k]).input,
                ).content(),
        decreases n - i,
    {
        match &qs[i] {
            Query::Generate(g) => {
                assert(s[i as int] == QueryModel::Generate(g@));
                assert(generate_of(s[i as int]) == g@);
                assert(generate_of(s[0]) == first@);
                if !first.metadata.same_as(&g.metadata) {
                    return None;
                }
                match (first_message, &*g.input) {
                    (Message::Assistant(_), Query::Message(Message::Assistant(t))) => {
                        inputs.push(t.clone());
                    },
                    (Message::System(_), Query::Message(Message::System(t))) => {
                        inputs.push(t.clone());
                    },
                    (Message::User(_), Query::Message(Message::User(t))) => {
                        inputs.push(t.clone());
                    },
                    _ => {
                        assert(message_of(*generate_of(s[0]).input) == first_message@);
                        assert(!((*generate_of(s[i as int]).input) is Message) || !first_message@.same_kind(
                            message_of(*generate_of(s[i as int]).input),
                        ));
                        return None;
                    },
                }
            },
            _ => {
                return None;
            },
        }
        i = i + 1;
    }
    assert(views(inputs@) =~= mapified_inputs(s));
    Some(Batch { metadata: first.metadata.duplicate(), inputs })
}

/// `n` parallel copies of the generation.
fn unroll_repeat(r: &Repeat) -> (q: Query)
    ensures
        q@ == QueryModel::Par(repeated(r.n as nat, r.generate@)),
{
    let mut v: Vec<Query> = Vec::new();
    let n = r.n;
    let mut i: u8 = 0;
    while i < n
        invariant
            i <= n,
            n == r.n,
            models(v@) == repeated(i as nat, r.generate@),
        decreases n - i,
    {
        let ghost before = v@;
        let x = Query::Generate(r.generate.duplicate());
        assert(x@ == QueryModel::Generate(r.generate@));
        v.push(x);
        assert(models(v@) =~= models(before) + seq![x@]);
        assert(models(v@) =~= repeated((i + 1) as nat, r.generate@));
        i = i + 1;
    }
    proof {
        lemma_list_models(v);
    }
    Query::Par(v)
}

/// One generation over a user message for each input of the batch.
fn unroll_batch(b: &Batch) -> (q: Query)
    ensures
        q@ == QueryModel::Plus(batch_generates(b.metadata@, views(b.inputs@))),
{
    let mut v: Vec<Query> = Vec::new();
    let n = b.inputs.len();
    let mut i: usize = 0;
    while i < n
        invariant
            i <= n,
            n == b.inputs@.len(),
            models(v@) == batch_generates(b.metadata@, views(b.inputs@)).subrange(0, i as int),
        decreases n - i,
    {
        let g = Generate::new(
            b.metadata.duplicate(),
            Query::Message(Message::User(b.inputs[i].clone())),
        );
        let ghost before = v@;
        let x = Query::Generate(g);
        assert(x@ == batch_generates(b.metadata@, views(b.inputs@))[i as int]);
        v.push(x);
        assert(models(v@) =~= models(before) + seq![x@]);
        assert(models(v@) =~= batch_generates(b.metadata@, views(b.inputs@)).subrange(
            0,
            i + 1,
        ));
        i = i + 1;
    }
    proof {
        lemma_list_models(v);
        assert(batch_generates(b.metadata@, views(b.inputs@)).subrange(0, n as int)
            =~= batch_generates(b.metadata@, views(b.inputs@)));
    }
    Query::Plus(v)
}

/// Splice the `Sequence` entries of `v` into the list.
pub(crate) fn splice_sequences(v: Vec<Query>) -> (r: Vec<Query>)
    ensures
        models(r@) == flatten_sequences(models(v@)),
{
    let mut out: Vec<Query> = Vec::new();
    let mut v = v;
    let ghost whole = v@;
    let n = v.len();
    let mut rest: Vec<Query> = Vec::new();
    let mut k: usize = 0;
    while k < n
        invariant
            n == whole.len(),
            k <= n,
            v@ == whole.subrange(0, (n - k) as int),
            rest@.len() == k,
            forall|j: int| 0 <= j < k ==> #[trigger] rest@[j] == whole[n - 1 - j],
        decreases n - k,
    {
        let q = v.pop().unwrap();
        rest.push(q);
        k = k + 1;
    }
    let mut j: usize = 0;
    assert(models(whole.subrange(0, 0)) =~= Seq::<QueryModel>::empty());
    while j < n
        invariant
            n == whole.len(),
            j <= n,
            rest@.len() == n - j,
            forall|t: int| 0 <= t < n - j ==> #[trigger] rest@[t] == whole[n - 1 - t],
            models(out@) == flatten_sequences(models(whole.subrange(0, j as int))),
        decreases n - j,
    {
        let q = rest.pop().unwrap();
        assert(q == whole[j as int]);
        proof {
            assert(models(whole.subrange(0, j + 1)) =~= models(whole.subrange(0, j as int)).push(
                q@,
            ));
            lemma_flatten_sequences_snoc(models(whole.subrange(0, j as int)), q@);
        }
        match q {
            Query::Sequence(w) => {
                proof {
                    lemma_list_models(w);
                }
                append_all(&mut out, w);
            },
            other => {
                let ghost before = out@;
                out.push(other);
                assert(models(out@) =~= models(before) + seq![other@]);
            },
        }
        j = j + 1;
    }
    assert(whole.subrange(0, n as int) =~= whole);
    out
}

/// Splice the `Plus` entries of `v` into the list.
fn splice_pluses(v: Vec<Query>) -> (r: Vec<Query>)
    ensures
        models(r@) == flatten_pluses(models(v@)),
{
    let mut out: Vec<Query> = Vec::new();
    let mut v = v;
    let ghost whole = v@;
    let n = v.len();
    let mut rest: Vec<Query> = Vec::new();
    let mut k: usize = 0;
    while k < n
        invariant
            n == whole.len(),
            k <= n,
            v@ == whole.subrange(0, (n - k) as int),
            rest@.len() == k,
            forall|j: int| 0 <= j < k ==> #[trigger] rest@[j] == whole[n - 1 - j],
        decreases n - k,
    {
        let q = v.pop().unwrap();
        rest.push(q);
        k = k + 1;
    }
    let mut j: usize = 0;
    assert(models(whole.subrange(0, 0)) =~= Seq::<QueryModel>::empty());
    while j < n
        invariant
            n == whole.len(),
            j <= n,
            rest@.len() == n - j,
            forall|t: int| 0 <= t < n - j ==> #[trigger] rest@[t] == whole[n - 1 - t],
            models(out@) == flatten_pluses(models(whole.subrange(0, j as int))),
        decreases n - j,
    {
        let q = rest.pop().unwrap();
        assert(q == whole[j as int]);
        proof {
            assert(models(whole.subrange(0, j + 1)) =~= models(whole.subrange(0, j as int)).push(
                q@,
            ));
            lemma_flatten_pluses_snoc(models(whole.subrange(0, j as int)), q@);
        }
        match q {
            Query::Plus(w) => {
                proof {
                    lemma_list_models(w);
                }
                append_all(&mut out, w);
            },
            other => {
                let ghost before = out@;
                out.push(other);
                assert(models(out@) =~= models(before) + seq![other@]);
            },
        }
        j = j + 1;
    }
    assert(whole.subrange(0, n as int) =~= whole);
    out
}

/// The simplification steps of the entries of `v`, concatenated.
fn simplify_all(v: &Vec<Query>) -> (r: Vec<Query>)
    ensures
        models(r@) == simplify_list(models(v@)),
    decreases v, 1nat,
{
    let mut out: Vec<Query> = Vec::new();
    simplify_range_into(v, 0, v.len(), &mut out);
    assert(models(v@).subrange(0, v@.len() as int) =~= models(v@));
    assert(models(Seq::<Query>::empty()) + simplify_list(models(v@)) =~= simplify_list(
        models(v@),
    ));
    out
}

/// The list that stands in place of `query` after one simplification step.
fn simplify_iter(query: &Query) -> (r: Vec<Query>)
    ensures
        models(r@) == simplify_step(query@),
    decreases query, 2nat,
{
    let ghost qm = query@;
    match query {
        Query::Bulk(Bulk::Repeat(r)) => {
            let model = r.generate.metadata.model.as_str();
            if supports_bulk_repeat(model) || !supports_bulk_map(model) {
                let v = vec![query.duplicate()];
                assert(models(v@) =~= seq![qm]);
                v
            } else {
                let v = vec![unroll_repeat(r)];
                assert(models(v@) =~= simplify_step(qm));
                v
            }
        },
        Query::Bulk(Bulk::Batch(b)) => {
            if supports_bulk_map(b.metadata.model.as_str()) {
                let v = vec![query.duplicate()];
                assert(models(v@) =~= seq![qm]);
                v
            } else {
                let v = vec![unroll_batch(b)];
                assert(models(v@) =~= simplify_step(qm));
                v
            }
        },
        Query::Sequence(v) => {
            proof {
                lemma_list_models(*v);
            }
            let ghost s = models(v@);
            if v.len() == 0 {
                Vec::new()
            } else if v.len() == 1 {
                simplify_iter(&v[0])
            } else {
                let parts = simplify_all(v);
                let flat = splice_sequences(parts);
                proof {
                    lemma_list_models(flat);
                }
                let r = vec![Query::Sequence(flat)];
                assert(models(r@) =~= simplify_step(qm));
                r
            }
        },
        Query::Par(v) => {
            proof {
                lemma_list_models(*v);
            }
            if v.len() == 1 {
                simplify_iter(&v[0])
            } else {
                let parts = simplify_all(v);
                proof {
                    lemma_list_models(parts);
                }
                let r = vec![Query::Par(parts)];
                assert(models(r@) =~= simplify_step(qm));
                r
            }
        },
        Query::Plus(v) => {
            proof {
                lemma_list_models(*v);
            }
            let ghost s = models(v@);
            if v.len() == 0 {
                Vec::new()
            } else {
                match bulk_mapify(v) {
                    Some(b) => {
                        let r = vec![Query::Bulk(Bulk::Batch(b))];
                        assert(models(r@) =~= simplify_step(qm));
                        r
                    },
                    None => {
                        let body = match &v[0] {
                            Query::Sequence(v2) => {
                                proof {
                                    lemma_list_models(*v2);
                                }
                                let mut out = simplify_all(v2);
                                let ghost mid = models(out@);
                                simplify_range_into(v, 1, v.len(), &mut out);
                                assert(s.subrange(1, s.len() as int) =~= s.drop_first());
                                out
                            },
                            Query::Plus(v2) => {
                                proof {
                                    lemma_list_models(*v2);
                                }
                                let mut out = simplify_all(v2);
                                simplify_range_into(v, 1, v.len(), &mut out);
                                assert(s.subrange(1, s.len() as int) =~= s.drop_first());
                                out
                            },
                            _ => {
                                let parts = simplify_all(v);
                                splice_pluses(parts)
                            },
                        };
                        proof {
                            lemma_list_models(body);
                        }
                        let r = vec![Query::Plus(body)];
                        assert(models(r@) =~= simplify_step(qm));
                        r
                    },
                }
            }
        },
        Query::Cross(v) => {
            proof {
                lemma_list_models(*v);
            }
            let ghost s = models(v@);
            let n = v.len();
            let body = if n > 0 {
                match &v[n - 1] {
                    Query::Cross(v2) => {
                        proof {
                            lemma_list_models(*v2);
                        }
                        let mut out: Vec<Query> = Vec::new();
                        simplify_range_into(v, 0, n - 1, &mut out);
                        let tail = simplify_all(v2);
                        let ghost mid = models(out@);
                        append_all(&mut out, tail);
                        assert(s.subrange(0, n - 1) =~= s.drop_last());
                        assert(models(Seq::<Query>::empty()) =~= Seq::<QueryModel>::empty());
                        assert(Seq::<QueryModel>::empty() + simplify_list(s.drop_last())
                            =~= simplify_list(s.drop_last()));
                        out
                    },
                    _ => simplify_all(v),
                }
            } else {
                simplify_all(v)
            };
            proof {
                lemma_list_models(body);
            }
            let r = vec![Query::Cross(body)];
            assert(models(r@) =~= simplify_step(qm));
            r
        },
        Query::Generate(g) => {
            let input = simplify(&g.input);
            let r = vec![Query::Generate(Generate::new(g.metadata.duplicate(), input))];
            assert(models(r@) =~= simplify_step(qm));
            r
        },
        Query::Monad(b) => {
            let inner = simplify(b);
            let r = vec![Query::Monad(Box::new(inner))];
            assert(models(r@) =~= simplify_step(qm));
            r
        },
        Query::Message(m) => {
            if m.is_empty() {
                Vec::new()
            } else {
                let r = vec![Query::Message(m.duplicate())];
                assert(models(r@) =~= simplify_step(qm));
                r
            }
        },
        Query::Zip(_) => {
            let r = vec![query.duplicate()];
            assert(models(r@) =~= seq![qm]);
            r
        },
    }
}

/// Unrolling a bulk map for a provider that cannot take prompt lists
/// gives one generation per input; simplifying that list of
/// generations consolidates it back into the same bulk map. Expansion
/// and consolidation are inverse to each other (for more than one input,
/// and metadata that equals itself).
pub proof fn law_batch_expansion_consolidation_inverse(md: MetadataModel, inputs: Seq<Seq<char>>)
    requires
        !spec_supports_bulk_map(md.model),
        inputs.len() > 1,
        metadata_eq(md, md),
    ensures
        simplified(QueryModel::Batch(md, inputs)) == QueryModel::Plus(batch_generates(md, inputs)),
        simplified(QueryModel::Plus(batch_generates(md, inputs))) == QueryModel::Batch(md, inputs),
        simplified(simplified(QueryModel::Batch(md, inputs))) == QueryModel::Batch(md, inputs),
{
    let gs = batch_generates(md, inputs);
    assert(mapifiable(gs));
    assert(mapified_inputs(gs) =~= inputs);
}

/// A list of generations with equal metadata over user messages is
/// consolidated into one bulk map of the message texts, whatever the
/// provider.
pub proof fn law_uniform_generations_consolidate(md: MetadataModel, inputs: Seq<Seq<char>>)
    requires
        inputs.len() > 1,
        metadata_eq(md, md),
    ensures
        simplified(QueryModel::Plus(batch_generates(md, inputs))) == QueryModel::Batch(md, inputs),
{
    let gs = batch_generates(md, inputs);
    assert(mapifiable(gs));
    assert(mapified_inputs(gs) =~= inputs);
}

/// A one-entry sequence simplifies to what its entry simplifies to.
pub proof fn law_singleton_sequence(q: QueryModel)
    ensures
        simplified(QueryModel::Sequence(seq![q])) == simplified(q),
{
}

/// A message with text is left unchanged.
pub proof fn law_message_unchanged(m: MessageModel)
    requires
        m.content().len() > 0,
    ensures
        simplified(QueryModel::Message(m)) == QueryModel::Message(m),
{
}

/// This tries to remove some unnecessary syntactic complexities,
/// e.g. Plus-of-Plus or Cross with a tail Cross.
pub fn simplify(query: &Query) -> (r: Query)
    ensures
        r@ == simplified(query@),
    decreases query, 3nat,
{
    Query::from_list(simplify_iter(query))
}


/// Every message has some text.
pub open spec fn all_nonempty(ms: Seq<MessageModel>) -> bool {
    forall|i: int| 0 <= i < ms.len() ==> (#[trigger] ms[i]).content().len() > 0
}

/// The messages of two lists one after the other.
pub proof fn lemma_messages_concat(a: Seq<QueryModel>, b: Seq<QueryModel>)
    ensures
        messages_in_list(a + b) == messages_in_list(a) + messages_in_list(b),
    decreases b.len(),
{
    if b.len() == 0 {
        assert(a + b =~= a);
        assert(messages_in_list(a) + messages_in_list(b) =~= messages_in_list(a));
    } else {
        assert((a + b).drop_last() =~= a + b.drop_last());
        assert((a + b).last() == b.last());
        lemma_messages_concat(a, b.drop_last());
        assert(messages_in_list(a + b) =~= messages_in_list(a) + messages_in_list(b));
    }
}

/// The messages of a one-entry list are those of its entry.
pub proof fn lemma_messages_single(q: QueryModel)
    ensures
        messages_in_list(seq![q]) == messages_in(q),
        only_messages_list(seq![q]) == only_messages(q),
{
    let s = seq![q];
    assert(s.drop_last() =~= Seq::<QueryModel>::empty());
    assert(s.last() == q);
    assert(messages_in_list(s.drop_last()) == Seq::<MessageModel>::empty());
    assert(only_messages_list(s.drop_last()));
    assert(messages_in_list(s) == messages_in_list(s.drop_last()) + messages_in(s.last()));
    assert(Seq::<MessageModel>::empty() + messages_in(q) =~= messages_in(q));
}

/// The messages of a list: those of its first entry, then the rest's.
pub proof fn lemma_messages_first(s: Seq<QueryModel>)
    requires
        s.len() > 0,
    ensures
        messages_in_list(s) == messages_in(s[0]) + messages_in_list(s.drop_first()),
        only_messages_list(s) == (only_messages(s[0]) && only_messages_list(s.drop_first())),
{
    assert(s =~= seq![s[0]] + s.drop_first());
    lemma_messages_concat(seq![s[0]], s.drop_first());
    lemma_messages_single(s[0]);
    lemma_only_concat(seq![s[0]], s.drop_first());
}

/// A concatenation is made of messages exactly when both parts are.
pub proof fn lemma_only_concat(a: Seq<QueryModel>, b: Seq<QueryModel>)
    ensures
        only_messages_list(a + b) == (only_messages_list(a) && only_messages_list(b)),
    decreases b.len(),
{
    if b.len() == 0 {
        assert(a + b =~= a);
    } else {
        assert((a + b).drop_last() =~= a + b.drop_last());
        assert((a + b).last() == b.last());
        lemma_only_concat(a, b.drop_last());
    }
}

proof fn lemma_nonempty_concat(a: Seq<MessageModel>, b: Seq<MessageModel>)
    requires
        all_nonempty(a + b),
    ensures
        all_nonempty(a),
        all_nonempty(b),
{
    assert forall|i: int| 0 <= i < a.len() implies (#[trigger] a[i]).content().len() > 0 by {
        assert((a + b)[i] == a[i]);
    }
    assert forall|i: int| 0 <= i < b.len() implies (#[trigger] b[i]).content().len() > 0 by {
        assert((a + b)[a.len() + i] == b[i]);
    }
}

/// Splicing sequences into a list keeps its messages.
pub proof fn lemma_messages_flatten_sequences(s: Seq<QueryModel>)
    ensures
        messages_in_list(flatten_sequences(s)) == messages_in_list(s),
    decreases s.len(),
{
    if s.len() > 0 {
        lemma_messages_flatten_sequences(s.drop_last());
        let tail = match s.last() {
            QueryModel::Sequence(w) => w,
            x => seq![x],
        };
        assert(flatten_sequences(s) == flatten_sequences(s.drop_last()) + tail);
        assert(messages_in_list(s) == messages_in_list(s.drop_last()) + messages_in(s.last()));
        lemma_messages_concat(flatten_sequences(s.drop_last()), tail);
        match s.last() {
            QueryModel::Sequence(w) => {
                assert(messages_in(s.last()) == messages_in_list(w));
            },
            _ => {
                lemma_messages_single(s.last());
            },
        }
    }
}

/// Splicing Plus queries into a list keeps its messages.
pub proof fn lemma_messages_flatten_pluses(s: Seq<QueryModel>)
    ensures
        messages_in_list(flatten_pluses(s)) == messages_in_list(s),
    decreases s.len(),
{
    if s.len() > 0 {
        lemma_messages_flatten_pluses(s.drop_last());
        let tail = match s.last() {
            QueryModel::Plus(w) => w,
            x => seq![x],
        };
        assert(flatten_pluses(s) == flatten_pluses(s.drop_last()) + tail);
        assert(messages_in_list(s) == messages_in_list(s.drop_last()) + messages_in(s.last()));
        lemma_messages_concat(flatten_pluses(s.drop_last()), tail);
        match s.last() {
            QueryModel::Plus(w) => {
                assert(messages_in(s.last()) == messages_in_list(w));
            },
            _ => {
                lemma_messages_single(s.last());
            },
        }
    }
}

proof fn lemma_step_keeps_messages(q: QueryModel)
    requires
        only_messages(q),
        all_nonempty(messages_in(q)),
    ensures
        messages_in_list(simplify_step(q)) == messages_in(q),
    decreases q, 1nat,
{
    match q {
        QueryModel::Message(m) => {
            assert(messages_in(q)[0] == m);
            lemma_messages_single(q);
        },
        QueryModel::Sequence(v) => {
            if v.len() == 0 {
            } else if v.len() == 1 {
                lemma_messages_first(v);
                assert(v.drop_first() =~= Seq::<QueryModel>::empty());
                assert(messages_in(v[0]) + Seq::<MessageModel>::empty() =~= messages_in(v[0]));
                lemma_step_keeps_messages(v[0]);
            } else {
                lemma_list_keeps_messages(v);
                lemma_messages_flatten_sequences(simplify_list(v));
                lemma_messages_single(QueryModel::Sequence(flatten_sequences(simplify_list(v))));
            }
        },
        QueryModel::Par(v) => {
            if v.len() == 1 {
                lemma_messages_first(v);
                assert(v.drop_first() =~= Seq::<QueryModel>::empty());
                assert(messages_in(v[0]) + Seq::<MessageModel>::empty() =~= messages_in(v[0]));
                lemma_step_keeps_messages(v[0]);
            } else {
                lemma_list_keeps_messages(v);
                lemma_messages_single(QueryModel::Par(simplify_list(v)));
            }
        },
        QueryModel::Plus(v) => {
            if v.len() == 0 {
            } else {
                lemma_messages_first(v);
                assert(!mapifiable(v)) by {
                    if mapifiable(v) {
                        assert(v[0] is Generate);
                    }
                }
                lemma_nonempty_concat(messages_in(v[0]), messages_in_list(v.drop_first()));
                let r = match v[0] {
                    QueryModel::Sequence(v2) => simplify_list(v2) + simplify_list(v.drop_first()),
                    QueryModel::Plus(v2) => simplify_list(v2) + simplify_list(v.drop_first()),
                    _ => flatten_pluses(simplify_list(v)),
                };
                match v[0] {
                    QueryModel::Sequence(v2) => {
                        assert(only_messages(v[0]) == only_messages_list(v2));
                        assert(messages_in(v[0]) == messages_in_list(v2));
                        lemma_list_keeps_messages(v2);
                        lemma_list_keeps_messages(v.drop_first());
                        lemma_messages_concat(simplify_list(v2), simplify_list(v.drop_first()));
                    },
                    QueryModel::Plus(v2) => {
                        assert(only_messages(v[0]) == only_messages_list(v2));
                        assert(messages_in(v[0]) == messages_in_list(v2));
                        lemma_list_keeps_messages(v2);
                        lemma_list_keeps_messages(v.drop_first());
                        lemma_messages_concat(simplify_list(v2), simplify_list(v.drop_first()));
                    },
                    _ => {
                        lemma_list_keeps_messages(v);
                        lemma_messages_flatten_pluses(simplify_list(v));
                    },
                }
                lemma_messages_single(QueryModel::Plus(r));
            }
        },
        QueryModel::Cross(v) => {
            if v.len() > 0 && v.last() is Cross {
                match v.last() {
                    QueryModel::Cross(v2) => {
                        assert(v =~= v.drop_last().push(v.last()));
                        assert(only_messages_list(v) == (only_messages_list(v.drop_last())
                            && only_messages(v.last())));
                        assert(messages_in_list(v) == messages_in_list(v.drop_last())
                            + messages_in(v.last()));
                        assert(only_messages(v.last()) == only_messages_list(v2));
                        assert(messages_in(v.last()) == messages_in_list(v2));
                        lemma_nonempty_concat(messages_in_list(v.drop_last()), messages_in(v.last()));
                        lemma_list_keeps_messages(v.drop_last());
                        lemma_list_keeps_messages(v2);
                        lemma_messages_concat(simplify_list(v.drop_last()), simplify_list(v2));
                        lemma_messages_single(
                            QueryModel::Cross(simplify_list(v.drop_last()) + simplify_list(v2)),
                        );
                    },
                    _ => {},
                }
            } else {
                lemma_list_keeps_messages(v);
                lemma_messages_single(QueryModel::Cross(simplify_list(v)));
            }
        },
        _ => {},
    }
}

proof fn lemma_list_keeps_messages(s: Seq<QueryModel>)
    requires
        only_messages_list(s),
        all_nonempty(messages_in_list(s)),
    ensures
        messages_in_list(simplify_list(s)) == messages_in_list(s),
    decreases s, 0nat,
{
    if s.len() > 0 {
        lemma_nonempty_concat(messages_in_list(s.drop_last()), messages_in(s.last()));
        lemma_list_keeps_messages(s.drop_last());
        lemma_step_keeps_messages(s.last());
        lemma_messages_concat(simplify_list(s.drop_last()), simplify_step(s.last()));
    }
}

/// Simplification keeps the messages of a query made of messages (each
/// with some text) and lists of them: the simplified query holds the
/// same messages, in the same order.
pub proof fn law_simplify_keeps_messages(q: QueryModel)
    requires
        only_messages(q),
        all_nonempty(messages_in(q)),
    ensures
        messages_in(simplified(q)) == messages_in(q),
{
    lemma_step_keeps_messages(q);
    let r = simplify_step(q);
    if r.len() == 1 {
        lemma_messages_single(r[0]);
        assert(r =~= seq![r[0]]);
    }
}

} // verus!
