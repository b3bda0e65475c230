//! The span-query tree: sequences, parallel and commutative
//! compositions, nested generation, bulk operations and messages,
//! together with their mathematical model.

use vstd::prelude::*;

use crate::message::{Message, MessageModel};
use crate::text::views;

verus! {

/// A sampling temperature, kept as the bit pattern of an IEEE-754
/// single-precision number (`f32::to_bits`).
#[derive(Debug, Clone, Copy, PartialEq)]
pub struct Temperature {
    pub bits: u32,
}

/// The bit pattern is a NaN.
pub open spec fn f32_bits_is_nan(b: u32) -> bool {
    (b & 0x7f80_0000u32) == 0x7f80_0000u32 && (b & 0x007f_ffffu32) != 0
}

/// IEEE-754 equality of two single-precision values given by their
/// bits: NaN equals nothing, and the two zeros are equal.
pub open spec fn f32_bits_eq(a: u32, b: u32) -> bool {
    !f32_bits_is_nan(a) && !f32_bits_is_nan(b) && (a == b || ((a & 0x7fff_ffffu32) == 0 && (b
        & 0x7fff_ffffu32) == 0))
}

/// Equality of optional temperatures, as `Option<f32>`'s `==` decides it.
pub open spec fn temperature_eq(a: Option<Temperature>, b: Option<Temperature>) -> bool {
    match (a, b) {
        (None, None) => true,
        (Some(x), Some(y)) => f32_bits_eq(x.bits, y.bits),
        _ => false,
    }
}

impl Temperature {
    /// The temperature whose `f32` bit pattern is `bits`.
    pub fn from_bits(bits: u32) -> (r: Temperature)
        ensures
            r.bits == bits,
    {
        Temperature { bits }
    }

    /// The default sampling temperature, 0.6.
    pub fn default_value() -> (r: Temperature)
        ensures
            r.bits == 0x3f19_999au32,
    {
        Temperature { bits: 0x3f19_999au32 }
    }

    /// The zero temperature.
    pub fn zero() -> (r: Temperature)
        ensures
            r.bits == 0,
    {
        Temperature { bits: 0 }
    }

    /// `f32` equality of two temperatures.
    pub fn same_value(&self, other: &Temperature) -> (r: bool)
        ensures
            r == f32_bits_eq(self.bits, other.bits),
    {
        let a = self.bits;
        let b = other.bits;
        let a_nan = (a & 0x7f80_0000u32) == 0x7f80_0000u32 && (a & 0x007f_ffffu32) != 0;
        let b_nan = (b & 0x7f80_0000u32) == 0x7f80_0000u32 && (b & 0x007f_ffffu32) != 0;
        !a_nan && !b_nan && (a == b || ((a & 0x7fff_ffffu32) == 0 && (b & 0x7fff_ffffu32) == 0))
    }
}

/// The parameters of a generation: which model, how many tokens, how hot.
#[derive(Debug, Clone, PartialEq)]
pub struct GenerateMetadata {
    pub model: String,
    pub max_tokens: Option<i32>,
    pub temperature: Option<Temperature>,
}

/// The mathematical value of [`GenerateMetadata`].
pub struct MetadataModel {
    pub model: Seq<char>,
    pub max_tokens: Option<i32>,
    pub temperature: Option<Temperature>,
}

/// The two metadata are equal field by field, the temperatures compared
/// as `f32` values.
pub open spec fn metadata_eq(a: MetadataModel, b: MetadataModel) -> bool {
    a.model == b.model && a.max_tokens == b.max_tokens && temperature_eq(
        a.temperature,
        b.temperature,
    )
}

impl View for GenerateMetadata {
    type V = MetadataModel;

    open spec fn view(&self) -> MetadataModel {
        MetadataModel {
            model: self.model@,
            max_tokens: self.max_tokens,
            temperature: self.temperature,
        }
    }
}

/// The token limit of a generation that gives none: 0, no limit.
pub fn default_max_tokens() -> (r: Option<i32>)
    ensures
        r == Some(0i32),
{
    Some(0)
}

/// The temperature of a generation that gives none: 0.6.
pub fn default_temperature() -> (r: Option<Temperature>)
    ensures
        r == Some(Temperature { bits: 0x3f19_999au32 }),
{
    Some(Temperature::default_value())
}

/// A failure to read a query from YAML, with the reader's message.
#[derive(Debug, Clone, PartialEq, Eq)]
pub struct FromYamlError {
    pub message: String,
}

impl FromYamlError {
    /// The reader's message.
    pub fn description(&self) -> (r: &str)
        ensures
            r@ == self.message@,
    {
        self.message.as_str()
    }
}

impl GenerateMetadata {
    /// Metadata for `model` with the default limits: `max_tokens` 0
    /// (no limit) and temperature 0.6.
    pub fn new(model: &str) -> (r: GenerateMetadata)
        ensures
            r@.model == model@,
            r@.max_tokens == Some(0i32),
            r@.temperature == Some(Temperature { bits: 0x3f19_999au32 }),
    {
        GenerateMetadata {
            model: String::from_str(model),
            max_tokens: default_max_tokens(),
            temperature: default_temperature(),
        }
    }

    /// Metadata with every field given.
    pub fn with_limits(model: &str, max_tokens: Option<i32>, temperature: Option<Temperature>) -> (r:
        GenerateMetadata)
        ensures
            r@ == (MetadataModel { model: model@, max_tokens, temperature }),
    {
        GenerateMetadata { model: String::from_str(model), max_tokens, temperature }
    }

    /// Equality as `==` on the `f32`-bearing form of the structure decides it (the
    /// temperature compared as `f32`).
    pub fn same_as(&self, other: &GenerateMetadata) -> (r: bool)
        ensures
            r == metadata_eq(self@, other@),
    {
        let same_model = self.model == other.model;
        let same_temperature = match (&self.temperature, &other.temperature) {
            (None, None) => true,
            (Some(x), Some(y)) => x.same_value(y),
            _ => false,
        };
        same_model && self.max_tokens == other.max_tokens && same_temperature
    }

    /// A copy of the metadata.
    pub fn duplicate(&self) -> (r: GenerateMetadata)
        ensures
            r == *self,
    {
        GenerateMetadata {
            model: self.model.clone(),
            max_tokens: self.max_tokens,
            temperature: self.temperature,
        }
    }

    /// The same metadata, but naming another model.
    pub fn with_model(&self, model: &str) -> (r: GenerateMetadata)
        ensures
            r@ == (MetadataModel { model: model@, ..self@ }),
    {
        GenerateMetadata {
            model: String::from_str(model),
            max_tokens: self.max_tokens,
            temperature: self.temperature,
        }
    }
}

/// Generate new content via a given model.
#[derive(Debug, PartialEq)]
pub struct Generate {
    pub metadata: GenerateMetadata,
    pub input: Box<Query>,
}

/// Bulk operation: generate `n` outputs for the given `generate` specification.
#[derive(Debug, PartialEq)]
pub struct Repeat {
    /// The number of outputs to generate
    pub n: u8,
    /// The specification of what to generate
    pub generate: Generate,
}

/// Bulk operation: map the generate operation across the given inputs,
/// using the given metadata.
#[derive(Debug, Clone, PartialEq)]
pub struct Batch {
    /// The metadata governing the content generation
    pub metadata: GenerateMetadata,
    /// Generate one output for each input in this list
    pub inputs: Vec<String>,
}

/// Some kind of bulk operation.
#[derive(Debug, PartialEq)]
pub enum Bulk {
    Repeat(Repeat),
    Batch(Batch),
}

/// Interleave the messages that emanate from the first in-between every
/// message that emanates from the second.
#[derive(Debug, PartialEq)]
pub struct Zip {
    pub first: Box<Query>,
    pub second: Box<Query>,
}

/// A span query.
#[derive(Debug, PartialEq)]
pub enum Query {
    /// Execute in sequence
    Sequence(Vec<Query>),
    /// Execute in parallel
    Par(Vec<Query>),
    /// Non-commutative
    Cross(Vec<Query>),
    /// Commutative
    Plus(Vec<Query>),
    /// Ignore the output, executed for server-side effect only (e.g. caching)
    Monad(Box<Query>),
    /// Generate new content via a given model
    Generate(Generate),
    /// Interleave messages
    Zip(Zip),
    /// Some kind of bulk operation
    Bulk(Bulk),
    /// Some sort of chat message
    Message(Message),
}

/// A document that can be retrieved from.
#[derive(Debug, Clone, PartialEq)]
pub enum Document {
    Text(String),
    Binary(Vec<u8>),
}

/// Incorporate information relevant to the question gathered from the given docs.
#[derive(Debug, PartialEq)]
pub struct Augment {
    pub embedding_model: String,
    pub body: Box<Query>,
    pub doc: (String, Document),
}

/// The mathematical value of a [`Generate`].
pub struct GenerateModel {
    pub metadata: MetadataModel,
    pub input: Box<QueryModel>,
}

/// The mathematical value of a [`Query`]: the same tree, with sequences
/// in place of vectors and characters in place of strings.
pub enum QueryModel {
    Sequence(Seq<QueryModel>),
    Par(Seq<QueryModel>),
    Cross(Seq<QueryModel>),
    Plus(Seq<QueryModel>),
    Monad(Box<QueryModel>),
    Generate(GenerateModel),
    Zip(Box<QueryModel>, Box<QueryModel>),
    Repeat(u8, GenerateModel),
    Batch(MetadataModel, Seq<Seq<char>>),
    Message(MessageModel),
}

/// The model of a query.
pub open spec fn query_model(q: Query) -> QueryModel
    decreases q,
{
    match q {
        Query::Sequence(v) => QueryModel::Sequence(
            Seq::new(
                v.len() as nat,
                |i: int|
                    if 0 <= i < v.len() {
                        query_model(v[i])
                    } else {
                        QueryModel::Sequence(Seq::empty())
                    },
            ),
        ),
        Query::Par(v) => QueryModel::Par(
            Seq::new(
                v.len() as nat,
                |i: int|
                    if 0 <= i < v.len() {
                        query_model(v[i])
                    } else {
                        QueryModel::Sequence(Seq::empty())
                    },
            ),
        ),
        Query::Cross(v) => QueryModel::Cross(
            Seq::new(
                v.len() as nat,
                |i: int|
                    if 0 <= i < v.len() {
                        query_model(v[i])
                    } else {
                        QueryModel::Sequence(Seq::empty())
                    },
            ),
        ),
        Query::Plus(v) => QueryModel::Plus(
            Seq::new(
                v.len() as nat,
                |i: int|
                    if 0 <= i < v.len() {
                        query_model(v[i])
                    } else {
                        QueryModel::Sequence(Seq::empty())
                    },
            ),
        ),
        Query::Monad(b) => QueryModel::Monad(Box::new(query_model(*b))),
        Query::Generate(g) => QueryModel::Generate(
            GenerateModel { metadata: g.metadata@, input: Box::new(query_model(*g.input)) },
        ),
        Query::Zip(z) => QueryModel::Zip(
            Box::new(query_model(*z.first)),
            Box::new(query_model(*z.second)),
        ),
        Query::Bulk(Bulk::Repeat(r)) => QueryModel::Repeat(
            r.n,
            GenerateModel {
                metadata: r.generate.metadata@,
                input: Box::new(query_model(*r.generate.input)),
            },
        ),
        Query::Bulk(Bulk::Batch(b)) => QueryModel::Batch(b.metadata@, views(b.inputs@)),
        Query::Message(m) => QueryModel::Message(m@),
    }
}

/// The models of a sequence of queries.
pub open spec fn models(v: Seq<Query>) -> Seq<QueryModel> {
    Seq::new(v.len(), |i: int| query_model(v[i]))
}

impl View for Query {
    type V = QueryModel;

    open spec fn view(&self) -> QueryModel {
        query_model(*self)
    }
}

impl View for Generate {
    type V = GenerateModel;

    open spec fn view(&self) -> GenerateModel {
        GenerateModel { metadata: self.metadata@, input: Box::new(query_model(*self.input)) }
    }
}

/// The model of a user message holding `s`.
pub open spec fn user_model(s: Seq<char>) -> QueryModel {
    QueryModel::Message(MessageModel::User(s))
}

/// The model of a `Generate` over a user message, one for each input of a batch.
pub open spec fn batch_generates(md: MetadataModel, inputs: Seq<Seq<char>>) -> Seq<QueryModel> {
    Seq::new(
        inputs.len(),
        |i: int| QueryModel::Generate(GenerateModel { metadata: md, input: Box::new(user_model(inputs[i])) }),
    )
}

/// The model of a list of queries as one query: a single entry stands
/// for itself, anything else is a sequence.
pub open spec fn from_list(v: Seq<QueryModel>) -> QueryModel {
    if v.len() == 1 {
        v[0]
    } else {
        QueryModel::Sequence(v)
    }
}

pub proof fn lemma_list_models(v: Vec<Query>)
    ensures
        Query::Sequence(v)@ == QueryModel::Sequence(models(v@)),
        Query::Par(v)@ == QueryModel::Par(models(v@)),
        Query::Cross(v)@ == QueryModel::Cross(models(v@)),
        Query::Plus(v)@ == QueryModel::Plus(models(v@)),
{
    let s = Seq::new(
        v.len() as nat,
        |i: int|
            if 0 <= i < v.len() {
                query_model(v[i])
            } else {
                QueryModel::Sequence(Seq::empty())
            },
    );
    assert(models(v@) =~= s);
    if let QueryModel::Sequence(t) = query_model(Query::Sequence(v)) {
        assert(t =~= s);
    }
    assert(Query::Sequence(v)@ == QueryModel::Sequence(s));
    assert(Query::Par(v)@ == QueryModel::Par(s));
    assert(Query::Cross(v)@ == QueryModel::Cross(s));
    assert(Query::Plus(v)@ == QueryModel::Plus(s));
}

/// Copies of the queries in `v[lo..]`, appended to `out`.
fn duplicate_into(v: &Vec<Query>, out: &mut Vec<Query>)
    ensures
        models(final(out)@) == models(old(out)@) + models(v@),
    decreases v, 0nat,
{
    let n = v.len();
    let mut i: usize = 0;
    let ghost start = models(out@);
    while i < n
        invariant
            n == v@.len(),
            i <= n,
            models(out@) == start + models(v@.subrange(0, i as int)),
        decreases n - i,
    {
        proof {
            assert(decreases_to!(v => v@[i as int]));
        }
        let q = v[i].duplicate();
        let ghost before = out@;
        out.push(q);
        proof {
            assert(models(out@) =~= models(before) + seq![q@]);
            assert(models(v@.subrange(0, i + 1)) =~= models(v@.subrange(0, i as int)) + seq![
                v@[i as int]@,
            ]);
        }
        i = i + 1;
    }
    assert(v@.subrange(0, n as int) =~= v@);
}

/// Copies of every query in `v`.
pub fn duplicate_all(v: &Vec<Query>) -> (r: Vec<Query>)
    ensures
        models(r@) == models(v@),
    decreases v, 1nat,
{
    let mut out: Vec<Query> = Vec::new();
    duplicate_into(v, &mut out);
    assert(models(Seq::<Query>::empty()) =~= Seq::<QueryModel>::empty());
    assert(Seq::<QueryModel>::empty() + models(v@) =~= models(v@));
    out
}

impl Generate {
    /// A copy of the generation.
    pub fn duplicate(&self) -> (r: Generate)
        ensures
            r@ == self@,
        decreases self, 0nat,
    {
        proof {
            assert(decreases_to!(self => self.input));
        }
        Generate { metadata: self.metadata.duplicate(), input: Box::new(self.input.duplicate()) }
    }

    /// A generation with the given metadata and input.
    pub fn new(metadata: GenerateMetadata, input: Query) -> (r: Generate)
        ensures
            r@ == (GenerateModel { metadata: metadata@, input: Box::new(input@) }),
    {
        Generate { metadata, input: Box::new(input) }
    }

    /// Return self, but with input wrapped according to the given function.
    pub fn wrap<F: Fn(Query) -> Query>(&self, f: F) -> (r: Generate)
        requires
            forall|q: Query| #[trigger] call_requires(f, (q,)),
        ensures
            r.metadata@ == self.metadata@,
            exists|x: Query| x@ == (*self.input)@ && #[trigger] call_ensures(f, (x,), *r.input),
    {
        let g = self.duplicate();
        let x = *g.input;
        let y = f(x);
        Generate { metadata: g.metadata, input: Box::new(y) }
    }

    /// Return self, but with input wrapped with a Plus.
    pub fn wrap_plus(&self) -> (r: Generate)
        ensures
            r@ == (GenerateModel {
                metadata: self.metadata@,
                input: Box::new(QueryModel::Plus(seq![(*self.input)@])),
            }),
    {
        let g = self.duplicate();
        let x = *g.input;
        let v = vec![x];
        proof {
            lemma_list_models(v);
            assert(models(v@) =~= seq![x@]);
        }
        Generate { metadata: g.metadata, input: Box::new(Query::Plus(v)) }
    }

    /// The same generation, but naming another model.
    pub fn with_model(&self, model: &str) -> (r: Generate)
        ensures
            r@ == (GenerateModel {
                metadata: MetadataModel { model: model@, ..self.metadata@ },
                ..self@
            }),
    {
        let g = self.duplicate();
        Generate { metadata: g.metadata.with_model(model), input: g.input }
    }
}

impl Repeat {
    /// A copy of the repeat.
    pub fn duplicate(&self) -> (r: Repeat)
        ensures
            r.n == self.n,
            r.generate@ == self.generate@,
        decreases self, 0nat,
    {
        Repeat { n: self.n, generate: self.generate.duplicate() }
    }

    /// The same repeat, but naming another model.
    pub fn with_model(&self, model: &str) -> (r: Repeat)
        ensures
            r.n == self.n,
            r.generate@ == (GenerateModel {
                metadata: MetadataModel { model: model@, ..self.generate.metadata@ },
                ..self.generate@
            }),
    {
        Repeat { n: self.n, generate: self.generate.with_model(model) }
    }
}

/// Copies of the strings in `v`.
pub fn duplicate_strings(v: &Vec<String>) -> (r: Vec<String>)
    ensures
        r@ == v@,
{
    let mut out: Vec<String> = Vec::new();
    let n = v.len();
    let mut i: usize = 0;
    while i < n
        invariant
            n == v@.len(),
            i <= n,
            out@ == v@.subrange(0, i as int),
        decreases n - i,
    {
        out.push(v[i].clone());
        assert(out@ =~= v@.subrange(0, i + 1));
        i = i + 1;
    }
    assert(v@.subrange(0, n as int) =~= v@);
    out
}

impl Batch {
    /// A copy of the batch.
    pub fn duplicate(&self) -> (r: Batch)
        ensures
            r.metadata == self.metadata,
            r.inputs@ == self.inputs@,
    {
        Batch { metadata: self.metadata.duplicate(), inputs: duplicate_strings(&self.inputs) }
    }

    /// The same batch, but naming another model.
    pub fn with_model(&self, model: &str) -> (r: Batch)
        ensures
            r.metadata@ == (MetadataModel { model: model@, ..self.metadata@ }),
            r.inputs@ == self.inputs@,
    {
        Batch { metadata: self.metadata.with_model(model), inputs: duplicate_strings(&self.inputs) }
    }
}

impl Query {
    /// A copy of the query.
    pub fn duplicate(&self) -> (r: Query)
        ensures
            r@ == self@,
        decreases self, 0nat,
    {
        match self {
            Query::Sequence(v) => {
                let w = duplicate_all(v);
                proof {
                    lemma_list_models(*v);
                    lemma_list_models(w);
                }
                Query::Sequence(w)
            },
            Query::Par(v) => {
                let w = duplicate_all(v);
                proof {
                    lemma_list_models(*v);
                    lemma_list_models(w);
                }
                Query::Par(w)
            },
            Query::Cross(v) => {
                let w = duplicate_all(v);
                proof {
                    lemma_list_models(*v);
                    lemma_list_models(w);
                }
                Query::Cross(w)
            },
            Query::Plus(v) => {
                let w = duplicate_all(v);
                proof {
                    lemma_list_models(*v);
                    lemma_list_models(w);
                }
                Query::Plus(w)
            },
            Query::Monad(b) => Query::Monad(Box::new(b.duplicate())),
            Query::Generate(g) => Query::Generate(g.duplicate()),
            Query::Zip(z) => Query::Zip(
                Zip { first: Box::new(z.first.duplicate()), second: Box::new(z.second.duplicate()) },
            ),
            Query::Bulk(Bulk::Repeat(r)) => Query::Bulk(Bulk::Repeat(r.duplicate())),
            Query::Bulk(Bulk::Batch(b)) => Query::Bulk(Bulk::Batch(b.duplicate())),
            Query::Message(m) => Query::Message(m.duplicate()),
        }
    }

    /// A user message (what `From<&str>` and `FromStr` give).
    pub fn user(s: &str) -> (r: Query)
        ensures
            r@ == user_model(s@),
    {
        Query::Message(Message::user(s))
    }

    /// A list of queries as one query: a single entry stands for itself,
    /// anything else becomes a `Sequence` (what `From<Vec<Query>>` gives).
    pub fn from_list(v: Vec<Query>) -> (r: Query)
        ensures
            r@ == from_list(models(v@)),
    {
        proof {
            lemma_list_models(v);
        }
        if v.len() == 1 {
            let mut v = v;
            let ghost v0 = v@;
            let q = v.remove(0);
            assert(q == v0[0]);
            q
        } else {
            Query::Sequence(v)
        }
    }

    /// A zip of the pair (what `From<(Query, Query)>` gives).
    pub fn zip(first: Query, second: Query) -> (r: Query)
        ensures
            r@ == QueryModel::Zip(Box::new(first@), Box::new(second@)),
    {
        Query::Zip(Zip { first: Box::new(first), second: Box::new(second) })
    }
}

impl Clone for Query {
    fn clone(&self) -> (r: Query)
        ensures
            r@ == self@,
    {
        self.duplicate()
    }
}

impl Clone for Generate {
    fn clone(&self) -> (r: Generate)
        ensures
            r@ == self@,
    {
        self.duplicate()
    }
}

} // verus!
