//! The tokenizer that a GGUF file's metadata describes: the vocabulary,
//! the merges of a BPE tokenizer, the special tokens, and the kind of
//! tokenizer, read from the metadata entries.

use vstd::prelude::*;

use crate::text::{owned, same_text, views};

use tokenizers::Tokenizer;

verus! {

broadcast use vstd::std_specs::vec::group_vec_axioms;

/// A metadata value of a GGUF file, as far as the tokenizer reads it.
pub enum GgufValue {
    U32(u32),
    U64(u64),
    I32(i32),
    I64(i64),
    Text(String),
    Array(Vec<GgufValue>),
    /// Any other kind of value (floats, booleans, small integers)
    Other,
}

/// The mathematical value of a [`GgufValue`].
pub enum GgufModel {
    U32(u32),
    U64(u64),
    I32(i32),
    I64(i64),
    Text(Seq<char>),
    Array(Seq<GgufModel>),
    Other,
}

/// The model of a metadata value.
pub open spec fn gguf_model(v: GgufValue) -> GgufModel
    decreases v,
{
    match v {
        GgufValue::U32(x) => GgufModel::U32(x),
        GgufValue::U64(x) => GgufModel::U64(x),
        GgufValue::I32(x) => GgufModel::I32(x),
        GgufValue::I64(x) => GgufModel::I64(x),
        GgufValue::Text(s) => GgufModel::Text(s@),
        GgufValue::Array(a) => GgufModel::Array(
            Seq::new(
                a.len() as nat,
                |i: int|
                    if 0 <= i < a.len() {
                        gguf_model(a[i])
                    } else {
                        GgufModel::Other
                    },
            ),
        ),
        GgufValue::Other => GgufModel::Other,
    }
}

impl View for GgufValue {
    type V = GgufModel;

    open spec fn view(&self) -> GgufModel {
        gguf_model(*self)
    }
}

/// The metadata of a GGUF file: its keys and their values.
pub struct GgufMetadata {
    pub entries: Vec<(String, GgufValue)>,
}

/// The entries of a metadata table as keys and value models.
pub open spec fn entries_model(v: Seq<(String, GgufValue)>) -> Seq<(Seq<char>, GgufModel)> {
    Seq::new(v.len(), |i: int| (v[i].0@, v[i].1@))
}

/// The value of the first entry with the key, if any.
pub open spec fn meta_get(entries: Seq<(Seq<char>, GgufModel)>, key: Seq<char>) -> Option<GgufModel>
    decreases entries.len(),
{
    if entries.len() == 0 {
        None
    } else if entries[0].0 == key {
        Some(entries[0].1)
    } else {
        meta_get(entries.drop_first(), key)
    }
}

/// Why the tokenizer could not be read from the metadata.
#[derive(Debug, Clone, PartialEq, Eq)]
pub enum GgufError {
    /// The key is not in the metadata.
    NotFound(String),
    /// The key's value is not a string.
    NotString(String),
    /// The key's value is not an array.
    NotArray(String),
    /// The key's array holds something other than strings.
    NonStringElement(String),
    /// The key's value is not a number.
    NotNumeric(String),
    /// The tokenizer kind is not supported.
    UnsupportedTokenizer(String),
}

/// The kinds of error, with their keys.
pub enum GgufErrorModel {
    NotFound(Seq<char>),
    NotString(Seq<char>),
    NotArray(Seq<char>),
    NonStringElement(Seq<char>),
    NotNumeric(Seq<char>),
    UnsupportedTokenizer(Seq<char>),
}

impl View for GgufError {
    type V = GgufErrorModel;

    open spec fn view(&self) -> GgufErrorModel {
        match self {
            GgufError::NotFound(k) => GgufErrorModel::NotFound(k@),
            GgufError::NotString(k) => GgufErrorModel::NotString(k@),
            GgufError::NotArray(k) => GgufErrorModel::NotArray(k@),
            GgufError::NonStringElement(k) => GgufErrorModel::NonStringElement(k@),
            GgufError::NotNumeric(k) => GgufErrorModel::NotNumeric(k@),
            GgufError::UnsupportedTokenizer(k) => GgufErrorModel::UnsupportedTokenizer(k@),
        }
    }
}

/// The string value of a key.
pub open spec fn spec_get_string(m: Seq<(Seq<char>, GgufModel)>, key: Seq<char>) -> Result<Seq<char>, GgufErrorModel> {
    match meta_get(m, key) {
        Some(GgufModel::Text(s)) => Ok(s),
        Some(_) => Err(GgufErrorModel::NotString(key)),
        None => Err(GgufErrorModel::NotFound(key)),
    }
}

/// All elements of an array are strings.
pub open spec fn all_texts(a: Seq<GgufModel>) -> bool {
    forall|i: int| 0 <= i < a.len() ==> (#[trigger] a[i]) is Text
}

/// The strings of an array of strings.
pub open spec fn texts_of(a: Seq<GgufModel>) -> Seq<Seq<char>> {
    Seq::new(a.len(), |i: int| a[i]->Text_0)
}

/// The string array value of a key.
pub open spec fn spec_get_string_array(m: Seq<(Seq<char>, GgufModel)>, key: Seq<char>) -> Result<Seq<Seq<char>>, GgufErrorModel> {
    match meta_get(m, key) {
        Some(GgufModel::Array(a)) => if all_texts(a) {
            Ok(texts_of(a))
        } else {
            Err(GgufErrorModel::NonStringElement(key))
        },
        Some(_) => Err(GgufErrorModel::NotArray(key)),
        None => Err(GgufErrorModel::NotFound(key)),
    }
}

/// The value of a numeric key as a `u32` (wider and signed values are
/// cut to their low 32 bits, as `as u32` does).
pub open spec fn spec_get_u32(m: Seq<(Seq<char>, GgufModel)>, key: Seq<char>) -> Result<u32, GgufErrorModel> {
    match meta_get(m, key) {
        Some(GgufModel::U32(v)) => Ok(v),
        Some(GgufModel::U64(v)) => Ok(v as u32),
        Some(GgufModel::I32(v)) => Ok(v as u32),
        Some(GgufModel::I64(v)) => Ok(v as u32),
        Some(_) => Err(GgufErrorModel::NotNumeric(key)),
        None => Err(GgufErrorModel::NotFound(key)),
    }
}

proof fn lemma_meta_get_skip(m: Seq<(Seq<char>, GgufModel)>, key: Seq<char>, i: int)
    requires
        0 <= i < m.len(),
        m[i].0 != key,
    ensures
        meta_get(m.skip(i), key) == meta_get(m.skip(i + 1), key),
{
    assert(m.skip(i).drop_first() =~= m.skip(i + 1));
}

impl GgufMetadata {
    /// The keys and value models of the metadata.
    pub open spec fn model(&self) -> Seq<(Seq<char>, GgufModel)> {
        entries_model(self.entries@)
    }

    /// The value of the first entry with the key, if any.
    pub fn get(&self, key: &str) -> (r: Option<&GgufValue>)
        ensures
            match r {
                Some(v) => meta_get(self.model(), key@) == Some(v@),
                None => meta_get(self.model(), key@) is None,
            },
    {
        let ghost m = self.model();
        let n = self.entries.len();
        let mut i: usize = 0;
        assert(m.skip(0) =~= m);
        while i < n
            invariant
                n == self.entries@.len(),
                m == self.model(),
                i <= n,
                meta_get(m, key@) == meta_get(m.skip(i as int), key@),
            decreases n - i,
        {
            let (k, v) = &self.entries[i];
            assert(m[i as int] == (k@, v@));
            if same_text(k.as_str(), key) {
                assert(m.skip(i as int)[0] == m[i as int]);
                return Some(v);
            }
            proof {
                lemma_meta_get_skip(m, key@, i as int);
            }
            i = i + 1;
        }
        None
    }

    /// The string value of a key.
    pub fn get_string(&self, key: &str) -> (r: Result<String, GgufError>)
        ensures
            match r {
                Ok(s) => spec_get_string(self.model(), key@) == Ok::<Seq<char>, GgufErrorModel>(s@),
                Err(e) => spec_get_string(self.model(), key@) == Err::<Seq<char>, GgufErrorModel>(e@),
            },
    {
        match self.get(key) {
            Some(GgufValue::Text(s)) => Ok(s.clone()),
            Some(_) => Err(GgufError::NotString(owned(key))),
            None => Err(GgufError::NotFound(owned(key))),
        }
    }

    /// The string array value of a key.
    pub fn get_string_array(&self, key: &str) -> (r: Result<Vec<String>, GgufError>)
        ensures
            match r {
                Ok(v) => spec_get_string_array(self.model(), key@) == Ok::<
                    Seq<Seq<char>>,
                    GgufErrorModel,
                >(views(v@)),
                Err(e) => spec_get_string_array(self.model(), key@) == Err::<
                    Seq<Seq<char>>,
                    GgufErrorModel,
                >(e@),
            },
    {
        let got = self.get(key);
        match got {
            Some(GgufValue::Array(arr)) => {
                let ghost a = gguf_model(GgufValue::Array(*arr))->Array_0;
                assert(a.len() == arr@.len());
                assert(meta_get(self.model(), key@) == Some(GgufModel::Array(a)));
                let mut result: Vec<String> = Vec::new();
                let n = arr.len();
                let mut i: usize = 0;
                while i < n
                    invariant
                        n == arr@.len(),
                        a == gguf_model(GgufValue::Array(*arr))->Array_0,
                        a.len() == n,
                        meta_get(self.model(), key@) == Some(GgufModel::Array(a)),
                        i <= n,
                        result@.len() == i,
                        forall|k: int| 0 <= k < i ==> (#[trigger] a[k]) is Text,
                        views(result@) == Seq::new(i as nat, |k: int| a[k]->Text_0),
                    decreases n - i,
                {
                    assert(a[i as int] == arr@[i as int]@);
                    match &arr[i] {
                        GgufValue::Text(s) => {
                            let ghost before = result@;
                            result.push(s.clone());
                            assert forall|k: int| 0 <= k < i + 1 implies #[trigger] views(result@)[k]
                                == a[k]->Text_0 by {
                                if k < i {
                                    assert(result@[k] == before[k]);
                                    assert(views(before)[k] == a[k]->Text_0);
                                }
                            }
                            assert(views(result@) =~= Seq::new(
                                (i + 1) as nat,
                                |k: int| a[k]->Text_0,
                            ));
                        },
                        _ => {
                            assert(!(a[i as int] is Text));
                            assert(!all_texts(a));
                            return Err(GgufError::NonStringElement(owned(key)));
                        },
                    }
                    i = i + 1;
                }
                assert(views(result@) =~= texts_of(a));
                Ok(result)
            },
            Some(_) => Err(GgufError::NotArray(owned(key))),
            None => Err(GgufError::NotFound(owned(key))),
        }
    }

    /// The value of a numeric key as a `u32`.
    pub fn get_u32(&self, key: &str) -> (r: Result<u32, GgufError>)
        ensures
            match r {
                Ok(v) => spec_get_u32(self.model(), key@) == Ok::<u32, GgufErrorModel>(v),
                Err(e) => spec_get_u32(self.model(), key@) == Err::<u32, GgufErrorModel>(e@),
            },
    {
        match self.get(key) {
            Some(GgufValue::U32(v)) => Ok(*v),
            Some(GgufValue::U64(v)) => Ok(*v as u32),
            Some(GgufValue::I32(v)) => Ok(*v as u32),
            Some(GgufValue::I64(v)) => Ok(*v as u32),
            Some(_) => Err(GgufError::NotNumeric(owned(key))),
            None => Err(GgufError::NotFound(owned(key))),
        }
    }
}

/// The kinds of tokenizer that a GGUF file can describe.
#[derive(Debug, Clone, Copy, PartialEq, Eq)]
pub enum TokenizerKind {
    /// Byte-pair encoding, as in GPT-2 ("gpt2")
    Bpe,
    /// SentencePiece, as in LLaMA and Qwen ("llama", "sentencepiece")
    SentencePiece,
    /// WordPiece, as in BERT ("bert")
    WordPiece,
}

/// The tokenizer kind that a name selects.
pub open spec fn spec_tokenizer_kind(name: Seq<char>) -> Option<TokenizerKind> {
    if name == "gpt2"@ {
        Some(TokenizerKind::Bpe)
    } else if name == "llama"@ || name == "sentencepiece"@ {
        Some(TokenizerKind::SentencePiece)
    } else if name == "bert"@ {
        Some(TokenizerKind::WordPiece)
    } else {
        None
    }
}

/// The tokenizer kind that a name selects; other names are refused.
pub fn tokenizer_kind(name: &str) -> (r: Result<TokenizerKind, GgufError>)
    ensures
        match r {
            Ok(k) => spec_tokenizer_kind(name@) == Some(k),
            Err(e) => spec_tokenizer_kind(name@) is None && e@ == GgufErrorModel::UnsupportedTokenizer(
                name@,
            ),
        },
{
    if same_text(name, "gpt2") {
        Ok(TokenizerKind::Bpe)
    } else if same_text(name, "llama") || same_text(name, "sentencepiece") {
        Ok(TokenizerKind::SentencePiece)
    } else if same_text(name, "bert") {
        Ok(TokenizerKind::WordPiece)
    } else {
        Err(GgufError::UnsupportedTokenizer(owned(name)))
    }
}

/// The special token with the given id, when the id is in the vocabulary.
pub open spec fn special_entry(tokens: Seq<Seq<char>>, id: Option<u32>) -> Seq<(u32, Seq<char>)> {
    match id {
        Some(i) => if (i as int) < tokens.len() {
            seq![(i, tokens[i as int])]
        } else {
            Seq::empty()
        },
        None => Seq::empty(),
    }
}

/// The special tokens to add, in order: beginning of sequence, end of
/// sequence, unknown; each only when its id is in the vocabulary.
pub open spec fn special_tokens(tokens: Seq<Seq<char>>, bos: Option<u32>, eos: Option<u32>, unk: Option<u32>) -> Seq<(u32, Seq<char>)> {
    special_entry(tokens, bos) + special_entry(tokens, eos) + special_entry(tokens, unk)
}

/// Pairs of ids and strings as ids and characters.
pub open spec fn id_texts(v: Seq<(u32, String)>) -> Seq<(u32, Seq<char>)> {
    Seq::new(v.len(), |i: int| (v[i].0, v[i].1@))
}

fn push_special(out: &mut Vec<(u32, String)>, tokens: &Vec<String>, id: Option<u32>)
    ensures
        id_texts(final(out)@) == id_texts(old(out)@) + special_entry(views(tokens@), id),
{
    let ghost before = id_texts(out@);
    match id {
        Some(i) => {
            if (i as usize) < tokens.len() {
                out.push((i, tokens[i as usize].clone()));
                assert(id_texts(out@) =~= before + seq![(i, views(tokens@)[i as int])]);
            } else {
                assert(id_texts(out@) =~= before + Seq::<(u32, Seq<char>)>::empty());
            }
        },
        None => {
            assert(id_texts(out@) =~= before + Seq::<(u32, Seq<char>)>::empty());
        },
    }
}

/// The special tokens to add (see [`special_tokens`]).
pub fn added_tokens(tokens: &Vec<String>, bos: Option<u32>, eos: Option<u32>, unk: Option<u32>) -> (r: Vec<(u32, String)>)
    ensures
        id_texts(r@) == special_tokens(views(tokens@), bos, eos, unk),
{
    let mut out: Vec<(u32, String)> = Vec::new();
    assert(id_texts(out@) =~= Seq::<(u32, Seq<char>)>::empty());
    push_special(&mut out, tokens, bos);
    push_special(&mut out, tokens, eos);
    push_special(&mut out, tokens, unk);
    assert(Seq::<(u32, Seq<char>)>::empty() + special_entry(views(tokens@), bos) =~= special_entry(
        views(tokens@),
        bos,
    ));
    out
}

/// The text of the unknown token: the vocabulary's entry for its id,
/// when there is one, else the default.
pub open spec fn spec_unk_token(tokens: Seq<Seq<char>>, unk: Option<u32>, default: Seq<char>) -> Seq<char> {
    match unk {
        Some(i) => if (i as int) < tokens.len() {
            tokens[i as int]
        } else {
            default
        },
        None => default,
    }
}

/// The text of the unknown token (see [`spec_unk_token`]).
pub fn unk_token(tokens: &Vec<String>, unk: Option<u32>, default: &str) -> (r: String)
    ensures
        r@ == spec_unk_token(views(tokens@), unk, default@),
{
    match unk {
        Some(i) => if (i as usize) < tokens.len() {
            tokens[i as usize].clone()
        } else {
            owned(default)
        },
        None => owned(default),
    }
}

/// What a tokenizer is built from.
pub struct TokenizerSpec {
    pub kind: TokenizerKind,
    /// The vocabulary, by id
    pub tokens: Vec<String>,
    /// The merges of a BPE tokenizer (empty for the others)
    pub merges: Vec<String>,
    /// The special tokens, with their ids
    pub added: Vec<(u32, String)>,
    /// The unknown token's text (BPE and WordPiece)
    pub unk_token: String,
    /// The unknown token's id (SentencePiece)
    pub unk_id: Option<u32>,
}

/// An optional value from a result.
pub open spec fn ok_of<T, E>(r: Result<T, E>) -> Option<T> {
    match r {
        Ok(v) => Some(v),
        Err(_) => None,
    }
}

/// The id of the unknown token: under "tokenizer.ggml.unknown_token_id",
/// or else under "tokenizer.ggml.unk_token_id".
pub open spec fn spec_unk_id(m: Seq<(Seq<char>, GgufModel)>) -> Option<u32> {
    match spec_get_u32(m, "tokenizer.ggml.unknown_token_id"@) {
        Ok(v) => Some(v),
        Err(_) => ok_of(spec_get_u32(m, "tokenizer.ggml.unk_token_id"@)),
    }
}

/// The tokenizer kind's name: under "tokenizer.ggml.model", "llama" when
/// that is missing or not a string.
pub open spec fn spec_kind_name(m: Seq<(Seq<char>, GgufModel)>) -> Seq<char> {
    match spec_get_string(m, "tokenizer.ggml.model"@) {
        Ok(s) => s,
        Err(_) => "llama"@,
    }
}

impl GgufMetadata {
    /// What the tokenizer is built from: the kind (see [`spec_kind_name`]),
    /// the vocabulary ("tokenizer.ggml.tokens"), the merges of a BPE
    /// tokenizer ("tokenizer.ggml.merges"), the special tokens (the ids
    /// "tokenizer.ggml.bos_token_id", "tokenizer.ggml.eos_token_id" and
    /// [`spec_unk_id`], where they can be read), and the unknown token,
    /// "<|endoftext|>" for BPE and "[UNK]" for WordPiece by default. The
    /// vocabulary is read first, then the kind is checked, then the merges.
    pub fn tokenizer_spec(&self) -> (r: Result<TokenizerSpec, GgufError>)
        ensures
            ({
                let m = self.model();
                let name = spec_kind_name(m);
                let toks = spec_get_string_array(m, "tokenizer.ggml.tokens"@);
                match r {
                    Ok(t) => {
                        &&& toks is Ok && views(t.tokens@) == toks->Ok_0
                        &&& spec_tokenizer_kind(name) == Some(t.kind)
                        &&& id_texts(t.added@) == special_tokens(
                            toks->Ok_0,
                            ok_of(spec_get_u32(m, "tokenizer.ggml.bos_token_id"@)),
                            ok_of(spec_get_u32(m, "tokenizer.ggml.eos_token_id"@)),
                            spec_unk_id(m),
                        )
                        &&& t.unk_id == spec_unk_id(m)
                        &&& t.kind == TokenizerKind::Bpe ==> {
                            &&& spec_get_string_array(m, "tokenizer.ggml.merges"@) is Ok
                            &&& views(t.merges@) == spec_get_string_array(
                                m,
                                "tokenizer.ggml.merges"@,
                            )->Ok_0
                            &&& t.unk_token@ == spec_unk_token(
                                toks->Ok_0,
                                spec_unk_id(m),
                                "<|endoftext|>"@,
                            )
                        }
                        &&& t.kind == TokenizerKind::WordPiece ==> t.unk_token@ == spec_unk_token(
                            toks->Ok_0,
                            spec_unk_id(m),
                            "[UNK]"@,
                        ) && t.merges@.len() == 0
                        &&& t.kind == TokenizerKind::SentencePiece ==> t.merges@.len() == 0
                    },
                    Err(e) => {
                        ||| toks == Err::<Seq<Seq<char>>, GgufErrorModel>(e@)
                        ||| toks is Ok && spec_tokenizer_kind(name) is None && e@
                            == GgufErrorModel::UnsupportedTokenizer(name)
                        ||| toks is Ok && spec_tokenizer_kind(name) == Some(TokenizerKind::Bpe)
                            && spec_get_string_array(m, "tokenizer.ggml.merges"@)
                            == Err::<Seq<Seq<char>>, GgufErrorModel>(e@)
                    },
                }
            }),
    {
        let name = match self.get_string("tokenizer.ggml.model") {
            Ok(s) => s,
            Err(_) => owned("llama"),
        };
        let tokens = match self.get_string_array("tokenizer.ggml.tokens") {
            Ok(t) => t,
            Err(e) => {
                return Err(e);
            },
        };
        let bos = match self.get_u32("tokenizer.ggml.bos_token_id") {
            Ok(v) => Some(v),
            Err(_) => None,
        };
        let eos = match self.get_u32("tokenizer.ggml.eos_token_id") {
            Ok(v) => Some(v),
            Err(_) => None,
        };
        let unk = match self.get_u32("tokenizer.ggml.unknown_token_id") {
            Ok(v) => Some(v),
            Err(_) => match self.get_u32("tokenizer.ggml.unk_token_id") {
                Ok(v) => Some(v),
                Err(_) => None,
            },
        };
        let kind = match tokenizer_kind(name.as_str()) {
            Ok(k) => k,
            Err(e) => {
                return Err(e);
            },
        };
        let added = added_tokens(&tokens, bos, eos, unk);
        match kind {
            TokenizerKind::Bpe => {
                let merges = match self.get_string_array("tokenizer.ggml.merges") {
                    Ok(m) => m,
                    Err(e) => {
                        return Err(e);
                    },
                };
                let unk_text = unk_token(&tokens, unk, "<|endoftext|>");
                Ok(TokenizerSpec { kind, tokens, merges, added, unk_token: unk_text, unk_id: unk })
            },
            TokenizerKind::SentencePiece => Ok(
                TokenizerSpec {
                    kind,
                    tokens,
                    merges: Vec::new(),
                    added,
                    unk_token: String::new(),
                    unk_id: unk,
                },
            ),
            TokenizerKind::WordPiece => {
                let unk_text = unk_token(&tokens, unk, "[UNK]");
                Ok(TokenizerSpec { kind, tokens, merges: Vec::new(), added, unk_token: unk_text, unk_id: unk })
            },
        }
    }
}

/// The first id that was found, in the order of the candidate tokens
/// looked up, or the default.
pub open spec fn spec_first_found(ids: Seq<Option<u32>>, default: u32) -> u32
    decreases ids.len(),
{
    if ids.len() == 0 {
        default
    } else {
        match ids[0] {
            Some(id) => id,
            None => spec_first_found(ids.drop_first(), default),
        }
    }
}

/// The first id that was found, or the default (see [`spec_first_found`]).
pub fn first_found(ids: &Vec<Option<u32>>, default: u32) -> (r: u32)
    ensures
        r == spec_first_found(ids@, default),
{
    let n = ids.len();
    let mut i: usize = 0;
    assert(ids@.skip(0) =~= ids@);
    while i < n
        invariant
            n == ids@.len(),
            i <= n,
            spec_first_found(ids@, default) == spec_first_found(ids@.skip(i as int), default),
        decreases n - i,
    {
        assert(ids@.skip(i as int)[0] == ids@[i as int]);
        match ids[i] {
            Some(id) => {
                return id;
            },
            None => {
                assert(ids@.skip(i as int).drop_first() =~= ids@.skip(i + 1));
            },
        }
        i = i + 1;
    }
    default
}

/// The model families, by how they name their end-of-sequence token.
#[derive(Debug, Clone, Copy, PartialEq, Eq)]
pub enum EosFamily {
    Llama,
    Gemma3,
    QuantizedQwen2,
    QuantizedQwen3,
    Qwen,
}

/// The tokens that may end a family's output, in the order to look them
/// up, and the id to use when the tokenizer knows none of them.
pub open spec fn spec_eos_candidates(f: EosFamily) -> (Seq<Seq<char>>, u32) {
    match f {
        EosFamily::Llama => (seq!["</s>"@], 2),
        EosFamily::Gemma3 => (seq!["<eos>"@, "</s>"@, "<end_of_turn>"@], 1),
        EosFamily::QuantizedQwen2 => (seq!["</s>"@, "<|endoftext|>"@, "<|im_end|>"@], 151643),
        EosFamily::QuantizedQwen3 => (
            seq!["<|im_end|>"@, "<|endoftext|>"@, "</s>"@, "<|end|>"@],
            151643,
        ),
        EosFamily::Qwen => (seq!["<|endoftext|>"@, "<|im_end|>"@, "</s>"@], 151643),
    }
}

/// The tokens that may end a family's output, and the default id.
pub fn eos_candidates(family: EosFamily) -> (r: (Vec<&'static str>, u32))
    ensures
        (Seq::new(r.0@.len(), |i: int| r.0@[i]@), r.1) == spec_eos_candidates(family),
{
    let r = match family {
        EosFamily::Llama => (vec!["</s>"], 2u32),
        EosFamily::Gemma3 => (vec!["<eos>", "</s>", "<end_of_turn>"], 1u32),
        EosFamily::QuantizedQwen2 => (vec!["</s>", "<|endoftext|>", "<|im_end|>"], 151643u32),
        EosFamily::QuantizedQwen3 => (
            vec!["<|im_end|>", "<|endoftext|>", "</s>", "<|end|>"],
            151643u32,
        ),
        EosFamily::Qwen => (vec!["<|endoftext|>", "<|im_end|>", "</s>"], 151643u32),
    };
    assert(Seq::new(r.0@.len(), |i: int| r.0@[i]@) =~= spec_eos_candidates(family).0);
    r
}

/// What the tokenizer's vocabulary holds: the id of each token that it
/// knows (its added tokens and the tokens of its model).
pub uninterp spec fn token_ids(t: Tokenizer) -> Map<Seq<char>, u32>;

/// The id that a vocabulary gives a token, if it knows it.
pub open spec fn vocab_lookup(vocab: Map<Seq<char>, u32>, token: Seq<char>) -> Option<u32> {
    if vocab.contains_key(token) {
        Some(vocab[token])
    } else {
        None
    }
}

/// `tokenizers::Tokenizer::token_to_id`: the id of a token in the
/// tokenizer's vocabulary (an added token first, else the model's), if
/// it has one.
#[verifier::external_body]
fn token_to_id(tokenizer: &Tokenizer, token: &str) -> (r: Option<u32>)
    ensures
        r == vocab_lookup(token_ids(*tokenizer), token@),
{
    tokenizer.token_to_id(token)
}

/// The ids that a vocabulary gives each of the tokens.
pub open spec fn lookups(vocab: Map<Seq<char>, u32>, tokens: Seq<Seq<char>>) -> Seq<Option<u32>> {
    Seq::new(tokens.len(), |i: int| vocab_lookup(vocab, tokens[i]))
}

/// The end-of-sequence token of a family's model: the id of the first of
/// its candidate tokens that the tokenizer knows, else the family's default.
pub fn eos_token_id(family: EosFamily, tokenizer: &Tokenizer) -> (r: u32)
    ensures
        r == spec_first_found(
            lookups(token_ids(*tokenizer), spec_eos_candidates(family).0),
            spec_eos_candidates(family).1,
        ),
{
    let (candidates, default) = eos_candidates(family);
    let ghost names = spec_eos_candidates(family).0;
    let ghost want = lookups(token_ids(*tokenizer), names);
    let mut ids: Vec<Option<u32>> = Vec::new();
    let n = candidates.len();
    let mut i: usize = 0;
    assert(names.len() == n) by {
        assert(Seq::new(candidates@.len(), |k: int| candidates@[k]@).len() == n);
    }
    while i < n
        invariant
            n == candidates@.len(),
            names == Seq::new(candidates@.len(), |k: int| candidates@[k]@),
            want == lookups(token_ids(*tokenizer), names),
            i <= n,
            ids@ == want.take(i as int),
        decreases n - i,
    {
        let id = token_to_id(tokenizer, candidates[i]);
        assert(names[i as int] == candidates@[i as int]@);
        ids.push(id);
        assert(ids@ =~= want.take(i + 1));
        i = i + 1;
    }
    assert(ids@ =~= want);
    first_found(&ids, default)
}

} // verus!
