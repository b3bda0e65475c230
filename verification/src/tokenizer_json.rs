//! The `tokenizer.json` text of a tokenizer read from GGUF metadata, in
//! the form that the `tokenizers` crate loads.

use vstd::prelude::*;

use crate::gguf::{id_texts, TokenizerKind, TokenizerSpec};
use crate::text::{decimal, decimal_string, join, push_text, views};

verus! {

broadcast use vstd::std_specs::vec::group_vec_axioms;

/// The hexadecimal digit of `n` (lower case).
pub open spec fn hex_digit(n: nat) -> char {
    "0123456789abcdef"@[n as int]
}

/// A character inside a JSON string: quote and backslash escaped, the
/// control characters as `\b`, `\f`, `\n`, `\r`, `\t` or `\u00XX`.
pub open spec fn json_char(c: char) -> Seq<char> {
    if c == '"' {
        "\\\""@
    } else if c == '\\' {
        "\\\\"@
    } else if c == '\n' {
        "\\n"@
    } else if c == '\r' {
        "\\r"@
    } else if c == '\t' {
        "\\t"@
    } else if c == '\u{8}' {
        "\\b"@
    } else if c == '\u{c}' {
        "\\f"@
    } else if (c as u32) < 32 {
        "\\u00"@ + seq![hex_digit(((c as u32) / 16) as nat), hex_digit(((c as u32) % 16) as nat)]
    } else {
        seq![c]
    }
}

/// The characters of a text inside a JSON string.
pub open spec fn json_escaped(s: Seq<char>) -> Seq<char>
    decreases s.len(),
{
    if s.len() == 0 {
        Seq::empty()
    } else {
        json_escaped(s.drop_last()) + json_char(s.last())
    }
}

/// A text as a JSON string.
pub open spec fn json_string(s: Seq<char>) -> Seq<char> {
    "\""@ + json_escaped(s) + "\""@
}

/// A JSON array of the given items.
pub open spec fn json_array(items: Seq<Seq<char>>) -> Seq<char> {
    "["@ + join(items, ","@) + "]"@
}

/// The vocabulary as a JSON object: each token with its index.
pub open spec fn vocab_object(tokens: Seq<Seq<char>>) -> Seq<char> {
    "{"@ + join(Seq::new(tokens.len(), |i: int| json_string(tokens[i]) + ":"@ + decimal(i as nat)), ","@)
        + "}"@
}

/// The vocabulary of a unigram model: each token with score 0.
pub open spec fn unigram_vocab(tokens: Seq<Seq<char>>) -> Seq<char> {
    json_array(Seq::new(tokens.len(), |i: int| "["@ + json_string(tokens[i]) + ",0.0]"@))
}

/// One special token.
pub open spec fn added_token(id: u32, content: Seq<char>) -> Seq<char> {
    "{\"id\":"@ + decimal(id as nat) + ",\"content\":"@ + json_string(content)
        + ",\"single_word\":false,\"lstrip\":false,\"rstrip\":false,\"normalized\":false,\"special\":true}"@
}

/// The special tokens.
pub open spec fn added_tokens_json(added: Seq<(u32, Seq<char>)>) -> Seq<char> {
    json_array(Seq::new(added.len(), |i: int| added_token(added[i].0, added[i].1)))
}

/// The texts as a JSON array of strings.
pub open spec fn string_array(items: Seq<Seq<char>>) -> Seq<char> {
    json_array(Seq::new(items.len(), |i: int| json_string(items[i])))
}

/// An optional id as JSON.
pub open spec fn json_id(id: Option<u32>) -> Seq<char> {
    match id {
        Some(v) => decimal(v as nat),
        None => "null"@,
    }
}

/// The part of the document before the special tokens.
pub open spec fn doc_head() -> Seq<char> {
    "{\"version\":\"1.0\",\"truncation\":null,\"padding\":null,\"added_tokens\":"@
}

/// The `tokenizer.json` text: BPE with byte-level pre-tokenizing (GPT-2),
/// a unigram model with Metaspace (SentencePiece), or WordPiece.
pub open spec fn spec_tokenizer_json(
    kind: TokenizerKind,
    tokens: Seq<Seq<char>>,
    merges: Seq<Seq<char>>,
    added: Seq<(u32, Seq<char>)>,
    unk_token: Seq<char>,
    unk_id: Option<u32>,
) -> Seq<char> {
    match kind {
        TokenizerKind::Bpe => doc_head() + added_tokens_json(added) + bpe_middle() + json_string(unk_token)
            + bpe_options() + vocab_object(tokens) + ",\"merges\":"@ + string_array(merges) + "}}"@,
        TokenizerKind::SentencePiece => doc_head() + added_tokens_json(added) + unigram_middle()
            + json_id(unk_id) + ",\"vocab\":"@ + unigram_vocab(tokens) + "}}"@,
        TokenizerKind::WordPiece => doc_head() + added_tokens_json(added) + wordpiece_middle()
            + json_string(unk_token) + wordpiece_options() + vocab_object(tokens) + "}}"@,
    }
}

/// BPE: from the normalizer to the unknown token.
pub open spec fn bpe_middle() -> Seq<char> {
    ",\"normalizer\":null,\"pre_tokenizer\":{\"type\":\"ByteLevel\",\"add_prefix_space\":false,\"trim_offsets\":true,\"use_regex\":true},\"post_processor\":null,\"decoder\":{\"type\":\"ByteLevel\",\"add_prefix_space\":false,\"trim_offsets\":true,\"use_regex\":true},\"model\":{\"type\":\"BPE\",\"dropout\":null,\"unk_token\":"@
}

/// BPE: the options between the unknown token and the vocabulary.
pub open spec fn bpe_options() -> Seq<char> {
    ",\"continuing_subword_prefix\":null,\"end_of_word_suffix\":null,\"fuse_unk\":false,\"byte_fallback\":false,\"vocab\":"@
}

/// SentencePiece: from the normalizer to the unknown id.
pub open spec fn unigram_middle() -> Seq<char> {
    ",\"normalizer\":null,\"pre_tokenizer\":{\"type\":\"Metaspace\",\"replacement\":\"\u{2581}\",\"add_prefix_space\":true,\"prepend_scheme\":\"always\"},\"post_processor\":null,\"decoder\":{\"type\":\"Metaspace\",\"replacement\":\"\u{2581}\",\"add_prefix_space\":true,\"prepend_scheme\":\"always\"},\"model\":{\"type\":\"Unigram\",\"unk_id\":"@
}

/// WordPiece: from the normalizer to the unknown token.
pub open spec fn wordpiece_middle() -> Seq<char> {
    ",\"normalizer\":null,\"pre_tokenizer\":{\"type\":\"Whitespace\"},\"post_processor\":null,\"decoder\":{\"type\":\"WordPiece\",\"prefix\":\"##\",\"cleanup\":true},\"model\":{\"type\":\"WordPiece\",\"unk_token\":"@
}

/// WordPiece: the options between the unknown token and the vocabulary.
pub open spec fn wordpiece_options() -> Seq<char> {
    ",\"continuing_subword_prefix\":\"##\",\"max_input_chars_per_word\":100,\"vocab\":"@
}

proof fn lemma_join_step(s: Seq<Seq<char>>, i: int, sep: Seq<char>)
    requires
        0 <= i < s.len(),
    ensures
        join(s.take(i + 1), sep) == if i == 0 {
            s[0]
        } else {
            join(s.take(i), sep) + sep + s[i]
        },
{
    let t = s.take(i + 1);
    if i > 0 {
        assert(t.drop_last() =~= s.take(i));
        assert(t.last() == s[i]);
    } else {
        assert(t.len() == 1);
        assert(t[0] == s[0]);
    }
}

/// Append `s` as a JSON string.
fn push_json_string(out: &mut String, s: &str)
    ensures
        final(out)@ == old(out)@ + json_string(s@),
{
    let ghost start = out@;
    let hex = "0123456789abcdef";
    proof {
        reveal_strlit("0123456789abcdef");
    }
    push_text(out, "\"");
    let n = s.unicode_len();
    let mut i: usize = 0;
    assert(s@.take(0) =~= Seq::<char>::empty());
    while i < n
        invariant
            n == s@.len(),
            i <= n,
            hex@ == "0123456789abcdef"@,
            hex@.len() == 16,
            out@ == start + "\""@ + json_escaped(s@.take(i as int)),
        decreases n - i,
    {
        let c = s.get_char(i);
        let ghost before = out@;
        if c == '"' {
            push_text(out, "\\\"");
        } else if c == '\\' {
            push_text(out, "\\\\");
        } else if c == '\n' {
            push_text(out, "\\n");
        } else if c == '\r' {
            push_text(out, "\\r");
        } else if c == '\t' {
            push_text(out, "\\t");
        } else if c == '\u{8}' {
            push_text(out, "\\b");
        } else if c == '\u{c}' {
            push_text(out, "\\f");
        } else if (c as u32) < 32 {
            push_text(out, "\\u00");
            let v = c as u32;
            let a = (v / 16) as usize;
            let b = (v % 16) as usize;
            push_text(out, hex.substring_char(a, a + 1));
            push_text(out, hex.substring_char(b, b + 1));
            assert(hex@.subrange(a as int, a + 1) =~= seq![hex_digit(a as nat)]);
            assert(hex@.subrange(b as int, b + 1) =~= seq![hex_digit(b as nat)]);
            assert(out@ =~= before + json_char(c));
        } else {
            push_text(out, s.substring_char(i, i + 1));
            assert(s@.subrange(i as int, i + 1) =~= seq![c]);
        }
        assert(out@ =~= before + json_char(c));
        assert(s@.take(i + 1).drop_last() =~= s@.take(i as int));
        assert(s@.take(i + 1).last() == c);
        assert(start + "\""@ + json_escaped(s@.take(i as int)) + json_char(c) =~= start + "\""@
            + json_escaped(s@.take(i + 1)));
        i = i + 1;
    }
    assert(s@.take(n as int) =~= s@);
    push_text(out, "\"");
    assert(out@ =~= old(out)@ + json_string(s@));
}

/// The texts as a JSON array of strings.
fn string_array_text(items: &Vec<String>) -> (r: String)
    ensures
        r@ == string_array(views(items@)),
{
    let ghost elems = Seq::new(items@.len(), |i: int| json_string(items@[i]@));
    let mut out = String::new();
    push_text(&mut out, "[");
    let n = items.len();
    let mut i: usize = 0;
    while i < n
        invariant
            n == items@.len(),
            i <= n,
            elems == Seq::new(items@.len(), |i: int| json_string(items@[i]@)),
            out@ == "["@ + join(elems.take(i as int), ","@),
        decreases n - i,
    {
        let ghost before = out@;
        if i > 0 {
            push_text(&mut out, ",");
        }
        push_json_string(&mut out, items[i].as_str());
        proof {
            lemma_join_step(elems, i as int, ","@);
            if i == 0 {
                assert(elems.take(0) =~= Seq::<Seq<char>>::empty());
            }
            assert(out@ =~= "["@ + join(elems.take(i + 1), ","@));
        }
        i = i + 1;
    }
    assert(elems.take(n as int) =~= elems);
    push_text(&mut out, "]");
    assert(Seq::new(views(items@).len(), |i: int| json_string(views(items@)[i])) =~= elems);
    out
}

/// The vocabulary as a JSON object.
fn vocab_object_text(tokens: &Vec<String>) -> (r: String)
    ensures
        r@ == vocab_object(views(tokens@)),
{
    let ghost elems = Seq::new(
        tokens@.len(),
        |i: int| json_string(tokens@[i]@) + ":"@ + decimal(i as nat),
    );
    let mut out = String::new();
    push_text(&mut out, "{");
    let n = tokens.len();
    let mut i: usize = 0;
    while i < n
        invariant
            n == tokens@.len(),
            i <= n,
            elems == Seq::new(tokens@.len(), |i: int| json_string(tokens@[i]@) + ":"@ + decimal(i as nat)),
            out@ == "{"@ + join(elems.take(i as int), ","@),
        decreases n - i,
    {
        let ghost before = out@;
        if i > 0 {
            push_text(&mut out, ",");
        }
        let ghost mid = out@;
        push_json_string(&mut out, tokens[i].as_str());
        push_text(&mut out, ":");
        let d = decimal_string(i as u64);
        push_text(&mut out, d.as_str());
        proof {
            assert(out@ =~= mid + elems[i as int]);
            lemma_join_step(elems, i as int, ","@);
            if i == 0 {
                assert(elems.take(0) =~= Seq::<Seq<char>>::empty());
            }
            assert(out@ =~= "{"@ + join(elems.take(i + 1), ","@));
        }
        i = i + 1;
    }
    assert(elems.take(n as int) =~= elems);
    push_text(&mut out, "}");
    assert(Seq::new(
        views(tokens@).len(),
        |i: int| json_string(views(tokens@)[i]) + ":"@ + decimal(i as nat),
    ) =~= elems);
    out
}

/// The vocabulary of a unigram model as JSON.
fn unigram_vocab_text(tokens: &Vec<String>) -> (r: String)
    ensures
        r@ == unigram_vocab(views(tokens@)),
{
    let ghost elems = Seq::new(tokens@.len(), |i: int| "["@ + json_string(tokens@[i]@) + ",0.0]"@);
    let mut out = String::new();
    push_text(&mut out, "[");
    let n = tokens.len();
    let mut i: usize = 0;
    while i < n
        invariant
            n == tokens@.len(),
            i <= n,
            elems == Seq::new(tokens@.len(), |i: int| "["@ + json_string(tokens@[i]@) + ",0.0]"@),
            out@ == "["@ + join(elems.take(i as int), ","@),
        decreases n - i,
    {
        if i > 0 {
            push_text(&mut out, ",");
        }
        let ghost mid = out@;
        push_text(&mut out, "[");
        push_json_string(&mut out, tokens[i].as_str());
        push_text(&mut out, ",0.0]");
        proof {
            assert(out@ =~= mid + elems[i as int]);
            lemma_join_step(elems, i as int, ","@);
            if i == 0 {
                assert(elems.take(0) =~= Seq::<Seq<char>>::empty());
            }
            assert(out@ =~= "["@ + join(elems.take(i + 1), ","@));
        }
        i = i + 1;
    }
    assert(elems.take(n as int) =~= elems);
    push_text(&mut out, "]");
    assert(Seq::new(views(tokens@).len(), |i: int| "["@ + json_string(views(tokens@)[i]) + ",0.0]"@)
        =~= elems);
    out
}

/// The special tokens as JSON.
fn added_tokens_text(added: &Vec<(u32, String)>) -> (r: String)
    ensures
        r@ == added_tokens_json(id_texts(added@)),
{
    let ghost elems = Seq::new(added@.len(), |i: int| added_token(added@[i].0, added@[i].1@));
    let mut out = String::new();
    push_text(&mut out, "[");
    let n = added.len();
    let mut i: usize = 0;
    while i < n
        invariant
            n == added@.len(),
            i <= n,
            elems == Seq::new(added@.len(), |i: int| added_token(added@[i].0, added@[i].1@)),
            out@ == "["@ + join(elems.take(i as int), ","@),
        decreases n - i,
    {
        if i > 0 {
            push_text(&mut out, ",");
        }
        let ghost mid = out@;
        let (id, content) = &added[i];
        push_text(&mut out, "{\"id\":");
        let d = decimal_string(*id as u64);
        push_text(&mut out, d.as_str());
        push_text(&mut out, ",\"content\":");
        push_json_string(&mut out, content.as_str());
        push_text(
            &mut out,
            ",\"single_word\":false,\"lstrip\":false,\"rstrip\":false,\"normalized\":false,\"special\":true}",
        );
        proof {
            assert(out@ =~= mid + elems[i as int]);
            lemma_join_step(elems, i as int, ","@);
            if i == 0 {
                assert(elems.take(0) =~= Seq::<Seq<char>>::empty());
            }
            assert(out@ =~= "["@ + join(elems.take(i + 1), ","@));
        }
        i = i + 1;
    }
    assert(elems.take(n as int) =~= elems);
    push_text(&mut out, "]");
    let ghost a = id_texts(added@);
    assert(Seq::new(a.len(), |i: int| added_token(a[i].0, a[i].1)) =~= elems);
    out
}

/// The `tokenizer.json` text of the tokenizer (see [`spec_tokenizer_json`]).
pub fn tokenizer_json(spec: &TokenizerSpec) -> (r: String)
    ensures
        r@ == spec_tokenizer_json(
            spec.kind,
            views(spec.tokens@),
            views(spec.merges@),
            id_texts(spec.added@),
            spec.unk_token@,
            spec.unk_id,
        ),
{
    let mut out = String::new();
    push_text(&mut out, "{\"version\":\"1.0\",\"truncation\":null,\"padding\":null,\"added_tokens\":");
    let added = added_tokens_text(&spec.added);
    push_text(&mut out, added.as_str());
    match spec.kind {
        TokenizerKind::Bpe => {
            push_text(
                &mut out,
                ",\"normalizer\":null,\"pre_tokenizer\":{\"type\":\"ByteLevel\",\"add_prefix_space\":false,\"trim_offsets\":true,\"use_regex\":true},\"post_processor\":null,\"decoder\":{\"type\":\"ByteLevel\",\"add_prefix_space\":false,\"trim_offsets\":true,\"use_regex\":true},\"model\":{\"type\":\"BPE\",\"dropout\":null,\"unk_token\":",
            );
            push_json_string(&mut out, spec.unk_token.as_str());
            push_text(
                &mut out,
                ",\"continuing_subword_prefix\":null,\"end_of_word_suffix\":null,\"fuse_unk\":false,\"byte_fallback\":false,\"vocab\":",
            );
            let vocab = vocab_object_text(&spec.tokens);
            push_text(&mut out, vocab.as_str());
            push_text(&mut out, ",\"merges\":");
            let merges = string_array_text(&spec.merges);
            push_text(&mut out, merges.as_str());
            push_text(&mut out, "}}");
        },
        TokenizerKind::SentencePiece => {
            push_text(
                &mut out,
                ",\"normalizer\":null,\"pre_tokenizer\":{\"type\":\"Metaspace\",\"replacement\":\"\u{2581}\",\"add_prefix_space\":true,\"prepend_scheme\":\"always\"},\"post_processor\":null,\"decoder\":{\"type\":\"Metaspace\",\"replacement\":\"\u{2581}\",\"add_prefix_space\":true,\"prepend_scheme\":\"always\"},\"model\":{\"type\":\"Unigram\",\"unk_id\":",
            );
            match spec.unk_id {
                Some(v) => {
                    let d = decimal_string(v as u64);
                    push_text(&mut out, d.as_str());
                },
                None => {
                    push_text(&mut out, "null");
                },
            }
            push_text(&mut out, ",\"vocab\":");
            let vocab = unigram_vocab_text(&spec.tokens);
            push_text(&mut out, vocab.as_str());
            push_text(&mut out, "}}");
        },
        TokenizerKind::WordPiece => {
            push_text(
                &mut out,
                ",\"normalizer\":null,\"pre_tokenizer\":{\"type\":\"Whitespace\"},\"post_processor\":null,\"decoder\":{\"type\":\"WordPiece\",\"prefix\":\"##\",\"cleanup\":true},\"model\":{\"type\":\"WordPiece\",\"unk_token\":",
            );
            push_json_string(&mut out, spec.unk_token.as_str());
            push_text(&mut out, ",\"continuing_subword_prefix\":\"##\",\"max_input_chars_per_word\":100,\"vocab\":");
            let vocab = vocab_object_text(&spec.tokens);
            push_text(&mut out, vocab.as_str());
            push_text(&mut out, "}}");
        },
    }
    proof {
        let t = spec_tokenizer_json(
            spec.kind,
            views(spec.tokens@),
            views(spec.merges@),
            id_texts(spec.added@),
            spec.unk_token@,
            spec.unk_id,
        );
        assert(out@ =~= t);
    }
    out
}

} // verus!
