use spnl::gguf::{
    added_tokens, eos_candidates, first_found, tokenizer_kind, unk_token, EosFamily, GgufError,
    GgufMetadata, GgufValue, TokenizerKind,
};

fn meta(entries: Vec<(&str, GgufValue)>) -> GgufMetadata {
    GgufMetadata { entries: entries.into_iter().map(|(k, v)| (k.to_string(), v)).collect() }
}

fn texts(v: &[&str]) -> GgufValue {
    GgufValue::Array(v.iter().map(|s| GgufValue::Text(s.to_string())).collect())
}

#[test]
fn metadata_getters() {
    let m = meta(vec![
        ("name", GgufValue::Text("x".into())),
        ("n64", GgufValue::U64(0x1_0000_0005)),
        ("neg", GgufValue::I32(-1)),
        ("arr", texts(&["a", "b"])),
        ("mixed", GgufValue::Array(vec![GgufValue::Text("a".into()), GgufValue::U32(1)])),
        ("f", GgufValue::Other),
    ]);
    assert_eq!(m.get_string("name"), Ok("x".to_string()));
    assert_eq!(m.get_string("n64"), Err(GgufError::NotString("n64".into())));
    assert_eq!(m.get_string("zz"), Err(GgufError::NotFound("zz".into())));
    assert_eq!(m.get_u32("n64"), Ok(5));
    assert_eq!(m.get_u32("neg"), Ok(u32::MAX));
    assert_eq!(m.get_u32("f"), Err(GgufError::NotNumeric("f".into())));
    assert_eq!(m.get_string_array("arr"), Ok(vec!["a".to_string(), "b".to_string()]));
    assert_eq!(m.get_string_array("mixed"), Err(GgufError::NonStringElement("mixed".into())));
    assert_eq!(m.get_string_array("name"), Err(GgufError::NotArray("name".into())));
}

#[test]
fn kinds_and_special_tokens() {
    assert_eq!(tokenizer_kind("gpt2"), Ok(TokenizerKind::Bpe));
    assert_eq!(tokenizer_kind("llama"), Ok(TokenizerKind::SentencePiece));
    assert_eq!(tokenizer_kind("sentencepiece"), Ok(TokenizerKind::SentencePiece));
    assert_eq!(tokenizer_kind("bert"), Ok(TokenizerKind::WordPiece));
    assert_eq!(tokenizer_kind("rwkv"), Err(GgufError::UnsupportedTokenizer("rwkv".into())));
    let tokens: Vec<String> = vec!["<s>".into(), "</s>".into(), "<unk>".into()];
    assert_eq!(
        added_tokens(&tokens, Some(0), Some(1), Some(9)),
        vec![(0, "<s>".to_string()), (1, "</s>".to_string())]
    );
    assert_eq!(unk_token(&tokens, Some(2), "[UNK]"), "<unk>");
    assert_eq!(unk_token(&tokens, None, "[UNK]"), "[UNK]");
}

#[test]
fn tokenizer_specs() {
    let m = meta(vec![
        ("tokenizer.ggml.model", GgufValue::Text("gpt2".into())),
        ("tokenizer.ggml.tokens", texts(&["a", "b", "<eos>"])),
        ("tokenizer.ggml.merges", texts(&["a b"])),
        ("tokenizer.ggml.eos_token_id", GgufValue::U32(2)),
        ("tokenizer.ggml.unk_token_id", GgufValue::U32(0)),
    ]);
    let t = m.tokenizer_spec().unwrap();
    assert_eq!(t.kind, TokenizerKind::Bpe);
    assert_eq!(t.merges, vec!["a b".to_string()]);
    assert_eq!(t.added, vec![(2, "<eos>".to_string()), (0, "a".to_string())]);
    assert_eq!(t.unk_token, "a");
    assert_eq!(t.unk_id, Some(0));

    let m = meta(vec![("tokenizer.ggml.tokens", texts(&["x"]))]);
    let t = m.tokenizer_spec().unwrap();
    assert_eq!(t.kind, TokenizerKind::SentencePiece);
    assert!(t.merges.is_empty());

    let m = meta(vec![
        ("tokenizer.ggml.model", GgufValue::Text("gpt2".into())),
        ("tokenizer.ggml.tokens", texts(&["x"])),
    ]);
    assert_eq!(
        m.tokenizer_spec().err(),
        Some(GgufError::NotFound("tokenizer.ggml.merges".into()))
    );
    let m = meta(vec![("tokenizer.ggml.model", GgufValue::Text("rwkv".into()))]);
    assert_eq!(
        m.tokenizer_spec().err(),
        Some(GgufError::NotFound("tokenizer.ggml.tokens".into()))
    );
    let m = meta(vec![
        ("tokenizer.ggml.model", GgufValue::Text("bert".into())),
        ("tokenizer.ggml.tokens", texts(&["x"])),
    ]);
    let t = m.tokenizer_spec().unwrap();
    assert_eq!(t.kind, TokenizerKind::WordPiece);
    assert_eq!(t.unk_token, "[UNK]");
}

#[test]
fn eos_fallbacks() {
    assert_eq!(first_found(&vec![None, Some(5), Some(6)], 1), 5);
    assert_eq!(first_found(&vec![None, None], 1), 1);
    let (c, d) = eos_candidates(EosFamily::QuantizedQwen3);
    assert_eq!(c, vec!["<|im_end|>", "<|endoftext|>", "</s>", "<|end|>"]);
    assert_eq!(d, 151643);
    assert_eq!(eos_candidates(EosFamily::Llama), (vec!["</s>"], 2));
}
