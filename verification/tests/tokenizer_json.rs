use spnl::gguf::{TokenizerKind, TokenizerSpec};
use spnl::tokenizer_json::tokenizer_json;

fn spec(kind: TokenizerKind) -> TokenizerSpec {
    TokenizerSpec {
        kind,
        tokens: vec!["a".to_string(), "b".to_string(), "ab".to_string(), "[UNK]".to_string()],
        merges: if kind == TokenizerKind::Bpe { vec!["a b".to_string()] } else { vec![] },
        added: vec![(3, "[UNK]".to_string())],
        unk_token: "[UNK]".to_string(),
        unk_id: Some(3),
    }
}

#[test]
fn tokenizer_json_loads_for_each_kind() {
    for kind in [TokenizerKind::Bpe, TokenizerKind::SentencePiece, TokenizerKind::WordPiece] {
        let text = tokenizer_json(&spec(kind));
        let value: serde_json::Value = serde_json::from_str(&text).unwrap();
        assert_eq!(value["version"], "1.0");
        assert_eq!(value["added_tokens"][0]["id"], 3);
        assert_eq!(value["added_tokens"][0]["content"], "[UNK]");
        let tokenizer = tokenizers::Tokenizer::from_bytes(text.as_bytes()).unwrap();
        assert_eq!(tokenizer.token_to_id("[UNK]"), Some(3));
    }
    let bpe: serde_json::Value = serde_json::from_str(&tokenizer_json(&spec(TokenizerKind::Bpe))).unwrap();
    assert_eq!(bpe["model"]["type"], "BPE");
    assert_eq!(bpe["model"]["vocab"]["ab"], 2);
    assert_eq!(bpe["model"]["merges"][0], "a b");
    let sp: serde_json::Value =
        serde_json::from_str(&tokenizer_json(&spec(TokenizerKind::SentencePiece))).unwrap();
    assert_eq!(sp["model"]["unk_id"], 3);
    assert_eq!(sp["pre_tokenizer"]["replacement"], "\u{2581}");
}

#[test]
fn tokenizer_json_escapes_strings() {
    let mut s = spec(TokenizerKind::WordPiece);
    s.tokens = vec!["q\"b\\s\n\u{1}é".to_string()];
    s.added = vec![];
    s.unk_id = None;
    let text = tokenizer_json(&s);
    assert!(text.contains(r#""q\"b\\s\n\u0001é":0"#));
    let value: serde_json::Value = serde_json::from_str(&text).unwrap();
    assert_eq!(value["model"]["vocab"]["q\"b\\s\n\u{1}é"], 0);
    let mut p = spec(TokenizerKind::SentencePiece);
    p.unk_id = None;
    let v: serde_json::Value = serde_json::from_str(&tokenizer_json(&p)).unwrap();
    assert!(v["model"]["unk_id"].is_null());
}
