use spnl::gguf::{eos_token_id, EosFamily};
use spnl::flatten::{
    chat_messages, chat_prompt, contentify, extract_messages, messagify, tokenize_with_chat_template,
    TokenizeError, UnsupportedQuery,
};
use spnl::message::Message;
use spnl::query::{Batch, Bulk, Generate, GenerateMetadata, Query};

fn user(s: &str) -> Query {
    Query::Message(Message::User(s.into()))
}

fn system(s: &str) -> Query {
    Query::Message(Message::System(s.into()))
}

fn assistant(s: &str) -> Query {
    Query::Message(Message::Assistant(s.into()))
}

#[test]
fn test_extract_messages() {
    let msg = Message::User("Hello".to_string());
    let input = Query::Message(msg.clone());
    let messages = extract_messages(&input);
    assert_eq!(messages.len(), 1);
    assert_eq!(messages[0], msg);
}

#[test]
fn extract_messages_flattens_lists_in_order() {
    let g = Query::Generate(Generate::new(GenerateMetadata::new("m"), user("hidden")));
    let q = Query::Sequence(vec![
        system("s"),
        Query::Par(vec![user("a"), g.clone()]),
        Query::Plus(vec![Query::Cross(vec![assistant("b")]), user("c")]),
    ]);
    assert_eq!(
        extract_messages(&q),
        vec![
            Message::System("s".into()),
            Message::User("a".into()),
            Message::Assistant("b".into()),
            Message::User("c".into()),
        ]
    );
    assert_eq!(extract_messages(&g), vec![]);
}

#[test]
fn chat_messages_refuses_other_queries() {
    let ok = Query::Plus(vec![user("a"), system("b")]);
    assert_eq!(
        chat_messages(&ok),
        Ok(vec![Message::User("a".into()), Message::System("b".into())])
    );
    let g = Query::Generate(Generate::new(GenerateMetadata::new("m"), user("x")));
    assert_eq!(chat_messages(&Query::Sequence(vec![user("a"), g])), Err(UnsupportedQuery));
}

#[test]
fn messagify_keeps_roles_and_drops_empty_text() {
    let g = Query::Generate(Generate::new(GenerateMetadata::new("m"), user("x")));
    let q = Query::Sequence(vec![
        system("sys"),
        assistant("ans"),
        user("question"),
        user(""),
        g,
    ]);
    assert_eq!(
        messagify(&q),
        vec![
            Message::System("sys".into()),
            Message::Assistant("ans".into()),
            Message::User("question".into()),
        ]
    );
}

#[test]
fn contentify_gives_texts() {
    let q = Query::Plus(vec![
        assistant("a"),
        system(""),
        user("u"),
        user(""),
        Query::Par(vec![user("hidden in par")]),
    ]);
    assert_eq!(contentify(&q), vec!["a".to_string(), "".to_string(), "u".to_string()]);
    let b = Query::Bulk(Bulk::Batch(Batch {
        metadata: GenerateMetadata::new("m"),
        inputs: vec!["x".into()],
    }));
    assert_eq!(contentify(&b), Vec::<String>::new());
}

#[test]
fn chat_prompt_renders_with_the_template_and_no_think() {
    let q = user("hi");
    assert_eq!(
        chat_prompt(&q, "ibm-granite/granite-3.3-8b-instruct").unwrap(),
        "<|start_of_role|>user<|end_of_role|>hi<|end_of_text|>\n<|start_of_role|>assistant<|end_of_role|>/no_think"
    );
    assert!(chat_prompt(&q, "no-such-family").is_err());
}

#[test]
fn tokenize_with_unknown_template_fails() {
    let tokenizer = tokenizers::Tokenizer::new(tokenizers::models::bpe::BPE::default());
    assert_eq!(
        tokenize_with_chat_template(&user("hi"), &tokenizer, "no-such-family"),
        Err(TokenizeError::UnknownTemplate)
    );
}

#[test]
fn chat_request_of_plain_chat_is_its_messages() {
    let q = Query::Sequence(vec![
        system("s"),
        Query::Plus(vec![user("u"), assistant("a")]),
        Query::Par(vec![user("v")]),
    ]);
    assert_eq!(messagify(&q), extract_messages(&q));
}

fn word_tokenizer() -> tokenizers::Tokenizer {
    let json = r#"{"version":"1.0","truncation":null,"padding":null,"added_tokens":[],
        "normalizer":null,"pre_tokenizer":{"type":"Whitespace"},"post_processor":null,
        "decoder":null,"model":{"type":"WordLevel","vocab":{"[UNK]":0,"hi":1,"</s>":7,"<|im_end|>":5},
        "unk_token":"[UNK]"}}"#;
    tokenizers::Tokenizer::from_bytes(json.as_bytes()).unwrap()
}

#[test]
fn tokenize_with_known_template_encodes_the_prompt() {
    let tokenizer = word_tokenizer();
    let ids = tokenize_with_chat_template(&user("hi"), &tokenizer, "llama3").unwrap();
    assert!(!ids.is_empty());
    assert!(ids.contains(&1));
    let prompt = chat_prompt(&user("hi"), "llama3").unwrap();
    let direct = tokenizer.encode(prompt, false).unwrap();
    assert_eq!(ids, direct.get_ids().to_vec());
}

#[test]
fn eos_token_ids_from_the_vocabulary() {
    let tokenizer = word_tokenizer();
    assert_eq!(eos_token_id(EosFamily::Llama, &tokenizer), 7);
    assert_eq!(eos_token_id(EosFamily::Qwen, &tokenizer), 5);
    assert_eq!(eos_token_id(EosFamily::Gemma3, &tokenizer), 7);
    let empty = tokenizers::Tokenizer::new(tokenizers::models::bpe::BPE::default());
    assert_eq!(eos_token_id(EosFamily::Gemma3, &empty), 1);
    assert_eq!(eos_token_id(EosFamily::QuantizedQwen3, &empty), 151643);
}
