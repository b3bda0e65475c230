use spnl::message::Message::User;
use spnl::pull::{extract_models, ollama_model};
use spnl::query::Query::{Cross, Message, Plus, Sequence};
use spnl::query::{Generate, GenerateMetadata, Query};

fn gen(model: &str) -> Query {
    Query::Generate(Generate::new(GenerateMetadata::new(model), Message(User("x".into()))))
}

#[test]
fn extract_models_sorts_and_dedups() {
    let q = Plus(vec![
        gen("ollama/b"),
        Cross(vec![gen("ollama/a"), gen("ollama/b")]),
        gen("openai/z"),
    ]);
    assert_eq!(
        extract_models(&q),
        vec!["ollama/a".to_string(), "ollama/b".to_string(), "openai/z".to_string()]
    );
}

#[test]
fn extract_models_reaches_nested_queries() {
    let inner = Query::Generate(Generate::new(GenerateMetadata::new("ollama/c"), gen("ollama/d")));
    let q = Sequence(vec![
        gen("ollama/a"),
        Query::Par(vec![inner]),
        Query::Monad(Box::new(gen("ollama/e"))),
        Query::zip(gen("ollama/b"), gen("ollama/a")),
    ]);
    assert_eq!(
        extract_models(&q),
        vec![
            "ollama/a".to_string(),
            "ollama/b".to_string(),
            "ollama/c".to_string(),
            "ollama/d".to_string(),
            "ollama/e".to_string()
        ]
    );
    assert_eq!(extract_models(&gen("m")), vec!["m".to_string()]);
}

#[test]
fn ollama_names() {
    assert_eq!(ollama_model("ollama/granite3.2:2b"), Some("granite3.2:2b".to_string()));
    assert_eq!(ollama_model("ollama_chat/llama3"), Some("llama3".to_string()));
    assert_eq!(ollama_model("openai/gpt-4o"), None);
}
