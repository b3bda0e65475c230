use spnl::backend::{
    api_base, api_base_variable, bar_length, bar_message, completion_max_tokens, event_data,
    local_max_tokens, non_streaming, prepare_timing_metrics, query_endpoint, responses_to_query,
    route, Backend, GenerateOptions, ModelNotFoundError, Provider, ReasoningEffort,
    ResponseCollector, Spec, local_accepts, local_answers_query, PrepareUnsupported,
};
use spnl::message::Message::Assistant;
use spnl::query::{Batch, Bulk, Generate, GenerateMetadata, Query, Repeat};
use std::time::Duration;

#[test]
fn api_bases_and_efforts() {
    assert_eq!(
        api_base(Provider::OpenAI, None),
        ("https://api.openai.com/v1".to_string(), ReasoningEffort::Low)
    );
    assert_eq!(
        api_base(Provider::Gemini, None),
        (
            "https://generativelanguage.googleapis.com/v1beta/openai".to_string(),
            ReasoningEffort::Low
        )
    );
    assert_eq!(
        api_base(Provider::Ollama, None),
        ("http://localhost:11434/v1".to_string(), ReasoningEffort::NoReasoning)
    );
    assert_eq!(
        api_base(Provider::Ollama, Some("http://box:1234".into())),
        ("http://box:1234/v1".to_string(), ReasoningEffort::NoReasoning)
    );
    assert_eq!(
        api_base(Provider::OpenAI, Some("http://proxy/v1".into())).0,
        "http://proxy/v1"
    );
    assert_eq!(api_base_variable(Provider::Ollama), "OLLAMA_API_BASE");
}

#[test]
fn max_tokens_defaults() {
    assert_eq!(completion_max_tokens(None), 2048);
    assert_eq!(completion_max_tokens(Some(0)), 2048);
    assert_eq!(completion_max_tokens(Some(100)), 100);
    assert_eq!(completion_max_tokens(Some(-1)), u32::MAX);
    assert_eq!(local_max_tokens(None), 2048);
    assert_eq!(local_max_tokens(Some(0)), 2048);
    assert_eq!(local_max_tokens(Some(7)), 7);
}

#[test]
fn routing_by_provider_prefix() {
    assert_eq!(route("ollama/granite3.2:2b"), Ok((Backend::Ollama, "granite3.2:2b".to_string())));
    assert_eq!(route("openai/gpt-4o"), Ok((Backend::OpenAI, "gpt-4o".to_string())));
    assert_eq!(route("gemini/x"), Ok((Backend::Gemini, "x".to_string())));
    assert_eq!(route("spnl/a/b"), Ok((Backend::Spnl, "a/b".to_string())));
    assert_eq!(route("local/m"), Ok((Backend::Local, "m".to_string())));
    assert_eq!(route("ollama"), Err(ModelNotFoundError));
    assert_eq!(route("other/m"), Err(ModelNotFoundError));
}

#[test]
fn answers_become_queries() {
    assert_eq!(
        responses_to_query(vec!["one".into()]),
        Query::Message(Assistant("one".into()))
    );
    assert_eq!(
        responses_to_query(vec!["a".into(), "b".into()]),
        Query::Par(vec![Query::Message(Assistant("a".into())), Query::Message(Assistant("b".into()))])
    );
    assert_eq!(responses_to_query(vec![]), Query::Par(vec![]));
}

#[test]
fn spec_accessors() {
    let b = Batch { metadata: GenerateMetadata::new("m"), inputs: vec!["x".into(), "y".into()] };
    let s = Spec::Batch(b.clone());
    assert_eq!(s.n(), 2);
    assert_eq!(s.metadata(), GenerateMetadata::new("m"));
    assert_eq!(s.query(), Query::Bulk(Bulk::Batch(b)));
    let r = Repeat {
        n: 3,
        generate: Generate::new(GenerateMetadata::new("r"), Query::Message(Assistant("q".into()))),
    };
    assert_eq!(Spec::Repeat(r).n(), 3);
}

#[test]
fn endpoints_and_streaming() {
    let mut o = GenerateOptions::new();
    assert_eq!(query_endpoint(&o), "http://localhost:8000/v1/query/execute");
    o.prepare = Some(true);
    assert_eq!(query_endpoint(&o), "http://localhost:8000/v1/query/prepare");
    o.prepare = Some(false);
    assert_eq!(query_endpoint(&o), "http://localhost:8000/v1/query/execute");
    assert!(non_streaming(&GenerateMetadata::with_limits("m", Some(1), None)));
    assert!(!non_streaming(&GenerateMetadata::with_limits("m", Some(2), None)));
    assert!(!non_streaming(&GenerateMetadata::with_limits("m", None, None)));
}

#[test]
fn event_data_strips_the_prefix() {
    assert_eq!(event_data(b"data: {\"x\":1}"), b"{\"x\":1}");
    assert_eq!(event_data(b"{\"x\":1}"), b"{\"x\":1}");
    assert_eq!(event_data(b"data:"), b"data:");
}

#[test]
fn collector_gathers_streamed_text() {
    let mut c = ResponseCollector::new(2);
    assert!(!c.on_text(0, ""));
    assert!(c.on_text(1, "hé"));
    assert!(!c.on_text(1, "!"));
    assert!(!c.on_text(5, "lost"));
    assert_eq!(c.responses, vec!["".to_string(), "hé!".to_string()]);
    assert_eq!(c.byte_count, 3 + 1 + 4);
    c.on_final(0, "done");
    c.on_final(1, "ignored");
    assert_eq!(c.responses, vec!["done".to_string(), "hé!".to_string()]);
    c.set_response(0, "set".into());
    assert_eq!(
        c.into_query(),
        Query::Par(vec![Query::Message(Assistant("set".into())), Query::Message(Assistant("hé!".into()))])
    );
}

#[test]
fn timing_metrics_fill_in_missing_values() {
    let t = [Duration::from_millis(5), Duration::from_millis(7)];
    let d = [Duration::from_millis(50)];
    let k = [11u64];
    let m = prepare_timing_metrics(&t, &d, &k);
    assert_eq!(m.len(), 2);
    assert_eq!(m[0].ttft, Some(Duration::from_millis(5)));
    assert_eq!(m[0].total_duration, Duration::from_millis(50));
    assert_eq!(m[0].token_count, 11);
    assert_eq!(m[1].total_duration, Duration::from_millis(7));
    assert_eq!(m[1].token_count, 0);
}

#[test]
fn progress_bar_labels() {
    assert_eq!(bar_message(1, 0), "Generating");
    assert_eq!(bar_message(3, 1), "Bulk Generation (2)");
    assert_eq!(bar_length(&GenerateMetadata::with_limits("m", Some(10), None)), Some(40));
    assert_eq!(bar_length(&GenerateMetadata::with_limits("m", None, None)), None);
}

#[test]
fn local_engine_refuses_prepare_and_answers_in_parallel() {
    let mut o = GenerateOptions::new();
    assert_eq!(local_accepts(&o), Ok(()));
    o.prepare = Some(true);
    assert_eq!(local_accepts(&o), Err(PrepareUnsupported));
    o.prepare = Some(false);
    assert_eq!(local_accepts(&o), Ok(()));
    assert_eq!(
        local_answers_query(vec!["a".to_string()]),
        Query::Par(vec![Query::Message(Assistant("a".to_string()))])
    );
    assert_eq!(local_answers_query(vec![]), Query::Par(vec![]));
}
