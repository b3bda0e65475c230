use spnl::models::{init_model_lookup, is_model_cached, list_all_models, lookup_model, model_cache_dir_name};
use spnl::order::{sort_unique, text_less};

#[test]
fn lookup_known_and_unknown_names() {
    assert_eq!(lookup_model("llama3.1:8b"), Some("unsloth/Llama-3.1-8B-Instruct-GGUF"));
    assert_eq!(lookup_model("qwen2.5:72b"), Some("unsloth/Qwen2.5-72B-Instruct-GGUF"));
    assert_eq!(lookup_model("phi4:14b"), Some("unsloth/Phi-4-GGUF"));
    assert_eq!(lookup_model("nope:1b"), None);
    assert_eq!(init_model_lookup().len(), 21);
}

#[test]
fn cache_dir_names() {
    assert_eq!(
        model_cache_dir_name("unsloth/Phi-4-GGUF"),
        "models--unsloth--Phi-4-GGUF"
    );
    let cached = vec!["models--unsloth--Phi-4-GGUF".to_string()];
    assert!(is_model_cached("unsloth/Phi-4-GGUF", &cached));
    assert!(!is_model_cached("unsloth/gemma-2-2b-it-GGUF", &cached));
}

#[test]
fn list_is_sorted_by_pretty_name() {
    let cached = vec!["models--unsloth--gemma-2-9b-it-GGUF".to_string()];
    let all = list_all_models(&cached);
    assert_eq!(all.len(), 21);
    for w in all.windows(2) {
        assert!(w[0].0 < w[1].0);
    }
    assert_eq!(all[0].0, "gemma2:27b");
    let g = all.iter().find(|e| e.0 == "gemma2:9b").unwrap();
    assert!(g.2);
    assert_eq!(all.iter().filter(|e| e.2).count(), 1);
}

#[test]
fn text_order_and_sorting() {
    assert!(text_less("a", "b"));
    assert!(text_less("ab", "abc"));
    assert!(!text_less("abc", "ab"));
    assert!(!text_less("x", "x"));
    assert!(text_less("Z", "a"));
    assert_eq!(
        sort_unique(vec!["b".into(), "a".into(), "b".into(), "".into()]),
        vec!["".to_string(), "a".to_string(), "b".to_string()]
    );
}

#[test]
fn every_pretty_name_finds_its_own_repository() {
    let table = init_model_lookup();
    for (name, repo) in table.iter() {
        assert_eq!(lookup_model(name), Some(*repo));
    }
    let mut names: Vec<&str> = table.iter().map(|(n, _)| *n).collect();
    names.sort();
    names.dedup();
    assert_eq!(names.len(), table.len());
}
