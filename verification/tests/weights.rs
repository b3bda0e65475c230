use spnl::weights::{
    base_name, config_eos_token, detect_architecture, gguf_only, gguf_priority_formats,
    is_cached_model, is_gguf_model, is_snapshot_ready, pick_listed, select_architecture,
    select_available_gguf, select_cached_gguf, ArchitectureKind, EosTokenId, MissingArchitecture,
    UnsupportedArchitecture,
};

fn strings(v: &[&str]) -> Vec<String> {
    v.iter().map(|s| s.to_string()).collect()
}

#[test]
fn gguf_base_names() {
    assert_eq!(base_name("Qwen/Qwen3-1.7B-GGUF"), "Qwen3-1.7B");
    assert_eq!(base_name("unsloth/gemma-2-2b-it-gguf"), "gemma-2-2b-it");
    assert_eq!(base_name("plain"), "plain");
    assert_eq!(base_name("a/b/"), "");
}

#[test]
fn priority_order() {
    let f = gguf_priority_formats("M");
    assert_eq!(f.len(), 14);
    assert_eq!(f[0], "M.Q8_0.gguf");
    assert_eq!(f[4], "M.Q4_K_M.gguf");
    assert_eq!(f[13], "M-Q4_K_S.gguf");
}

#[test]
fn picking_files() {
    let formats = strings(&["a", "b", "c"]);
    assert_eq!(pick_listed(&formats, &strings(&["c", "b"])), Some("b".to_string()));
    assert_eq!(pick_listed(&formats, &strings(&["z"])), None);
    assert_eq!(gguf_only(&strings(&["x.gguf", "y.bin", "z.gguf"])), strings(&["x.gguf", "z.gguf"]));
}

#[test]
fn cached_and_available_selection() {
    let snapshots = vec![
        strings(&["Qwen3-1.7B-Q5_K_M.gguf"]),
        strings(&["Qwen3-1.7B-Q4_K_M.gguf", "Qwen3-1.7B-Q8_0.gguf"]),
    ];
    assert_eq!(
        select_cached_gguf("Qwen/Qwen3-1.7B-GGUF", &snapshots),
        Some("Qwen3-1.7B-Q5_K_M.gguf".to_string())
    );
    assert_eq!(select_cached_gguf("Qwen/Qwen3-1.7B-GGUF", &vec![strings(&["other.gguf"])]), None);
    let paths = strings(&["README.md", "Qwen3-1.7B.Q4_K_S.gguf", "Qwen3-1.7B-Q4_K_M.gguf"]);
    assert_eq!(
        select_available_gguf("Qwen/Qwen3-1.7B-GGUF", &paths),
        Ok("Qwen3-1.7B-Q4_K_M.gguf".to_string())
    );
    let err = select_available_gguf("Qwen/Qwen3-1.7B-GGUF", &strings(&["x.gguf"])).unwrap_err();
    assert_eq!(err.available, strings(&["x.gguf"]));
    assert_eq!(err.tried.len(), 14);
}

#[test]
fn gguf_models_and_snapshots() {
    assert!(is_gguf_model("unsloth/Phi-4-GGUF"));
    assert!(is_gguf_model("someone/model-gguf"));
    assert!(!is_gguf_model("meta/llama"));
    assert!(is_snapshot_ready(&strings(&["m.gguf"]), true));
    assert!(!is_snapshot_ready(&strings(&["config.json", "model.safetensors"]), true));
    assert!(is_snapshot_ready(&strings(&["config.json", "model-00001.safetensors"]), false));
    assert!(is_snapshot_ready(&strings(&["pytorch_model.bin", "config.json"]), false));
    assert!(!is_snapshot_ready(&strings(&["config.json"]), false));
    assert!(!is_snapshot_ready(&strings(&["model.safetensors"]), false));
    assert!(is_cached_model(&vec![strings(&[]), strings(&["a.gguf"])], true));
    assert!(!is_cached_model(&vec![], true));
}

#[test]
fn architectures() {
    assert_eq!(detect_architecture(&Some(strings(&["LlamaForCausalLM", "x"]))), Ok("LlamaForCausalLM".to_string()));
    assert_eq!(detect_architecture(&Some(vec![])), Err(MissingArchitecture));
    assert_eq!(detect_architecture(&None), Err(MissingArchitecture));
    assert_eq!(select_architecture("LlamaForCausalLM", None), Ok(ArchitectureKind::Llama));
    assert_eq!(select_architecture("Qwen2ForCausalLM", Some(8)), Ok(ArchitectureKind::Qwen2));
    assert_eq!(select_architecture("Qwen3ForCausalLM", None), Ok(ArchitectureKind::Qwen3));
    assert_eq!(select_architecture("Qwen3MoeForCausalLM", Some(128)), Ok(ArchitectureKind::Qwen3Moe));
    assert_eq!(
        select_architecture("GPT2", None),
        Err(UnsupportedArchitecture { architecture: "GPT2".to_string() })
    );
    assert_eq!(config_eos_token(Some(EosTokenId::Single(7))), Some(7));
    assert_eq!(config_eos_token(Some(EosTokenId::Multiple(vec![3, 4]))), Some(3));
    assert_eq!(config_eos_token(Some(EosTokenId::Multiple(vec![]))), None);
    assert_eq!(config_eos_token(None), None);
}

#[test]
fn half_precision_on_metal_only() {
    assert_eq!(spnl::weights::weight_precision(true), spnl::weights::WeightPrecision::F16);
    assert_eq!(spnl::weights::weight_precision(false), spnl::weights::WeightPrecision::F32);
}
