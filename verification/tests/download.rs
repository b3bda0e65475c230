use spnl::download::{index_shard_files, IndexError};
use spnl::download::{shard_files, shard_progress, DownloadDisplay};

#[test]
fn shards_are_listed_once() {
    let values = vec![
        Some("a.safetensors".to_string()),
        None,
        Some("b.safetensors".to_string()),
        Some("a.safetensors".to_string()),
    ];
    assert_eq!(
        shard_files(&values),
        vec!["a.safetensors".to_string(), "b.safetensors".to_string()]
    );
    assert_eq!(shard_files(&vec![]), Vec::<String>::new());
}

#[test]
fn shard_progress_counts_cached() {
    assert_eq!(shard_progress(&vec![true, false, true]), (2, true));
    assert_eq!(shard_progress(&vec![true, true]), (2, false));
    assert_eq!(shard_progress(&vec![]), (0, false));
}

#[test]
fn bar_appears_after_the_delay() {
    let mut d = DownloadDisplay::new();
    assert!(!d.init(1000, 10));
    assert_eq!(d.length, 1000);
    assert!(!d.maybe_show(500));
    assert!(d.maybe_show(501));
    assert!(!d.maybe_show(900));
    assert!(d.visible);
}

#[test]
fn index_names_its_shards_once() {
    let index = r#"{"metadata": {"total_size": 10}, "weight_map": {"a": "x.safetensors", "b": "y.safetensors", "c": "x.safetensors", "d": 3}}"#;
    let mut files = index_shard_files(index).unwrap();
    files.sort();
    assert_eq!(files, vec!["x.safetensors".to_string(), "y.safetensors".to_string()]);
    assert_eq!(index_shard_files(r#"{"metadata": {}}"#), Err(IndexError::MissingWeightMap));
    assert!(matches!(index_shard_files("not json"), Err(IndexError::Parse(_))));
}
