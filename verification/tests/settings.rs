use spnl::settings::{
    flag_or, isq_from_upper, isq_setting, max_parallel, number_or, paged_attn_block_size,
    parse_bool, parse_isq_type, parse_usize, prefix_cache_n, should_enable_logging,
    InvalidIsqType, IsqType, eq_ignore_ascii_case, spnl_log_enabled,
};

#[test]
fn parse_usize_like_from_str() {
    assert_eq!(parse_usize("0"), Some(0));
    assert_eq!(parse_usize("42"), Some(42));
    assert_eq!(parse_usize("+7"), Some(7));
    assert_eq!(parse_usize("007"), Some(7));
    assert_eq!(parse_usize(""), None);
    assert_eq!(parse_usize("+"), None);
    assert_eq!(parse_usize("-1"), None);
    assert_eq!(parse_usize("1a"), None);
    assert_eq!(parse_usize(" 1"), None);
    assert_eq!(parse_usize("18446744073709551615"), Some(usize::MAX));
    assert_eq!(parse_usize("18446744073709551616"), None);
    for s in ["12", "+3", "x", "", "99999999999999999999"] {
        assert_eq!(parse_usize(s), s.parse::<usize>().ok());
    }
}

#[test]
fn parse_bool_like_from_str() {
    assert_eq!(parse_bool("true"), Some(true));
    assert_eq!(parse_bool("false"), Some(false));
    assert_eq!(parse_bool("True"), None);
    assert_eq!(parse_bool("1"), None);
}

#[test]
fn defaults() {
    assert_eq!(number_or(None, 9), 9);
    assert_eq!(number_or(Some("x"), 9), 9);
    assert_eq!(number_or(Some("3"), 9), 3);
    assert!(flag_or(None, true));
    assert!(!flag_or(Some("false"), true));
    assert!(flag_or(Some("nope"), true));
    assert_eq!(max_parallel(None), 2);
    assert_eq!(max_parallel(Some("6")), 6);
}

#[test]
fn verbosity() {
    assert!(should_enable_logging(Some("TRUE")));
    assert!(should_enable_logging(Some("true")));
    assert!(should_enable_logging(Some("1")));
    assert!(!should_enable_logging(Some("yes")));
    assert!(!should_enable_logging(None));
}

#[test]
fn prefix_cache() {
    assert_eq!(prefix_cache_n(None), Some(16));
    assert_eq!(prefix_cache_n(Some("FALSE")), None);
    assert_eq!(prefix_cache_n(Some("0")), None);
    assert_eq!(prefix_cache_n(Some("32")), Some(32));
    assert_eq!(prefix_cache_n(Some("lots")), Some(16));
}

#[test]
fn paged_attention() {
    assert_eq!(paged_attn_block_size(None, true, None), None);
    assert_eq!(paged_attn_block_size(Some("false"), true, None), None);
    assert_eq!(paged_attn_block_size(Some("0"), true, None), None);
    assert_eq!(paged_attn_block_size(Some("true"), false, None), None);
    assert_eq!(paged_attn_block_size(Some("TRUE"), true, None), Some(32));
    assert_eq!(paged_attn_block_size(Some("yes"), true, Some("64")), Some(64));
}

#[test]
fn isq_types() {
    assert_eq!(parse_isq_type("q4_k_m"), Ok(IsqType::Q4K));
    assert_eq!(parse_isq_type("Q4K"), Ok(IsqType::Q4K));
    assert_eq!(parse_isq_type("q8"), Ok(IsqType::Q8_0));
    assert_eq!(parse_isq_type("Q5_K_S"), Ok(IsqType::Q5K));
    assert_eq!(parse_isq_type("q6k"), Ok(IsqType::Q6K));
    assert_eq!(parse_isq_type("Q2_K_L"), Ok(IsqType::Q2K));
    assert_eq!(
        parse_isq_type("bogus"),
        Err(InvalidIsqType { value: "bogus".to_string() })
    );
    assert_eq!(isq_from_upper("Q4_1", "q4_1"), Ok(IsqType::Q4_1));
    assert_eq!(isq_setting(Some("None")), None);
    assert_eq!(isq_setting(Some("false")), None);
    assert_eq!(isq_setting(Some("q3_k")), Some(IsqType::Q3K));
    assert_eq!(isq_setting(Some("zzz")), None);
    assert_eq!(isq_setting(None), None);
}

#[test]
fn decimal_round_trip() {
    for n in [0u64, 7, 10, 12345, 4294967296, u64::MAX] {
        let s = spnl::text::decimal_string(n);
        assert_eq!(parse_usize(s.as_str()), Some(n as usize));
    }
}

#[test]
fn spnl_log_switch() {
    assert!(spnl_log_enabled(Some("1")));
    assert!(spnl_log_enabled(Some("TrUe")));
    assert!(!spnl_log_enabled(Some("yes")));
    assert!(!spnl_log_enabled(None));
    assert!(eq_ignore_ascii_case("ÉaB", "Éab"));
    assert!(!eq_ignore_ascii_case("é", "É"));
}
