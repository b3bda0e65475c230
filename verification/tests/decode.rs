use spnl::decode::{
    decode_batch_size, prefill_chunk_size, prefill_chunks, prefill_start, repeat_penalty_window,
    cache_reuse_enabled, DecodeControl, RecentTokens, RepeatPenaltyCache,
};

#[test]
fn penalty_cache_with_window() {
    let mut c = RepeatPenaltyCache::new(2);
    assert!(!c.has_penalized());
    c.add_token(1);
    c.add_token(2);
    assert!(c.is_penalized(1) && c.is_penalized(2));
    c.add_token(3);
    assert!(!c.is_penalized(1));
    assert!(c.is_penalized(2) && c.is_penalized(3));
    assert_eq!(c.recent_tokens.iter().copied().collect::<Vec<_>>(), vec![2, 3]);
}

#[test]
fn penalty_cache_window_keeps_a_repeated_token() {
    // the oldest 5 leaves the window, but a later 5 is still in it
    let mut c = RepeatPenaltyCache::new(2);
    c.add_token(5);
    c.add_token(5);
    c.add_token(7);
    assert!(c.is_penalized(5));
    assert!(c.is_penalized(7));
    c.add_token(8);
    assert!(!c.is_penalized(5));
    assert!(c.is_penalized(7) && c.is_penalized(8));
}

#[test]
fn penalty_cache_without_window() {
    let mut c = RepeatPenaltyCache::new(0);
    for t in 0..10 {
        c.add_token(t);
    }
    assert!((0..10).all(|t| c.is_penalized(t)));
    assert!(c.recent_tokens.is_empty());
}

#[test]
fn repetition_detection() {
    let mut r = RecentTokens::new();
    for i in 0..59u32 {
        r.push(i % 10);
    }
    assert!(!r.repetition_detected());
    r.push(9);
    // the last 10 repeat the 10 before them
    assert!(r.repetition_detected());
    let mut s = RecentTokens::new();
    for i in 0..150u32 {
        s.push(i);
    }
    assert_eq!(s.tokens.len(), 100);
    assert_eq!(s.tokens[0], 50);
    assert!(!s.repetition_detected());
}

#[test]
fn prefill() {
    assert_eq!(prefill_start(true, 5, 10), (5, false));
    assert_eq!(prefill_start(true, 11, 10), (0, true));
    assert_eq!(prefill_start(false, 5, 10), (0, true));
    assert_eq!(prefill_start(true, 0, 10), (0, false));
    assert_eq!(prefill_chunks(0, 10, 4), vec![(0, 4), (4, 8), (8, 10)]);
    assert_eq!(prefill_chunks(2, 10, 0), vec![(2, 10)]);
    assert_eq!(prefill_chunks(2, 5, 4), vec![(2, 5)]);
    assert_eq!(prefill_chunks(10, 10, 4), vec![]);
}

#[test]
fn settings_defaults() {
    assert_eq!(prefill_chunk_size(None), 512);
    assert_eq!(decode_batch_size(Some("2")), 2);
    assert_eq!(repeat_penalty_window(Some("x")), 64);
    assert!(cache_reuse_enabled(None));
    assert!(!cache_reuse_enabled(Some("false")));
}

fn run(control: &mut DecodeControl, tokens: &[u32]) -> (Vec<usize>, Vec<Vec<u32>>) {
    let mut positions = vec![];
    let mut streamed = vec![];
    let mut it = tokens.iter();
    while let Some(pos) = control.next_position() {
        positions.push(pos);
        let t = *it.next().expect("enough tokens");
        if let Some(batch) = control.on_token(t) {
            streamed.push(batch);
        }
    }
    if let Some(rest) = control.flush() {
        streamed.push(rest);
    }
    (positions, streamed)
}

#[test]
fn decode_stops_at_end_token() {
    let mut c = DecodeControl::new(3, 42, 0, 10, 0, 100, 1, 64, true, 2);
    let (positions, streamed) = run(&mut c, &[5, 6, 7, 0]);
    assert_eq!(positions, vec![3, 4, 5, 6]);
    assert_eq!(c.generated, vec![5, 6, 7]);
    assert_eq!(streamed, vec![vec![5, 6], vec![7]]);
    assert_eq!(c.last_token, 7);
}

#[test]
fn decode_stops_at_token_limit_and_positions() {
    let mut c = DecodeControl::new(2, 1, 0, 3, 0, 100, 2, 0, false, 1);
    let (positions, streamed) = run(&mut c, &[9, 8, 7, 6]);
    assert_eq!(positions, vec![2, 3, 4]);
    assert_eq!(c.generated, vec![9, 8, 7]);
    assert!(streamed.is_empty());
    let mut d = DecodeControl::new(2, 1, 0, 10, 0, 4, 3, 0, false, 1);
    let (positions, _) = run(&mut d, &[9, 8, 7, 6]);
    assert_eq!(positions, vec![2, 3]);
    assert_eq!(d.generated, vec![9, 8]);
}

#[test]
fn decode_soft_zone_only_waits_for_the_end() {
    // max 2 tokens, 2 more allowed to reach the end token
    let mut c = DecodeControl::new(1, 1, 0, 2, 2, 100, 1, 0, false, 1);
    let (_, _) = run(&mut c, &[4, 5, 6, 7, 8]);
    // the token at the last step of the soft zone ends generation
    assert_eq!(c.generated, vec![4, 5, 6]);
    assert!(c.in_soft_zone);
}

#[test]
fn decode_streams_the_token_that_ends_on_repetition() {
    let tokens: Vec<u32> = (0..100u32).map(|i| i % 10).collect();
    let mut c = DecodeControl::new(1, 1, 999, 1000, 0, 10_000, 4, 0, true, 7);
    let (_, streamed) = run(&mut c, &tokens);
    assert!(c.finished);
    assert_eq!(c.generated.len(), 60);
    let all: Vec<u32> = streamed.into_iter().flatten().collect();
    assert_eq!(all, c.generated);
}
