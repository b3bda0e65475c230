//! The decisions of local token generation: which tokens are penalized
//! for repetition, when the output has started to repeat itself, how the
//! prompt is fed in, and the decode loop itself, as a state machine that
//! is told each sampled token and says what to do next.

use vstd::prelude::*;

use crate::settings::{flag_or, number_or, spec_parse_bool, spec_parse_usize};

use std::collections::{HashSet, VecDeque};

verus! {

broadcast use {
    vstd::std_specs::vec::group_vec_axioms,
    vstd::std_specs::hash::group_hash_axioms,
    vstd::std_specs::vecdeque::group_vec_dequeue_axioms,
};

/// The tokens to penalize for repetition: with a window, exactly the
/// tokens among the last `window_size` generated; without one (size 0),
/// every token generated so far.
pub struct RepeatPenaltyCache {
    /// Set of tokens that should be penalized
    pub penalized_tokens: HashSet<u32>,
    /// Sliding window of recent tokens (for windowed penalty)
    pub recent_tokens: VecDeque<u32>,
    /// Maximum window size
    pub window_size: usize,
    /// Whether to use windowed penalty (false = full history)
    pub use_window: bool,
}

/// Whether the window holds `token`.
fn window_holds(w: &VecDeque<u32>, token: u32) -> (r: bool)
    ensures
        r == w@.contains(token),
{
    let n = w.len();
    let mut i: usize = 0;
    while i < n
        invariant
            n == w@.len(),
            i <= n,
            forall|k: int| 0 <= k < i ==> w@[k] != token,
        decreases n - i,
    {
        if w[i] == token {
            assert(w@[i as int] == token);
            return true;
        }
        i = i + 1;
    }
    false
}

impl RepeatPenaltyCache {
    /// The cache is consistent: it windows exactly when its size is
    /// positive, the window holds at most that many tokens, and the
    /// penalized tokens are exactly those of the window; without a
    /// window, no window is kept.
    pub open spec fn wf(&self) -> bool {
        &&& self.use_window == (self.window_size > 0)
        &&& self.recent_tokens@.len() <= self.window_size
        &&& self.use_window ==> self.penalized_tokens@ == self.recent_tokens@.to_set()
        &&& !self.use_window ==> self.recent_tokens@.len() == 0
    }

    /// An empty cache for a window of `window_size` tokens (0: no window).
    pub fn new(window_size: usize) -> (r: RepeatPenaltyCache)
        ensures
            r.wf(),
            r.window_size == window_size,
            r.penalized_tokens@ == Set::<u32>::empty(),
            r.recent_tokens@ == Seq::<u32>::empty(),
    {
        let r = RepeatPenaltyCache {
            penalized_tokens: HashSet::new(),
            recent_tokens: VecDeque::with_capacity(window_size),
            window_size,
            use_window: window_size > 0,
        };
        assert(r.recent_tokens@.to_set() =~= Set::<u32>::empty());
        r
    }

    /// The window after recording `token`: the token is appended, and
    /// the oldest token leaves a full window.
    pub open spec fn next_window(&self, token: u32) -> Seq<u32> {
        if self.recent_tokens@.len() < self.window_size {
            self.recent_tokens@.push(token)
        } else {
            self.recent_tokens@.drop_first().push(token)
        }
    }

    /// The penalized tokens and the window after recording `token`:
    /// with a window, the tokens of the new window; without one, every
    /// token so far and this one.
    pub open spec fn added(&self, token: u32) -> (Set<u32>, Seq<u32>) {
        if !self.use_window {
            (self.penalized_tokens@.insert(token), self.recent_tokens@)
        } else {
            (self.next_window(token).to_set(), self.next_window(token))
        }
    }

    /// Record a generated token: it is penalized from now on. With a
    /// full window, the oldest token leaves the window, and stops being
    /// penalized unless another copy of it is still in the window.
    pub fn add_token(&mut self, token: u32)
        requires
            old(self).wf(),
        ensures
            final(self).wf(),
            final(self).window_size == old(self).window_size,
            final(self).use_window == old(self).use_window,
            final(self).penalized_tokens@.contains(token),
            (final(self).penalized_tokens@, final(self).recent_tokens@) == old(self).added(token),
    {
        let ghost w = self.recent_tokens@;
        let ghost target = self.added(token);
        if self.use_window {
            if self.recent_tokens.len() >= self.window_size {
                if let Some(old_token) = self.recent_tokens.pop_front() {
                    if !window_holds(&self.recent_tokens, old_token) {
                        self.penalized_tokens.remove(&old_token);
                    }
                }
            }
            self.recent_tokens.push_back(token);
        }
        self.penalized_tokens.insert(token);
        proof {
            if self.use_window {
                let w2 = self.recent_tokens@;
                assert(w2 == target.1);
                assert forall|x: u32| self.penalized_tokens@.contains(x) <==> w2.to_set().contains(
                    x,
                ) by {
                    if x == token {
                        assert(w2[w2.len() - 1] == token);
                    } else if w.len() >= self.window_size {
                        assert(w.len() > 0);
                        let rest = w.drop_first();
                        assert(w2 == rest.push(token));
                        if rest.contains(x) {
                            let k = choose|k: int| 0 <= k < rest.len() && rest[k] == x;
                            assert(w2[k] == x);
                            assert(w[k + 1] == x);
                        }
                        if w2.contains(x) {
                            let k = choose|k: int| 0 <= k < w2.len() && w2[k] == x;
                            assert(k < rest.len());
                            assert(rest[k] == x);
                            assert(w[k + 1] == x);
                        }
                        if w.contains(x) && x != w[0] {
                            let k = choose|k: int| 0 <= k < w.len() && w[k] == x;
                            assert(k != 0);
                            assert(rest[k - 1] == x);
                        }
                    } else {
                        assert(w2 == w.push(token));
                        if w.contains(x) {
                            let k = choose|k: int| 0 <= k < w.len() && w[k] == x;
                            assert(w2[k] == x);
                        }
                        if w2.contains(x) {
                            let k = choose|k: int| 0 <= k < w2.len() && w2[k] == x;
                            assert(k < w.len());
                            assert(w[k] == x);
                        }
                    }
                }
                assert(self.penalized_tokens@ =~= w2.to_set());
            }
        }
    }

    /// Whether `token` is penalized.
    pub fn is_penalized(&self, token: u32) -> (r: bool)
        ensures
            r == self.penalized_tokens@.contains(token),
    {
        self.penalized_tokens.contains(&token)
    }

    /// Whether any token is penalized.
    pub fn has_penalized(&self) -> (r: bool)
        ensures
            r == !self.penalized_tokens@.is_empty(),
    {
        !self.penalized_tokens.is_empty()
    }
}

/// How many of the last generated tokens are kept for repetition checks.
pub open spec fn recent_capacity() -> nat {
    100
}

/// The last `w` tokens of `s` repeat the `w` tokens before them.
pub open spec fn repeats_with(s: Seq<u32>, w: int) -> bool {
    &&& s.len() >= 2 * w
    &&& s.subrange(s.len() - w, s.len() as int) == s.subrange(s.len() - 2 * w, s.len() - w)
}

/// The output repeats itself: among at least 60 recent tokens, the last
/// 30, 15 or 10 repeat the ones just before them.
pub open spec fn repetition(s: Seq<u32>) -> bool {
    &&& s.len() >= 60
    &&& (repeats_with(s, 30) || repeats_with(s, 15) || repeats_with(s, 10))
}

/// The last tokens generated, at most 100, for repetition checks.
pub struct RecentTokens {
    pub tokens: VecDeque<u32>,
}

impl RecentTokens {
    /// No token yet.
    pub fn new() -> (r: RecentTokens)
        ensures
            r.tokens@ == Seq::<u32>::empty(),
    {
        RecentTokens { tokens: VecDeque::with_capacity(100) }
    }

    /// Record a token; the oldest leaves when more than 100 are kept.
    pub fn push(&mut self, token: u32)
        requires
            old(self).tokens@.len() <= recent_capacity(),
        ensures
            final(self).tokens@ == if old(self).tokens@.len() + 1 > recent_capacity() {
                old(self).tokens@.push(token).drop_first()
            } else {
                old(self).tokens@.push(token)
            },
            final(self).tokens@.len() <= recent_capacity(),
    {
        let ghost before = self.tokens@;
        self.tokens.push_back(token);
        if self.tokens.len() > 100 {
            self.tokens.pop_front();
            assert(self.tokens@ =~= before.push(token).drop_first());
        }
    }

    /// Whether the last `w` tokens repeat the `w` before them.
    fn repeats(&self, w: usize) -> (r: bool)
        requires
            0 < w <= 50,
            self.tokens@.len() <= recent_capacity(),
        ensures
            r == repeats_with(self.tokens@, w as int),
    {
        let s = &self.tokens;
        let len = s.len();
        if len < 2 * w {
            return false;
        }
        let mut k: usize = 0;
        while k < w
            invariant
                len == s@.len(),
                s@ == self.tokens@,
                len >= 2 * w,
                k <= w,
                s@.subrange(len - w, len - w + k) =~= s@.subrange(len - 2 * w, len - 2 * w + k),
            decreases w - k,
        {
            if s[len - w + k] != s[len - 2 * w + k] {
                proof {
                    let a = s@.subrange(len - w, len as int);
                    let b = s@.subrange(len - 2 * w, len - w);
                    assert(a[k as int] != b[k as int]);
                    if a == b {
                        assert(a[k as int] == b[k as int]);
                    }
                }
                return false;
            }
            assert(s@.subrange(len - w, len - w + k + 1) =~= s@.subrange(len - w, len - w + k).push(
                s@[len - w + k],
            ));
            assert(s@.subrange(len - 2 * w, len - 2 * w + k + 1) =~= s@.subrange(
                len - 2 * w,
                len - 2 * w + k,
            ).push(s@[len - 2 * w + k]));
            k = k + 1;
        }
        assert(s@.subrange(len - w, len as int) =~= s@.subrange(len - 2 * w, len - w));
        true
    }

    /// Whether the output has started to repeat itself (see [`repetition`]).
    pub fn repetition_detected(&self) -> (r: bool)
        requires
            self.tokens@.len() <= recent_capacity(),
        ensures
            r == repetition(self.tokens@),
    {
        if self.tokens.len() < 60 {
            return false;
        }
        self.repeats(30) || self.repeats(15) || self.repeats(10)
    }
}

/// Where the prompt's feeding starts, and whether the model's cache must
/// be cleared first: the cached prefix is reused when reuse is on and the
/// cache is non-empty and no longer than the prompt; otherwise feeding
/// starts over, clearing a non-empty cache.
pub fn prefill_start(cache_reuse: bool, cache_len: usize, prompt_len: usize) -> (r: (usize, bool))
    ensures
        r == if cache_reuse && cache_len > 0 && cache_len <= prompt_len {
            (cache_len, false)
        } else {
            (0usize, cache_len > 0)
        },
{
    if cache_reuse && cache_len > 0 && cache_len <= prompt_len {
        (cache_len, false)
    } else {
        (0, cache_len > 0)
    }
}

/// The pieces `[from, to)` of the prompt from `pos` to `end`, each of at
/// most `size` tokens, in order.
pub open spec fn chunks_from(pos: nat, end: nat, size: nat) -> Seq<(nat, nat)>
    decreases end - pos,
{
    if pos >= end || size == 0 {
        Seq::empty()
    } else {
        let to = if pos + size < end {
            pos + size
        } else {
            end
        };
        seq![(pos, to)] + chunks_from(to, end, size)
    }
}

/// How the prompt from `start` on is fed to the model: nothing when all
/// of it is cached; in pieces of `chunk_size` tokens when chunking is on
/// and more than one piece is left; else in one piece. Each piece is fed
/// at the position where it starts.
pub open spec fn prefill_plan(start: nat, prompt_len: nat, chunk_size: nat) -> Seq<(nat, nat)> {
    if start >= prompt_len {
        Seq::empty()
    } else if chunk_size > 0 && prompt_len - start > chunk_size {
        chunks_from(start, prompt_len, chunk_size)
    } else {
        seq![(start, prompt_len)]
    }
}

/// The pieces of a prompt as natural numbers.
pub open spec fn ranges_view(v: Seq<(usize, usize)>) -> Seq<(nat, nat)> {
    Seq::new(v.len(), |i: int| (v[i].0 as nat, v[i].1 as nat))
}

/// How the prompt is fed to the model (see [`prefill_plan`]).
pub fn prefill_chunks(start: usize, prompt_len: usize, chunk_size: usize) -> (r: Vec<(usize, usize)>)
    ensures
        ranges_view(r@) == prefill_plan(start as nat, prompt_len as nat, chunk_size as nat),
{
    let mut out: Vec<(usize, usize)> = Vec::new();
    if start >= prompt_len {
        assert(ranges_view(out@) =~= Seq::<(nat, nat)>::empty());
        return out;
    }
    if !(chunk_size > 0 && prompt_len - start > chunk_size) {
        out.push((start, prompt_len));
        assert(ranges_view(out@) =~= seq![(start as nat, prompt_len as nat)]);
        return out;
    }
    let mut pos = start;
    assert(ranges_view(out@) + chunks_from(pos as nat, prompt_len as nat, chunk_size as nat)
        =~= chunks_from(start as nat, prompt_len as nat, chunk_size as nat));
    while pos < prompt_len
        invariant
            start <= pos <= prompt_len,
            chunk_size > 0,
            ranges_view(out@) + chunks_from(pos as nat, prompt_len as nat, chunk_size as nat)
                == chunks_from(start as nat, prompt_len as nat, chunk_size as nat),
        decreases prompt_len - pos,
    {
        let to = if chunk_size < prompt_len - pos {
            pos + chunk_size
        } else {
            prompt_len
        };
        let ghost before = ranges_view(out@);
        out.push((pos, to));
        assert(ranges_view(out@) =~= before.push((pos as nat, to as nat)));
        assert(chunks_from(pos as nat, prompt_len as nat, chunk_size as nat) == seq![
            (pos as nat, to as nat),
        ] + chunks_from(to as nat, prompt_len as nat, chunk_size as nat));
        assert(before.push((pos as nat, to as nat)) + chunks_from(
            to as nat,
            prompt_len as nat,
            chunk_size as nat,
        ) =~= before + (seq![(pos as nat, to as nat)] + chunks_from(
            to as nat,
            prompt_len as nat,
            chunk_size as nat,
        )));
        pos = to;
    }
    assert(chunks_from(pos as nat, prompt_len as nat, chunk_size as nat) =~= Seq::<
        (nat, nat),
    >::empty());
    assert(ranges_view(out@) + Seq::<(nat, nat)>::empty() =~= ranges_view(out@));
    out
}

/// The decode loop of a local generation, told each sampled token.
///
/// Generation stops at the end-of-sequence token, at the token limit
/// (`max_tokens` plus a soft buffer within which only the end token is
/// awaited), at the model's last position, or when the output starts to
/// repeat itself. Decoding goes in batches of `decode_batch` steps.
/// Accepted tokens are penalized for repetition, and, when streaming,
/// handed out for display `streaming_batch` at a time.
pub struct DecodeControl {
    pub prompt_len: usize,
    pub max_tokens: usize,
    pub hard_limit: usize,
    pub max_positions: usize,
    pub decode_batch: usize,
    pub eos_token: u32,
    pub index_pos: usize,
    pub batch_idx: usize,
    pub current_batch: usize,
    pub in_soft_zone: bool,
    pub finished: bool,
    pub awaiting: bool,
    pub last_token: u32,
    pub generated: Vec<u32>,
    pub penalty: RepeatPenaltyCache,
    pub recent: RecentTokens,
    pub streaming: bool,
    pub streaming_batch: usize,
    pub pending: Vec<u32>,
    /// The tokens handed out for display so far
    pub streamed: Ghost<Seq<u32>>,
}

impl DecodeControl {
    /// The state is consistent: the steps taken in the current batch and
    /// before it are the tokens generated, which never exceed the hard
    /// limit and never include the end token.
    pub open spec fn wf(&self) -> bool {
        &&& self.penalty.wf()
        &&& self.recent.tokens@.len() <= recent_capacity()
        &&& self.decode_batch >= 1
        &&& self.max_tokens <= self.hard_limit
        &&& self.prompt_len + self.hard_limit <= usize::MAX
        &&& self.batch_idx <= self.current_batch
        &&& self.batch_idx == self.current_batch ==> self.batch_idx == 0
        &&& self.index_pos + self.current_batch <= self.hard_limit || self.finished
        &&& !self.finished ==> self.index_pos + self.batch_idx == self.generated@.len()
        &&& self.generated@.len() <= self.hard_limit
        &&& forall|i: int| 0 <= i < self.generated@.len() ==> #[trigger] self.generated@[i] != self.eos_token
        &&& self.awaiting ==> !self.finished && self.batch_idx < self.current_batch
        &&& !self.streaming ==> self.pending@.len() == 0
        &&& self.streaming ==> self.streamed@ + self.pending@ == self.generated@
        &&& self.awaiting ==> self.prompt_len + self.index_pos + self.batch_idx < self.max_positions
        &&& self.generated@.len() == 0 || self.prompt_len + self.generated@.len() <= self.max_positions
    }

    /// While generation goes on, each forward pass is at the prompt's
    /// length plus the number of tokens generated so far, which never
    /// exceeds the hard limit; the end token is never among them.
    pub proof fn law_position_counts_generated(&self)
        requires
            self.wf(),
            !self.finished,
        ensures
            self.prompt_len + self.step_index() == self.prompt_len + self.generated@.len(),
            self.generated@.len() <= self.hard_limit,
            !self.generated@.contains(self.eos_token),
    {
        if self.generated@.contains(self.eos_token) {
            let i = choose|i: int| 0 <= i < self.generated@.len() && self.generated@[i] == self.eos_token;
            assert(self.generated@[i] != self.eos_token);
        }
    }

    /// The prompt and the generated tokens never outgrow the model's
    /// positions (when anything is generated at all).
    pub proof fn law_positions_within_model(&self)
        requires
            self.wf(),
        ensures
            self.generated@.len() == 0 || self.prompt_len + self.generated@.len() <= self.max_positions,
    {
    }

    /// The number of tokens generated before the current step.
    pub open spec fn step_index(&self) -> int {
        self.index_pos + self.batch_idx
    }

    /// The loop before its first step, after a prompt of `prompt_len`
    /// tokens ending with `last_prompt_token`.
    pub fn new(
        prompt_len: usize,
        last_prompt_token: u32,
        eos_token: u32,
        max_tokens: usize,
        soft_buffer: usize,
        max_positions: usize,
        decode_batch: usize,
        penalty_window: usize,
        streaming: bool,
        streaming_batch: usize,
    ) -> (r: DecodeControl)
        requires
            decode_batch >= 1,
            prompt_len + max_tokens + soft_buffer <= usize::MAX,
        ensures
            r.wf(),
            r.prompt_len == prompt_len,
            r.max_tokens == max_tokens,
            r.hard_limit == max_tokens + soft_buffer,
            r.max_positions == max_positions,
            r.decode_batch == decode_batch,
            r.eos_token == eos_token,
            r.index_pos == 0 && r.batch_idx == 0 && r.current_batch == 0,
            !r.in_soft_zone && !r.finished && !r.awaiting,
            r.last_token == last_prompt_token,
            r.generated@ == Seq::<u32>::empty(),
            r.penalty.window_size == penalty_window,
            r.penalty.penalized_tokens@ == Set::<u32>::empty(),
            r.recent.tokens@ == Seq::<u32>::empty(),
            r.streaming == streaming,
            r.streaming_batch == streaming_batch,
            r.pending@ == Seq::<u32>::empty(),
            r.streamed@ == Seq::<u32>::empty(),
    {
        DecodeControl {
            prompt_len,
            max_tokens,
            hard_limit: max_tokens + soft_buffer,
            max_positions,
            decode_batch,
            eos_token,
            index_pos: 0,
            batch_idx: 0,
            current_batch: 0,
            in_soft_zone: false,
            finished: false,
            awaiting: false,
            last_token: last_prompt_token,
            generated: Vec::new(),
            penalty: RepeatPenaltyCache::new(penalty_window),
            recent: RecentTokens::new(),
            streaming,
            streaming_batch,
            pending: Vec::new(),
            streamed: Ghost(Seq::empty()),
        }
    }

    /// The position of the next forward pass (its input is `last_token`),
    /// or none when generation is over. A new batch starts when the last
    /// one is done: the loop ends at the hard limit or the model's last
    /// position, enters the soft zone past `max_tokens`, and takes as
    /// many steps as the batch size and the hard limit allow. Within a
    /// batch, the loop ends at the model's last position.
    pub fn next_position(&mut self) -> (r: Option<usize>)
        requires
            old(self).wf(),
            !old(self).awaiting,
        ensures
            final(self).wf(),
            old(self).finished ==> r is None && *final(self) == *old(self),
            !old(self).finished && old(self).batch_idx < old(self).current_batch ==> {
                let pos = old(self).prompt_len + old(self).step_index();
                &&& pos >= old(self).max_positions ==> r is None && final(self).finished
                &&& pos < old(self).max_positions ==> r == Some(pos as usize) && final(self).awaiting
                &&& final(self).current_batch == old(self).current_batch
                &&& final(self).in_soft_zone == old(self).in_soft_zone
            },
            !old(self).finished && old(self).batch_idx == old(self).current_batch ==> {
                let start = old(self).prompt_len + old(self).index_pos;
                &&& old(self).index_pos >= old(self).hard_limit ==> r is None && final(self).finished
                &&& old(self).index_pos < old(self).hard_limit && start >= old(self).max_positions
                    ==> r is None && final(self).finished
                &&& old(self).index_pos < old(self).hard_limit && start < old(self).max_positions
                    ==> {
                    &&& r == Some(start as usize)
                    &&& final(self).awaiting
                    &&& final(self).batch_idx == 0
                    &&& final(self).current_batch == if old(self).decode_batch < old(self).hard_limit
                        - old(self).index_pos {
                        old(self).decode_batch as int
                    } else {
                        old(self).hard_limit - old(self).index_pos
                    }
                    &&& final(self).in_soft_zone == (old(self).in_soft_zone || old(self).index_pos
                        >= old(self).max_tokens)
                }
            },
            final(self).index_pos == old(self).index_pos,
            final(self).generated@ == old(self).generated@,
            final(self).pending@ == old(self).pending@,
            final(self).last_token == old(self).last_token,
            final(self).penalty.penalized_tokens@ == old(self).penalty.penalized_tokens@,
            final(self).recent.tokens@ == old(self).recent.tokens@,
            final(self).prompt_len == old(self).prompt_len,
            final(self).max_tokens == old(self).max_tokens,
            final(self).hard_limit == old(self).hard_limit,
            final(self).max_positions == old(self).max_positions,
            final(self).decode_batch == old(self).decode_batch,
            final(self).eos_token == old(self).eos_token,
            final(self).streaming == old(self).streaming,
            final(self).streaming_batch == old(self).streaming_batch,
    {
        if self.finished {
            return None;
        }
        if self.batch_idx < self.current_batch {
            let pos = self.prompt_len + self.index_pos + self.batch_idx;
            if pos >= self.max_positions {
                self.finished = true;
                return None;
            }
            self.awaiting = true;
            return Some(pos);
        }
        if self.index_pos >= self.hard_limit {
            self.finished = true;
            return None;
        }
        let start = self.prompt_len + self.index_pos;
        if start >= self.max_positions {
            self.finished = true;
            return None;
        }
        if self.index_pos >= self.max_tokens && !self.in_soft_zone {
            self.in_soft_zone = true;
        }
        let remaining = self.hard_limit - self.index_pos;
        self.current_batch = if self.decode_batch < remaining {
            self.decode_batch
        } else {
            remaining
        };
        self.batch_idx = 0;
        self.awaiting = true;
        Some(start)
    }

    /// The token sampled at the current step. The end token ends the
    /// generation, and so does any token at the last step of the soft
    /// zone; any other token is generated: it becomes the next input, is
    /// penalized for repetition and recorded for the repetition check,
    /// which may end the generation. When streaming, every generated token
    /// waits for display (the one that ends the generation too, for
    /// `flush`); the tokens waiting are handed out once there are
    /// `streaming_batch` of them.
    pub fn on_token(&mut self, token: u32) -> (r: Option<Vec<u32>>)
        requires
            old(self).wf(),
            old(self).awaiting,
        ensures
            final(self).wf(),
            !final(self).awaiting,
            token == old(self).eos_token ==> {
                &&& final(self).finished
                &&& r is None
                &&& final(self).generated@ == old(self).generated@
            },
            token != old(self).eos_token && old(self).in_soft_zone && old(self).step_index() + 1
                >= old(self).hard_limit ==> {
                &&& final(self).finished
                &&& r is None
                &&& final(self).generated@ == old(self).generated@
            },
            token != old(self).eos_token && !(old(self).in_soft_zone && old(self).step_index() + 1
                >= old(self).hard_limit) ==> {
                &&& final(self).generated@ == old(self).generated@.push(token)
                &&& final(self).last_token == token
                &&& (final(self).penalty.penalized_tokens@, final(self).penalty.recent_tokens@)
                    == old(self).penalty.added(token)
                &&& final(self).recent.tokens@ == if old(self).recent.tokens@.len() + 1
                    > recent_capacity() {
                    old(self).recent.tokens@.push(token).drop_first()
                } else {
                    old(self).recent.tokens@.push(token)
                }
                &&& repetition(final(self).recent.tokens@) ==> final(self).finished && r is None
                    && final(self).pending@ == if old(self).streaming {
                    old(self).pending@.push(token)
                } else {
                    old(self).pending@
                }
                &&& !repetition(final(self).recent.tokens@) ==> {
                    &&& !final(self).finished
                    &&& final(self).step_index() == old(self).step_index() + 1
                    &&& !old(self).streaming ==> r is None
                    &&& old(self).streaming && old(self).pending@.len() + 1
                        >= old(self).streaming_batch ==> r is Some && r->0@ == old(self).pending@.push(
                        token,
                    ) && final(self).pending@ == Seq::<u32>::empty()
                    &&& old(self).streaming && old(self).pending@.len() + 1
                        < old(self).streaming_batch ==> r is None && final(self).pending@ == old(
                        self,
                    ).pending@.push(token)
                }
            },
            final(self).prompt_len == old(self).prompt_len,
            final(self).max_tokens == old(self).max_tokens,
            final(self).hard_limit == old(self).hard_limit,
            final(self).max_positions == old(self).max_positions,
            final(self).decode_batch == old(self).decode_batch,
            final(self).eos_token == old(self).eos_token,
            final(self).in_soft_zone == old(self).in_soft_zone,
            final(self).streaming == old(self).streaming,
            final(self).streaming_batch == old(self).streaming_batch,
    {
        self.awaiting = false;
        if token == self.eos_token {
            self.finished = true;
            return None;
        }
        if self.in_soft_zone && self.index_pos + self.batch_idx + 1 >= self.hard_limit {
            self.finished = true;
            return None;
        }
        self.generated.push(token);
        self.last_token = token;
        self.penalty.add_token(token);
        self.recent.push(token);
        if self.recent.repetition_detected() {
            self.finished = true;
            if self.streaming {
                self.pending.push(token);
            }
            return None;
        }
        self.batch_idx = self.batch_idx + 1;
        if self.batch_idx == self.current_batch {
            self.index_pos = self.index_pos + self.current_batch;
            self.batch_idx = 0;
            self.current_batch = 0;
        }
        if self.streaming {
            self.pending.push(token);
            if self.pending.len() >= self.streaming_batch {
                let mut out: Vec<u32> = Vec::new();
                core::mem::swap(&mut out, &mut self.pending);
                self.streamed = Ghost(self.streamed@ + out@);
                return Some(out);
            }
        }
        None
    }

    /// The tokens still waiting for display, handed out at the end: when
    /// streaming, every generated token has then been handed out, in order.
    pub fn flush(&mut self) -> (r: Option<Vec<u32>>)
        requires
            old(self).wf(),
        ensures
            final(self).wf(),
            old(self).pending@.len() > 0 ==> r is Some && r->0@ == old(self).pending@,
            old(self).pending@.len() == 0 ==> r is None,
            final(self).pending@ == Seq::<u32>::empty(),
            final(self).generated@ == old(self).generated@,
            final(self).streaming ==> final(self).streamed@ == final(self).generated@,
            final(self).streaming == old(self).streaming,
    {
        if self.pending.len() > 0 {
            let mut out: Vec<u32> = Vec::new();
            core::mem::swap(&mut out, &mut self.pending);
            self.streamed = Ghost(self.streamed@ + out@);
            Some(out)
        } else {
            None
        }
    }
}

/// The prompt chunk size (`CANDLE_PREFILL_CHUNK_SIZE`), 512 by default; 0 feeds the prompt in one piece.
pub fn prefill_chunk_size(value: Option<&str>) -> (r: usize)
    ensures
        r == match value {
            Some(v) => match spec_parse_usize(v@) {
                Some(x) => x,
                None => 512,
            },
            None => 512,
        },
{
    number_or(value, 512)
}

/// The decode batch size (`CANDLE_DECODE_BATCH_SIZE`), 8 by default.
pub fn decode_batch_size(value: Option<&str>) -> (r: usize)
    ensures
        r == match value {
            Some(v) => match spec_parse_usize(v@) {
                Some(x) => x,
                None => 8,
            },
            None => 8,
        },
{
    number_or(value, 8)
}

/// Whether the model's cache is reused across prompts (`CANDLE_CACHE_REUSE`), on by default.
pub fn cache_reuse_enabled(value: Option<&str>) -> (r: bool)
    ensures
        r == match value {
            Some(v) => match spec_parse_bool(v@) {
                Some(x) => x,
                None => true,
            },
            None => true,
        },
{
    flag_or(value, true)
}

/// Whether tensors are pooled (`CANDLE_TENSOR_POOL`), on by default.
pub fn tensor_pool_enabled(value: Option<&str>) -> (r: bool)
    ensures
        r == match value {
            Some(v) => match spec_parse_bool(v@) {
                Some(x) => x,
                None => true,
            },
            None => true,
        },
{
    flag_or(value, true)
}

/// The tensor pool size (`CANDLE_TENSOR_POOL_SIZE`), 16 by default.
pub fn tensor_pool_size(value: Option<&str>) -> (r: usize)
    ensures
        r == match value {
            Some(v) => match spec_parse_usize(v@) {
                Some(x) => x,
                None => 16,
            },
            None => 16,
        },
{
    number_or(value, 16)
}

/// How far past the token limit generation may go to reach the end token (`CANDLE_SOFT_MAX_TOKENS_BUFFER`), 0 by default.
pub fn soft_max_tokens_buffer(value: Option<&str>) -> (r: usize)
    ensures
        r == match value {
            Some(v) => match spec_parse_usize(v@) {
                Some(x) => x,
                None => 0,
            },
            None => 0,
        },
{
    number_or(value, 0)
}

/// The repeat penalty window (`CANDLE_REPEAT_PENALTY_WINDOW`), 64 by default; 0 penalizes every generated token.
pub fn repeat_penalty_window(value: Option<&str>) -> (r: usize)
    ensures
        r == match value {
            Some(v) => match spec_parse_usize(v@) {
                Some(x) => x,
                None => 64,
            },
            None => 64,
        },
{
    number_or(value, 64)
}

/// Whether the repeat penalty is applied on the device (`CANDLE_GPU_PENALTY`), on by default.
pub fn gpu_penalty_enabled(value: Option<&str>) -> (r: bool)
    ensures
        r == match value {
            Some(v) => match spec_parse_bool(v@) {
                Some(x) => x,
                None => true,
            },
            None => true,
        },
{
    flag_or(value, true)
}

/// How many tokens are decoded together for display (`CANDLE_STREAMING_DECODE_BATCH`), 1 by default.
pub fn streaming_decode_batch_size(value: Option<&str>) -> (r: usize)
    ensures
        r == match value {
            Some(v) => match spec_parse_usize(v@) {
                Some(x) => x,
                None => 1,
            },
            None => 1,
        },
{
    number_or(value, 1)
}

/// How many local generations run in parallel (`CANDLE_NUM_PARALLEL`), 4 by default.
pub fn candle_num_parallel(value: Option<&str>) -> (r: usize)
    ensures
        r == match value {
            Some(v) => match spec_parse_usize(v@) {
                Some(x) => x,
                None => 4,
            },
            None => 4,
        },
{
    number_or(value, 4)
}

/// How many model files download at once (`MAX_CONCURRENT_DOWNLOADS`), 8 by default.
pub fn max_concurrent_downloads(value: Option<&str>) -> (r: usize)
    ensures
        r == match value {
            Some(v) => match spec_parse_usize(v@) {
                Some(x) => x,
                None => 8,
            },
            None => 8,
        },
{
    number_or(value, 8)
}

} // verus!
