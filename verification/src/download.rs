//! The decisions of downloading a model: which shard files a sharded
//! model has, whether an overall progress bar is needed, and when a
//! file's progress bar appears.

use vstd::prelude::*;

use crate::text::{same_text, views};

verus! {

broadcast use vstd::std_specs::vec::group_vec_axioms;

/// Some value of a weight map names the file `f`.
pub open spec fn names_file(values: Seq<Option<String>>, f: Seq<char>) -> bool {
    exists|i: int| 0 <= i < values.len() && (#[trigger] values[i]) is Some && values[i]->0@ == f
}

/// The file names among the values of a weight map (values that are
/// not strings count for nothing).
pub open spec fn named_files(values: Seq<Option<String>>) -> Set<Seq<char>> {
    Set::new(|f: Seq<char>| names_file(values, f))
}

/// A flag that is set.
pub open spec fn is_set() -> spec_fn(bool) -> bool {
    |c: bool| c
}

/// Whether `out` holds a file named `name`.
fn listed(out: &Vec<String>, name: &str) -> (r: bool)
    ensures
        r == views(out@).contains(name@),
{
    let n = out.len();
    let mut i: usize = 0;
    while i < n
        invariant
            n == out@.len(),
            i <= n,
            forall|k: int| 0 <= k < i ==> views(out@)[k] != name@,
        decreases n - i,
    {
        if same_text(out[i].as_str(), name) {
            assert(views(out@)[i as int] == name@);
            return true;
        }
        i = i + 1;
    }
    false
}

/// The shard files of a sharded model: the file names among the values
/// of its weight map, each once, in the order in which they first appear.
pub fn shard_files(values: &Vec<Option<String>>) -> (r: Vec<String>)
    ensures
        views(r@).no_duplicates(),
        views(r@).to_set() == named_files(values@),
{
    let mut out: Vec<String> = Vec::new();
    let n = values.len();
    let mut i: usize = 0;
    while i < n
        invariant
            n == values@.len(),
            i <= n,
            views(out@).no_duplicates(),
            forall|f: Seq<char>|
                #[trigger] views(out@).contains(f) <==> names_file(values@.subrange(0, i as int), f),
        decreases n - i,
    {
        match &values[i] {
            Some(name) => {
                let ghost before = views(out@);
                let found = listed(&out, name.as_str());
                if !found {
                    out.push(name.clone());
                    assert(views(out@) =~= before.push(name@));
                    proof {
                        assert(!before.contains(name@));
                        assert forall|a: int, b: int| 0 <= a < b < views(out@).len() implies views(out@)[a] != views(out@)[b] by {
                            if b == before.len() {
                                assert(before[a] == views(out@)[a]);
                            }
                        }
                    }
                }
                let ghost pre = values@.subrange(0, i as int);
                let ghost post = values@.subrange(0, i + 1);
                assert forall|f: Seq<char>|
                    #[trigger] views(out@).contains(f) <==> names_file(post, f) by {
                    assert(before.contains(f) <==> names_file(pre, f));
                    if f == name@ {
                        assert(post[i as int] is Some && post[i as int]->0@ == f);
                    }
                    if names_file(pre, f) {
                        let k = choose|k: int| 0 <= k < pre.len() && (#[trigger] pre[k]) is Some && pre[k]->0@ == f;
                        assert(post[k] == pre[k]);
                    }
                    if names_file(post, f) && f != name@ {
                        let k = choose|k: int| 0 <= k < post.len() && (#[trigger] post[k]) is Some && post[k]->0@ == f;
                        assert(k < i);
                        assert(pre[k] == post[k]);
                    }
                    if found {
                        assert(views(out@) == before);
                    } else {
                        assert(views(out@) == before.push(name@));
                        if views(out@).contains(f) && f != name@ {
                            let j = choose|j: int| 0 <= j < views(out@).len() && views(out@)[j] == f;
                            assert(j < before.len());
                            assert(before[j] == f);
                        }
                        if before.contains(f) {
                            let j = choose|j: int| 0 <= j < before.len() && before[j] == f;
                            assert(views(out@)[j] == f);
                        }
                        if f == name@ {
                            assert(views(out@)[before.len() as int] == f);
                        }
                    }
                }
            },
            None => {
                proof {
                    let pre = values@.subrange(0, i as int);
                    let post = values@.subrange(0, i + 1);
                    assert forall|f: Seq<char>| names_file(post, f) implies names_file(pre, f) by {
                        let k = choose|k: int| 0 <= k < post.len() && (#[trigger] post[k]) is Some && post[k]->0@ == f;
                        assert(k < i);
                        assert(pre[k] == post[k]);
                    }
                    assert forall|f: Seq<char>| names_file(pre, f) implies names_file(post, f) by {
                        let k = choose|k: int| 0 <= k < pre.len() && (#[trigger] pre[k]) is Some && pre[k]->0@ == f;
                        assert(post[k] == pre[k]);
                    }
                }
            },
        }
        i = i + 1;
    }
    assert(values@.subrange(0, n as int) =~= values@);
    assert(views(out@).to_set() =~= named_files(values@));
    out
}

/// The characters of optional texts.
pub open spec fn opt_views(values: Seq<Option<String>>) -> Seq<Option<Seq<char>>> {
    Seq::new(
        values.len(),
        |i: int|
            match values[i] {
                Some(s) => Some(s@),
                None => None,
            },
    )
}

/// The file names among optional texts.
pub open spec fn named_in(values: Seq<Option<Seq<char>>>) -> Set<Seq<char>> {
    Set::new(|f: Seq<char>| exists|i: int| 0 <= i < values.len() && #[trigger] values[i] == Some(f))
}

proof fn lemma_named_files_views(values: Seq<Option<String>>)
    ensures
        named_files(values) == named_in(opt_views(values)),
{
    let v = opt_views(values);
    assert forall|f: Seq<char>| named_files(values).contains(f) <==> named_in(v).contains(f) by {
        if named_files(values).contains(f) {
            let i = choose|i: int| 0 <= i < values.len() && (#[trigger] values[i]) is Some && values[i]->0@ == f;
            assert(v[i] == Some(f));
        }
        if named_in(v).contains(f) {
            let i = choose|i: int| 0 <= i < v.len() && #[trigger] v[i] == Some(f);
            assert(values[i] is Some && values[i]->0@ == f);
        }
    }
    assert(named_files(values) =~= named_in(v));
}

/// What `serde_json` reads from a JSON text: the reader's message when
/// the text is not JSON; otherwise the values of the object under `key`
/// at its top level, each a text or not (none when there is no object
/// under `key`).
pub uninterp spec fn json_object_values(text: Seq<char>, key: Seq<char>) -> Result<Option<Seq<Option<Seq<char>>>>, Seq<char>>;

/// The characters of what [`parse_object_values`] gives.
pub open spec fn weight_map_view(r: Result<Option<Vec<Option<String>>>, String>) -> Result<Option<Seq<Option<Seq<char>>>>, Seq<char>> {
    match r {
        Ok(Some(v)) => Ok(Some(opt_views(v@))),
        Ok(None) => Ok(None),
        Err(m) => Err(m@),
    }
}

/// `serde_json::from_str` of a text into a JSON value, and the values of
/// the object under `key` (`Value::get`, `Value::as_object`), each a text
/// or not (`Value::as_str`); or the reader's message.
#[verifier::external_body]
fn parse_object_values(text: &str, key: &str) -> (r: Result<Option<Vec<Option<String>>>, String>)
    ensures
        weight_map_view(r) == json_object_values(text@, key@),
{
    match serde_json::from_str::<serde_json::Value>(text) {
        Err(e) => Err(e.to_string()),
        Ok(v) => Ok(v.get(key).and_then(|m| m.as_object()).map(
            |o| o.values().map(|x| x.as_str().map(|s| s.to_string())).collect(),
        )),
    }
}

/// A sharded model's index that cannot be used.
#[derive(Debug, Clone, PartialEq, Eq)]
pub enum IndexError {
    /// The index is not JSON, with the reader's message.
    Parse(String),
    /// The index has no "weight_map" object.
    MissingWeightMap,
}

/// The shard files that a sharded model's index names: the texts among
/// the values of its weight map, each once (see [`shard_files`]).
pub fn index_shard_files(index_json: &str) -> (r: Result<Vec<String>, IndexError>)
    ensures
        match json_object_values(index_json@, "weight_map"@) {
            Err(m) => r matches Err(IndexError::Parse(msg)) && msg@ == m,
            Ok(None) => r == Err::<Vec<String>, IndexError>(IndexError::MissingWeightMap),
            Ok(Some(values)) => r is Ok && views(r->Ok_0@).no_duplicates() && views(
                r->Ok_0@,
            ).to_set() == named_in(values),
        },
{
    match parse_object_values(index_json, "weight_map") {
        Err(m) => Err(IndexError::Parse(m)),
        Ok(None) => Err(IndexError::MissingWeightMap),
        Ok(Some(values)) => {
            proof {
                lemma_named_files_views(values@);
            }
            Ok(shard_files(&values))
        },
    }
}

/// How many shard files are cached already, given whether each is, and
/// whether the overall progress bar is needed (some file must be fetched).
pub fn shard_progress(cached: &Vec<bool>) -> (r: (usize, bool))
    ensures
        r.0 == cached@.filter(is_set()).len(),
        r.1 == (r.0 < cached@.len()),
{
    let n = cached.len();
    let mut count: usize = 0;
    let mut i: usize = 0;
    while i < n
        invariant
            n == cached@.len(),
            i <= n,
            count <= i,
            count == cached@.subrange(0, i as int).filter(is_set()).len(),
        decreases n - i,
    {
        proof {
            assert(cached@.subrange(0, i + 1) =~= cached@.subrange(0, i as int).push(cached@[i as int]));
            cached@.subrange(0, i as int).lemma_filter_push(cached@[i as int], is_set());
        }
        if cached[i] {
            count = count + 1;
        }
        i = i + 1;
    }
    assert(cached@.subrange(0, n as int) =~= cached@);
    (count, count < n)
}

/// The progress display of one file's download: its bar appears only
/// once the download has taken longer than the delay.
pub struct DownloadDisplay {
    pub visible: bool,
    pub delay_ms: u64,
    pub length: u64,
}

impl DownloadDisplay {
    /// Nothing shown yet; the bar waits 500 ms before it appears.
    pub fn new() -> (r: DownloadDisplay)
        ensures
            !r.visible && r.delay_ms == 500 && r.length == 0,
    {
        DownloadDisplay { visible: false, delay_ms: 500, length: 0 }
    }

    /// Whether the bar must appear now, `elapsed_ms` after the download
    /// started: when it is not shown yet and the delay has passed.
    pub fn maybe_show(&mut self, elapsed_ms: u128) -> (show: bool)
        ensures
            show == (!old(self).visible && elapsed_ms > old(self).delay_ms as u128),
            final(self).visible == (old(self).visible || show),
            final(self).delay_ms == old(self).delay_ms,
            final(self).length == old(self).length,
    {
        if !self.visible && elapsed_ms > self.delay_ms as u128 {
            self.visible = true;
            true
        } else {
            false
        }
    }

    /// The download's size is known: it becomes the bar's length; gives
    /// whether the bar must appear now.
    pub fn init(&mut self, size: usize, elapsed_ms: u128) -> (show: bool)
        ensures
            final(self).length == size as u64,
            show == (!old(self).visible && elapsed_ms > old(self).delay_ms as u128),
            final(self).visible == (old(self).visible || show),
            final(self).delay_ms == old(self).delay_ms,
    {
        self.length = size as u64;
        self.maybe_show(elapsed_ms)
    }
}

} // verus!
