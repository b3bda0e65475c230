//! Which model files to use: the GGUF file of a repository, in order of
//! preferred quantization; whether a repository's snapshot in the local
//! cache holds a usable model; and the architecture that a model's
//! configuration names.

use vstd::prelude::*;

use crate::settings::{to_uppercase, uppercase_of};
use crate::text::{contains, ends_with, has_substring, has_suffix, has_prefix, owned, push_text, replace, replace_all, same_text, starts_with, views};

verus! {

broadcast use vstd::std_specs::vec::group_vec_axioms;

/// The text after the last '/' of `s`, or all of `s` when it has none.
pub open spec fn after_last_slash(s: Seq<char>) -> Seq<char>
    decreases s.len(),
{
    if s.len() == 0 {
        s
    } else if s.last() == '/' {
        Seq::empty()
    } else {
        after_last_slash(s.drop_last()).push(s.last())
    }
}

/// The base name of a GGUF repository: its last path segment without
/// "-GGUF" or "-gguf" ("Qwen/Qwen3-1.7B-GGUF" gives "Qwen3-1.7B").
pub open spec fn gguf_base_name(model_name: Seq<char>) -> Seq<char> {
    replace_all(replace_all(after_last_slash(model_name), "-GGUF"@, ""@), "-gguf"@, ""@)
}

/// The file name endings to look for, in order of preference: Q8_0, then
/// Q4_K_M, then Q5_K_M, then Q4_K_S, each in the spellings in use.
pub open spec fn gguf_suffixes() -> Seq<Seq<char>> {
    seq![
        ".Q8_0.gguf"@,
        "-Q8_0.gguf"@,
        "-q8_0.gguf"@,
        ".q8_0.gguf"@,
        ".Q4_K_M.gguf"@,
        "-Q4_K_M.gguf"@,
        "-q4_k_m.gguf"@,
        ".q4_k_m.gguf"@,
        ".Q5_K_M.gguf"@,
        "-Q5_K_M.gguf"@,
        "-q5_k_m.gguf"@,
        ".q5_k_m.gguf"@,
        ".Q4_K_S.gguf"@,
        "-Q4_K_S.gguf"@,
    ]
}

/// The GGUF file names to look for, in order of preference.
pub open spec fn priority_formats(base: Seq<char>) -> Seq<Seq<char>> {
    Seq::new(gguf_suffixes().len(), |i: int| base + gguf_suffixes()[i])
}

/// The first of `formats` that `files` holds, if any.
pub open spec fn first_listed(formats: Seq<Seq<char>>, files: Seq<Seq<char>>) -> Option<Seq<char>>
    decreases formats.len(),
{
    if formats.len() == 0 {
        None
    } else if files.contains(formats[0]) {
        Some(formats[0])
    } else {
        first_listed(formats.drop_first(), files)
    }
}

/// A GGUF file, by its name.
pub open spec fn is_gguf_file() -> spec_fn(Seq<char>) -> bool {
    |f: Seq<char>| has_suffix(f, ".gguf"@)
}

/// The GGUF files among `files`.
pub open spec fn gguf_files(files: Seq<Seq<char>>) -> Seq<Seq<char>> {
    files.filter(is_gguf_file())
}

/// The GGUF file to use from the cache: that of the first snapshot whose
/// GGUF files include one of the preferred formats, the most preferred.
pub open spec fn select_cached(formats: Seq<Seq<char>>, snapshots: Seq<Seq<Seq<char>>>) -> Option<Seq<char>>
    decreases snapshots.len(),
{
    if snapshots.len() == 0 {
        None
    } else {
        match first_listed(formats, gguf_files(snapshots[0])) {
            Some(f) => Some(f),
            None => select_cached(formats, snapshots.drop_first()),
        }
    }
}

proof fn lemma_first_listed_member(formats: Seq<Seq<char>>, files: Seq<Seq<char>>)
    ensures
        first_listed(formats, files) is Some ==> formats.contains(first_listed(formats, files)->0)
            && files.contains(first_listed(formats, files)->0),
    decreases formats.len(),
{
    if formats.len() > 0 && !files.contains(formats[0]) {
        lemma_first_listed_member(formats.drop_first(), files);
        if first_listed(formats.drop_first(), files) is Some {
            let f = first_listed(formats.drop_first(), files)->0;
            let k = choose|k: int| 0 <= k < formats.drop_first().len() && formats.drop_first()[k] == f;
            assert(formats[k + 1] == f);
        }
    } else if formats.len() > 0 {
        assert(formats[0] == formats[0]);
    }
}

/// The file chosen from the cache is one of the preferred formats, and
/// a GGUF file of one of the snapshots.
pub proof fn law_cached_choice_is_cached(formats: Seq<Seq<char>>, snapshots: Seq<Seq<Seq<char>>>)
    ensures
        select_cached(formats, snapshots) is Some ==> {
            let f = select_cached(formats, snapshots)->0;
            &&& formats.contains(f)
            &&& has_suffix(f, ".gguf"@)
            &&& exists|i: int| 0 <= i < snapshots.len() && (#[trigger] snapshots[i]).contains(f)
        },
    decreases snapshots.len(),
{
    if snapshots.len() > 0 {
        let g = gguf_files(snapshots[0]);
        lemma_first_listed_member(formats, g);
        match first_listed(formats, g) {
            Some(f) => {
                snapshots[0].lemma_filter_contains_rev(is_gguf_file(), f);
                let k = choose|k: int| 0 <= k < g.len() && g[k] == f;
                snapshots[0].lemma_filter_pred(is_gguf_file(), k);
            },
            None => {
                law_cached_choice_is_cached(formats, snapshots.drop_first());
                if select_cached(formats, snapshots.drop_first()) is Some {
                    let f = select_cached(formats, snapshots.drop_first())->0;
                    let i = choose|i: int| 0 <= i < snapshots.drop_first().len() && (#[trigger] snapshots.drop_first()[i]).contains(f);
                    assert(snapshots[i + 1] == snapshots.drop_first()[i]);
                }
            },
        }
    }
}

/// The text after the last '/' of `s`.
fn last_segment(s: &str) -> (r: String)
    ensures
        r@ == after_last_slash(s@),
{
    let n = s.unicode_len();
    let mut k: usize = n;
    // after_last_slash(s) is after_last_slash(s[..k]) followed by s[k..]
    assert(s@.subrange(0, n as int) =~= s@);
    assert(s@.subrange(n as int, n as int) =~= Seq::<char>::empty());
    while k > 0 && s.get_char(k - 1) != '/'
        invariant
            n == s@.len(),
            k <= n,
            after_last_slash(s@) == after_last_slash(s@.subrange(0, k as int)) + s@.subrange(
                k as int,
                n as int,
            ),
        decreases k,
    {
        let ghost t = s@.subrange(0, k as int);
        assert(t.drop_last() =~= s@.subrange(0, k - 1));
        assert(t.last() == s@[k - 1]);
        assert(after_last_slash(t) == after_last_slash(s@.subrange(0, k - 1)).push(s@[k - 1]));
        assert(after_last_slash(s@.subrange(0, k - 1)).push(s@[k - 1]) + s@.subrange(k as int, n as int)
            =~= after_last_slash(s@.subrange(0, k - 1)) + s@.subrange(k - 1, n as int));
        k = k - 1;
    }
    if k > 0 {
        let ghost t = s@.subrange(0, k as int);
        assert(t.last() == '/');
        assert(after_last_slash(t) == Seq::<char>::empty());
    }
    assert(Seq::<char>::empty() + s@.subrange(k as int, n as int) =~= s@.subrange(k as int, n as int));
    owned(s.substring_char(k, n))
}

/// The base name of a GGUF repository (see [`gguf_base_name`]).
pub fn base_name(model_name: &str) -> (r: String)
    ensures
        r@ == gguf_base_name(model_name@),
{
    proof {
        reveal_strlit("-GGUF");
        reveal_strlit("-gguf");
    }
    let last = last_segment(model_name);
    let a = replace(last.as_str(), "-GGUF", "");
    replace(a.as_str(), "-gguf", "")
}

/// The GGUF file names to look for, in order of preference.
pub fn gguf_priority_formats(base: &str) -> (r: Vec<String>)
    ensures
        views(r@) == priority_formats(base@),
{
    let suffixes = [
        ".Q8_0.gguf",
        "-Q8_0.gguf",
        "-q8_0.gguf",
        ".q8_0.gguf",
        ".Q4_K_M.gguf",
        "-Q4_K_M.gguf",
        "-q4_k_m.gguf",
        ".q4_k_m.gguf",
        ".Q5_K_M.gguf",
        "-Q5_K_M.gguf",
        "-q5_k_m.gguf",
        ".q5_k_m.gguf",
        ".Q4_K_S.gguf",
        "-Q4_K_S.gguf",
    ];
    let ghost sv = Seq::new(14, |i: int| suffixes@[i]@);
    assert(sv =~= gguf_suffixes());
    let mut out: Vec<String> = Vec::new();
    let mut i: usize = 0;
    while i < 14
        invariant
            i <= 14,
            suffixes@.len() == 14,
            sv == gguf_suffixes(),
            forall|k: int| 0 <= k < 14 ==> #[trigger] sv[k] == suffixes@[k]@,
            views(out@) == Seq::new(i as nat, |k: int| base@ + gguf_suffixes()[k]),
        decreases 14 - i,
    {
        let mut f = owned(base);
        push_text(&mut f, suffixes[i]);
        assert(f@ == base@ + gguf_suffixes()[i as int]) by {
            assert(sv[i as int] == suffixes@[i as int]@);
        }
        let ghost before = views(out@);
        out.push(f);
        assert(views(out@) =~= before.push(f@));
        assert(views(out@) =~= Seq::new((i + 1) as nat, |k: int| base@ + gguf_suffixes()[k]));
        i = i + 1;
    }
    out
}

/// Whether `files` holds a file named `name`.
fn holds(files: &Vec<String>, name: &str) -> (r: bool)
    ensures
        r == views(files@).contains(name@),
{
    let n = files.len();
    let mut i: usize = 0;
    while i < n
        invariant
            n == files@.len(),
            i <= n,
            forall|k: int| 0 <= k < i ==> views(files@)[k] != name@,
        decreases n - i,
    {
        if same_text(files[i].as_str(), name) {
            assert(views(files@)[i as int] == name@);
            return true;
        }
        i = i + 1;
    }
    false
}

proof fn lemma_first_listed_skip(formats: Seq<Seq<char>>, files: Seq<Seq<char>>, i: int)
    requires
        0 <= i < formats.len(),
        !files.contains(formats[i]),
    ensures
        first_listed(formats.skip(i), files) == first_listed(formats.skip(i + 1), files),
{
    assert(formats.skip(i).drop_first() =~= formats.skip(i + 1));
}

/// The first of `formats` that `files` holds, if any.
pub fn pick_listed(formats: &Vec<String>, files: &Vec<String>) -> (r: Option<String>)
    ensures
        match r {
            Some(f) => first_listed(views(formats@), views(files@)) == Some(f@),
            None => first_listed(views(formats@), views(files@)) is None,
        },
{
    let ghost fs = views(formats@);
    let n = formats.len();
    let mut i: usize = 0;
    assert(fs.skip(0) =~= fs);
    while i < n
        invariant
            n == formats@.len(),
            fs == views(formats@),
            i <= n,
            first_listed(fs, views(files@)) == first_listed(fs.skip(i as int), views(files@)),
        decreases n - i,
    {
        if holds(files, formats[i].as_str()) {
            assert(fs.skip(i as int)[0] == fs[i as int]);
            return Some(formats[i].clone());
        }
        proof {
            lemma_first_listed_skip(fs, views(files@), i as int);
        }
        i = i + 1;
    }
    None
}

/// The GGUF files among `files`, in order.
pub fn gguf_only(files: &Vec<String>) -> (r: Vec<String>)
    ensures
        views(r@) == gguf_files(views(files@)),
{
    proof {
        reveal_strlit(".gguf");
    }
    let ghost s = views(files@);
    let mut out: Vec<String> = Vec::new();
    let n = files.len();
    let mut i: usize = 0;
    assert(gguf_files(s.subrange(0, 0)) =~= Seq::<Seq<char>>::empty());
    while i < n
        invariant
            n == files@.len(),
            s == views(files@),
            i <= n,
            views(out@) == gguf_files(s.subrange(0, i as int)),
        decreases n - i,
    {
        let ghost before = views(out@);
        let keep = ends_with(files[i].as_str(), ".gguf");
        proof {
            let t = s.subrange(0, i + 1);
            assert(t.drop_last() =~= s.subrange(0, i as int));
            assert(t.last() == s[i as int]);
            assert(files@[i as int]@ == s[i as int]);
            assert(s.subrange(0, i as int).push(s[i as int]) =~= t);
            s.subrange(0, i as int).lemma_filter_push(s[i as int], is_gguf_file());
            assert(gguf_files(t) == if has_suffix(s[i as int], ".gguf"@) {
                gguf_files(s.subrange(0, i as int)).push(s[i as int])
            } else {
                gguf_files(s.subrange(0, i as int))
            });
        }
        if keep {
            out.push(files[i].clone());
            assert(views(out@) =~= before.push(s[i as int]));
        }
        i = i + 1;
    }
    assert(s.subrange(0, n as int) =~= s);
    out
}

proof fn lemma_select_cached_skip(formats: Seq<Seq<char>>, snapshots: Seq<Seq<Seq<char>>>, i: int)
    requires
        0 <= i < snapshots.len(),
        first_listed(formats, gguf_files(snapshots[i])) is None,
    ensures
        select_cached(formats, snapshots.skip(i)) == select_cached(formats, snapshots.skip(i + 1)),
{
    assert(snapshots.skip(i).drop_first() =~= snapshots.skip(i + 1));
}

/// The file names of each snapshot.
pub open spec fn snapshots_view(v: Seq<Vec<String>>) -> Seq<Seq<Seq<char>>> {
    Seq::new(v.len(), |i: int| views(v[i]@))
}

/// The GGUF file to use from the cached snapshots of a repository (the
/// file names of each), if one of them has a preferred format.
pub fn select_cached_gguf(model_name: &str, snapshots: &Vec<Vec<String>>) -> (r: Option<String>)
    ensures
        match r {
            Some(f) => select_cached(
                priority_formats(gguf_base_name(model_name@)),
                snapshots_view(snapshots@),
            ) == Some(f@),
            None => select_cached(
                priority_formats(gguf_base_name(model_name@)),
                snapshots_view(snapshots@),
            ) is None,
        },
{
    let base = base_name(model_name);
    let formats = gguf_priority_formats(base.as_str());
    let ghost fs = views(formats@);
    let ghost ss = snapshots_view(snapshots@);
    let n = snapshots.len();
    let mut i: usize = 0;
    assert(ss.skip(0) =~= ss);
    while i < n
        invariant
            n == snapshots@.len(),
            fs == views(formats@),
            fs == priority_formats(gguf_base_name(model_name@)),
            ss == snapshots_view(snapshots@),
            i <= n,
            select_cached(fs, ss) == select_cached(fs, ss.skip(i as int)),
        decreases n - i,
    {
        let g = gguf_only(&snapshots[i]);
        assert(ss[i as int] == views(snapshots@[i as int]@));
        assert(ss.skip(i as int)[0] == ss[i as int]);
        match pick_listed(&formats, &g) {
            Some(f) => {
                return Some(f);
            },
            None => {
                proof {
                    lemma_select_cached_skip(fs, ss, i as int);
                }
            },
        }
        i = i + 1;
    }
    None
}

/// None of the preferred GGUF files is in the repository.
#[derive(Debug, Clone, PartialEq, Eq)]
pub struct NoMatchingGguf {
    /// The repository's GGUF files
    pub available: Vec<String>,
    /// The file names looked for, in order of preference
    pub tried: Vec<String>,
}

/// The GGUF file to download from a repository, given the paths of its
/// files: the most preferred format among its GGUF files.
pub fn select_available_gguf(model_name: &str, paths: &Vec<String>) -> (r: Result<String, NoMatchingGguf>)
    ensures
        match r {
            Ok(f) => first_listed(
                priority_formats(gguf_base_name(model_name@)),
                gguf_files(views(paths@)),
            ) == Some(f@),
            Err(e) => first_listed(
                priority_formats(gguf_base_name(model_name@)),
                gguf_files(views(paths@)),
            ) is None && views(e.available@) == gguf_files(views(paths@)) && views(e.tried@)
                == priority_formats(gguf_base_name(model_name@)),
        },
{
    let base = base_name(model_name);
    let formats = gguf_priority_formats(base.as_str());
    let available = gguf_only(paths);
    match pick_listed(&formats, &available) {
        Some(f) => Ok(f),
        None => Err(NoMatchingGguf { available, tried: formats }),
    }
}

/// A repository holds GGUF files: its name contains "GGUF" in upper case.
pub open spec fn spec_is_gguf_model(model_name: Seq<char>) -> bool {
    has_substring(uppercase_of(model_name), "GGUF"@)
}

/// Whether a repository holds GGUF files, by its name.
pub fn is_gguf_model(model_name: &str) -> (r: bool)
    ensures
        r == spec_is_gguf_model(model_name@),
{
    let upper = to_uppercase(model_name);
    contains(upper.as_str(), "GGUF")
}

/// A cached snapshot holds a usable model: a GGUF file for a GGUF
/// repository; otherwise "config.json" and weights (a ".safetensors"
/// file or a "pytorch_model" file).
pub open spec fn snapshot_ready(files: Seq<Seq<char>>, is_gguf: bool) -> bool {
    if is_gguf {
        exists|i: int| 0 <= i < files.len() && has_suffix(#[trigger] files[i], ".gguf"@)
    } else {
        &&& files.contains("config.json"@)
        &&& exists|i: int|
            0 <= i < files.len() && (has_suffix(#[trigger] files[i], ".safetensors"@) || has_prefix(
                files[i],
                "pytorch_model"@,
            ) || files[i] == "model.safetensors"@)
    }
}

/// Whether a cached snapshot (the names of its files) holds a usable model.
pub fn is_snapshot_ready(files: &Vec<String>, is_gguf: bool) -> (r: bool)
    ensures
        r == snapshot_ready(views(files@), is_gguf),
{
    let ghost s = views(files@);
    let n = files.len();
    let mut i: usize = 0;
    let mut has_config = false;
    let mut has_weights = false;
    while i < n
        invariant
            n == files@.len(),
            s == views(files@),
            i <= n,
            is_gguf ==> !has_weights && forall|k: int| 0 <= k < i ==> !has_suffix(#[trigger] s[k], ".gguf"@),
            !is_gguf ==> (has_config == exists|k: int| 0 <= k < i && #[trigger] s[k] == "config.json"@),
            !is_gguf ==> (has_weights == exists|k: int|
                0 <= k < i && (has_suffix(#[trigger] s[k], ".safetensors"@) || has_prefix(
                    s[k],
                    "pytorch_model"@,
                ) || s[k] == "model.safetensors"@)),
        decreases n - i,
    {
        let f = files[i].as_str();
        assert(f@ == s[i as int]);
        if is_gguf {
            if ends_with(f, ".gguf") {
                return true;
            }
        } else {
            if same_text(f, "config.json") {
                has_config = true;
            }
            if ends_with(f, ".safetensors") || starts_with(f, "pytorch_model") || same_text(
                f,
                "model.safetensors",
            ) {
                has_weights = true;
            }
        }
        i = i + 1;
    }
    if is_gguf {
        false
    } else {
        proof {
            if has_config {
                let k = choose|k: int| 0 <= k < n && s[k] == "config.json"@;
                assert(s.contains("config.json"@));
            }
            if s.contains("config.json"@) {
                let k = choose|k: int| 0 <= k < s.len() && s[k] == "config.json"@;
                assert(s[k] == "config.json"@);
            }
        }
        has_config && has_weights
    }
}

/// Whether any cached snapshot of a repository holds a usable model.
pub fn is_cached_model(snapshots: &Vec<Vec<String>>, is_gguf: bool) -> (r: bool)
    ensures
        r == exists|i: int| 0 <= i < snapshots@.len() && snapshot_ready(
            views(#[trigger] snapshots@[i]@),
            is_gguf,
        ),
{
    let n = snapshots.len();
    let mut i: usize = 0;
    while i < n
        invariant
            n == snapshots@.len(),
            i <= n,
            forall|k: int| 0 <= k < i ==> !snapshot_ready(views(#[trigger] snapshots@[k]@), is_gguf),
        decreases n - i,
    {
        if is_snapshot_ready(&snapshots[i], is_gguf) {
            return true;
        }
        i = i + 1;
    }
    false
}

/// No architecture is named in the model's configuration.
#[derive(Debug, Clone, Copy, PartialEq, Eq)]
pub struct MissingArchitecture;

/// The architecture of a model: the first that its configuration names.
pub fn detect_architecture(architectures: &Option<Vec<String>>) -> (r: Result<String, MissingArchitecture>)
    ensures
        match r {
            Ok(a) => architectures is Some && architectures->0@.len() > 0 && a@
                == architectures->0@[0]@,
            Err(_) => architectures is None || architectures->0@.len() == 0,
        },
{
    match architectures {
        Some(v) => {
            if v.len() > 0 {
                Ok(v[0].clone())
            } else {
                Err(MissingArchitecture)
            }
        },
        None => Err(MissingArchitecture),
    }
}

/// The model families that local generation can load.
#[derive(Debug, Clone, Copy, PartialEq, Eq)]
pub enum ArchitectureKind {
    Llama,
    Qwen2,
    Qwen3,
    Qwen3Moe,
}

/// An architecture that local generation cannot load, by its name.
#[derive(Debug, Clone, PartialEq, Eq)]
pub struct UnsupportedArchitecture {
    pub architecture: String,
}

/// The family that an architecture's name selects: Llama, then Qwen2,
/// then Qwen3 (a mixture of experts when the configuration gives a number
/// of experts), by the first of these names that it contains.
pub open spec fn architecture_kind(arch: Seq<char>, has_experts: bool) -> Option<ArchitectureKind> {
    if has_substring(arch, "Llama"@) {
        Some(ArchitectureKind::Llama)
    } else if has_substring(arch, "Qwen2"@) {
        Some(ArchitectureKind::Qwen2)
    } else if has_substring(arch, "Qwen3"@) {
        if has_experts {
            Some(ArchitectureKind::Qwen3Moe)
        } else {
            Some(ArchitectureKind::Qwen3)
        }
    } else {
        None
    }
}

/// The family that an architecture's name selects (see [`architecture_kind`]).
pub fn select_architecture(arch: &str, num_experts: Option<usize>) -> (r: Result<ArchitectureKind, UnsupportedArchitecture>)
    ensures
        match r {
            Ok(k) => architecture_kind(arch@, num_experts is Some) == Some(k),
            Err(e) => architecture_kind(arch@, num_experts is Some) is None && e.architecture@ == arch@,
        },
{
    if contains(arch, "Llama") {
        Ok(ArchitectureKind::Llama)
    } else if contains(arch, "Qwen2") {
        Ok(ArchitectureKind::Qwen2)
    } else if contains(arch, "Qwen3") {
        if num_experts.is_some() {
            Ok(ArchitectureKind::Qwen3Moe)
        } else {
            Ok(ArchitectureKind::Qwen3)
        }
    } else {
        Err(UnsupportedArchitecture { architecture: owned(arch) })
    }
}

/// The end-of-sequence token of a configuration, which gives one token or
/// a list of them (of which the first counts).
pub enum EosTokenId {
    Single(u32),
    Multiple(Vec<u32>),
}

/// The end-of-sequence token that a configuration gives, if any.
pub fn config_eos_token(v: Option<EosTokenId>) -> (r: Option<u32>)
    ensures
        r == match v {
            Some(EosTokenId::Single(id)) => Some(id),
            Some(EosTokenId::Multiple(ids)) => if ids@.len() > 0 {
                Some(ids@[0])
            } else {
                None
            },
            None => None,
        },
{
    match v {
        Some(EosTokenId::Single(id)) => Some(id),
        Some(EosTokenId::Multiple(ids)) => if ids.len() > 0 {
            Some(ids[0])
        } else {
            None
        },
        None => None,
    }
}


/// The precision in which a model's weights are loaded.
#[derive(Debug, Clone, Copy, PartialEq, Eq)]
pub enum WeightPrecision {
    F16,
    F32,
}

/// Half precision on a Metal GPU, for faster inference; single
/// precision elsewhere.
pub fn weight_precision(on_metal: bool) -> (r: WeightPrecision)
    ensures
        r == if on_metal {
            WeightPrecision::F16
        } else {
            WeightPrecision::F32
        },
{
    if on_metal {
        WeightPrecision::F16
    } else {
        WeightPrecision::F32
    }
}

} // verus!
