//! Pretty names for local models, in the manner of Ollama ("llama3.1:8b"),
//! and the HuggingFace repositories that they stand for; whether a
//! repository is in the local HuggingFace cache.

use vstd::prelude::*;

use crate::order::text_lt;
use crate::text::{owned, push_text, replace, replace_all, same_text, views};

verus! {

broadcast use vstd::std_specs::vec::group_vec_axioms;

/// The lookup table: pretty name, then HuggingFace repository.
pub open spec fn model_table() -> Seq<(Seq<char>, Seq<char>)> {
    seq![
        ("llama3.1:8b"@, "unsloth/Llama-3.1-8B-Instruct-GGUF"@),
        ("llama3.1:70b"@, "unsloth/Llama-3.1-70B-Instruct-GGUF"@),
        ("llama3.2:1b"@, "unsloth/Llama-3.2-1B-Instruct-GGUF"@),
        ("llama3.2:3b"@, "unsloth/Llama-3.2-3B-Instruct-GGUF"@),
        ("llama3.3:70b"@, "unsloth/Llama-3.3-70B-Instruct-GGUF"@),
        ("gemma2:2b"@, "unsloth/gemma-2-2b-it-GGUF"@),
        ("gemma2:9b"@, "unsloth/gemma-2-9b-it-GGUF"@),
        ("gemma2:27b"@, "unsloth/gemma-2-27b-it-GGUF"@),
        ("phi3:3b"@, "unsloth/Phi-3-mini-4k-instruct-GGUF"@),
        ("phi3.5:3b"@, "unsloth/Phi-3.5-mini-instruct-GGUF"@),
        ("phi4:14b"@, "unsloth/Phi-4-GGUF"@),
        ("qwen2:0.5b"@, "unsloth/Qwen2-0.5B-Instruct-GGUF"@),
        ("qwen2:1.5b"@, "unsloth/Qwen2-1.5B-Instruct-GGUF"@),
        ("qwen2:7b"@, "unsloth/Qwen2-7B-Instruct-GGUF"@),
        ("qwen2.5:0.5b"@, "unsloth/Qwen2.5-0.5B-Instruct-GGUF"@),
        ("qwen2.5:1.5b"@, "unsloth/Qwen2.5-1.5B-Instruct-GGUF"@),
        ("qwen2.5:3b"@, "unsloth/Qwen2.5-3B-Instruct-GGUF"@),
        ("qwen2.5:7b"@, "unsloth/Qwen2.5-7B-Instruct-GGUF"@),
        ("qwen2.5:14b"@, "unsloth/Qwen2.5-14B-Instruct-GGUF"@),
        ("qwen2.5:32b"@, "unsloth/Qwen2.5-32B-Instruct-GGUF"@),
        ("qwen2.5:72b"@, "unsloth/Qwen2.5-72B-Instruct-GGUF"@),
    ]
}

/// No two entries of the lookup table share a pretty name: the table is a
/// map from pretty names to repositories.
pub proof fn law_table_names_distinct()
    ensures
        forall|i: int, j: int|
            0 <= i < j < model_table().len() ==> #[trigger] model_table()[i].0 != #[trigger] model_table()[j].0,
{
    let t = model_table();
    reveal_strlit("llama3.1:8b");
    reveal_strlit("llama3.1:70b");
    reveal_strlit("llama3.2:1b");
    reveal_strlit("llama3.2:3b");
    reveal_strlit("llama3.3:70b");
    reveal_strlit("gemma2:2b");
    reveal_strlit("gemma2:9b");
    reveal_strlit("gemma2:27b");
    reveal_strlit("phi3:3b");
    reveal_strlit("phi3.5:3b");
    reveal_strlit("phi4:14b");
    reveal_strlit("qwen2:0.5b");
    reveal_strlit("qwen2:1.5b");
    reveal_strlit("qwen2:7b");
    reveal_strlit("qwen2.5:0.5b");
    reveal_strlit("qwen2.5:1.5b");
    reveal_strlit("qwen2.5:3b");
    reveal_strlit("qwen2.5:7b");
    reveal_strlit("qwen2.5:14b");
    reveal_strlit("qwen2.5:32b");
    reveal_strlit("qwen2.5:72b");
    assert(t[0].0 == "llama3.1:8b"@);
    assert(t[1].0 == "llama3.1:70b"@);
    assert(t[2].0 == "llama3.2:1b"@);
    assert(t[3].0 == "llama3.2:3b"@);
    assert(t[4].0 == "llama3.3:70b"@);
    assert(t[5].0 == "gemma2:2b"@);
    assert(t[6].0 == "gemma2:9b"@);
    assert(t[7].0 == "gemma2:27b"@);
    assert(t[8].0 == "phi3:3b"@);
    assert(t[9].0 == "phi3.5:3b"@);
    assert(t[10].0 == "phi4:14b"@);
    assert(t[11].0 == "qwen2:0.5b"@);
    assert(t[12].0 == "qwen2:1.5b"@);
    assert(t[13].0 == "qwen2:7b"@);
    assert(t[14].0 == "qwen2.5:0.5b"@);
    assert(t[15].0 == "qwen2.5:1.5b"@);
    assert(t[16].0 == "qwen2.5:3b"@);
    assert(t[17].0 == "qwen2.5:7b"@);
    assert(t[18].0 == "qwen2.5:14b"@);
    assert(t[19].0 == "qwen2.5:32b"@);
    assert(t[20].0 == "qwen2.5:72b"@);
    // names of equal length differ at one of these positions
    assert("llama3.1:8b"@[7] != "llama3.2:1b"@[7]);
    assert("llama3.1:8b"@[7] != "llama3.2:3b"@[7]);
    assert("llama3.1:8b"@[0] != "qwen2.5:14b"@[0]);
    assert("llama3.1:8b"@[0] != "qwen2.5:32b"@[0]);
    assert("llama3.1:8b"@[0] != "qwen2.5:72b"@[0]);
    assert("llama3.1:70b"@[7] != "llama3.3:70b"@[7]);
    assert("llama3.1:70b"@[0] != "qwen2.5:0.5b"@[0]);
    assert("llama3.1:70b"@[0] != "qwen2.5:1.5b"@[0]);
    assert("llama3.2:1b"@[9] != "llama3.2:3b"@[9]);
    assert("llama3.2:1b"@[0] != "qwen2.5:14b"@[0]);
    assert("llama3.2:1b"@[0] != "qwen2.5:32b"@[0]);
    assert("llama3.2:1b"@[0] != "qwen2.5:72b"@[0]);
    assert("llama3.2:3b"@[0] != "qwen2.5:14b"@[0]);
    assert("llama3.2:3b"@[0] != "qwen2.5:32b"@[0]);
    assert("llama3.2:3b"@[0] != "qwen2.5:72b"@[0]);
    assert("llama3.3:70b"@[0] != "qwen2.5:0.5b"@[0]);
    assert("llama3.3:70b"@[0] != "qwen2.5:1.5b"@[0]);
    assert("gemma2:2b"@[7] != "gemma2:9b"@[7]);
    assert("gemma2:2b"@[0] != "phi3.5:3b"@[0]);
    assert("gemma2:9b"@[0] != "phi3.5:3b"@[0]);
    assert("gemma2:27b"@[0] != "qwen2:0.5b"@[0]);
    assert("gemma2:27b"@[0] != "qwen2:1.5b"@[0]);
    assert("gemma2:27b"@[0] != "qwen2.5:3b"@[0]);
    assert("gemma2:27b"@[0] != "qwen2.5:7b"@[0]);
    assert("phi4:14b"@[0] != "qwen2:7b"@[0]);
    assert("qwen2:0.5b"@[6] != "qwen2:1.5b"@[6]);
    assert("qwen2:0.5b"@[5] != "qwen2.5:3b"@[5]);
    assert("qwen2:0.5b"@[5] != "qwen2.5:7b"@[5]);
    assert("qwen2:1.5b"@[5] != "qwen2.5:3b"@[5]);
    assert("qwen2:1.5b"@[5] != "qwen2.5:7b"@[5]);
    assert("qwen2.5:0.5b"@[8] != "qwen2.5:1.5b"@[8]);
    assert("qwen2.5:3b"@[8] != "qwen2.5:7b"@[8]);
    assert("qwen2.5:14b"@[8] != "qwen2.5:32b"@[8]);
    assert("qwen2.5:14b"@[8] != "qwen2.5:72b"@[8]);
    assert("qwen2.5:32b"@[8] != "qwen2.5:72b"@[8]);
}

/// No two entries of the lookup table share a repository: each pretty
/// name stands for a model of its own.
pub proof fn law_table_repositories_distinct()
    ensures
        forall|i: int, j: int|
            0 <= i < j < model_table().len() ==> #[trigger] model_table()[i].1 != #[trigger] model_table()[j].1,
{
    let t = model_table();
    reveal_strlit("unsloth/Llama-3.1-8B-Instruct-GGUF");
    reveal_strlit("unsloth/Llama-3.1-70B-Instruct-GGUF");
    reveal_strlit("unsloth/Llama-3.2-1B-Instruct-GGUF");
    reveal_strlit("unsloth/Llama-3.2-3B-Instruct-GGUF");
    reveal_strlit("unsloth/Llama-3.3-70B-Instruct-GGUF");
    reveal_strlit("unsloth/gemma-2-2b-it-GGUF");
    reveal_strlit("unsloth/gemma-2-9b-it-GGUF");
    reveal_strlit("unsloth/gemma-2-27b-it-GGUF");
    reveal_strlit("unsloth/Phi-3-mini-4k-instruct-GGUF");
    reveal_strlit("unsloth/Phi-3.5-mini-instruct-GGUF");
    reveal_strlit("unsloth/Phi-4-GGUF");
    reveal_strlit("unsloth/Qwen2-0.5B-Instruct-GGUF");
    reveal_strlit("unsloth/Qwen2-1.5B-Instruct-GGUF");
    reveal_strlit("unsloth/Qwen2-7B-Instruct-GGUF");
    reveal_strlit("unsloth/Qwen2.5-0.5B-Instruct-GGUF");
    reveal_strlit("unsloth/Qwen2.5-1.5B-Instruct-GGUF");
    reveal_strlit("unsloth/Qwen2.5-3B-Instruct-GGUF");
    reveal_strlit("unsloth/Qwen2.5-7B-Instruct-GGUF");
    reveal_strlit("unsloth/Qwen2.5-14B-Instruct-GGUF");
    reveal_strlit("unsloth/Qwen2.5-32B-Instruct-GGUF");
    reveal_strlit("unsloth/Qwen2.5-72B-Instruct-GGUF");
    assert(t[0].1 == "unsloth/Llama-3.1-8B-Instruct-GGUF"@);
    assert(t[1].1 == "unsloth/Llama-3.1-70B-Instruct-GGUF"@);
    assert(t[2].1 == "unsloth/Llama-3.2-1B-Instruct-GGUF"@);
    assert(t[3].1 == "unsloth/Llama-3.2-3B-Instruct-GGUF"@);
    assert(t[4].1 == "unsloth/Llama-3.3-70B-Instruct-GGUF"@);
    assert(t[5].1 == "unsloth/gemma-2-2b-it-GGUF"@);
    assert(t[6].1 == "unsloth/gemma-2-9b-it-GGUF"@);
    assert(t[7].1 == "unsloth/gemma-2-27b-it-GGUF"@);
    assert(t[8].1 == "unsloth/Phi-3-mini-4k-instruct-GGUF"@);
    assert(t[9].1 == "unsloth/Phi-3.5-mini-instruct-GGUF"@);
    assert(t[10].1 == "unsloth/Phi-4-GGUF"@);
    assert(t[11].1 == "unsloth/Qwen2-0.5B-Instruct-GGUF"@);
    assert(t[12].1 == "unsloth/Qwen2-1.5B-Instruct-GGUF"@);
    assert(t[13].1 == "unsloth/Qwen2-7B-Instruct-GGUF"@);
    assert(t[14].1 == "unsloth/Qwen2.5-0.5B-Instruct-GGUF"@);
    assert(t[15].1 == "unsloth/Qwen2.5-1.5B-Instruct-GGUF"@);
    assert(t[16].1 == "unsloth/Qwen2.5-3B-Instruct-GGUF"@);
    assert(t[17].1 == "unsloth/Qwen2.5-7B-Instruct-GGUF"@);
    assert(t[18].1 == "unsloth/Qwen2.5-14B-Instruct-GGUF"@);
    assert(t[19].1 == "unsloth/Qwen2.5-32B-Instruct-GGUF"@);
    assert(t[20].1 == "unsloth/Qwen2.5-72B-Instruct-GGUF"@);
    // repositories of equal length differ at one of these positions
    assert("unsloth/Llama-3.1-8B-Instruct-GGUF"@[16] != "unsloth/Llama-3.2-1B-Instruct-GGUF"@[16]);
    assert("unsloth/Llama-3.1-8B-Instruct-GGUF"@[16] != "unsloth/Llama-3.2-3B-Instruct-GGUF"@[16]);
    assert("unsloth/Llama-3.1-8B-Instruct-GGUF"@[8] != "unsloth/Phi-3.5-mini-instruct-GGUF"@[8]);
    assert("unsloth/Llama-3.1-8B-Instruct-GGUF"@[8] != "unsloth/Qwen2.5-0.5B-Instruct-GGUF"@[8]);
    assert("unsloth/Llama-3.1-8B-Instruct-GGUF"@[8] != "unsloth/Qwen2.5-1.5B-Instruct-GGUF"@[8]);
    assert("unsloth/Llama-3.1-70B-Instruct-GGUF"@[16] != "unsloth/Llama-3.3-70B-Instruct-GGUF"@[16]);
    assert("unsloth/Llama-3.1-70B-Instruct-GGUF"@[8] != "unsloth/Phi-3-mini-4k-instruct-GGUF"@[8]);
    assert("unsloth/Llama-3.2-1B-Instruct-GGUF"@[18] != "unsloth/Llama-3.2-3B-Instruct-GGUF"@[18]);
    assert("unsloth/Llama-3.2-1B-Instruct-GGUF"@[8] != "unsloth/Phi-3.5-mini-instruct-GGUF"@[8]);
    assert("unsloth/Llama-3.2-1B-Instruct-GGUF"@[8] != "unsloth/Qwen2.5-0.5B-Instruct-GGUF"@[8]);
    assert("unsloth/Llama-3.2-1B-Instruct-GGUF"@[8] != "unsloth/Qwen2.5-1.5B-Instruct-GGUF"@[8]);
    assert("unsloth/Llama-3.2-3B-Instruct-GGUF"@[8] != "unsloth/Phi-3.5-mini-instruct-GGUF"@[8]);
    assert("unsloth/Llama-3.2-3B-Instruct-GGUF"@[8] != "unsloth/Qwen2.5-0.5B-Instruct-GGUF"@[8]);
    assert("unsloth/Llama-3.2-3B-Instruct-GGUF"@[8] != "unsloth/Qwen2.5-1.5B-Instruct-GGUF"@[8]);
    assert("unsloth/Llama-3.3-70B-Instruct-GGUF"@[8] != "unsloth/Phi-3-mini-4k-instruct-GGUF"@[8]);
    assert("unsloth/gemma-2-2b-it-GGUF"@[16] != "unsloth/gemma-2-9b-it-GGUF"@[16]);
    assert("unsloth/Phi-3.5-mini-instruct-GGUF"@[8] != "unsloth/Qwen2.5-0.5B-Instruct-GGUF"@[8]);
    assert("unsloth/Phi-3.5-mini-instruct-GGUF"@[8] != "unsloth/Qwen2.5-1.5B-Instruct-GGUF"@[8]);
    assert("unsloth/Qwen2-0.5B-Instruct-GGUF"@[14] != "unsloth/Qwen2-1.5B-Instruct-GGUF"@[14]);
    assert("unsloth/Qwen2-0.5B-Instruct-GGUF"@[13] != "unsloth/Qwen2.5-3B-Instruct-GGUF"@[13]);
    assert("unsloth/Qwen2-0.5B-Instruct-GGUF"@[13] != "unsloth/Qwen2.5-7B-Instruct-GGUF"@[13]);
    assert("unsloth/Qwen2-1.5B-Instruct-GGUF"@[13] != "unsloth/Qwen2.5-3B-Instruct-GGUF"@[13]);
    assert("unsloth/Qwen2-1.5B-Instruct-GGUF"@[13] != "unsloth/Qwen2.5-7B-Instruct-GGUF"@[13]);
    assert("unsloth/Qwen2.5-0.5B-Instruct-GGUF"@[16] != "unsloth/Qwen2.5-1.5B-Instruct-GGUF"@[16]);
    assert("unsloth/Qwen2.5-3B-Instruct-GGUF"@[16] != "unsloth/Qwen2.5-7B-Instruct-GGUF"@[16]);
    assert("unsloth/Qwen2.5-14B-Instruct-GGUF"@[16] != "unsloth/Qwen2.5-32B-Instruct-GGUF"@[16]);
    assert("unsloth/Qwen2.5-14B-Instruct-GGUF"@[16] != "unsloth/Qwen2.5-72B-Instruct-GGUF"@[16]);
    assert("unsloth/Qwen2.5-32B-Instruct-GGUF"@[16] != "unsloth/Qwen2.5-72B-Instruct-GGUF"@[16]);
}

/// A character in lower case (ASCII letters are lowered, the rest stay).
pub open spec fn lower(c: char) -> char {
    if 'A' <= c && c <= 'Z' {
        ((c as u32) + 32) as char
    } else {
        c
    }
}

/// The characters of `s` from `lo` up to `hi`, lowered, with dashes dropped.
pub open spec fn squashed(s: Seq<char>, lo: int, hi: int) -> Seq<char>
    decreases hi - lo,
{
    if lo >= hi {
        Seq::empty()
    } else if s[lo] == '-' {
        squashed(s, lo + 1, hi)
    } else {
        seq![lower(s[lo])] + squashed(s, lo + 1, hi)
    }
}

/// The repository names the family of a pretty name (the text before its
/// ':'): it is "unsloth/", then a text that reads as that family once
/// lowered and with its dashes dropped, then a dash.
pub open spec fn names_family(name: Seq<char>, repo: Seq<char>) -> bool {
    exists|i: int, j: int|
        #![trigger name[i], repo[j]]
        0 < i < name.len() && name[i] == ':' && 8 < j < repo.len() && repo[j] == '-' && repo.take(8)
            == "unsloth/"@ && squashed(repo, 8, j) == name.take(i)
}

/// The size of a pretty name (the text after its ':') stands in the
/// repository between two dashes, in upper or lower case.
pub open spec fn names_size(name: Seq<char>, repo: Seq<char>) -> bool {
    exists|i: int, j: int|
        #![trigger name[i], repo[j]]
        0 < i < name.len() && name[i] == ':' && 0 <= j && j + name.len() - i < repo.len() && repo[j]
            == '-' && repo[j + name.len() - i] == '-' && squashed(repo, j + 1, j + name.len() - i)
            == name.skip(i + 1)
}

/// Each repository of the lookup table is the model that its pretty name
/// names: the repository names the pretty name's family, and, but for
/// the Phi models (whose repositories carry a variant name or none in
/// place of a size), its size.
#[verifier::rlimit(100)]
#[verifier::spinoff_prover]
pub proof fn law_table_repositories_match_names()
    ensures
        forall|k: int|
            0 <= k < model_table().len() ==> names_family(
                #[trigger] model_table()[k].0,
                model_table()[k].1,
            ) && (names_size(model_table()[k].0, model_table()[k].1) || model_table()[k].0.take(3)
                == "phi"@),
{
    let t = model_table();
    reveal_strlit("unsloth/");
    reveal_strlit("phi");
    reveal_strlit("llama3.1:8b");
    reveal_strlit("llama3.1:70b");
    reveal_strlit("llama3.2:1b");
    reveal_strlit("llama3.2:3b");
    reveal_strlit("llama3.3:70b");
    reveal_strlit("gemma2:2b");
    reveal_strlit("gemma2:9b");
    reveal_strlit("gemma2:27b");
    reveal_strlit("phi3:3b");
    reveal_strlit("phi3.5:3b");
    reveal_strlit("phi4:14b");
    reveal_strlit("qwen2:0.5b");
    reveal_strlit("qwen2:1.5b");
    reveal_strlit("qwen2:7b");
    reveal_strlit("qwen2.5:0.5b");
    reveal_strlit("qwen2.5:1.5b");
    reveal_strlit("qwen2.5:3b");
    reveal_strlit("qwen2.5:7b");
    reveal_strlit("qwen2.5:14b");
    reveal_strlit("qwen2.5:32b");
    reveal_strlit("qwen2.5:72b");
    reveal_strlit("unsloth/Llama-3.1-8B-Instruct-GGUF");
    reveal_strlit("unsloth/Llama-3.1-70B-Instruct-GGUF");
    reveal_strlit("unsloth/Llama-3.2-1B-Instruct-GGUF");
    reveal_strlit("unsloth/Llama-3.2-3B-Instruct-GGUF");
    reveal_strlit("unsloth/Llama-3.3-70B-Instruct-GGUF");
    reveal_strlit("unsloth/gemma-2-2b-it-GGUF");
    reveal_strlit("unsloth/gemma-2-9b-it-GGUF");
    reveal_strlit("unsloth/gemma-2-27b-it-GGUF");
    reveal_strlit("unsloth/Phi-3-mini-4k-instruct-GGUF");
    reveal_strlit("unsloth/Phi-3.5-mini-instruct-GGUF");
    reveal_strlit("unsloth/Phi-4-GGUF");
    reveal_strlit("unsloth/Qwen2-0.5B-Instruct-GGUF");
    reveal_strlit("unsloth/Qwen2-1.5B-Instruct-GGUF");
    reveal_strlit("unsloth/Qwen2-7B-Instruct-GGUF");
    reveal_strlit("unsloth/Qwen2.5-0.5B-Instruct-GGUF");
    reveal_strlit("unsloth/Qwen2.5-1.5B-Instruct-GGUF");
    reveal_strlit("unsloth/Qwen2.5-3B-Instruct-GGUF");
    reveal_strlit("unsloth/Qwen2.5-7B-Instruct-GGUF");
    reveal_strlit("unsloth/Qwen2.5-14B-Instruct-GGUF");
    reveal_strlit("unsloth/Qwen2.5-32B-Instruct-GGUF");
    reveal_strlit("unsloth/Qwen2.5-72B-Instruct-GGUF");
    reveal_with_fuel(squashed, 10);
    assert(names_family(t[0].0, t[0].1)) by {
        let (n, r) = (t[0].0, t[0].1);
        assert(n == "llama3.1:8b"@ && r == "unsloth/Llama-3.1-8B-Instruct-GGUF"@);
        assert(r.take(8) =~= "unsloth/"@);
        assert(squashed(r, 8, 17) =~= n.take(8));
        assert(n[8] == ':' && r[17] == '-');
    }
    assert(names_family(t[1].0, t[1].1)) by {
        let (n, r) = (t[1].0, t[1].1);
        assert(n == "llama3.1:70b"@ && r == "unsloth/Llama-3.1-70B-Instruct-GGUF"@);
        assert(r.take(8) =~= "unsloth/"@);
        assert(squashed(r, 8, 17) =~= n.take(8));
        assert(n[8] == ':' && r[17] == '-');
    }
    assert(names_family(t[2].0, t[2].1)) by {
        let (n, r) = (t[2].0, t[2].1);
        assert(n == "llama3.2:1b"@ && r == "unsloth/Llama-3.2-1B-Instruct-GGUF"@);
        assert(r.take(8) =~= "unsloth/"@);
        assert(squashed(r, 8, 17) =~= n.take(8));
        assert(n[8] == ':' && r[17] == '-');
    }
    assert(names_family(t[3].0, t[3].1)) by {
        let (n, r) = (t[3].0, t[3].1);
        assert(n == "llama3.2:3b"@ && r == "unsloth/Llama-3.2-3B-Instruct-GGUF"@);
        assert(r.take(8) =~= "unsloth/"@);
        assert(squashed(r, 8, 17) =~= n.take(8));
        assert(n[8] == ':' && r[17] == '-');
    }
    assert(names_family(t[4].0, t[4].1)) by {
        let (n, r) = (t[4].0, t[4].1);
        assert(n == "llama3.3:70b"@ && r == "unsloth/Llama-3.3-70B-Instruct-GGUF"@);
        assert(r.take(8) =~= "unsloth/"@);
        assert(squashed(r, 8, 17) =~= n.take(8));
        assert(n[8] == ':' && r[17] == '-');
    }
    assert(names_family(t[5].0, t[5].1)) by {
        let (n, r) = (t[5].0, t[5].1);
        assert(n == "gemma2:2b"@ && r == "unsloth/gemma-2-2b-it-GGUF"@);
        assert(r.take(8) =~= "unsloth/"@);
        assert(squashed(r, 8, 15) =~= n.take(6));
        assert(n[6] == ':' && r[15] == '-');
    }
    assert(names_family(t[6].0, t[6].1)) by {
        let (n, r) = (t[6].0, t[6].1);
        assert(n == "gemma2:9b"@ && r == "unsloth/gemma-2-9b-it-GGUF"@);
        assert(r.take(8) =~= "unsloth/"@);
        assert(squashed(r, 8, 15) =~= n.take(6));
        assert(n[6] == ':' && r[15] == '-');
    }
    assert(names_family(t[7].0, t[7].1)) by {
        let (n, r) = (t[7].0, t[7].1);
        assert(n == "gemma2:27b"@ && r == "unsloth/gemma-2-27b-it-GGUF"@);
        assert(r.take(8) =~= "unsloth/"@);
        assert(squashed(r, 8, 15) =~= n.take(6));
        assert(n[6] == ':' && r[15] == '-');
    }
    assert(names_family(t[8].0, t[8].1)) by {
        let (n, r) = (t[8].0, t[8].1);
        assert(n == "phi3:3b"@ && r == "unsloth/Phi-3-mini-4k-instruct-GGUF"@);
        assert(r.take(8) =~= "unsloth/"@);
        assert(squashed(r, 8, 13) =~= n.take(4));
        assert(n[4] == ':' && r[13] == '-');
    }
    assert(names_family(t[9].0, t[9].1)) by {
        let (n, r) = (t[9].0, t[9].1);
        assert(n == "phi3.5:3b"@ && r == "unsloth/Phi-3.5-mini-instruct-GGUF"@);
        assert(r.take(8) =~= "unsloth/"@);
        assert(squashed(r, 8, 15) =~= n.take(6));
        assert(n[6] == ':' && r[15] == '-');
    }
    assert(names_family(t[10].0, t[10].1)) by {
        let (n, r) = (t[10].0, t[10].1);
        assert(n == "phi4:14b"@ && r == "unsloth/Phi-4-GGUF"@);
        assert(r.take(8) =~= "unsloth/"@);
        assert(squashed(r, 8, 13) =~= n.take(4));
        assert(n[4] == ':' && r[13] == '-');
    }
    assert(names_family(t[11].0, t[11].1)) by {
        let (n, r) = (t[11].0, t[11].1);
        assert(n == "qwen2:0.5b"@ && r == "unsloth/Qwen2-0.5B-Instruct-GGUF"@);
        assert(r.take(8) =~= "unsloth/"@);
        assert(squashed(r, 8, 13) =~= n.take(5));
        assert(n[5] == ':' && r[13] == '-');
    }
    assert(names_family(t[12].0, t[12].1)) by {
        let (n, r) = (t[12].0, t[12].1);
        assert(n == "qwen2:1.5b"@ && r == "unsloth/Qwen2-1.5B-Instruct-GGUF"@);
        assert(r.take(8) =~= "unsloth/"@);
        assert(squashed(r, 8, 13) =~= n.take(5));
        assert(n[5] == ':' && r[13] == '-');
    }
    assert(names_family(t[13].0, t[13].1)) by {
        let (n, r) = (t[13].0, t[13].1);
        assert(n == "qwen2:7b"@ && r == "unsloth/Qwen2-7B-Instruct-GGUF"@);
        assert(r.take(8) =~= "unsloth/"@);
        assert(squashed(r, 8, 13) =~= n.take(5));
        assert(n[5] == ':' && r[13] == '-');
    }
    assert(names_family(t[14].0, t[14].1)) by {
        let (n, r) = (t[14].0, t[14].1);
        assert(n == "qwen2.5:0.5b"@ && r == "unsloth/Qwen2.5-0.5B-Instruct-GGUF"@);
        assert(r.take(8) =~= "unsloth/"@);
        assert(squashed(r, 8, 15) =~= n.take(7));
        assert(n[7] == ':' && r[15] == '-');
    }
    assert(names_family(t[15].0, t[15].1)) by {
        let (n, r) = (t[15].0, t[15].1);
        assert(n == "qwen2.5:1.5b"@ && r == "unsloth/Qwen2.5-1.5B-Instruct-GGUF"@);
        assert(r.take(8) =~= "unsloth/"@);
        assert(squashed(r, 8, 15) =~= n.take(7));
        assert(n[7] == ':' && r[15] == '-');
    }
    assert(names_family(t[16].0, t[16].1)) by {
        let (n, r) = (t[16].0, t[16].1);
        assert(n == "qwen2.5:3b"@ && r == "unsloth/Qwen2.5-3B-Instruct-GGUF"@);
        assert(r.take(8) =~= "unsloth/"@);
        assert(squashed(r, 8, 15) =~= n.take(7));
        assert(n[7] == ':' && r[15] == '-');
    }
    assert(names_family(t[17].0, t[17].1)) by {
        let (n, r) = (t[17].0, t[17].1);
        assert(n == "qwen2.5:7b"@ && r == "unsloth/Qwen2.5-7B-Instruct-GGUF"@);
        assert(r.take(8) =~= "unsloth/"@);
        assert(squashed(r, 8, 15) =~= n.take(7));
        assert(n[7] == ':' && r[15] == '-');
    }
    assert(names_family(t[18].0, t[18].1)) by {
        let (n, r) = (t[18].0, t[18].1);
        assert(n == "qwen2.5:14b"@ && r == "unsloth/Qwen2.5-14B-Instruct-GGUF"@);
        assert(r.take(8) =~= "unsloth/"@);
        assert(squashed(r, 8, 15) =~= n.take(7));
        assert(n[7] == ':' && r[15] == '-');
    }
    assert(names_family(t[19].0, t[19].1)) by {
        let (n, r) = (t[19].0, t[19].1);
        assert(n == "qwen2.5:32b"@ && r == "unsloth/Qwen2.5-32B-Instruct-GGUF"@);
        assert(r.take(8) =~= "unsloth/"@);
        assert(squashed(r, 8, 15) =~= n.take(7));
        assert(n[7] == ':' && r[15] == '-');
    }
    assert(names_family(t[20].0, t[20].1)) by {
        let (n, r) = (t[20].0, t[20].1);
        assert(n == "qwen2.5:72b"@ && r == "unsloth/Qwen2.5-72B-Instruct-GGUF"@);
        assert(r.take(8) =~= "unsloth/"@);
        assert(squashed(r, 8, 15) =~= n.take(7));
        assert(n[7] == ':' && r[15] == '-');
    }
    assert(names_size(t[0].0, t[0].1)) by {
        let (n, r) = (t[0].0, t[0].1);
        assert(n == "llama3.1:8b"@ && r == "unsloth/Llama-3.1-8B-Instruct-GGUF"@);
        assert(squashed(r, 18, 20) =~= n.skip(9));
        assert(n[8] == ':' && r[17] == '-' && r[20] == '-');
    }
    assert(names_size(t[1].0, t[1].1)) by {
        let (n, r) = (t[1].0, t[1].1);
        assert(n == "llama3.1:70b"@ && r == "unsloth/Llama-3.1-70B-Instruct-GGUF"@);
        assert(squashed(r, 18, 21) =~= n.skip(9));
        assert(n[8] == ':' && r[17] == '-' && r[21] == '-');
    }
    assert(names_size(t[2].0, t[2].1)) by {
        let (n, r) = (t[2].0, t[2].1);
        assert(n == "llama3.2:1b"@ && r == "unsloth/Llama-3.2-1B-Instruct-GGUF"@);
        assert(squashed(r, 18, 20) =~= n.skip(9));
        assert(n[8] == ':' && r[17] == '-' && r[20] == '-');
    }
    assert(names_size(t[3].0, t[3].1)) by {
        let (n, r) = (t[3].0, t[3].1);
        assert(n == "llama3.2:3b"@ && r == "unsloth/Llama-3.2-3B-Instruct-GGUF"@);
        assert(squashed(r, 18, 20) =~= n.skip(9));
        assert(n[8] == ':' && r[17] == '-' && r[20] == '-');
    }
    assert(names_size(t[4].0, t[4].1)) by {
        let (n, r) = (t[4].0, t[4].1);
        assert(n == "llama3.3:70b"@ && r == "unsloth/Llama-3.3-70B-Instruct-GGUF"@);
        assert(squashed(r, 18, 21) =~= n.skip(9));
        assert(n[8] == ':' && r[17] == '-' && r[21] == '-');
    }
    assert(names_size(t[5].0, t[5].1)) by {
        let (n, r) = (t[5].0, t[5].1);
        assert(n == "gemma2:2b"@ && r == "unsloth/gemma-2-2b-it-GGUF"@);
        assert(squashed(r, 16, 18) =~= n.skip(7));
        assert(n[6] == ':' && r[15] == '-' && r[18] == '-');
    }
    assert(names_size(t[6].0, t[6].1)) by {
        let (n, r) = (t[6].0, t[6].1);
        assert(n == "gemma2:9b"@ && r == "unsloth/gemma-2-9b-it-GGUF"@);
        assert(squashed(r, 16, 18) =~= n.skip(7));
        assert(n[6] == ':' && r[15] == '-' && r[18] == '-');
    }
    assert(names_size(t[7].0, t[7].1)) by {
        let (n, r) = (t[7].0, t[7].1);
        assert(n == "gemma2:27b"@ && r == "unsloth/gemma-2-27b-it-GGUF"@);
        assert(squashed(r, 16, 19) =~= n.skip(7));
        assert(n[6] == ':' && r[15] == '-' && r[19] == '-');
    }
    assert(names_size(t[11].0, t[11].1)) by {
        let (n, r) = (t[11].0, t[11].1);
        assert(n == "qwen2:0.5b"@ && r == "unsloth/Qwen2-0.5B-Instruct-GGUF"@);
        assert(squashed(r, 14, 18) =~= n.skip(6));
        assert(n[5] == ':' && r[13] == '-' && r[18] == '-');
    }
    assert(names_size(t[12].0, t[12].1)) by {
        let (n, r) = (t[12].0, t[12].1);
        assert(n == "qwen2:1.5b"@ && r == "unsloth/Qwen2-1.5B-Instruct-GGUF"@);
        assert(squashed(r, 14, 18) =~= n.skip(6));
        assert(n[5] == ':' && r[13] == '-' && r[18] == '-');
    }
    assert(names_size(t[13].0, t[13].1)) by {
        let (n, r) = (t[13].0, t[13].1);
        assert(n == "qwen2:7b"@ && r == "unsloth/Qwen2-7B-Instruct-GGUF"@);
        assert(squashed(r, 14, 16) =~= n.skip(6));
        assert(n[5] == ':' && r[13] == '-' && r[16] == '-');
    }
    assert(names_size(t[14].0, t[14].1)) by {
        let (n, r) = (t[14].0, t[14].1);
        assert(n == "qwen2.5:0.5b"@ && r == "unsloth/Qwen2.5-0.5B-Instruct-GGUF"@);
        assert(squashed(r, 16, 20) =~= n.skip(8));
        assert(n[7] == ':' && r[15] == '-' && r[20] == '-');
    }
    assert(names_size(t[15].0, t[15].1)) by {
        let (n, r) = (t[15].0, t[15].1);
        assert(n == "qwen2.5:1.5b"@ && r == "unsloth/Qwen2.5-1.5B-Instruct-GGUF"@);
        assert(squashed(r, 16, 20) =~= n.skip(8));
        assert(n[7] == ':' && r[15] == '-' && r[20] == '-');
    }
    assert(names_size(t[16].0, t[16].1)) by {
        let (n, r) = (t[16].0, t[16].1);
        assert(n == "qwen2.5:3b"@ && r == "unsloth/Qwen2.5-3B-Instruct-GGUF"@);
        assert(squashed(r, 16, 18) =~= n.skip(8));
        assert(n[7] == ':' && r[15] == '-' && r[18] == '-');
    }
    assert(names_size(t[17].0, t[17].1)) by {
        let (n, r) = (t[17].0, t[17].1);
        assert(n == "qwen2.5:7b"@ && r == "unsloth/Qwen2.5-7B-Instruct-GGUF"@);
        assert(squashed(r, 16, 18) =~= n.skip(8));
        assert(n[7] == ':' && r[15] == '-' && r[18] == '-');
    }
    assert(names_size(t[18].0, t[18].1)) by {
        let (n, r) = (t[18].0, t[18].1);
        assert(n == "qwen2.5:14b"@ && r == "unsloth/Qwen2.5-14B-Instruct-GGUF"@);
        assert(squashed(r, 16, 19) =~= n.skip(8));
        assert(n[7] == ':' && r[15] == '-' && r[19] == '-');
    }
    assert(names_size(t[19].0, t[19].1)) by {
        let (n, r) = (t[19].0, t[19].1);
        assert(n == "qwen2.5:32b"@ && r == "unsloth/Qwen2.5-32B-Instruct-GGUF"@);
        assert(squashed(r, 16, 19) =~= n.skip(8));
        assert(n[7] == ':' && r[15] == '-' && r[19] == '-');
    }
    assert(names_size(t[20].0, t[20].1)) by {
        let (n, r) = (t[20].0, t[20].1);
        assert(n == "qwen2.5:72b"@ && r == "unsloth/Qwen2.5-72B-Instruct-GGUF"@);
        assert(squashed(r, 16, 19) =~= n.skip(8));
        assert(n[7] == ':' && r[15] == '-' && r[19] == '-');
    }
    assert(t[8].0.take(3) =~= "phi"@);
    assert(t[9].0.take(3) =~= "phi"@);
    assert(t[10].0.take(3) =~= "phi"@);
}

/// In a table whose names are distinct, each entry's name looks up that
/// entry's repository.
proof fn lemma_lookup_of_entry(t: Seq<(Seq<char>, Seq<char>)>, k: int)
    requires
        0 <= k < t.len(),
        forall|i: int, j: int| 0 <= i < j < t.len() ==> #[trigger] t[i].0 != #[trigger] t[j].0,
    ensures
        lookup_in(t, t[k].0) == Some(t[k].1),
    decreases t.len(),
{
    if k > 0 {
        assert(t[0].0 != t[k].0);
        let u = t.drop_first();
        assert(u[k - 1] == t[k]);
        assert forall|i: int, j: int| 0 <= i < j < u.len() implies #[trigger] u[i].0
            != #[trigger] u[j].0 by {
            assert(u[i] == t[i + 1] && u[j] == t[j + 1]);
        }
        lemma_lookup_of_entry(u, k - 1);
    }
}

/// Each pretty name of the table looks up its own repository.
pub proof fn law_table_lookup(k: int)
    requires
        0 <= k < model_table().len(),
    ensures
        lookup_in(model_table(), model_table()[k].0) == Some(model_table()[k].1),
{
    law_table_names_distinct();
    lemma_lookup_of_entry(model_table(), k);
}

/// The characters of a table of string pairs.
pub open spec fn pairs_view(t: Seq<(&str, &str)>) -> Seq<(Seq<char>, Seq<char>)> {
    Seq::new(t.len(), |i: int| (t[i].0@, t[i].1@))
}

/// The repository that a table gives for a pretty name: that of the
/// first entry with this name, if any.
pub open spec fn lookup_in(t: Seq<(Seq<char>, Seq<char>)>, name: Seq<char>) -> Option<Seq<char>>
    decreases t.len(),
{
    if t.len() == 0 {
        None
    } else if t[0].0 == name {
        Some(t[0].1)
    } else {
        lookup_in(t.drop_first(), name)
    }
}

/// The lookup table.
pub fn init_model_lookup() -> (r: Vec<(&'static str, &'static str)>)
    ensures
        pairs_view(r@) == model_table(),
{
    let mut t: Vec<(&'static str, &'static str)> = Vec::new();
    t.push(("llama3.1:8b", "unsloth/Llama-3.1-8B-Instruct-GGUF"));
    t.push(("llama3.1:70b", "unsloth/Llama-3.1-70B-Instruct-GGUF"));
    t.push(("llama3.2:1b", "unsloth/Llama-3.2-1B-Instruct-GGUF"));
    t.push(("llama3.2:3b", "unsloth/Llama-3.2-3B-Instruct-GGUF"));
    t.push(("llama3.3:70b", "unsloth/Llama-3.3-70B-Instruct-GGUF"));
    t.push(("gemma2:2b", "unsloth/gemma-2-2b-it-GGUF"));
    t.push(("gemma2:9b", "unsloth/gemma-2-9b-it-GGUF"));
    t.push(("gemma2:27b", "unsloth/gemma-2-27b-it-GGUF"));
    t.push(("phi3:3b", "unsloth/Phi-3-mini-4k-instruct-GGUF"));
    t.push(("phi3.5:3b", "unsloth/Phi-3.5-mini-instruct-GGUF"));
    t.push(("phi4:14b", "unsloth/Phi-4-GGUF"));
    t.push(("qwen2:0.5b", "unsloth/Qwen2-0.5B-Instruct-GGUF"));
    t.push(("qwen2:1.5b", "unsloth/Qwen2-1.5B-Instruct-GGUF"));
    t.push(("qwen2:7b", "unsloth/Qwen2-7B-Instruct-GGUF"));
    t.push(("qwen2.5:0.5b", "unsloth/Qwen2.5-0.5B-Instruct-GGUF"));
    t.push(("qwen2.5:1.5b", "unsloth/Qwen2.5-1.5B-Instruct-GGUF"));
    t.push(("qwen2.5:3b", "unsloth/Qwen2.5-3B-Instruct-GGUF"));
    t.push(("qwen2.5:7b", "unsloth/Qwen2.5-7B-Instruct-GGUF"));
    t.push(("qwen2.5:14b", "unsloth/Qwen2.5-14B-Instruct-GGUF"));
    t.push(("qwen2.5:32b", "unsloth/Qwen2.5-32B-Instruct-GGUF"));
    t.push(("qwen2.5:72b", "unsloth/Qwen2.5-72B-Instruct-GGUF"));
    assert(pairs_view(t@) =~= model_table());
    t
}

proof fn lemma_lookup_skip(t: Seq<(Seq<char>, Seq<char>)>, i: int, name: Seq<char>)
    requires
        0 <= i < t.len(),
        t[i].0 != name,
    ensures
        lookup_in(t.skip(i), name) == lookup_in(t.skip(i + 1), name),
{
    assert(t.skip(i).drop_first() =~= t.skip(i + 1));
}

/// The HuggingFace repository for a pretty name, if the table has one.
pub fn lookup_model(pretty_name: &str) -> (r: Option<&'static str>)
    ensures
        match r {
            Some(s) => lookup_in(model_table(), pretty_name@) == Some(s@),
            None => lookup_in(model_table(), pretty_name@) is None,
        },
{
    let t = init_model_lookup();
    let ghost m = model_table();
    let n = t.len();
    let mut i: usize = 0;
    assert(m.skip(0) =~= m);
    while i < n
        invariant
            n == t@.len(),
            pairs_view(t@) == m,
            m == model_table(),
            i <= n,
            lookup_in(m, pretty_name@) == lookup_in(m.skip(i as int), pretty_name@),
        decreases n - i,
    {
        let (name, repo) = t[i];
        assert(m[i as int] == (name@, repo@));
        if same_text(name, pretty_name) {
            assert(m.skip(i as int)[0] == m[i as int]);
            assert(lookup_in(m.skip(i as int), pretty_name@) == Some(repo@));
            return Some(repo);
        }
        proof {
            lemma_lookup_skip(m, i as int, pretty_name@);
        }
        i = i + 1;
    }
    None
}

/// The name of a repository's directory in the HuggingFace cache:
/// "models--", then the repository with each "/" turned into "--".
pub open spec fn cache_dir_name(hf_model_name: Seq<char>) -> Seq<char> {
    "models--"@ + replace_all(hf_model_name, "/"@, "--"@)
}

/// The name of a repository's directory in the HuggingFace cache.
pub fn model_cache_dir_name(hf_model_name: &str) -> (r: String)
    ensures
        r@ == cache_dir_name(hf_model_name@),
{
    proof {
        reveal_strlit("/");
    }
    let mut r = owned("models--");
    let rest = replace(hf_model_name, "/", "--");
    push_text(&mut r, rest.as_str());
    r
}

/// Whether the repository is in the HuggingFace cache, given the names
/// of the directories that the cache holds.
pub fn is_model_cached(hf_model_name: &str, cached_dirs: &Vec<String>) -> (r: bool)
    ensures
        r == views(cached_dirs@).contains(cache_dir_name(hf_model_name@)),
{
    let want = model_cache_dir_name(hf_model_name);
    let ghost s = views(cached_dirs@);
    let n = cached_dirs.len();
    let mut i: usize = 0;
    while i < n
        invariant
            n == cached_dirs@.len(),
            s == views(cached_dirs@),
            want@ == cache_dir_name(hf_model_name@),
            i <= n,
            forall|k: int| 0 <= k < i ==> s[k] != want@,
        decreases n - i,
    {
        if same_text(cached_dirs[i].as_str(), want.as_str()) {
            assert(s[i as int] == want@);
            return true;
        }
        i = i + 1;
    }
    false
}

/// An entry of the model list: pretty name, repository, whether cached.
pub open spec fn entry_view(e: (&str, &str, bool)) -> (Seq<char>, Seq<char>, bool) {
    (e.0@, e.1@, e.2)
}

/// The entries of a model list.
pub open spec fn entries_view(v: Seq<(&str, &str, bool)>) -> Seq<(Seq<char>, Seq<char>, bool)> {
    Seq::new(v.len(), |i: int| entry_view(v[i]))
}

/// The entries are ordered by pretty name.
pub open spec fn sorted_by_name(s: Seq<(Seq<char>, Seq<char>, bool)>) -> bool {
    forall|i: int, j: int| 0 <= i < j < s.len() ==> !text_lt(#[trigger] s[j].0, #[trigger] s[i].0)
}

/// The entries of the table, each with whether its repository is cached.
pub open spec fn table_entries(cached: Seq<Seq<char>>) -> Seq<(Seq<char>, Seq<char>, bool)> {
    Seq::new(
        model_table().len(),
        |i: int| (model_table()[i].0, model_table()[i].1, cached.contains(cache_dir_name(model_table()[i].1))),
    )
}

/// The entries are in strictly increasing order of pretty name.
pub open spec fn strictly_sorted_by_name(s: Seq<(Seq<char>, Seq<char>, bool)>) -> bool {
    forall|i: int, j: int| 0 <= i < j < s.len() ==> text_lt(#[trigger] s[i].0, #[trigger] s[j].0)
}

/// Each entry of a listing names a pretty name with the repository that
/// it looks up, and whether that repository's directory is cached.
pub open spec fn entries_resolve(s: Seq<(Seq<char>, Seq<char>, bool)>, cached: Seq<Seq<char>>) -> bool {
    forall|i: int|
        0 <= i < s.len() ==> lookup_in(model_table(), #[trigger] s[i].0) == Some(s[i].1) && s[i].2
            == cached.contains(cache_dir_name(s[i].1))
}

/// A listing of the table's entries, ordered by pretty name, has one
/// entry for each entry of the table, is strictly ordered (no pretty name
/// comes twice), and each entry gives the repository that its pretty
/// name looks up and whether that repository is cached.
pub proof fn law_listing_covers_table(s: Seq<(Seq<char>, Seq<char>, bool)>, cached: Seq<Seq<char>>)
    requires
        sorted_by_name(s),
        s.to_multiset() == table_entries(cached).to_multiset(),
    ensures
        s.len() == model_table().len(),
        strictly_sorted_by_name(s),
        entries_resolve(s, cached),
{
    broadcast use vstd::seq_lib::group_to_multiset_ensures;
    let te = table_entries(cached);
    s.to_multiset_ensures();
    te.to_multiset_ensures();
    law_table_names_distinct();
    assert(te.no_duplicates()) by {
        assert forall|a: int, b: int| 0 <= a < te.len() && 0 <= b < te.len() && a != b implies te[a]
            != te[b] by {
            if a < b {
                assert(model_table()[a].0 != model_table()[b].0);
            } else {
                assert(model_table()[b].0 != model_table()[a].0);
            }
        }
    }
    te.lemma_multiset_has_no_duplicates();
    assert forall|i: int, j: int| 0 <= i < j < s.len() implies text_lt(#[trigger] s[i].0, #[trigger] s[j].0) by {
        assert(!text_lt(s[j].0, s[i].0));
        if s[i].0 == s[j].0 {
            assert(s.contains(s[i]));
            assert(s.contains(s[j]));
            assert(s.to_multiset().count(s[i]) > 0);
            assert(s.to_multiset().count(s[j]) > 0);
            assert(te.to_multiset().count(s[i]) > 0);
            assert(te.to_multiset().count(s[j]) > 0);
            assert(te.contains(s[i]));
            assert(te.contains(s[j]));
            let ki = choose|k: int| 0 <= k < te.len() && te[k] == s[i];
            let kj = choose|k: int| 0 <= k < te.len() && te[k] == s[j];
            if ki != kj {
                if ki < kj {
                    assert(model_table()[ki].0 != model_table()[kj].0);
                } else {
                    assert(model_table()[kj].0 != model_table()[ki].0);
                }
            }
            assert(s[i] == s[j]);
            let rest = s.remove(i);
            vstd::seq_lib::to_multiset_remove(s, i);
            rest.to_multiset_ensures();
            assert(rest[j - 1] == s[j]);
            assert(rest.contains(s[i]));
            assert(s.to_multiset().count(s[i]) == 1);
            assert(rest.to_multiset().count(s[i]) > 0);
            assert(rest.to_multiset() == s.to_multiset().remove(s[i]));
            assert(s.to_multiset().remove(s[i]).count(s[i]) == 0) by {
                broadcast use vstd::multiset::group_multiset_axioms;
            }
            assert(false);
        } else {
            crate::order::law_text_lt_total(s[i].0, s[j].0);
        }
    }
    assert forall|i: int| 0 <= i < s.len() implies lookup_in(model_table(), #[trigger] s[i].0) == Some(
        s[i].1,
    ) && s[i].2 == cached.contains(cache_dir_name(s[i].1)) by {
        assert(s.contains(s[i]));
        assert(s.to_multiset().count(s[i]) > 0);
        assert(te.to_multiset().count(s[i]) > 0);
        assert(te.contains(s[i]));
        let k = choose|k: int| 0 <= k < te.len() && te[k] == s[i];
        law_table_lookup(k);
    }
}

/// Insert `e` into `out`, after the entries whose names do not come after its own.
fn insert_by_name(out: &mut Vec<(&'static str, &'static str, bool)>, e: (&'static str, &'static str, bool))
    requires
        sorted_by_name(entries_view(old(out)@)),
    ensures
        sorted_by_name(entries_view(final(out)@)),
        entries_view(final(out)@).to_multiset() == entries_view(old(out)@).to_multiset().insert(
            entry_view(e),
        ),
{
    broadcast use vstd::seq_lib::group_to_multiset_ensures;
    let ghost s = entries_view(out@);
    let n = out.len();
    let mut p: usize = 0;
    while p < n && !crate::order::text_less(e.0, out[p].0)
        invariant
            n == out@.len(),
            s == entries_view(out@),
            p <= n,
            forall|k: int| 0 <= k < p ==> !text_lt(e.0@, #[trigger] s[k].0),
        decreases n - p,
    {
        p = p + 1;
    }
    out.insert(p, e);
    let ghost t = entries_view(out@);
    let ghost x = entry_view(e);
    assert(t =~= s.insert(p as int, x));
    assert forall|i: int, j: int| 0 <= i < j < t.len() implies !text_lt(#[trigger] t[j].0, #[trigger] t[i].0) by {
        if j < p {
        } else if j == p {
        } else if i < p {
            assert(t[j] == s[j - 1]);
        } else if i == p {
            assert(t[j] == s[j - 1]);
            assert(text_lt(e.0@, s[p as int].0));
            if text_lt(s[j - 1].0, e.0@) {
                crate::order::law_text_lt_transitive(s[j - 1].0, e.0@, s[p as int].0);
                if j - 1 == p {
                    crate::order::law_text_lt_irreflexive(s[p as int].0);
                }
            }
        } else {
            assert(t[i] == s[i - 1]);
            assert(t[j] == s[j - 1]);
        }
    }
    assert(t.remove(p as int) =~= s);
    assert(t[p as int] == x);
    assert(t.to_multiset() =~= s.to_multiset().insert(x)) by {
        assert(t.remove(p as int).to_multiset() =~= t.to_multiset().remove(t[p as int]));
        assert(t.contains(x));
    }
}

/// Every pretty name with its repository and whether the repository is
/// in the HuggingFace cache (given the names of the directories that the
/// cache holds), ordered by pretty name.
pub fn list_all_models(cached_dirs: &Vec<String>) -> (r: Vec<(&'static str, &'static str, bool)>)
    ensures
        sorted_by_name(entries_view(r@)),
        entries_view(r@).to_multiset() == table_entries(views(cached_dirs@)).to_multiset(),
        strictly_sorted_by_name(entries_view(r@)),
        r@.len() == model_table().len(),
        entries_resolve(entries_view(r@), views(cached_dirs@)),
{
    broadcast use vstd::seq_lib::group_to_multiset_ensures;
    let t = init_model_lookup();
    let ghost want = table_entries(views(cached_dirs@));
    let n = t.len();
    let mut out: Vec<(&'static str, &'static str, bool)> = Vec::new();
    let mut i: usize = 0;
    assert(entries_view(out@) =~= Seq::empty());
    assert(want.subrange(0, 0) =~= Seq::empty());
    while i < n
        invariant
            n == t@.len(),
            pairs_view(t@) == model_table(),
            want == table_entries(views(cached_dirs@)),
            i <= n,
            sorted_by_name(entries_view(out@)),
            entries_view(out@).to_multiset() == want.subrange(0, i as int).to_multiset(),
        decreases n - i,
    {
        let (name, repo) = t[i];
        let c = is_model_cached(repo, cached_dirs);
        insert_by_name(&mut out, (name, repo, c));
        proof {
            assert(want[i as int] == entry_view((name, repo, c)));
            assert(want.subrange(0, i + 1) =~= want.subrange(0, i as int).push(want[i as int]));
            want.subrange(0, i as int).to_multiset_ensures();
            assert(want.subrange(0, i as int).push(want[i as int]).to_multiset()
                =~= want.subrange(0, i as int).to_multiset().insert(want[i as int]));
        }
        i = i + 1;
    }
    assert(want.subrange(0, n as int) =~= want);
    proof {
        law_listing_covers_table(entries_view(out@), views(cached_dirs@));
    }
    out
}

} // verus!
