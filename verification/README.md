# spnl

Span queries: a tree language for LLM inference requests (sequences,
parallel and commutative compositions, nested generation, bulk
operations, chat messages), with the optimizer, planner, chat-template
rendering and backend logic that serve them.

- `src/` is the library, written in Verus. Public functions state
  their behaviour in `requires`/`ensures` over a mathematical model of the
  query tree (`QueryModel`, `MessageModel`, `Seq<char>` for text), and
  the laws that relate several functions are public proof functions
  (`law_*`). Calls into outside code go through a few trusted items,
  each documented where it stands: `tokenizers` in `flatten.rs` and
  `gguf.rs`, `serde_json` in `download.rs`, `serde_yaml2` and the
  Kubernetes `Deployment` type (read and written through names for what
  it holds) in `manifest.rs`, and std's Unicode case
  mapping in `settings.rs`.
- `tests/` exercises the library on concrete values.
- `app/` is the input/output around the library: JSON/YAML forms of
  queries, terminal trees, progress bars and timing tables, the
  OpenAI-compatible and span-query HTTP backends, Ollama pulls,
  HuggingFace downloads and Kubernetes deployment. The in-process
  ("local/") backend needs the `mistralrs` engine, which this build does
  not link: requests for it end in `LocalBackendUnavailable`.
