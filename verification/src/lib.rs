//! Span queries: an intermediate representation for compound LLM
//! inference requests, with an optimizer and chat-template rendering.

pub mod text;
pub mod message;
pub mod query;
pub mod capabilities;
pub mod chat_template;
pub mod simplify;
pub mod optimize;
pub mod pretty_print;
pub mod flatten;
pub mod order;
pub mod models;
pub mod backend;
pub mod settings;
pub mod decode;
pub mod weights;
pub mod gguf;
pub mod tokenizer_json;
pub mod plan;
pub mod pull;
pub mod deploy;
pub mod manifest;
pub mod download;
