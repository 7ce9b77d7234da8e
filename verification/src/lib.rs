//! Answers natural-language questions about a small corpus of plain-text
//! documents by selecting the files relevant to a query, rendering them into a
//! prompt for a local text-generation backend, and shaping the backend's reply
//! into a stable structured result.

pub mod api;
pub mod backend;
pub mod errors;
pub mod json;
pub mod prompt;
pub mod request;
pub mod select;
pub mod text;

pub use backend::OllamaResponse;
pub use request::OllamaRequest;
