//! The AI enrichment and drafting rules that do not depend on a model.

pub mod draft;
pub mod extract;
pub mod ollama;
pub mod openai;
