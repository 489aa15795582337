//! Verified core of a natural-language-to-SQL helper for a relational
//! database: schema introspection results are grouped and rendered into
//! deterministic text, a three-turn chat prompt is assembled around a
//! question, the completion outcome is classified under a strict error
//! taxonomy, and generated SQL is prepared for read or write execution.
//!
//! Catalog queries, the network transport behind the completion call and
//! the host runtime that registers the extension are external
//! collaborators: they live outside this crate and hand plain values in.

pub mod completion;
pub mod errors;
pub mod pipeline;
pub mod prompt;
pub mod render;
pub mod schema;
pub mod sqlexec;
