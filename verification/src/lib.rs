//! Resilient parsing of one YAML document that describes a CI pipeline.
//!
//! A document is turned into a typed tree whose nodes each carry the place in
//! the source they came from, and into a list of positioned diagnostics. A
//! field that cannot be understood becomes an `Invalid` node or a diagnostic;
//! it never stops the rest of the parse.
pub mod document;
pub mod lint;
pub mod project;
pub mod render;
pub mod scavenge;
pub mod text;
pub mod workflow;
