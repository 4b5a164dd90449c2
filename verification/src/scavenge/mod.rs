//! The resilient parsing framework: the positioned value tree, the extraction
//! of typed leaves from YAML nodes, and the parsers built from both.
use vstd::prelude::*;
pub mod ast;
pub mod extraction;
pub mod parser;
pub mod parsers;
pub mod yaml;

verus! {

/// The outcome of a step that yields nothing when it goes well.
#[derive(Debug)]
pub enum Fallible<T> {
    Success,
    Failure(T),
}

} // verus!

pub use self::parser::{
    parse_loaded, parse_single_document, ParseFailure, Parser, UnexpectedKey,
};
