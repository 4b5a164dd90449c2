//! The parsers: the leaves that read one scalar, and the operators that build
//! larger parsers from smaller ones.
mod concrete;
mod conditional;
mod container;
mod object;
mod transform;

pub use concrete::{
    bool_kind, expr_kind, invalid_for, number_kind, string_kind, BoolParser, ExprParser,
    NumberParser, StringParser,
};
pub use conditional::{MaybeExprParser, OrParser, OrableParser};
pub use container::{
    mapping_kind, pair_notes, sequence_kind, string_map_kind, MapParser, SeqParser,
    StringMapParser,
};
pub use object::{object_parsed, pair_built, pairs_built, Builder, ObjectParser};
pub use transform::{
    flat_mapped_by, mapped_by, promoted, FlatMapParser, FlatMappableParser, Pluralize,
    PluralizableParser, TransformParser, TransformableParser,
};
