//! The source text of one file and the diagnostics collected about it.
pub mod annotation;
pub mod document;

pub use annotation::{Annotatable, Annotation, AnnotationLevel, AnnotationView, Annotations};
pub use document::{
    AsDocumentPointer, Document, DocumentError, DocumentPointer, DocumentPosition,
};
