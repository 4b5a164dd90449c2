//! The lints of workflows.
pub mod jobs;
pub mod workflows;

use crate::document::{
    Annotation, AnnotationLevel, AnnotationView, AsDocumentPointer, DocumentPointer,
};
use crate::lint::LintViolation;
use vstd::prelude::*;

verus! {

/// A property that a record must have and has not.
pub struct MissingProperty<'a>(pub &'a str);

/// The message for the missing property `name`.
pub open spec fn missing_property_text(name: Seq<char>) -> Seq<char> {
    "missing required property: "@ + name
}

/// The diagnostic that reports the missing property `name` at `pointer`.
pub open spec fn missing_property_note(name: Seq<char>, pointer: DocumentPointer) -> AnnotationView {
    AnnotationView {
        level: AnnotationLevel::Error,
        message: missing_property_text(name),
        pointer,
    }
}

impl<'a> LintViolation for MissingProperty<'a> {
    open spec fn note(&self, pointer: DocumentPointer) -> AnnotationView {
        missing_property_note(self.0@, pointer)
    }

    fn at<P: AsDocumentPointer>(&self, loc: &P) -> (note: Annotation) {
        let message = String::from_str("missing required property: ").concat(self.0);
        let note = Annotation::error(loc, message.as_str());
        assert(note@ == self.note(loc.pointer()));
        note
    }
}

} // verus!
