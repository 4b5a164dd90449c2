use possum::document::{
    Annotation, AnnotationLevel, Annotations, Document, DocumentError, DocumentPointer,
};

const TWO_LINES: &[u8] = b"a: 1\nb: 2\n";

fn position(document: &Document, offset: usize) -> (usize, usize) {
    let found = document.pos(&DocumentPointer(offset)).unwrap();
    (found.line(), found.col())
}

#[test]
fn start_of_second_line_is_line_two_column_one() {
    let document = Document::new(TWO_LINES.to_vec());
    assert_eq!(TWO_LINES[5], b'b');
    assert_eq!(position(&document, 5), (2, 1));
}

#[test]
fn offset_six_is_the_second_column_of_line_two() {
    let document = Document::new(TWO_LINES.to_vec());
    assert_eq!(position(&document, 6), (2, 2));
}

#[test]
fn first_byte_is_line_one_column_one() {
    let document = Document::new(TWO_LINES.to_vec());
    assert_eq!(position(&document, 0), (1, 1));
}

#[test]
fn newline_belongs_to_the_line_it_ends() {
    let document = Document::new(TWO_LINES.to_vec());
    assert_eq!(position(&document, 4), (1, 5));
    assert_eq!(position(&document, 9), (2, 5));
}

#[test]
fn end_of_document_is_a_position() {
    let document = Document::new(TWO_LINES.to_vec());
    assert_eq!(position(&document, 10), (3, 1));
}

#[test]
fn pointer_beyond_the_end_is_out_of_bounds() {
    let document = Document::new(TWO_LINES.to_vec());
    assert_eq!(document.pos(&DocumentPointer(11)), Err(DocumentError::OutOfBounds));
    assert_eq!(document.pos(&DocumentPointer(4000)), Err(DocumentError::OutOfBounds));
}

#[test]
fn empty_document_has_one_position() {
    let document = Document::new(Vec::new());
    assert_eq!(position(&document, 0), (1, 1));
    assert_eq!(document.pos(&DocumentPointer(1)), Err(DocumentError::OutOfBounds));
}

#[test]
fn document_without_final_newline() {
    let document = Document::new(b"ab\ncd".to_vec());
    assert_eq!(position(&document, 3), (2, 1));
    assert_eq!(position(&document, 5), (2, 3));
    assert_eq!(document.pos(&DocumentPointer(6)), Err(DocumentError::OutOfBounds));
}

#[test]
fn pointer_from_offset_keeps_the_offset() {
    assert_eq!(DocumentPointer::from(6u64), DocumentPointer(6));
}

#[test]
fn an_annotation_points_where_it_was_made() {
    let document = Document::new(TWO_LINES.to_vec());
    let note = Annotation::warn(&DocumentPointer(5), "odd key");
    assert_eq!(document.pos(&note).map(|p| (p.line(), p.col())), Ok((2, 1)));
}

#[test]
fn annotations_keep_the_order_of_arrival() {
    let mut annotations = Annotations::new();
    assert_eq!(annotations.entries().len(), 0);
    annotations.add(Annotation::info(&DocumentPointer(1), "first"));
    annotations.add(Annotation::fatal(&DocumentPointer(0), "second"));
    annotations.add(Annotation::error(&DocumentPointer(2), "third"));
    let entries = annotations.entries();
    assert_eq!(entries.len(), 3);
    assert_eq!(entries[0].message(), "first");
    assert_eq!(entries[0].level(), AnnotationLevel::Info);
    assert_eq!(entries[1].message(), "second");
    assert_eq!(entries[1].level(), AnnotationLevel::Fatal);
    assert_eq!(entries[2].message(), "third");
    assert_eq!(entries[2].level(), AnnotationLevel::Error);
}

#[test]
fn an_annotation_is_shown_as_level_and_message() {
    assert_eq!(Annotation::info(&DocumentPointer(0), "m").to_string(), "Info: m");
    assert_eq!(Annotation::warn(&DocumentPointer(0), "m").to_string(), "Warn: m");
    assert_eq!(Annotation::error(&DocumentPointer(0), "m").to_string(), "Error: m");
    assert_eq!(Annotation::fatal(&DocumentPointer(0), "m").to_string(), "Fatal: m");
}
