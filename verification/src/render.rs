//! What the findings about a project are shown as, one line for each.
use crate::document::document::{column_of, line_of};
use crate::document::{Annotation, AsDocumentPointer, Document, DocumentPosition};
use crate::scavenge::ParseFailure;
use vstd::prelude::*;

verus! {

/// The decimal digit that stands for `digit`, which is less than ten.
pub open spec fn digit_text(digit: nat) -> Seq<char> {
    if digit == 0 {
        "0"@
    } else if digit == 1 {
        "1"@
    } else if digit == 2 {
        "2"@
    } else if digit == 3 {
        "3"@
    } else if digit == 4 {
        "4"@
    } else if digit == 5 {
        "5"@
    } else if digit == 6 {
        "6"@
    } else if digit == 7 {
        "7"@
    } else if digit == 8 {
        "8"@
    } else {
        "9"@
    }
}

/// `number` written in decimal digits, without leading zeros.
pub open spec fn decimal_text(number: nat) -> Seq<char>
    decreases number,
{
    if number < 10 {
        digit_text(number)
    } else {
        decimal_text(number / 10) + digit_text(number % 10)
    }
}

/// The decimal digit that stands for `digit`.
fn digit_of(digit: usize) -> (text: &'static str)
    requires
        digit < 10,
    ensures
        text@ == digit_text(digit as nat),
{
    if digit == 0 {
        "0"
    } else if digit == 1 {
        "1"
    } else if digit == 2 {
        "2"
    } else if digit == 3 {
        "3"
    } else if digit == 4 {
        "4"
    } else if digit == 5 {
        "5"
    } else if digit == 6 {
        "6"
    } else if digit == 7 {
        "7"
    } else if digit == 8 {
        "8"
    } else {
        "9"
    }
}

/// Writes `number` in decimal digits.
pub fn decimal(number: usize) -> (text: String)
    ensures
        text@ == decimal_text(number as nat),
    decreases number,
{
    if number < 10 {
        String::from_str(digit_of(number))
    } else {
        decimal(number / 10).concat(digit_of(number % 10))
    }
}

/// What a position is shown as: line, colon, column.
pub open spec fn position_text(position: DocumentPosition) -> Seq<char> {
    decimal_text(position.0 as nat) + ":"@ + decimal_text(position.1 as nat)
}

/// Shows a position as line, colon, column.
pub fn show_position(position: &DocumentPosition) -> (text: String)
    ensures
        text@ == position_text(*position),
{
    decimal(position.line()).concat(":").concat(decimal(position.col()).as_str())
}

/// What is said of a file that gave no tree, without the line's end. What a
/// tokenizer said of a document it rejected is repeated as it stands.
pub open spec fn failure_text(failure: ParseFailure) -> Seq<char> {
    match failure {
        ParseFailure::Empty => "document is empty"@,
        ParseFailure::CouldntOpen(_) => "could not open document"@,
        ParseFailure::InvalidDocument(complaint) => complaint@,
        ParseFailure::TooManyDocuments(_) => "too many documents in file"@,
    }
}

/// The end of a line.
pub open spec fn line_end() -> Seq<char> {
    "\n"@
}

/// Shows why a file gave no tree, on a line of its own.
pub fn show_failure(failure: &ParseFailure) -> (text: String)
    ensures
        text@ == failure_text(*failure) + line_end(),
{
    let msg = match failure {
        ParseFailure::Empty => String::from_str("document is empty"),
        ParseFailure::CouldntOpen(_) => String::from_str("could not open document"),
        ParseFailure::InvalidDocument(e) => e.clone(),
        ParseFailure::TooManyDocuments(_) => String::from_str("too many documents in file"),
    };
    msg.concat("\n")
}

/// The line for a file at `path` that gave no tree: the path, two colons, and
/// what is said of the failure on a line of its own.
pub fn failure_line(path: &str, failure: &ParseFailure) -> (line: String)
    ensures
        line@ == path@ + ":: "@ + failure_text(*failure) + line_end() + line_end(),
{
    let said = show_failure(failure);
    let line = String::from_str(path).concat(":: ").concat(said.as_str()).concat("\n");
    assert(line@ =~= path@ + ":: "@ + failure_text(*failure) + line_end() + line_end());
    line
}

/// The line for a diagnostic about the file at `source` that points at
/// `line` and `column`: path, line and column, colon by colon, and then the
/// diagnostic.
pub open spec fn annotation_text(
    source: Seq<char>,
    line: int,
    column: int,
    annotation: Annotation,
) -> Seq<char> {
    source + ":"@ + decimal_text(line as nat) + ":"@ + decimal_text(column as nat) + ": "@
        + Annotation::text(annotation@) + line_end()
}

/// The line for `annotation`, which is about `document`, read from the file
/// at `source`. There is none where the diagnostic points beyond the end of
/// the document.
pub fn annotation_line(source: &str, document: &Document, annotation: &Annotation) -> (line:
    Option<String>)
    ensures
        match line {
            Some(text) => annotation.pointer().0 <= document@.len() && text@ == annotation_text(
                source@,
                line_of(document@, annotation.pointer().0 as int),
                column_of(document@, annotation.pointer().0 as int),
                *annotation,
            ),
            None => annotation.pointer().0 > document@.len(),
        },
{
    match document.pos(annotation) {
        Err(_) => None,
        Ok(position) => {
            let place = show_position(&position);
            let shown = annotation.to_string();
            let line = String::from_str(source).concat(":").concat(place.as_str()).concat(
                ": ",
            ).concat(shown.as_str()).concat("\n");
            assert(line@ =~= annotation_text(
                source@,
                position.0 as int,
                position.1 as int,
                *annotation,
            ));
            Some(line)
        },
    }
}

} // verus!
