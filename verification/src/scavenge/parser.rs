//! What every parser has in common, and the entry point that takes the
//! documents of one file.
use super::ast::{PossumNode, PossumNodeKind};
use super::yaml::YamlNode;
use crate::document::annotation::added_since;
use crate::document::{
    Annotation, AnnotationLevel, AnnotationView, Annotations, AsDocumentPointer, DocumentPointer,
};
use vstd::prelude::*;

verus! {

/// Why a file gave no tree at all. A field that could not be understood is no
/// such failure: it becomes an `Invalid` node or a diagnostic.
#[derive(Debug)]
pub enum ParseFailure {
    /// The tokenizer rejected the bytes; the text is its complaint.
    InvalidDocument(String),
    /// The file holds no document.
    Empty,
    /// The file holds more than one document. One pointer for each document
    /// beyond the first.
    TooManyDocuments(Vec<DocumentPointer>),
    /// The file could not be read; the text is the reason.
    CouldntOpen(String),
}

/// A mapping key that the schema does not know.
pub struct UnexpectedKey<'a>(pub &'a str);

/// The message that reports the unknown key `key`.
pub open spec fn unexpected_key_text(key: Seq<char>) -> Seq<char> {
    "Unexpected key: "@ + key
}

/// The diagnostic that reports the unknown key `key` at `pointer`.
pub open spec fn unexpected_key_note(key: Seq<char>, pointer: DocumentPointer) -> AnnotationView {
    AnnotationView {
        level: AnnotationLevel::Error,
        message: unexpected_key_text(key),
        pointer,
    }
}

impl<'a> UnexpectedKey<'a> {
    pub fn from(value: &'a str) -> (key: UnexpectedKey<'a>)
        ensures
            key.0@ == value@,
    {
        UnexpectedKey(value)
    }

    pub fn to_string(&self) -> (shown: String)
        ensures
            shown@ == unexpected_key_text(self.0@),
    {
        String::from_str("Unexpected key: ").concat(self.0)
    }

    /// The diagnostic that reports the key at `loc`. One unknown key is an
    /// error, and no reason to distrust the rest of its mapping.
    pub fn at<P: AsDocumentPointer>(self, loc: &P) -> (note: Annotation)
        ensures
            note@ == unexpected_key_note(self.0@, loc.pointer()),
    {
        let message = self.to_string();
        Annotation::error(loc, message.as_str())
    }
}

/// A parser for values of type `T`. It is total: for every node it yields a
/// node kind, and what it cannot understand it marks `Invalid` or reports to
/// the collector. It attaches no position; its caller does.
pub trait Parser<T> {
    /// Whether the parser can be run: whether every function it was built
    /// from accepts every input.
    spec fn ready(&self) -> bool;

    /// Whether parsing `root` may yield `kind` while reporting `notes`, in
    /// that order.
    spec fn parses(
        &self,
        root: &YamlNode,
        kind: PossumNodeKind<T>,
        notes: Seq<AnnotationView>,
    ) -> bool;

    fn parse_node(&self, root: &YamlNode, annotations: &mut Annotations) -> (kind: PossumNodeKind<
        T,
    >)
        requires
            self.ready(),
        ensures
            old(annotations)@.is_prefix_of(final(annotations)@),
            self.parses(root, kind, added_since(old(annotations)@, final(annotations)@)),
    ;
}

/// The pointers of all of `documents` but the first.
pub open spec fn extra_documents(documents: Seq<YamlNode>) -> Seq<DocumentPointer> {
    Seq::new((documents.len() - 1) as nat, |i: int| documents[i + 1].pointer())
}

/// Parses the one document of a file with `parser` and attaches the
/// document's own position to the root. A file with no document, or with more
/// than one, is refused as a whole and nothing is reported to the collector.
pub fn parse_single_document<T, P: Parser<T>>(
    documents: &[YamlNode],
    parser: &P,
    annotations: &mut Annotations,
) -> (parsed: Result<PossumNode<T>, ParseFailure>)
    requires
        parser.ready(),
    ensures
        old(annotations)@.is_prefix_of(final(annotations)@),
        documents@.len() == 0 ==> parsed is Err && parsed->Err_0 is Empty,
        documents@.len() > 1 ==> (parsed matches Err(ParseFailure::TooManyDocuments(extra))
            && extra@ == extra_documents(documents@)),
        documents@.len() != 1 ==> final(annotations)@ == old(annotations)@,
        documents@.len() == 1 ==> (parsed matches Ok(root) && root.location
            == documents@[0].pointer() && parser.parses(
            &documents@[0],
            root.kind,
            added_since(old(annotations)@, final(annotations)@),
        )),
{
    if documents.len() == 0 {
        return Err(ParseFailure::Empty);
    }
    if documents.len() > 1 {
        let mut extra: Vec<DocumentPointer> = Vec::new();
        let mut i: usize = 1;
        while i < documents.len()
            invariant
                1 <= i <= documents@.len(),
                extra@.len() == i - 1,
                forall|j: int| 0 <= j < i - 1 ==> extra@[j] == documents@[j + 1].pointer(),
            decreases documents@.len() - i,
        {
            extra.push(documents[i].as_document_pointer());
            i += 1;
        }
        assert(extra@ =~= extra_documents(documents@));
        return Err(ParseFailure::TooManyDocuments(extra));
    }
    let d = &documents[0];
    Ok(parser.parse_node(d, annotations).at(d))
}

/// Parses what the tokenizer made of one file. Where the tokenizer rejected
/// the bytes, its complaint is the failure and nothing is reported; where it
/// gave documents, they are parsed as `parse_single_document` does.
pub fn parse_loaded<T, P: Parser<T>>(
    loaded: Result<&[YamlNode], String>,
    parser: &P,
    annotations: &mut Annotations,
) -> (parsed: Result<PossumNode<T>, ParseFailure>)
    requires
        parser.ready(),
    ensures
        old(annotations)@.is_prefix_of(final(annotations)@),
        loaded matches Err(complaint) ==> parsed == Err::<PossumNode<T>, ParseFailure>(
            ParseFailure::InvalidDocument(complaint),
        ) && final(annotations)@ == old(annotations)@,
        loaded matches Ok(documents) ==> {
            &&& documents@.len() == 0 ==> parsed is Err && parsed->Err_0 is Empty
            &&& documents@.len() > 1 ==> (parsed matches Err(ParseFailure::TooManyDocuments(extra))
                && extra@ == extra_documents(documents@))
            &&& documents@.len() != 1 ==> final(annotations)@ == old(annotations)@
            &&& documents@.len() == 1 ==> (parsed matches Ok(root) && root.location
                == documents@[0].pointer() && parser.parses(
                &documents@[0],
                root.kind,
                added_since(old(annotations)@, final(annotations)@),
            ))
        },
{
    match loaded {
        Err(complaint) => Err(ParseFailure::InvalidDocument(complaint)),
        Ok(documents) => parse_single_document(documents, parser, annotations),
    }
}

} // verus!
