//! Diagnostics: a level, a message and the place in the document they speak of.
use super::document::{AsDocumentPointer, DocumentPointer};
use vstd::prelude::*;

verus! {

/// How much a diagnostic weighs. None of the levels stops a parse; `Fatal`
/// says that the value of the subtree it points at should not be trusted.
#[derive(Debug, Copy, Clone, PartialEq, Eq, Structural)]
pub enum AnnotationLevel {
    Info,
    Warn,
    Error,
    Fatal,
}

impl AnnotationLevel {
    /// The name a level is shown under.
    pub open spec fn text(self) -> Seq<char> {
        match self {
            AnnotationLevel::Info => "Info"@,
            AnnotationLevel::Warn => "Warn"@,
            AnnotationLevel::Error => "Error"@,
            AnnotationLevel::Fatal => "Fatal"@,
        }
    }

    pub fn to_string(&self) -> (shown: String)
        ensures
            shown@ == self.text(),
    {
        match self {
            AnnotationLevel::Info => String::from_str("Info"),
            AnnotationLevel::Warn => String::from_str("Warn"),
            AnnotationLevel::Error => String::from_str("Error"),
            AnnotationLevel::Fatal => String::from_str("Fatal"),
        }
    }
}

/// What an annotation says, with its message as plain text.
pub struct AnnotationView {
    pub level: AnnotationLevel,
    pub message: Seq<char>,
    pub pointer: DocumentPointer,
}

/// One diagnostic. It only describes; nothing acts on it.
#[derive(Debug)]
pub struct Annotation(AnnotationLevel, String, DocumentPointer);

impl View for Annotation {
    type V = AnnotationView;

    closed spec fn view(&self) -> AnnotationView {
        AnnotationView { level: self.0, message: self.1@, pointer: self.2 }
    }
}

impl AsDocumentPointer for Annotation {
    open spec fn pointer(&self) -> DocumentPointer {
        self@.pointer
    }

    fn as_document_pointer(&self) -> (pointer: DocumentPointer) {
        self.2
    }
}

impl Annotation {
    fn from_parts<P: AsDocumentPointer>(level: AnnotationLevel, msg: &str, pointer: &P) -> (made:
        Annotation)
        ensures
            made@ == (AnnotationView { level, message: msg@, pointer: pointer.pointer() }),
    {
        Annotation(level, String::from_str(msg), pointer.as_document_pointer())
    }

    pub fn info<P: AsDocumentPointer>(pointer: &P, msg: &str) -> (made: Annotation)
        ensures
            made@ == (AnnotationView {
                level: AnnotationLevel::Info,
                message: msg@,
                pointer: pointer.pointer(),
            }),
    {
        Annotation::from_parts(AnnotationLevel::Info, msg, pointer)
    }

    pub fn warn<P: AsDocumentPointer>(pointer: &P, msg: &str) -> (made: Annotation)
        ensures
            made@ == (AnnotationView {
                level: AnnotationLevel::Warn,
                message: msg@,
                pointer: pointer.pointer(),
            }),
    {
        Annotation::from_parts(AnnotationLevel::Warn, msg, pointer)
    }

    pub fn error<P: AsDocumentPointer>(pointer: &P, msg: &str) -> (made: Annotation)
        ensures
            made@ == (AnnotationView {
                level: AnnotationLevel::Error,
                message: msg@,
                pointer: pointer.pointer(),
            }),
    {
        Annotation::from_parts(AnnotationLevel::Error, msg, pointer)
    }

    pub fn fatal<P: AsDocumentPointer>(pointer: &P, msg: &str) -> (made: Annotation)
        ensures
            made@ == (AnnotationView {
                level: AnnotationLevel::Fatal,
                message: msg@,
                pointer: pointer.pointer(),
            }),
    {
        Annotation::from_parts(AnnotationLevel::Fatal, msg, pointer)
    }

    pub fn level(&self) -> (level: AnnotationLevel)
        ensures
            level == self@.level,
    {
        self.0
    }

    pub fn message(&self) -> (message: &str)
        ensures
            message@ == self@.message,
    {
        self.1.as_str()
    }

    /// The text an annotation is shown as: its level, a colon and its message.
    pub open spec fn text(shown: AnnotationView) -> Seq<char> {
        shown.level.text() + ": "@ + shown.message
    }

    pub fn to_string(&self) -> (shown: String)
        ensures
            shown@ == Annotation::text(self@),
    {
        self.0.to_string().concat(": ").concat(self.1.as_str())
    }
}

/// Anything that diagnostics can be handed to.
pub trait Annotatable {
    /// The diagnostics taken in so far, oldest first.
    spec fn taken(&self) -> Seq<AnnotationView>;

    fn annotate(&mut self, annotation: Annotation)
        ensures
            final(self).taken() == old(self).taken().push(annotation@),
    ;
}

/// The diagnostics of one document, in the order in which they were found.
/// Entries are only ever added at the end.
#[derive(Debug)]
pub struct Annotations(Vec<Annotation>);

impl View for Annotations {
    type V = Seq<AnnotationView>;

    closed spec fn view(&self) -> Seq<AnnotationView> {
        self.0@.map_values(|a: Annotation| a@)
    }
}

impl Annotations {
    pub fn new() -> (annotations: Annotations)
        ensures
            annotations@ == Seq::<AnnotationView>::empty(),
    {
        let annotations = Annotations(Vec::with_capacity(16));
        assert(annotations@ =~= Seq::<AnnotationView>::empty());
        annotations
    }

    pub fn add(&mut self, a: Annotation)
        ensures
            final(self)@ == old(self)@.push(a@),
    {
        self.0.push(a);
        assert(self@ =~= old(self)@.push(a@));
    }

    /// The diagnostics, oldest first.
    pub fn entries(&self) -> (entries: &[Annotation])
        ensures
            entries@.len() == self@.len(),
            forall|i: int| 0 <= i < entries@.len() ==> (#[trigger] entries@[i])@ == self@[i],
    {
        self.0.as_slice()
    }
}

impl Annotatable for Annotations {
    open spec fn taken(&self) -> Seq<AnnotationView> {
        self@
    }

    fn annotate(&mut self, annotation: Annotation) {
        self.add(annotation)
    }
}

/// What `later` holds beyond the first `earlier.len()` entries.
pub open spec fn added_since(earlier: Seq<AnnotationView>, later: Seq<AnnotationView>) -> Seq<
    AnnotationView,
> {
    later.skip(earlier.len() as int)
}

/// The diagnostics of `parts`, one part after the other.
pub open spec fn joined(parts: Seq<Seq<AnnotationView>>) -> Seq<AnnotationView>
    decreases parts.len(),
{
    if parts.len() == 0 {
        Seq::empty()
    } else {
        joined(parts.drop_last()) + parts.last()
    }
}

/// Whatever is appended to a sequence is what it holds beyond its old length.
pub proof fn lemma_added_since(earlier: Seq<AnnotationView>, added: Seq<AnnotationView>)
    ensures
        earlier.is_prefix_of(earlier + added),
        added_since(earlier, earlier + added) == added,
{
    assert((earlier + added).skip(earlier.len() as int) =~= added);
}

/// A sequence that only grew is its old self with what was added since.
pub proof fn lemma_grown(earlier: Seq<AnnotationView>, later: Seq<AnnotationView>)
    requires
        earlier.is_prefix_of(later),
    ensures
        later == earlier + added_since(earlier, later),
{
    assert(later =~= earlier + added_since(earlier, later));
}

/// Growing twice adds the first addition and then the second.
pub proof fn lemma_grown_twice(
    earlier: Seq<AnnotationView>,
    middle: Seq<AnnotationView>,
    later: Seq<AnnotationView>,
)
    requires
        earlier.is_prefix_of(middle),
        middle.is_prefix_of(later),
    ensures
        earlier.is_prefix_of(later),
        added_since(earlier, later) == added_since(earlier, middle) + added_since(middle, later),
{
    assert(added_since(earlier, later) =~= added_since(earlier, middle) + added_since(
        middle,
        later,
    ));
}

/// Parts that are all empty join to nothing.
pub proof fn lemma_joined_empty(parts: Seq<Seq<AnnotationView>>)
    requires
        forall|i: int| 0 <= i < parts.len() ==> (#[trigger] parts[i]).len() == 0,
    ensures
        joined(parts).len() == 0,
    decreases parts.len(),
{
    if parts.len() > 0 {
        lemma_joined_empty(parts.drop_last());
    }
}

/// Joining one more part puts it behind the others.
pub proof fn lemma_joined_push(parts: Seq<Seq<AnnotationView>>, part: Seq<AnnotationView>)
    ensures
        joined(parts.push(part)) == joined(parts) + part,
{
    assert(parts.push(part).drop_last() =~= parts);
}

} // verus!
