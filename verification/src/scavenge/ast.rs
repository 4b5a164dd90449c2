//! The value tree: every value that a parser yields is a node that knows where
//! in the document it came from and whether it could be understood.
use crate::document::{AsDocumentPointer, DocumentPointer};
use vstd::prelude::*;

verus! {

/// What became of one YAML node. Exactly one of the four holds.
#[derive(Debug)]
pub enum PossumNodeKind<T> {
    /// The node could not be understood; the text says why. Its siblings and
    /// its parent are parsed all the same.
    Invalid(String),
    /// The node held an expression to be evaluated later. The text is kept as
    /// written.
    Expr(String),
    /// The node was understood.
    Value(T),
    /// The node was there and held nothing.
    Empty,
}

/// A `PossumNodeKind` with the pointer of the YAML node it was made from.
#[derive(Debug)]
pub struct PossumNode<T> {
    pub location: DocumentPointer,
    pub kind: PossumNodeKind<T>,
}

impl<T> PossumNode<T> {
    pub fn new(location: DocumentPointer, kind: PossumNodeKind<T>) -> (node: PossumNode<T>)
        ensures
            node.location == location,
            node.kind == kind,
    {
        PossumNode { location, kind }
    }

    pub fn loc(&self) -> (location: DocumentPointer)
        ensures
            location == self.location,
    {
        self.location
    }

    pub fn kind(&self) -> (kind: &PossumNodeKind<T>)
        ensures
            *kind == self.kind,
    {
        &self.kind
    }

    /// The value, where the node was understood.
    pub fn value(&self) -> (value: Option<&T>)
        ensures
            match self.kind {
                PossumNodeKind::Value(t) => value == Some(&t),
                _ => value is None,
            },
    {
        match &self.kind {
            PossumNodeKind::Value(t) => Some(t),
            _ => None,
        }
    }
}

impl<T> AsDocumentPointer for PossumNode<T> {
    open spec fn pointer(&self) -> DocumentPointer {
        self.location
    }

    fn as_document_pointer(&self) -> (pointer: DocumentPointer) {
        self.loc()
    }
}

impl<T> PossumNodeKind<T> {
    /// Attaches the place the value came from.
    pub fn at<D: AsDocumentPointer>(self, location: &D) -> (node: PossumNode<T>)
        ensures
            node.location == location.pointer(),
            node.kind == self,
    {
        PossumNode::new(location.as_document_pointer(), self)
    }

    pub fn invalid(&self) -> (invalid: bool)
        ensures
            invalid == (self is Invalid),
    {
        match self {
            PossumNodeKind::Invalid(_) => true,
            _ => false,
        }
    }

    /// Transforms a `Value` and leaves the other three as they are.
    pub fn map<U, F: Fn(T) -> U>(self, f: F) -> (mapped: PossumNodeKind<U>)
        requires
            self matches PossumNodeKind::Value(t) ==> call_requires(f, (t,)),
        ensures
            match self {
                PossumNodeKind::Value(t) => mapped matches PossumNodeKind::Value(u)
                    && call_ensures(f, (t,), u),
                PossumNodeKind::Expr(s) => mapped == PossumNodeKind::<U>::Expr(s),
                PossumNodeKind::Invalid(s) => mapped == PossumNodeKind::<U>::Invalid(s),
                PossumNodeKind::Empty => mapped == PossumNodeKind::<U>::Empty,
            },
    {
        match self {
            PossumNodeKind::Value(t) => PossumNodeKind::Value(f(t)),
            PossumNodeKind::Expr(s) => PossumNodeKind::Expr(s),
            PossumNodeKind::Invalid(s) => PossumNodeKind::Invalid(s),
            PossumNodeKind::Empty => PossumNodeKind::Empty,
        }
    }

    /// Lets a `Value` become any of the four and leaves the other three as
    /// they are.
    pub fn flatmap<U, F: Fn(T) -> PossumNodeKind<U>>(self, f: F) -> (mapped: PossumNodeKind<U>)
        requires
            self matches PossumNodeKind::Value(t) ==> call_requires(f, (t,)),
        ensures
            match self {
                PossumNodeKind::Value(t) => call_ensures(f, (t,), mapped),
                PossumNodeKind::Expr(s) => mapped == PossumNodeKind::<U>::Expr(s),
                PossumNodeKind::Invalid(s) => mapped == PossumNodeKind::<U>::Invalid(s),
                PossumNodeKind::Empty => mapped == PossumNodeKind::<U>::Empty,
            },
    {
        match self {
            PossumNodeKind::Value(t) => f(t),
            PossumNodeKind::Expr(s) => PossumNodeKind::Expr(s),
            PossumNodeKind::Invalid(s) => PossumNodeKind::Invalid(s),
            PossumNodeKind::Empty => PossumNodeKind::Empty,
        }
    }

    /// Replaces an `Invalid` by what `f` yields and leaves the other three as
    /// they are, without calling `f`.
    pub fn recover<F: FnOnce() -> PossumNodeKind<T>>(self, f: F) -> (recovered: PossumNodeKind<T>)
        requires
            self is Invalid ==> call_requires(f, ()),
        ensures
            if self is Invalid {
                call_ensures(f, (), recovered)
            } else {
                recovered == self
            },
    {
        match self {
            PossumNodeKind::Value(t) => PossumNodeKind::Value(t),
            PossumNodeKind::Expr(s) => PossumNodeKind::Expr(s),
            PossumNodeKind::Empty => PossumNodeKind::Empty,
            PossumNodeKind::Invalid(_) => f(),
        }
    }
}

/// Nodes in source order.
#[derive(Debug)]
pub struct PossumSeq<T> {
    entries: Vec<PossumNode<T>>,
}

impl<T> View for PossumSeq<T> {
    type V = Seq<PossumNode<T>>;

    closed spec fn view(&self) -> Seq<PossumNode<T>> {
        self.entries@
    }
}

impl<T> PossumSeq<T> {
    pub fn empty() -> (seq: PossumSeq<T>)
        ensures
            seq@ == Seq::<PossumNode<T>>::empty(),
    {
        PossumSeq { entries: Vec::new() }
    }

    pub fn push(&mut self, t: PossumNode<T>)
        ensures
            final(self)@ == old(self)@.push(t),
    {
        self.entries.push(t)
    }

    /// The sequence that holds `nodes` in their order.
    pub fn new(nodes: Vec<PossumNode<T>>) -> (seq: PossumSeq<T>)
        ensures
            seq@ == nodes@,
    {
        PossumSeq { entries: nodes }
    }

    /// The sequence that holds `node` alone.
    pub fn single(node: PossumNode<T>) -> (seq: PossumSeq<T>)
        ensures
            seq@ == seq![node],
    {
        let mut entries: Vec<PossumNode<T>> = Vec::new();
        entries.push(node);
        assert(entries@ =~= seq![node]);
        PossumSeq { entries }
    }

    pub fn len(&self) -> (len: usize)
        ensures
            len == self@.len(),
    {
        self.entries.len()
    }

    pub fn is_empty(&self) -> (empty: bool)
        ensures
            empty == (self@.len() == 0),
    {
        self.entries.is_empty()
    }

    /// The nodes, first to last.
    pub fn iter(&self) -> (nodes: &[PossumNode<T>])
        ensures
            nodes@ == self@,
    {
        self.entries.as_slice()
    }

    /// Gives up the nodes, first to last.
    pub fn into_nodes(self) -> (nodes: Vec<PossumNode<T>>)
        ensures
            nodes@ == self@,
    {
        self.entries
    }
}

/// Pairs of key and value in source order. A key that occurs twice is kept
/// twice.
#[derive(Debug)]
pub struct PossumMap<K, V> {
    entries: Vec<(PossumNode<K>, PossumNode<V>)>,
}

impl<K, V> View for PossumMap<K, V> {
    type V = Seq<(PossumNode<K>, PossumNode<V>)>;

    closed spec fn view(&self) -> Seq<(PossumNode<K>, PossumNode<V>)> {
        self.entries@
    }
}

impl<K, V> PossumMap<K, V> {
    pub fn empty() -> (map: PossumMap<K, V>)
        ensures
            map@ == Seq::<(PossumNode<K>, PossumNode<V>)>::empty(),
    {
        PossumMap { entries: Vec::new() }
    }

    pub fn len(&self) -> (len: usize)
        ensures
            len == self@.len(),
    {
        self.entries.len()
    }

    /// Puts a pair behind those already held.
    pub fn insert(&mut self, k: PossumNode<K>, v: PossumNode<V>)
        ensures
            final(self)@ == old(self)@.push((k, v)),
    {
        self.entries.push((k, v));
    }

    pub fn is_empty(&self) -> (empty: bool)
        ensures
            empty == (self@.len() == 0),
    {
        self.entries.is_empty()
    }

    /// The pairs, first to last.
    pub fn iter(&self) -> (pairs: &[(PossumNode<K>, PossumNode<V>)])
        ensures
            pairs@ == self@,
    {
        self.entries.as_slice()
    }
}

} // verus!
