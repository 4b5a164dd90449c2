//! The bytes of one file, and the index that turns a byte offset into a line
//! and a column.
use vstd::prelude::*;

verus! {

/// The byte that ends a line.
pub const NEWLINE: u8 = 10;

/// A byte offset into a document. It borrows nothing from the document, so it
/// can be copied into every node and diagnostic.
#[derive(Debug, Copy, Clone, PartialEq, Eq, Structural)]
pub struct DocumentPointer(pub usize);

/// Anything that knows where in the document it came from.
pub trait AsDocumentPointer {
    /// The place this value points at.
    spec fn pointer(&self) -> DocumentPointer;

    fn as_document_pointer(&self) -> (pointer: DocumentPointer)
        ensures
            pointer == self.pointer(),
    ;
}

impl AsDocumentPointer for DocumentPointer {
    open spec fn pointer(&self) -> DocumentPointer {
        *self
    }

    fn as_document_pointer(&self) -> (pointer: DocumentPointer) {
        *self
    }
}

/// The pointer that stands for the offset `offset` as a tokenizer reports it.
/// Offsets beyond the address space wrap around.
pub open spec fn pointer_at(offset: u64) -> DocumentPointer {
    DocumentPointer(offset as usize)
}

impl From<u64> for DocumentPointer {
    fn from(value: u64) -> (pointer: DocumentPointer) {
        DocumentPointer(#[verifier::truncate] (value as usize))
    }
}

impl vstd::std_specs::convert::FromSpecImpl<u64> for DocumentPointer {
    open spec fn obeys_from_spec() -> bool {
        true
    }

    open spec fn from_spec(value: u64) -> DocumentPointer {
        pointer_at(value)
    }
}

/// A line and a column, both counted from 1.
#[derive(Debug, Copy, Clone, PartialEq, Eq, Structural)]
pub struct DocumentPosition(pub usize, pub usize);

impl DocumentPosition {
    /// The line, counted from 1.
    pub fn line(&self) -> (line: usize)
        ensures
            line == self.0,
    {
        self.0
    }

    /// The column, counted from 1.
    pub fn col(&self) -> (col: usize)
        ensures
            col == self.1,
    {
        self.1
    }
}

/// Why a pointer could not be resolved.
#[derive(Debug, Copy, Clone, PartialEq, Eq, Structural)]
pub enum DocumentError {
    /// The pointer lies beyond the end of the document.
    OutOfBounds,
}

/// How many newlines stand among the first `offset` bytes.
pub open spec fn newlines_before(bytes: Seq<u8>, offset: int) -> nat
    decreases offset,
{
    if offset <= 0 {
        0
    } else if bytes[offset - 1] == NEWLINE {
        newlines_before(bytes, offset - 1) + 1
    } else {
        newlines_before(bytes, offset - 1)
    }
}

/// The offset at which the line that holds `offset` begins: one past the
/// nearest newline before `offset`, or 0.
pub open spec fn line_start(bytes: Seq<u8>, offset: int) -> int
    decreases offset,
{
    if offset <= 0 {
        0
    } else if bytes[offset - 1] == NEWLINE {
        offset
    } else {
        line_start(bytes, offset - 1)
    }
}

/// The line of `offset`, counted from 1. A newline belongs to the line it ends.
pub open spec fn line_of(bytes: Seq<u8>, offset: int) -> int {
    newlines_before(bytes, offset) as int + 1
}

/// The column of `offset`, counted from 1.
pub open spec fn column_of(bytes: Seq<u8>, offset: int) -> int {
    offset - line_start(bytes, offset) + 1
}

/// The sum of the first `count` entries of `lines`: where line `count` begins.
pub open spec fn start_of(lines: Seq<usize>, count: int) -> int
    decreases count,
{
    if count <= 0 {
        0
    } else {
        start_of(lines, count - 1) + lines[count - 1]
    }
}

/// Where line `line` of the table ends: the offset of its terminator.
pub open spec fn line_end(lines: Seq<usize>, line: int) -> int {
    start_of(lines, line) + lines[line] - 1
}

/// Line `line` of the table spans the bytes from its start up to its
/// terminator: a newline, or for the last line (`last`) the end of the
/// document.
pub open spec fn line_matches(bytes: Seq<u8>, lines: Seq<usize>, line: int, last: bool) -> bool {
    let start = start_of(lines, line);
    let end = line_end(lines, line);
    &&& 0 <= start <= end <= bytes.len()
    &&& forall|at: int| start <= at < end ==> bytes[at] != NEWLINE
    &&& if last {
        end == bytes.len()
    } else {
        end < bytes.len() && bytes[end] == NEWLINE
    }
}

/// `lines` is the table of line lengths of `bytes`, each length counted with
/// the line's terminator.
pub open spec fn table_matches(bytes: Seq<u8>, lines: Seq<usize>) -> bool {
    &&& lines.len() >= 1
    &&& forall|line: int|
        0 <= line < lines.len() - 1 ==> #[trigger] line_matches(bytes, lines, line, false)
    &&& line_matches(bytes, lines, lines.len() - 1, true)
}

/// Within a line of the table, the line number and the line's start are what
/// counting newlines gives.
proof fn lemma_within_line(bytes: Seq<u8>, lines: Seq<usize>, line: int, offset: int)
    requires
        0 <= line < lines.len(),
        forall|l: int| 0 <= l < line ==> #[trigger] line_matches(bytes, lines, l, false),
        line_matches(bytes, lines, line, false) || line_matches(bytes, lines, line, true),
        start_of(lines, line) <= offset <= line_end(lines, line),
    ensures
        newlines_before(bytes, offset) == line,
        line_start(bytes, offset) == start_of(lines, line),
    decreases line, offset - start_of(lines, line),
{
    let start = start_of(lines, line);
    if offset > start {
        lemma_within_line(bytes, lines, line, offset - 1);
        assert(bytes[offset - 1] != NEWLINE);
    } else if line > 0 {
        assert(line_matches(bytes, lines, line - 1, false));
        lemma_within_line(bytes, lines, line - 1, start - 1);
        assert(bytes[start - 1] == NEWLINE);
    }
}

/// The bytes of one file with the length of each of its lines, computed once.
pub struct Document {
    raw: Vec<u8>,
    len: usize,
    lines: Vec<usize>,
}

impl View for Document {
    type V = Seq<u8>;

    closed spec fn view(&self) -> Seq<u8> {
        self.raw@
    }
}

impl Document {
    #[verifier::type_invariant]
    closed spec fn well_formed(&self) -> bool {
        &&& self.len == self.raw@.len()
        &&& table_matches(self.raw@, self.lines@)
    }

    /// Takes the bytes of a file and measures its lines.
    pub fn new(raw: Vec<u8>) -> (document: Document)
        requires
            raw@.len() < usize::MAX,
        ensures
            document@ == raw@,
    {
        let len = raw.len();
        let mut lines: Vec<usize> = Vec::new();
        let mut start: usize = 0;
        let mut at: usize = 0;
        while at < len
            invariant
                len == raw@.len(),
                len < usize::MAX,
                0 <= start <= at <= len,
                start == start_of(lines@, lines@.len() as int),
                forall|k: int| start <= k < at ==> raw@[k] != NEWLINE,
                forall|line: int|
                    0 <= line < lines@.len() ==> #[trigger] line_matches(
                        raw@,
                        lines@,
                        line,
                        false,
                    ),
            decreases len - at,
        {
            if raw[at] == NEWLINE {
                let ghost before = lines@;
                lines.push(at - start + 1);
                proof {
                    assert forall|line: int| 0 <= line < lines@.len() implies #[trigger] line_matches(
                        raw@,
                        lines@,
                        line,
                        false,
                    ) by {
                        lemma_start_of_prefix(before, lines@, line);
                        if line < before.len() {
                            assert(line_matches(raw@, before, line, false));
                            assert(lines@[line] == before[line]);
                        }
                    }
                    lemma_start_of_prefix(before, lines@, before.len() as int);
                }
                start = at + 1;
            }
            at += 1;
        }
        let ghost before = lines@;
        lines.push(len - start + 1);
        proof {
            assert forall|line: int| 0 <= line < lines@.len() - 1 implies #[trigger] line_matches(
                raw@,
                lines@,
                line,
                false,
            ) by {
                lemma_start_of_prefix(before, lines@, line);
                assert(line_matches(raw@, before, line, false));
                assert(lines@[line] == before[line]);
            }
            lemma_start_of_prefix(before, lines@, before.len() as int);
        }
        Document { raw, len, lines }
    }

    /// The number of bytes in the document.
    pub fn len(&self) -> (len: usize)
        ensures
            len == self@.len(),
    {
        proof {
            use_type_invariant(self);
        }
        self.len
    }

    /// The lengths of the lines, first to last, each counted with its
    /// terminator; where the last line has none, one is counted for it.
    pub fn lines(&self) -> (lines: &[usize])
        ensures
            table_matches(self@, lines@),
    {
        proof {
            use_type_invariant(self);
        }
        self.lines.as_slice()
    }

    /// Resolves `p` to its line and column, both counted from 1. The pointer
    /// may name any byte of the document or its end; one beyond the end is
    /// out of bounds.
    pub fn pos<P: AsDocumentPointer>(&self, p: &P) -> (position: Result<
        DocumentPosition,
        DocumentError,
    >)
        ensures
            p.pointer().0 <= self@.len() ==> (position matches Ok(found) && found.0 == line_of(
                self@,
                p.pointer().0 as int,
            ) && found.1 == column_of(self@, p.pointer().0 as int)),
            p.pointer().0 > self@.len() ==> position == Err::<DocumentPosition, DocumentError>(
                DocumentError::OutOfBounds,
            ),
    {
        proof {
            use_type_invariant(self);
        }
        let offset = p.as_document_pointer().0;
        let mut rest = offset;
        let mut line: usize = 0;
        while line < self.lines.len()
            invariant
                table_matches(self.raw@, self.lines@),
                0 <= line <= self.lines@.len(),
                start_of(self.lines@, line as int) + rest == offset,
                offset == p.pointer().0,
            decreases self.lines@.len() - line,
        {
            let len = self.lines[line];
            if len > rest {
                proof {
                    if line + 1 < self.lines@.len() {
                        assert(line_matches(self.raw@, self.lines@, line as int, false));
                    } else {
                        assert(line_matches(self.raw@, self.lines@, line as int, true));
                    }
                    lemma_within_line(self.raw@, self.lines@, line as int, offset as int);
                }
                return Ok(DocumentPosition(line + 1, rest + 1));
            }
            rest -= len;
            line += 1;
        }
        Err(DocumentError::OutOfBounds)
    }
}

/// A table that grew at its end still gives every earlier line its old start.
proof fn lemma_start_of_prefix(before: Seq<usize>, after: Seq<usize>, count: int)
    requires
        before.is_prefix_of(after),
        0 <= count <= before.len(),
    ensures
        start_of(after, count) == start_of(before, count),
    decreases count,
{
    if count > 0 {
        lemma_start_of_prefix(before, after, count - 1);
    }
}

} // verus!
