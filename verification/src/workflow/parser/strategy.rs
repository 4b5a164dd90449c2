//! Strategies: how a job is multiplied over a matrix of inputs.
use super::{bool_field, none_of, number_field, parse_bool, parse_number, unexpected};
use crate::document::annotation::{added_since, lemma_added_since};
use crate::document::{AnnotationView, Annotations, AsDocumentPointer, DocumentPointer};
use crate::scavenge::ast::{PossumMap, PossumNodeKind, PossumSeq};
use crate::scavenge::extraction::{node_integer_of, Number};
use crate::scavenge::parser::{unexpected_key_note, Parser, UnexpectedKey};
use crate::scavenge::parsers::{
    mapping_kind, object_parsed, sequence_kind, string_kind, BoolParser, Builder, MapParser,
    MaybeExprParser, NumberParser, ObjectParser, OrableParser, SeqParser, StringParser,
    TransformableParser,
};
use crate::scavenge::yaml::{Yaml, YamlKind, YamlNode};
use crate::text::{lowercase, lowercased, same_text};
use crate::workflow::job::{Matrix, MatrixInput, Strategy};
use vstd::prelude::*;

verus! {

/// Rows of a matrix that are added to it or left out of it.
pub type MatrixRows = PossumSeq<PossumMap<String, MatrixInput>>;

/// `kind` is what one input of a matrix is read as: a string or a number as
/// it stands, and `Empty` for anything else.
pub open spec fn matrix_input_kind(yaml: Yaml, kind: PossumNodeKind<MatrixInput>) -> bool {
    match yaml {
        Yaml::Str(text) => kind matches PossumNodeKind::Value(MatrixInput::Str(parsed))
            && parsed@ == text@,
        Yaml::Int(raw) => match node_integer_of(raw@) {
            Some(value) => kind == PossumNodeKind::Value(
                MatrixInput::Number(Number::Integer(value)),
            ),
            None => kind == PossumNodeKind::<MatrixInput>::Empty,
        },
        Yaml::Float(raw) => kind == PossumNodeKind::Value(MatrixInput::Number(Number::Real(raw))),
        _ => kind == PossumNodeKind::<MatrixInput>::Empty,
    }
}

/// Reads one input of a matrix.
pub struct MatrixInputParser;

impl Parser<MatrixInput> for MatrixInputParser {
    open spec fn ready(&self) -> bool {
        true
    }

    open spec fn parses(
        &self,
        root: &YamlNode,
        kind: PossumNodeKind<MatrixInput>,
        notes: Seq<AnnotationView>,
    ) -> bool {
        matrix_input_kind(root.yaml, kind) && notes.len() == 0
    }

    fn parse_node(&self, root: &YamlNode, annotations: &mut Annotations) -> (kind: PossumNodeKind<
        MatrixInput,
    >) {
        let as_str = |s: String| -> (m: MatrixInput)
            ensures
                m == MatrixInput::Str(s),
            { MatrixInput::Str(s) };
        let as_number = |n: Number| -> (m: MatrixInput)
            ensures
                m == MatrixInput::Number(n),
            { MatrixInput::Number(n) };
        let as_bool = |b: bool| -> (m: MatrixInput)
            ensures
                m == MatrixInput::Bool(b),
            { MatrixInput::Bool(b) };
        let nothing = |r: &YamlNode| -> (k: PossumNodeKind<MatrixInput>)
            ensures
                k == PossumNodeKind::<MatrixInput>::Empty,
            { PossumNodeKind::Empty };
        let neither = |r: &YamlNode| -> (k: PossumNodeKind<MatrixInput>)
            ensures
                none_of(k, seq![YamlKind::Str, YamlKind::Number, YamlKind::Bool], r),
            { unexpected(vec![YamlKind::Str, YamlKind::Number, YamlKind::Bool], r) };
        let strings = StringParser.to(as_str);
        let numbers = NumberParser.to(as_number);
        let bools = BoolParser.to(as_bool);
        proof {
            strings.lemma_transform(root, PossumNodeKind::Empty, Seq::empty());
            numbers.lemma_transform(root, PossumNodeKind::Empty, Seq::empty());
            bools.lemma_transform(root, PossumNodeKind::Empty, Seq::empty());
        }
        let scalars = strings.or(numbers, nothing);
        proof {
            scalars.lemma_or(root, PossumNodeKind::Empty, Seq::empty());
        }
        let parser = scalars.or(bools, neither);
        proof {
            parser.lemma_or(root, PossumNodeKind::Empty, Seq::empty());
        }
        let kind = parser.parse_node(root, annotations);
        proof {
            let notes = annotations@.skip(old(annotations)@.len() as int);
            parser.lemma_or(root, kind, notes);
            let (scalar, scalar_notes, boolean, boolean_notes) = choose|
                scalar: PossumNodeKind<MatrixInput>,
                scalar_notes: Seq<AnnotationView>,
                boolean: PossumNodeKind<MatrixInput>,
                boolean_notes: Seq<AnnotationView>,
            | #[trigger]
                parser.attempts(root, scalar, scalar_notes, boolean, boolean_notes, kind, notes);
            parser.lhs.lemma_or(root, scalar, scalar_notes);
            let (string, string_notes, number, number_notes) = choose|
                string: PossumNodeKind<MatrixInput>,
                string_notes: Seq<AnnotationView>,
                number: PossumNodeKind<MatrixInput>,
                number_notes: Seq<AnnotationView>,
            | #[trigger]
                parser.lhs.attempts(
                    root,
                    string,
                    string_notes,
                    number,
                    number_notes,
                    scalar,
                    scalar_notes,
                );
            parser.lhs.lhs.lemma_transform(root, string, string_notes);
            if string is Invalid {
                parser.lhs.rhs.lemma_transform(root, number, number_notes);
                assert(scalar_notes =~= number_notes);
            }
            assert(matrix_input_kind(root.yaml, scalar));
        }
        kind
    }
}

/// `kind` is what one row of a matrix is read as: a mapping from strings to
/// inputs.
pub open spec fn matrix_row_kind(
    node: YamlNode,
    kind: PossumNodeKind<PossumMap<String, MatrixInput>>,
) -> bool {
    mapping_kind(
        &node,
        kind,
        |key: YamlNode, made: PossumNodeKind<String>| string_kind(key.yaml, made),
        |value: YamlNode, made: PossumNodeKind<MatrixInput>| matrix_input_kind(value.yaml, made),
    )
}

/// Reads the rows that a matrix adds or leaves out: a string is kept as an
/// expression, a sequence is read row by row, and `default` says what any
/// other node is. Nothing is reported.
pub fn parse_rows<D: Fn(&YamlNode) -> PossumNodeKind<MatrixRows>>(
    default: D,
    root: &YamlNode,
    annotations: &mut Annotations,
) -> (kind: PossumNodeKind<MatrixRows>)
    requires
        forall|r: &YamlNode| call_requires(default, (r,)),
    ensures
        final(annotations)@ == old(annotations)@,
        match root.yaml {
            Yaml::Str(text) => kind matches PossumNodeKind::Expr(kept) && kept@ == text@,
            Yaml::Sequence(_) => sequence_kind(
                root,
                kind,
                |
                    node: YamlNode,
                    made: PossumNodeKind<PossumMap<String, MatrixInput>>,
                | matrix_row_kind(node, made),
            ),
            _ => call_ensures(default, (root,), kind),
        },
{
    let rows = SeqParser::new(MapParser::new(StringParser, MatrixInputParser));
    let parser = MaybeExprParser::new(rows, default);
    proof {
        parser.lemma_maybe_expr(root, PossumNodeKind::Empty, Seq::empty());
    }
    let kind = parser.parse_node(root, annotations);
    proof {
        let notes = annotations@.skip(old(annotations)@.len() as int);
        let row = |node: YamlNode, made: PossumNodeKind<PossumMap<String, MatrixInput>>|
            matrix_row_kind(node, made);
        let or = parser.alternation();
        parser.lemma_maybe_expr(root, kind, notes);
        or.lemma_or(root, kind, notes);
        let (first, first_notes, second, second_notes) = choose|
            first: PossumNodeKind<MatrixRows>,
            first_notes: Seq<AnnotationView>,
            second: PossumNodeKind<MatrixRows>,
            second_notes: Seq<AnnotationView>,
        | #[trigger] or.attempts(root, first, first_notes, second, second_notes, kind, notes);
        if first is Invalid {
            assert forall|
                node: &YamlNode,
                made: PossumNodeKind<PossumMap<String, MatrixInput>>,
                said: Seq<AnnotationView>,
            | #[trigger] or.rhs.inner.parses(node, made, said) implies row(*node, made)
                && said.len() == 0 by {
                or.rhs.inner.lemma_map_quiet(
                    node,
                    made,
                    said,
                    |key: YamlNode, made: PossumNodeKind<String>| string_kind(key.yaml, made),
                    |value: YamlNode, made: PossumNodeKind<MatrixInput>|
                        matrix_input_kind(value.yaml, made),
                );
            }
            or.rhs.lemma_seq_quiet(root, second, second_notes, row);
            assert(notes =~= first_notes + second_notes);
        }
        assert(notes.len() == 0);
        lemma_added_since(old(annotations)@, notes);
        assert(annotations@ =~= old(annotations)@);
    }
    kind
}

/// Reads one axis of a matrix: a string is kept as an expression, a sequence
/// is read input by input, and `default` says what any other node is.
/// Nothing is reported.
pub fn parse_axis<D: Fn(&YamlNode) -> PossumNodeKind<PossumSeq<MatrixInput>>>(
    default: D,
    root: &YamlNode,
    annotations: &mut Annotations,
) -> (kind: PossumNodeKind<PossumSeq<MatrixInput>>)
    requires
        forall|r: &YamlNode| call_requires(default, (r,)),
    ensures
        final(annotations)@ == old(annotations)@,
        match root.yaml {
            Yaml::Str(text) => kind matches PossumNodeKind::Expr(kept) && kept@ == text@,
            Yaml::Sequence(_) => sequence_kind(
                root,
                kind,
                |node: YamlNode, made: PossumNodeKind<MatrixInput>|
                    matrix_input_kind(node.yaml, made),
            ),
            _ => call_ensures(default, (root,), kind),
        },
{
    let parser = MaybeExprParser::new(SeqParser::new(MatrixInputParser), default);
    proof {
        parser.lemma_maybe_expr(root, PossumNodeKind::Empty, Seq::empty());
    }
    let kind = parser.parse_node(root, annotations);
    proof {
        let notes = annotations@.skip(old(annotations)@.len() as int);
        let input = |node: YamlNode, made: PossumNodeKind<MatrixInput>|
            matrix_input_kind(node.yaml, made);
        let or = parser.alternation();
        parser.lemma_maybe_expr(root, kind, notes);
        or.lemma_or(root, kind, notes);
        let (first, first_notes, second, second_notes) = choose|
            first: PossumNodeKind<PossumSeq<MatrixInput>>,
            first_notes: Seq<AnnotationView>,
            second: PossumNodeKind<PossumSeq<MatrixInput>>,
            second_notes: Seq<AnnotationView>,
        | #[trigger] or.attempts(root, first, first_notes, second, second_notes, kind, notes);
        if first is Invalid {
            or.rhs.lemma_seq_quiet(root, second, second_notes, input);
            assert(notes =~= first_notes + second_notes);
        }
        assert(notes.len() == 0);
        lemma_added_since(old(annotations)@, notes);
        assert(annotations@ =~= old(annotations)@);
    }
    kind
}

/// `kind` is what the rows under `include` or `exclude` are read as. Where
/// the node is neither a string nor a sequence, the rows to add are `Invalid`
/// and the rows to leave out (`lenient`) are `Empty`.
pub open spec fn rows_kind(root: &YamlNode, kind: PossumNodeKind<MatrixRows>, lenient: bool) -> bool {
    match root.yaml {
        Yaml::Str(text) => kind matches PossumNodeKind::Expr(kept) && kept@ == text@,
        Yaml::Sequence(_) => sequence_kind(
            root,
            kind,
            |node: YamlNode, made: PossumNodeKind<PossumMap<String, MatrixInput>>|
                matrix_row_kind(node, made),
        ),
        _ => if lenient {
            kind == PossumNodeKind::<MatrixRows>::Empty
        } else {
            none_of(kind, seq![YamlKind::Str, YamlKind::Number, YamlKind::Bool], root)
        },
    }
}

/// `kind` is what one axis of a matrix is read as.
pub open spec fn axis_kind(root: &YamlNode, kind: PossumNodeKind<PossumSeq<MatrixInput>>) -> bool {
    match root.yaml {
        Yaml::Str(text) => kind matches PossumNodeKind::Expr(kept) && kept@ == text@,
        Yaml::Sequence(_) => sequence_kind(
            root,
            kind,
            |node: YamlNode, made: PossumNodeKind<MatrixInput>|
                matrix_input_kind(node.yaml, made),
        ),
        _ => none_of(kind, seq![YamlKind::Str, YamlKind::Sequence], root),
    }
}

/// Collects the fields of a matrix.
pub struct MatrixBuilder {
    pub matrix: Matrix,
}

impl Default for MatrixBuilder {
    fn default() -> (builder: MatrixBuilder)
        ensures
            builder.matrix.is_blank(),
    {
        MatrixBuilder { matrix: Matrix::default() }
    }
}

impl MatrixBuilder {
    /// Whether taking in a field whose key, in lower case, is `lower` and
    /// stands at `pointer` may leave the builder as `after` while reporting
    /// `notes`. `include` and `exclude` both set the rows to add; every other
    /// key names an axis, which is put behind the axes already held under
    /// the name `lower`.
    pub open spec fn builds_lowered(
        self,
        lower: Seq<char>,
        value: &YamlNode,
        pointer: DocumentPointer,
        after: Self,
        notes: Seq<AnnotationView>,
    ) -> bool {
        &&& notes.len() == 0
        &&& after.matrix.exclusions == self.matrix.exclusions
        &&& if lower == "include"@ || lower == "exclude"@ {
            &&& after.matrix.entries == self.matrix.entries
            &&& after.matrix.inclusions matches Some(node)
            &&& node.location == value.pointer()
            &&& rows_kind(value, node.kind, lower != "include"@)
        } else {
            &&& after.matrix.inclusions == self.matrix.inclusions
            &&& after.matrix.entries@.len() == self.matrix.entries@.len() + 1
            &&& after.matrix.entries@.drop_last() == self.matrix.entries@
            &&& after.matrix.entries@.last().0.location == pointer
            &&& after.matrix.entries@.last().0.kind matches PossumNodeKind::Value(name)
            &&& name@ == lower
            &&& after.matrix.entries@.last().1.location == value.pointer()
            &&& axis_kind(value, after.matrix.entries@.last().1.kind)
        }
    }

    /// Takes in one field of a matrix whose key, in lower case, is `lower`
    /// and stands at `pointer`.
    pub fn build_lowered<P: AsDocumentPointer>(
        &mut self,
        lower: String,
        value: &YamlNode,
        pointer: &P,
        annotations: &mut Annotations,
    )
        ensures
            final(annotations)@ == old(annotations)@,
            old(self).builds_lowered(
                lower@,
                value,
                pointer.pointer(),
                *final(self),
                Seq::empty(),
            ),
    {
        if same_text(lower.as_str(), "include") {
            let neither = |r: &YamlNode| -> (made: PossumNodeKind<MatrixRows>)
                ensures
                    none_of(made, seq![YamlKind::Str, YamlKind::Number, YamlKind::Bool], r),
                { unexpected(vec![YamlKind::Str, YamlKind::Number, YamlKind::Bool], r) };
            let parsed = parse_rows(neither, value, annotations).at(value);
            self.matrix.inclusions = Some(parsed);
        } else if same_text(lower.as_str(), "exclude") {
            let nothing = |r: &YamlNode| -> (made: PossumNodeKind<MatrixRows>)
                ensures
                    made == PossumNodeKind::<MatrixRows>::Empty,
                { PossumNodeKind::Empty };
            let parsed = parse_rows(nothing, value, annotations).at(value);
            self.matrix.inclusions = Some(parsed);
        } else {
            let neither = |r: &YamlNode| -> (made: PossumNodeKind<PossumSeq<MatrixInput>>)
                ensures
                    none_of(made, seq![YamlKind::Str, YamlKind::Sequence], r),
                { unexpected(vec![YamlKind::Str, YamlKind::Sequence], r) };
            let parsed = parse_axis(neither, value, annotations).at(value);
            let ghost held = self.matrix.entries@;
            self.matrix.entries.insert(PossumNodeKind::Value(lower).at(pointer), parsed);
            assert(self.matrix.entries@.drop_last() =~= held);
        }
    }
}

impl Builder<Matrix> for MatrixBuilder {
    /// The key is compared in lower case.
    open spec fn builds(
        self,
        key: Seq<char>,
        value: &YamlNode,
        pointer: DocumentPointer,
        after: Self,
        notes: Seq<AnnotationView>,
    ) -> bool {
        self.builds_lowered(lowercased(key), value, pointer, after, notes)
    }

    fn build<P: AsDocumentPointer>(
        &mut self,
        key: &str,
        value: &YamlNode,
        pointer: &P,
        annotations: &mut Annotations,
    ) {
        self.build_lowered(lowercase(key), value, pointer, annotations);
        assert(annotations@.skip(old(annotations)@.len() as int) =~= Seq::empty());
    }

    open spec fn built(self) -> Matrix {
        self.matrix
    }

    fn finish(self) -> (built: Matrix) {
        self.matrix
    }
}

/// Whether `kind` with `notes` is what a matrix may be read as from `root`.
pub open spec fn matrix_parsed(
    root: &YamlNode,
    kind: PossumNodeKind<Matrix>,
    notes: Seq<AnnotationView>,
) -> bool {
    match root.yaml {
        Yaml::Mapping(_) => exists|start: MatrixBuilder| #[trigger]
            start.matrix.is_blank() && object_parsed(start, root, kind, notes),
        _ => object_parsed(MatrixBuilder { matrix: arbitrary() }, root, kind, notes),
    }
}

/// Reads a matrix.
pub struct MatrixParser;

impl Parser<Matrix> for MatrixParser {
    open spec fn ready(&self) -> bool {
        true
    }

    open spec fn parses(
        &self,
        root: &YamlNode,
        kind: PossumNodeKind<Matrix>,
        notes: Seq<AnnotationView>,
    ) -> bool {
        matrix_parsed(root, kind, notes)
    }

    fn parse_node(&self, root: &YamlNode, annotations: &mut Annotations) -> (kind: PossumNodeKind<
        Matrix,
    >) {
        let fresh = || -> (builder: MatrixBuilder)
            ensures
                builder.matrix.is_blank(),
            { MatrixBuilder::default() };
        let parser = ObjectParser::new(fresh);
        proof {
            parser.lemma_object(root, PossumNodeKind::Empty, Seq::empty());
        }
        let kind = parser.parse_node(root, annotations);
        proof {
            let notes = annotations@.skip(old(annotations)@.len() as int);
            parser.lemma_object(root, kind, notes);
            if root.yaml is Mapping {
                let start = choose|start: MatrixBuilder| #[trigger]
                    call_ensures(parser.builder, (), start) && object_parsed(
                        start,
                        root,
                        kind,
                        notes,
                    );
                assert(start.matrix.is_blank() && object_parsed(start, root, kind, notes));
            }
            assert(self.parses(root, kind, notes));
        }
        kind
    }
}

/// Collects the fields of a strategy.
pub struct StrategyBuilder {
    pub strategy: Strategy,
}

impl Default for StrategyBuilder {
    fn default() -> (builder: StrategyBuilder)
        ensures
            builder.strategy == Strategy::blank(),
    {
        StrategyBuilder { strategy: Strategy::default() }
    }
}

impl StrategyBuilder {
    /// Whether taking in a field whose key, in lower case, is `lower` and
    /// stands at `pointer` may leave the builder as `after` while reporting
    /// `notes`. An unknown key is reported in lower case at `pointer`.
    pub open spec fn builds_lowered(
        self,
        lower: Seq<char>,
        value: &YamlNode,
        pointer: DocumentPointer,
        after: Self,
        notes: Seq<AnnotationView>,
    ) -> bool {
        if lower == "fail-fast"@ {
            &&& notes.len() == 0
            &&& after.strategy == (Strategy { fail_fast: after.strategy.fail_fast, ..self.strategy })
            &&& bool_field(value, after.strategy.fail_fast)
        } else if lower == "max-parallel"@ {
            &&& notes.len() == 0
            &&& after.strategy == (Strategy {
                max_parallel: after.strategy.max_parallel,
                ..self.strategy
            })
            &&& number_field(value, after.strategy.max_parallel)
        } else if lower == "matrix"@ {
            &&& after.strategy == (Strategy { matrix: after.strategy.matrix, ..self.strategy })
            &&& after.strategy.matrix matches Some(node)
            &&& node.location == value.pointer()
            &&& matrix_parsed(value, node.kind, notes)
        } else {
            after == self && notes == seq![unexpected_key_note(lower, pointer)]
        }
    }

    /// Takes in one field of a strategy whose key, in lower case, is `lower`
    /// and stands at `pointer`.
    pub fn build_lowered<P: AsDocumentPointer>(
        &mut self,
        lower: &str,
        value: &YamlNode,
        pointer: &P,
        annotations: &mut Annotations,
    )
        ensures
            old(annotations)@.is_prefix_of(final(annotations)@),
            old(self).builds_lowered(
                lower@,
                value,
                pointer.pointer(),
                *final(self),
                added_since(old(annotations)@, final(annotations)@),
            ),
    {
        if same_text(lower, "fail-fast") {
            self.strategy.fail_fast = parse_bool(value, annotations);
            assert(annotations@.skip(old(annotations)@.len() as int) =~= Seq::empty());
        } else if same_text(lower, "max-parallel") {
            self.strategy.max_parallel = parse_number(value, annotations);
            assert(annotations@.skip(old(annotations)@.len() as int) =~= Seq::empty());
        } else if same_text(lower, "matrix") {
            self.strategy.matrix = Some(MatrixParser.parse_node(value, annotations).at(value));
        } else {
            annotations.add(UnexpectedKey::from(lower).at(pointer));
            assert(annotations@.skip(old(annotations)@.len() as int) =~= seq![
                unexpected_key_note(lower@, pointer.pointer()),
            ]);
        }
    }
}

impl Builder<Strategy> for StrategyBuilder {
    /// The key is compared in lower case.
    open spec fn builds(
        self,
        key: Seq<char>,
        value: &YamlNode,
        pointer: DocumentPointer,
        after: Self,
        notes: Seq<AnnotationView>,
    ) -> bool {
        self.builds_lowered(lowercased(key), value, pointer, after, notes)
    }

    fn build<P: AsDocumentPointer>(
        &mut self,
        key: &str,
        value: &YamlNode,
        pointer: &P,
        annotations: &mut Annotations,
    ) {
        let lower = lowercase(key);
        self.build_lowered(lower.as_str(), value, pointer, annotations);
    }

    open spec fn built(self) -> Strategy {
        self.strategy
    }

    fn finish(self) -> (built: Strategy) {
        self.strategy
    }
}

/// Whether `kind` with `notes` is what a strategy may be read as from `root`.
pub open spec fn strategy_parsed(
    root: &YamlNode,
    kind: PossumNodeKind<Strategy>,
    notes: Seq<AnnotationView>,
) -> bool {
    object_parsed(StrategyBuilder { strategy: Strategy::blank() }, root, kind, notes)
}

/// Reads a strategy.
pub struct StrategyParser;

impl Parser<Strategy> for StrategyParser {
    open spec fn ready(&self) -> bool {
        true
    }

    open spec fn parses(
        &self,
        root: &YamlNode,
        kind: PossumNodeKind<Strategy>,
        notes: Seq<AnnotationView>,
    ) -> bool {
        strategy_parsed(root, kind, notes)
    }

    fn parse_node(&self, root: &YamlNode, annotations: &mut Annotations) -> (kind: PossumNodeKind<
        Strategy,
    >) {
        let fresh = || -> (builder: StrategyBuilder)
            ensures
                builder.strategy == Strategy::blank(),
            { StrategyBuilder::default() };
        let parser = ObjectParser::new(fresh);
        proof {
            parser.lemma_object(root, PossumNodeKind::Empty, Seq::empty());
        }
        let kind = parser.parse_node(root, annotations);
        proof {
            parser.lemma_object(root, kind, annotations@.skip(old(annotations)@.len() as int));
        }
        kind
    }
}

} // verus!
