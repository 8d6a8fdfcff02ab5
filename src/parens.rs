use vstd::prelude::*;

use crate::ast::{Argument, CallKind, Construct, Expression, Literal, bounded_construct};
use crate::document::{Document, LineKind};
use crate::operator::{
    Associativity, BinaryOperator, PIPE_PRECEDENCE, UnaryPrefixOperator, arithmetic,
    associativity_of, bit_shift, bitwise, cast, comparison, flattens, logical, low_precedence,
    precedence_of, should_flatten,
};
use crate::state::{
    FormatterState, PhpVersion, Position, Settings, Side, new_without_parentheses, position_at,
};

verus! {

/// Positions inside a unary, binary or ternary operation (a pipe counts as
/// binary).
pub open spec fn operand_position(p: Position) -> bool {
    p is UnaryOperand || p is BinaryOperand || p is ConditionalOperand || p is PipeOperand
}

/// Whether a binary operation `op` standing as the operand on `side` of a
/// binary operation `parent` is wrapped. A right operand as tightly bound as
/// its left-grouping parent is wrapped, or it would regroup; only `??` under
/// `??` and `.` under `.` chain bare.
pub open spec fn binary_under_binary(op: BinaryOperator, parent: BinaryOperator, side: Side) -> bool {
    if low_precedence(op) {
        true
    } else if parent == BinaryOperator::NullCoalesce {
        op != BinaryOperator::NullCoalesce
    } else if op == BinaryOperator::NullCoalesce {
        true
    } else if parent == BinaryOperator::Instanceof || parent == BinaryOperator::Elvis {
        true
    } else if parent == BinaryOperator::StringConcat {
        op != BinaryOperator::StringConcat
    } else if side == Side::Right && precedence_of(op) == precedence_of(parent)
        && associativity_of(parent) != Associativity::Right {
        true
    } else if bit_shift(op) {
        true
    } else if comparison(parent) {
        true
    } else if bitwise(parent) {
        op != parent
    } else if comparison(op) {
        !logical(parent)
    } else if precedence_of(parent) > precedence_of(op) {
        true
    } else if precedence_of(parent) < precedence_of(op) {
        false
    } else if arithmetic(op) && arithmetic(parent) && op != parent {
        true
    } else {
        !flattens(op, parent)
    }
}

/// Whether a binary operation `op` standing at `here`, inside a node standing
/// at `above`, is wrapped.
pub open spec fn binary_wrapped(op: BinaryOperator, here: Option<Position>, above: Option<Position>) -> bool {
    match here {
        Some(Position::VariadicElement) => true,
        Some(Position::BinaryOperand(parent, side)) => binary_under_binary(op, parent, side),
        Some(Position::PipeOperand) => precedence_of(op) <= PIPE_PRECEDENCE,
        Some(Position::ArrowFunctionBody) => above == Some(Position::PipeOperand),
        Some(Position::UnaryOperand) => true,
        Some(Position::ConditionalOperand(_)) => !((logical(op) && !low_precedence(op)) || comparison(
            op,
        )),
        Some(Position::ArrayAppendBase) => true,
        Some(Position::ArrayAccessBase) => true,
        Some(Position::AssignmentOperand) => low_precedence(op),
        Some(Position::AccessObject) => true,
        _ => false,
    }
}

/// A callee that delimits itself needs no parentheses before `(`, `->`, `::`
/// or `[`; with `instantiation`, a call as the class of `new` is wrapped too.
pub open spec fn callee_wrapped(e: Expression, instantiation: bool) -> bool {
    if instantiation && e is Call {
        true
    } else if e is Construct {
        !bounded_construct(e->Construct_0)
    } else {
        !(e is Literal || e is Array || e is LegacyArray || e is ArrayAccess || e is Variable
            || e is Identifier || e is ConstantAccess || e is Call || e is Access
            || e is ClosureCreation || e is Static || e is Self_ || e is Parent)
    }
}

/// As `callee_wrapped`, for the callee of a plain function call.
pub open spec fn function_callee_wrapped(e: Expression) -> bool {
    !(e is Literal || e is Array || e is LegacyArray || e is ArrayAccess || e is Variable
        || e is Identifier || e is Construct || e is Call || e is ClosureCreation || e is Static
        || e is Self_ || e is Parent)
}

/// Whether `new` with these arguments is wrapped before a member access.
pub open spec fn instantiation_wrapped(
    arguments: Option<Vec<Argument>>,
    settings: Settings,
    version: PhpVersion,
) -> bool {
    if new_without_parentheses(version) {
        if arguments is None || arguments->0@.len() == 0 {
            if settings.parentheses_in_new_expression {
                settings.parentheses_around_new_in_member_access
            } else {
                true
            }
        } else {
            settings.parentheses_around_new_in_member_access
        }
    } else {
        true
    }
}

pub open spec fn called_or_accessed_wrapped(
    e: Expression,
    here: Option<Position>,
    settings: Settings,
    version: PhpVersion,
) -> bool {
    match here {
        Some(Position::ClosureCreationTarget(k)) => if k == CallKind::Function {
            function_callee_wrapped(e)
        } else {
            callee_wrapped(e, false)
        },
        Some(Position::CallCallee(k)) => if k == CallKind::Function {
            function_callee_wrapped(e)
        } else if e is Instantiation {
            instantiation_wrapped(e->Instantiation_1, settings, version)
        } else {
            callee_wrapped(e, false)
        },
        Some(Position::InstantiationClass) => callee_wrapped(e, true),
        Some(Position::ArrayAccessBase) => callee_wrapped(e, false),
        Some(Position::AccessObject) => callee_wrapped(e, false),
        _ => false,
    }
}

pub open spec fn unary_prefix_wrapped(op: UnaryPrefixOperator, here: Option<Position>) -> bool {
    if op == UnaryPrefixOperator::ErrorControl {
        here matches Some(Position::BinaryOperand(_, side)) && side == Side::Left
    } else if cast(op) {
        here matches Some(p) && operand_position(p)
    } else {
        false
    }
}

pub open spec fn conditional_or_assignment_wrapped(
    e: Expression,
    here: Option<Position>,
    above: Option<Position>,
) -> bool {
    (e is Assignment || e is Conditional) && match here {
        None => false,
        Some(Position::ArrowFunctionBody) => above == Some(Position::PipeOperand),
        Some(p) => operand_position(p) || p == Position::VariadicElement,
    }
}

pub open spec fn literal_wrapped(e: Expression, here: Option<Position>) -> bool {
    (e matches Expression::Literal(l) && (l is Integer || l is Float)) && (here matches Some(
        Position::BinaryOperand(op, _),
    ) && op == BinaryOperator::StringConcat)
}

pub open spec fn pipe_wrapped(e: Expression, here: Option<Position>) -> bool {
    e is Pipe && match here {
        Some(Position::BinaryOperand(op, _)) => precedence_of(op) >= PIPE_PRECEDENCE,
        Some(Position::UnaryOperand) => true,
        Some(Position::VariadicElement) => true,
        Some(Position::ArrayAppendBase) => true,
        Some(Position::ConditionalOperand(_)) => true,
        _ => false,
    }
}

/// Whether the expression `e`, standing at the innermost of the positions
/// `s`, gets parentheses of its own.
pub open spec fn wrapped(e: Expression, s: Seq<Position>, settings: Settings, version: PhpVersion) -> bool {
    let here = position_at(s, 0);
    let above = position_at(s, 1);
    ||| called_or_accessed_wrapped(e, here, settings, version)
    ||| (e matches Expression::Binary(_, op, _) && binary_wrapped(op, here, above))
    ||| (e matches Expression::UnaryPrefix(op, _) && unary_prefix_wrapped(op, here))
    ||| conditional_or_assignment_wrapped(e, here, above)
    ||| literal_wrapped(e, here)
    ||| pipe_wrapped(e, here)
}

/// Unary, binary (a pipe or `?:` included) and ternary operations, whose
/// synthesized parentheses get an indented block of their own.
pub open spec fn operation(e: Expression) -> bool {
    e is UnaryPrefix || e is UnaryPostfix || e is Binary || e is Conditional || e is Pipe
}

pub open spec fn text_is(d: Document, s: Seq<char>) -> bool {
    d matches Document::Text(t) && t@ == s
}

/// The line or space that stands just inside synthesized parentheses.
pub open spec fn inner_break(d: Document, spaced: bool, indented: bool) -> bool {
    if indented {
        d == Document::Line(if spaced {
            LineKind::Default
        } else {
            LineKind::Soft
        })
    } else {
        text_is(d, if spaced {
            seq![' ']
        } else {
            Seq::empty()
        })
    }
}

/// `r` is `inner` in a group of parentheses: with `indented`, the inner
/// document sits in an indented block after a (soft or spaced) line break
/// and the closing parenthesis follows another; otherwise all stays on one
/// line, with a space inside each parenthesis when `spaced`.
pub open spec fn parenthesized(r: Document, inner: Document, indented: bool, spaced: bool) -> bool {
    r matches Document::Group(v, b, id) && !b && id is None && if indented {
        &&& v@.len() == 4
        &&& text_is(v@[0], seq!['('])
        &&& v@[1] matches Document::Indent(w) && w@.len() == 2 && inner_break(w@[0], spaced, true)
            && w@[1] == inner
        &&& inner_break(v@[2], spaced, true)
        &&& text_is(v@[3], seq![')'])
    } else {
        &&& v@.len() == 5
        &&& text_is(v@[0], seq!['('])
        &&& inner_break(v@[1], spaced, false)
        &&& v@[2] == inner
        &&& inner_break(v@[3], spaced, false)
        &&& text_is(v@[4], seq![')'])
    }
}

fn text_of(s: &str) -> (r: Document)
    ensures
        text_is(r, s@),
{
    Document::text(s)
}

/// Puts `document` in parentheses: in an indented block with line breaks
/// inside the parentheses when `indented`, on one line otherwise; with a
/// space inside each parenthesis when `spaced`.
pub fn parenthesize(document: Document, indented: bool, spaced: bool) -> (r: Document)
    ensures
        parenthesized(r, document, indented, spaced),
{
    proof {
        reveal_strlit("(");
        reveal_strlit(")");
        reveal_strlit(" ");
        reveal_strlit("");
        assert("("@ =~= seq!['(']);
        assert(")"@ =~= seq![')']);
        assert(" "@ =~= seq![' ']);
        assert(""@ =~= Seq::<char>::empty());
    }
    if indented {
        let line = if spaced {
            LineKind::Default
        } else {
            LineKind::Soft
        };
        let mut inner: Vec<Document> = Vec::new();
        inner.push(Document::Line(line));
        inner.push(document);
        let mut parts: Vec<Document> = Vec::new();
        parts.push(text_of("("));
        parts.push(Document::Indent(inner));
        parts.push(Document::Line(line));
        parts.push(text_of(")"));
        Document::Group(parts, false, None)
    } else {
        let mut parts: Vec<Document> = Vec::new();
        parts.push(text_of("("));
        parts.push(if spaced {
            text_of(" ")
        } else {
            text_of("")
        });
        parts.push(document);
        parts.push(if spaced {
            text_of(" ")
        } else {
            text_of("")
        });
        parts.push(text_of(")"));
        Document::Group(parts, false, None)
    }
}

/// An expression standing inside parentheses never gets parentheses of its
/// own: once a synthesized pair is read back as source parentheses, the
/// resolver adds none inside it.
pub proof fn lemma_no_parens_inside_parens(
    e: Expression,
    s: Seq<Position>,
    settings: Settings,
    version: PhpVersion,
)
    ensures
        !wrapped(e, s.push(Position::Parenthesized), settings, version),
{
    let t = s.push(Position::Parenthesized);
    assert(position_at(t, 0) == Some(Position::Parenthesized));
}

impl FormatterState {
    /// Wraps the document of `node` in parentheses where the node needs them
    /// in its position.
    pub fn wrap_parens(&self, document: Document, node: &Expression) -> (r: Document)
        ensures
            !wrapped(*node, self.positions@, self.settings, self.php_version) ==> r == document,
            wrapped(*node, self.positions@, self.settings, self.php_version) ==> parenthesized(
                r,
                document,
                operation(*node),
                self.settings.space_within_grouping_parenthesis,
            ),
    {
        if self.need_parens(node) {
            let indented = self.should_indent(node);
            parenthesize(document, indented, self.settings.space_within_grouping_parenthesis)
        } else {
            document
        }
    }

    pub fn should_indent(&self, node: &Expression) -> (r: bool)
        ensures
            r == operation(*node),
    {
        matches!(
            node,
            Expression::UnaryPrefix(..) | Expression::UnaryPostfix(..) | Expression::Binary(..)
                | Expression::Conditional(..) | Expression::Pipe(..)
        )
    }

    /// Whether `node`, standing at the innermost position, needs parentheses
    /// of its own to keep its meaning or to stay legible.
    pub fn need_parens(&self, node: &Expression) -> (r: bool)
        ensures
            r == wrapped(*node, self.positions@, self.settings, self.php_version),
    {
        self.called_or_accessed_node_needs_parenthesis(node) || self.binary_node_needs_parens(node)
            || self.unary_prefix_node_needs_parens(node)
            || self.conditional_or_assignment_needs_parenthesis(node) || self.literal_needs_parens(
            node,
        ) || self.pipe_node_needs_parens(node)
    }

    pub fn literal_needs_parens(&self, node: &Expression) -> (r: bool)
        ensures
            r == literal_wrapped(*node, position_at(self.positions@, 0)),
    {
        match node {
            Expression::Literal(Literal::Integer(_)) | Expression::Literal(Literal::Float(_)) => {
                match self.position(0) {
                    Some(Position::BinaryOperand(op, _)) => op == BinaryOperator::StringConcat,
                    _ => false,
                }
            },
            _ => false,
        }
    }

    pub fn conditional_or_assignment_needs_parenthesis(&self, node: &Expression) -> (r: bool)
        ensures
            r == conditional_or_assignment_wrapped(
                *node,
                position_at(self.positions@, 0),
                position_at(self.positions@, 1),
            ),
    {
        if !matches!(node, Expression::Assignment(..) | Expression::Conditional(..)) {
            return false;
        }
        match self.position(0) {
            None => false,
            Some(Position::ArrowFunctionBody) => self.position(1) == Some(Position::PipeOperand),
            Some(p) => is_operand_position(p) || p == Position::VariadicElement,
        }
    }

    pub fn pipe_node_needs_parens(&self, node: &Expression) -> (r: bool)
        ensures
            r == pipe_wrapped(*node, position_at(self.positions@, 0)),
    {
        if !matches!(node, Expression::Pipe(..)) {
            return false;
        }
        match self.position(0) {
            Some(Position::BinaryOperand(op, _)) => op.precedence() >= PIPE_PRECEDENCE,
            Some(Position::UnaryOperand) => true,
            Some(Position::VariadicElement) => true,
            Some(Position::ArrayAppendBase) => true,
            Some(Position::ConditionalOperand(_)) => true,
            _ => false,
        }
    }

    pub fn binary_node_needs_parens(&self, node: &Expression) -> (r: bool)
        ensures
            r == (*node matches Expression::Binary(_, op, _) && binary_wrapped(
                op,
                position_at(self.positions@, 0),
                position_at(self.positions@, 1),
            )),
    {
        let operator = match node {
            Expression::Binary(_, op, _) => *op,
            _ => {
                return false;
            },
        };
        match self.position(0) {
            Some(Position::VariadicElement) => true,
            Some(Position::BinaryOperand(parent, side)) => binary_operand_needs_parens(
                &operator,
                &parent,
                side,
            ),
            Some(Position::PipeOperand) => operator.precedence() <= PIPE_PRECEDENCE,
            Some(Position::ArrowFunctionBody) => self.position(1) == Some(Position::PipeOperand),
            Some(Position::UnaryOperand) => true,
            Some(Position::ConditionalOperand(_)) => !((operator.is_logical()
                && !operator.is_low_precedence()) || operator.is_comparison()),
            Some(Position::ArrayAppendBase) => true,
            Some(Position::ArrayAccessBase) => true,
            Some(Position::AssignmentOperand) => operator.is_low_precedence(),
            Some(Position::AccessObject) => true,
            _ => false,
        }
    }

    pub fn unary_prefix_node_needs_parens(&self, node: &Expression) -> (r: bool)
        ensures
            r == (*node matches Expression::UnaryPrefix(op, _) && unary_prefix_wrapped(
                op,
                position_at(self.positions@, 0),
            )),
    {
        let operator = match node {
            Expression::UnaryPrefix(op, _) => *op,
            _ => {
                return false;
            },
        };
        if operator.is_error_control() {
            return match self.position(0) {
                Some(Position::BinaryOperand(_, side)) => side == Side::Left,
                _ => false,
            };
        }
        if operator.is_cast() {
            return match self.position(0) {
                Some(p) => is_operand_position(p),
                None => false,
            };
        }
        false
    }

    pub fn called_or_accessed_node_needs_parenthesis(&self, node: &Expression) -> (r: bool)
        ensures
            r == called_or_accessed_wrapped(
                *node,
                position_at(self.positions@, 0),
                self.settings,
                self.php_version,
            ),
    {
        match self.position(0) {
            Some(Position::ClosureCreationTarget(k)) => {
                if k == CallKind::Function {
                    function_callee_expression_need_parenthesis(node)
                } else {
                    callee_expression_need_parenthesis(node, false)
                }
            },
            Some(Position::CallCallee(k)) => {
                if k == CallKind::Function {
                    function_callee_expression_need_parenthesis(node)
                } else if let Expression::Instantiation(_, arguments) = node {
                    instantiation_needs_parens(self, arguments)
                } else {
                    callee_expression_need_parenthesis(node, false)
                }
            },
            Some(Position::InstantiationClass) => callee_expression_need_parenthesis(node, true),
            Some(Position::ArrayAccessBase) => callee_expression_need_parenthesis(node, false),
            Some(Position::AccessObject) => callee_expression_need_parenthesis(node, false),
            _ => false,
        }
    }
}

pub fn is_operand_position(p: Position) -> (r: bool)
    ensures
        r == operand_position(p),
{
    matches!(
        p,
        Position::UnaryOperand | Position::BinaryOperand(..) | Position::ConditionalOperand(_)
            | Position::PipeOperand
    )
}

/// The table for a binary operation `op` under a binary operation `parent`.
pub fn binary_operand_needs_parens(op: &BinaryOperator, parent: &BinaryOperator, side: Side) -> (r:
    bool)
    ensures
        r == binary_under_binary(*op, *parent, side),
{
    if op.is_low_precedence() {
        return true;
    }
    if *parent == BinaryOperator::NullCoalesce {
        return *op != BinaryOperator::NullCoalesce;
    }
    if *op == BinaryOperator::NullCoalesce {
        return true;
    }
    if *parent == BinaryOperator::Instanceof || *parent == BinaryOperator::Elvis {
        return true;
    }
    if *parent == BinaryOperator::StringConcat {
        return *op != BinaryOperator::StringConcat;
    }
    if side == Side::Right && op.precedence() == parent.precedence() && parent.associativity()
        != Associativity::Right {
        return true;
    }
    if op.is_bit_shift() {
        return true;
    }
    if parent.is_comparison() {
        return true;
    }
    if parent.is_bitwise() {
        return !op.is_same_as(parent);
    }
    if op.is_comparison() {
        return !parent.is_logical();
    }
    let precedence = op.precedence();
    let parent_precedence = parent.precedence();
    if parent_precedence > precedence {
        return true;
    }
    if parent_precedence < precedence {
        return false;
    }
    if op.is_arithmetic() && parent.is_arithmetic() && !op.is_same_as(parent) {
        return true;
    }
    !should_flatten(op, parent)
}

pub fn callee_expression_need_parenthesis(expression: &Expression, instantiation: bool) -> (r: bool)
    ensures
        r == callee_wrapped(*expression, instantiation),
{
    if instantiation && matches!(expression, Expression::Call(..)) {
        return true;
    }
    if let Expression::Construct(construct) = expression {
        return !construct.has_bounds();
    }
    !matches!(
        expression,
        Expression::Literal(_) | Expression::Array(_) | Expression::LegacyArray(_)
            | Expression::ArrayAccess(..) | Expression::Variable(_) | Expression::Identifier(_)
            | Expression::ConstantAccess(_) | Expression::Call(..) | Expression::Access(..)
            | Expression::ClosureCreation(..) | Expression::Static | Expression::Self_
            | Expression::Parent
    )
}

pub fn function_callee_expression_need_parenthesis(expression: &Expression) -> (r: bool)
    ensures
        r == function_callee_wrapped(*expression),
{
    !matches!(
        expression,
        Expression::Literal(_) | Expression::Array(_) | Expression::LegacyArray(_)
            | Expression::ArrayAccess(..) | Expression::Variable(_) | Expression::Identifier(_)
            | Expression::Construct(_) | Expression::Call(..) | Expression::ClosureCreation(..)
            | Expression::Static | Expression::Self_ | Expression::Parent
    )
}

/// Whether `new` with these arguments, as the object of a method call, gets
/// parentheses: always before PHP 8.4; from then on as the two settings say.
pub fn instantiation_needs_parens(f: &FormatterState, arguments: &Option<Vec<Argument>>) -> (r: bool)
    ensures
        r == instantiation_wrapped(*arguments, f.settings, f.php_version),
{
    if f.php_version.supports_new_without_parentheses() {
        let no_arguments = match arguments {
            None => true,
            Some(list) => list.len() == 0,
        };
        if no_arguments {
            if f.settings.parentheses_in_new_expression {
                f.settings.parentheses_around_new_in_member_access
            } else {
                true
            }
        } else {
            f.settings.parentheses_around_new_in_member_access
        }
    } else {
        true
    }
}

/// Grouping as a precedence parser reads `x child y parent z` (or
/// `x parent y child z` for the right side): the child binds tighter, or
/// equally tightly on the side its parent's associativity groups first.
pub open spec fn binds_as_written(child: BinaryOperator, parent: BinaryOperator, side: Side) -> bool {
    precedence_of(child) > precedence_of(parent) || (precedence_of(child) == precedence_of(parent)
        && associativity_of(parent) == if side == Side::Left {
        Associativity::Left
    } else {
        Associativity::Right
    })
}

/// A binary operation left without parentheses as an operand of another
/// binary operation is read back with the grouping of the tree. Left out are
/// the two chains that print bare by rule although a parser regroups them:
/// `(a ?? b) ?? c` and `a . (b . c)`.
pub proof fn lemma_binary_grouping_preserved(child: BinaryOperator, parent: BinaryOperator, side: Side)
    requires
        !(side == Side::Left && child == BinaryOperator::NullCoalesce && parent
            == BinaryOperator::NullCoalesce),
        !(side == Side::Right && child == BinaryOperator::StringConcat && parent
            == BinaryOperator::StringConcat),
    ensures
        !binary_under_binary(child, parent, side) ==> binds_as_written(child, parent, side),
{
}

} // verus!
