use vstd::prelude::*;

use crate::ast::{
    AccessKind, Argument, ArrayElement, CallKind, Construct, Expression, Literal, MatchArm,
    Statement, UnaryPostfixOperator,
};
use crate::document::{Document, LineKind, is_space, list2, list3, list4, list5};
use crate::hug::{huggable, should_hug_expression};
use crate::layout::layout;
use crate::misc::{ClauseContext, adjust_clause, adjusted_clause, condition_shape, print_condition};
use crate::operator::{BinaryOperator, binary_text, prefix_text};
use crate::parens::{operation, parenthesize, parenthesized, text_is, wrapped};
use crate::printer::print_document;
use crate::state::{FormatterState, PhpVersion, Position, Settings, Side};

verus! {

fn txt(s: &str) -> (r: Document)
    ensures
        text_is(r, s@),
{
    Document::text(s)
}

fn owned(s: &String) -> (r: Document)
    ensures
        text_is(r, s@),
{
    Document::Text(s.clone())
}

fn variable(name: &String) -> (r: Document)
    ensures
        r matches Document::Concat(w) && w@.len() == 2 && text_is(w@[0], "$"@) && text_is(w@[1], name@),
{
    Document::Concat(list2(txt("$"), owned(name)))
}

/// The parts with `,` and a line between each two of them.
fn comma_separated(parts: Vec<Document>) -> Vec<Document> {
    let mut rest = parts;
    let mut r: Vec<Document> = Vec::new();
    let mut first = true;
    while rest.len() > 0
        decreases rest@.len(),
    {
        let d = rest.remove(0);
        if !first {
            r.push(txt(","));
            r.push(Document::Line(LineKind::Default));
        }
        r.push(d);
        first = false;
    }
    r
}

/// A bracketed list: flat on one line, or one item per line, indented.
fn bracketed(open: &str, items: Vec<Document>, close: &str) -> (r: Document)
    ensures
        items@.len() == 0 ==> (r matches Document::Concat(w) && w@.len() == 2 && text_is(w@[0], open@)
            && text_is(w@[1], close@)),
        items@.len() > 0 ==> (r matches Document::Group(w, b, id) && !b && id is None && w@.len()
            == 4 && text_is(w@[0], open@) && w@[1] is Indent && w@[2] == Document::Line(LineKind::Soft)
            && text_is(w@[3], close@)),
{
    let mut parts: Vec<Document> = Vec::new();
    parts.push(txt(open));
    if items.len() == 0 {
        parts.push(txt(close));
        return Document::Concat(parts);
    }
    let mut inner: Vec<Document> = Vec::new();
    inner.push(Document::Line(LineKind::Soft));
    let mut listed = comma_separated(items);
    inner.append(&mut listed);
    parts.push(Document::Indent(inner));
    parts.push(Document::Line(LineKind::Soft));
    parts.push(txt(close));
    Document::Group(parts, false, None)
}

/// The statements one per line.
pub fn print_statement_sequence(f: &mut FormatterState, statements: &Vec<Statement>) -> (r: Vec<
    Document,
>)
    ensures
        final(f).positions@ == old(f).positions@,
        final(f).settings == old(f).settings,
        final(f).php_version == old(f).php_version,
        statements@.len() == 0 ==> r@.len() == 0,
        statements@.len() > 0 ==> r@.len() == 2 * statements@.len() - 1,
        forall|i: int| 0 <= i < statements@.len() - 1 ==> #[trigger] r@[2 * i + 1] == Document::Line(
            LineKind::Hard,
        ),
        forall|i: int|
            0 <= i < statements@.len() ==> statement_shape(#[trigger] r@[2 * i], statements@[i], old(f).settings),
    decreases statements, 0nat,
{
    let mut r: Vec<Document> = Vec::new();
    let mut i: usize = 0;
    while i < statements.len()
        invariant
            i <= statements@.len(),
            f.positions@ == old(f).positions@,
            f.settings == old(f).settings,
            f.php_version == old(f).php_version,
            i == 0 ==> r@.len() == 0,
            i > 0 ==> r@.len() == 2 * i - 1,
            forall|j: int| 0 <= j < i - 1 ==> #[trigger] r@[2 * j + 1] == Document::Line(
                LineKind::Hard,
            ),
            forall|j: int| 0 <= j < i ==> statement_shape(#[trigger] r@[2 * j], statements@[j], old(f).settings),
        decreases statements@.len() - i,
    {
        if i > 0 {
            r.push(Document::Line(LineKind::Hard));
        }
        proof {
            assert(decreases_to!(statements => statements@[i as int]));
        }
        let d = format_statement(f, &statements[i]);
        r.push(d);
        i = i + 1;
    }
    r
}

/// The document of a statement: `;`-terminated expression and `return`
/// statements; `echo` and its list in a group; a block with its statements
/// indented on their own lines; `if` and `do ... while` with the condition
/// in its parentheses and the body placed by `adjusted_clause`; the bare
/// tokens of `;` and the PHP tags.
pub open spec fn statement_shape(d: Document, s: Statement, settings: Settings) -> bool {
    let spaced = settings.space_within_grouping_parenthesis;
    match s {
        Statement::Expression(_) => d matches Document::Concat(v) && v@.len() == 2 && text_is(
            v@[1],
            ";"@,
        ),
        Statement::Return(value) => match value {
            None => text_is(d, "return;"@),
            Some(_) => d matches Document::Concat(v) && v@.len() == 3 && text_is(v@[0], "return "@)
                && text_is(v@[2], ";"@),
        },
        Statement::Echo(_) => d matches Document::Group(v, b, id) && !b && id is None && v@.len()
            >= 2 && text_is(v@[0], "echo "@) && text_is(v@.last(), ";"@),
        Statement::Block(statements) => if statements@.len() == 0 {
            text_is(d, "{}"@)
        } else {
            d matches Document::Concat(v) && v@.len() == 4 && text_is(v@[0], "{"@) && (v@[1] matches Document::Indent(
                w,
            ) && w@.len() == 2 * statements@.len() && w@[0] == Document::Line(LineKind::Hard))
                && v@[2] == Document::Line(LineKind::Hard) && text_is(v@[3], "}"@)
        },
        Statement::If(_, body) => d matches Document::Concat(v) && v@.len() == 3 && text_is(
            v@[0],
            "if"@,
        ) && (exists|c: Document| condition_shape(v@[1], c, true, spaced)) && (exists|clause: Document|
            adjusted_clause(v@[2], settings, ClauseContext::Other, *body, clause, false)),
        Statement::DoWhile(body, _) => d matches Document::Concat(v) && v@.len() == 5 && text_is(
            v@[0],
            "do"@,
        ) && (exists|clause: Document|
            adjusted_clause(v@[1], settings, ClauseContext::DoWhile, *body, clause, false))
            && text_is(v@[2], "while"@) && (exists|c: Document| condition_shape(v@[3], c, true, spaced))
            && text_is(v@[4], ";"@),
        Statement::Noop => text_is(d, ";"@),
        Statement::OpeningTag => text_is(d, "<?php"@),
        Statement::ClosingTag => text_is(d, "?>"@),
    }
}

/// Lowers a statement.
pub fn format_statement(f: &mut FormatterState, s: &Statement) -> (r: Document)
    ensures
        final(f).positions@ == old(f).positions@,
        final(f).settings == old(f).settings,
        final(f).php_version == old(f).php_version,
        statement_shape(r, *s, old(f).settings),
        *s is Expression ==> (r matches Document::Concat(v) && expression_shape(
            v@[0],
            s->Expression_0,
            old(f).positions@.push(Position::Statement),
            old(f).settings,
            old(f).php_version,
        )),
        (*s matches Statement::Return(value) && value is Some) ==> (r matches Document::Concat(v)
            && expression_shape(
            v@[1],
            s->Return_0->0,
            old(f).positions@.push(Position::Statement),
            old(f).settings,
            old(f).php_version,
        )),
    decreases s, 2nat,
{
    match s {
        Statement::Expression(e) => {
            let d = child(f, e, Position::Statement);
            Document::Concat(list2(d, txt(";")))
        },
        Statement::Return(value) => match value {
            Some(e) => {
                let d = child(f, e, Position::Statement);
                Document::Concat(list3(txt("return "), d, txt(";")))
            },
            None => txt("return;"),
        },
        Statement::Echo(values) => {
            let items = format_expressions(f, values, Position::Argument);
            let mut parts: Vec<Document> = Vec::new();
            parts.push(txt("echo "));
            let mut listed = comma_separated(items);
            parts.append(&mut listed);
            parts.push(txt(";"));
            Document::Group(parts, false, None)
        },
        Statement::Block(statements) => {
            if statements.len() == 0 {
                txt("{}")
            } else {
                let mut inner: Vec<Document> = Vec::new();
                inner.push(Document::Line(LineKind::Hard));
                let mut printed = print_statement_sequence(f, statements);
                inner.append(&mut printed);
                Document::Concat(
                    list4(txt("{"), Document::Indent(inner), Document::Line(LineKind::Hard), txt("}")),
                )
            }
        },
        Statement::If(condition, body) => {
            let spaced = f.settings.space_within_grouping_parenthesis;
            let cond = print_condition(f, condition, true, spaced);
            let adjusted = print_clause(f, body, ClauseContext::Other, false);
            Document::Concat(list3(txt("if"), cond, adjusted))
        },
        Statement::DoWhile(body, condition) => {
            let adjusted = print_clause(f, body, ClauseContext::DoWhile, false);
            let spaced = f.settings.space_within_grouping_parenthesis;
            let cond = print_condition(f, condition, true, spaced);
            Document::Concat(list5(txt("do"), adjusted, txt("while"), cond, txt(";")))
        },
        Statement::Noop => txt(";"),
        Statement::OpeningTag => txt("<?php"),
        Statement::ClosingTag => txt("?>"),
    }
}

/// Lowers the body of a control statement and places it as `adjust_clause`
/// does.
pub fn print_clause(f: &mut FormatterState, node: &Statement, context: ClauseContext, force_space: bool) -> (r:
    Document)
    ensures
        final(f).positions@ == old(f).positions@,
        final(f).settings == old(f).settings,
        final(f).php_version == old(f).php_version,
        exists|clause: Document|
            adjusted_clause(r, old(f).settings, context, *node, clause, force_space) && statement_shape(
                clause,
                *node,
                old(f).settings,
            ),
    decreases node, 3nat,
{
    let clause = format_statement(f, node);
    adjust_clause(&f.settings, context, node, clause, force_space)
}

fn format_expressions(f: &mut FormatterState, values: &Vec<Expression>, p: Position) -> (r: Vec<
    Document,
>)
    ensures
        final(f).positions@ == old(f).positions@,
        final(f).settings == old(f).settings,
        final(f).php_version == old(f).php_version,
    decreases values, 0nat,
{
    let mut r: Vec<Document> = Vec::new();
    let mut i: usize = 0;
    while i < values.len()
        invariant
            i <= values@.len(),
            f.positions@ == old(f).positions@,
            f.settings == old(f).settings,
            f.php_version == old(f).php_version,
        decreases values@.len() - i,
    {
        proof {
            assert(decreases_to!(values => values@[i as int]));
        }
        let d = child(f, &values[i], p);
        r.push(d);
        i = i + 1;
    }
    r
}

fn format_argument(f: &mut FormatterState, a: &Argument) -> (r: Document)
    ensures
        final(f).positions@ == old(f).positions@,
        final(f).settings == old(f).settings,
        final(f).php_version == old(f).php_version,
    decreases a, 2nat,
{
    match a {
        Argument::Positional(ellipsis, v) => {
            let d = child(f, v, Position::Argument);
            if *ellipsis {
                Document::Concat(vec![txt("..."), d])
            } else {
                d
            }
        },
        Argument::Named(name, v) => {
            let d = child(f, v, Position::Argument);
            Document::Concat(vec![owned(name), txt(": "), d])
        },
    }
}

/// A single argument, positional and not spread, that can hug the parentheses.
pub open spec fn hugs(arguments: Seq<Argument>) -> bool {
    arguments.len() == 1 && (arguments[0] matches Argument::Positional(spread, v) && !spread
        && huggable(v, false))
}

/// `r` is an argument list: `()` for none; a single huggable argument right
/// against the parentheses; otherwise a group of the parenthesized list,
/// indented after a soft line, with a soft line before `)`.
pub open spec fn call_arguments_shape(r: Document, arguments: Seq<Argument>) -> bool {
    &&& hugs(arguments) ==> (r matches Document::Concat(w) && w@.len() == 3 && text_is(
        w@[0],
        seq!['('],
    ) && text_is(w@[2], seq![')']))
    &&& arguments.len() == 0 ==> text_is(r, seq!['(', ')'])
    &&& !hugs(arguments) && arguments.len() > 0 ==> (r matches Document::Group(w, b, id) && !b
        && id is None && w@.len() == 4 && text_is(w@[0], seq!['(']) && w@[1] is Indent && w@[2]
        == Document::Line(LineKind::Soft) && text_is(w@[3], seq![')']))
}

/// The argument list of a call: a single huggable argument sits right
/// against the parentheses; other lists print flat, or one per line.
pub fn print_call_arguments(f: &mut FormatterState, arguments: &Vec<Argument>) -> (r: Document)
    ensures
        final(f).positions@ == old(f).positions@,
        final(f).settings == old(f).settings,
        final(f).php_version == old(f).php_version,
        call_arguments_shape(r, arguments@),
    decreases arguments, 3nat,
{
    if arguments.len() == 0 {
        proof {
            reveal_strlit("()");
            assert("()"@ =~= seq!['(', ')']);
        }
        return txt("()");
    }
    proof {
        reveal_strlit("(");
        reveal_strlit(")");
        reveal_strlit("()");
        assert("("@ =~= seq!['(']);
        assert(")"@ =~= seq![')']);
        assert("()"@ =~= seq!['(', ')']);
    }
    if arguments.len() == 1 {
        if let Argument::Positional(false, v) = &arguments[0] {
            if should_hug_expression(v, false) {
                proof {
                    assert(decreases_to!(arguments => arguments@[0]));
                }
                let d = format_argument(f, &arguments[0]);
                return Document::Concat(vec![txt("("), d, txt(")")]);
            }
        }
    }
    let mut items: Vec<Document> = Vec::new();
    let mut i: usize = 0;
    while i < arguments.len()
        invariant
            i <= arguments@.len(),
            items@.len() == i,
            f.positions@ == old(f).positions@,
            f.settings == old(f).settings,
            f.php_version == old(f).php_version,
        decreases arguments@.len() - i,
    {
        proof {
            assert(decreases_to!(arguments => arguments@[i as int]));
        }
        let d = format_argument(f, &arguments[i]);
        items.push(d);
        i = i + 1;
    }
    bracketed("(", items, ")")
}

fn format_elements(f: &mut FormatterState, elements: &Vec<ArrayElement>) -> (r: Vec<Document>)
    ensures
        r@.len() == elements@.len(),
        final(f).positions@ == old(f).positions@,
        final(f).settings == old(f).settings,
        final(f).php_version == old(f).php_version,
    decreases elements, 3nat,
{
    let mut items: Vec<Document> = Vec::new();
    let mut i: usize = 0;
    while i < elements.len()
        invariant
            items@.len() == i,
            i <= elements@.len(),
            f.positions@ == old(f).positions@,
            f.settings == old(f).settings,
            f.php_version == old(f).php_version,
        decreases elements@.len() - i,
    {
        proof {
            assert(decreases_to!(elements => elements@[i as int]));
        }
        let d = match &elements[i] {
            ArrayElement::Value(v) => child(f, v, Position::ArrayElement),
            ArrayElement::KeyValue(k, v) => {
                let kd = child(f, k, Position::ArrayElement);
                let vd = child(f, v, Position::ArrayElement);
                Document::Concat(vec![kd, txt(" => "), vd])
            },
            ArrayElement::Variadic(v) => {
                let vd = child(f, v, Position::VariadicElement);
                Document::Concat(vec![txt("..."), vd])
            },
        };
        items.push(d);
        i = i + 1;
    }
    items
}

fn format_match_arms(f: &mut FormatterState, arms: &Vec<MatchArm>) -> (r: Vec<Document>)
    ensures
        final(f).positions@ == old(f).positions@,
        final(f).settings == old(f).settings,
        final(f).php_version == old(f).php_version,
    decreases arms, 3nat,
{
    let mut inner: Vec<Document> = Vec::new();
    let mut i: usize = 0;
    while i < arms.len()
        invariant
            i <= arms@.len(),
            f.positions@ == old(f).positions@,
            f.settings == old(f).settings,
            f.php_version == old(f).php_version,
        decreases arms@.len() - i,
    {
        proof {
            assert(decreases_to!(arms => arms@[i as int]));
        }
        let arm = &arms[i];
        let conditions = format_expressions(f, &arm.conditions, Position::Argument);
        let result = child(f, &arm.result, Position::Argument);
        inner.push(Document::Line(LineKind::Hard));
        let mut parts = comma_separated(conditions);
        parts.push(txt(" => "));
        parts.push(result);
        parts.push(txt(","));
        inner.push(Document::Concat(parts));
        i = i + 1;
    }
    inner
}

fn parameters(names: &Vec<String>) -> Document {
    let mut items: Vec<Document> = Vec::new();
    let mut i: usize = 0;
    while i < names.len()
        decreases names@.len() - i,
    {
        items.push(variable(&names[i]));
        i = i + 1;
    }
    let mut parts: Vec<Document> = vec![txt("(")];
    let mut k: usize = 0;
    let n = items.len();
    let mut rest = items;
    while k < n && rest.len() > 0
        decreases n - k,
    {
        if k > 0 {
            parts.push(txt(", "));
        }
        parts.push(rest.remove(0));
        k = k + 1;
    }
    parts.push(txt(")"));
    Document::Concat(parts)
}

/// What stands between the callee and the method name.
pub open spec fn member_text(kind: CallKind) -> Seq<char> {
    match kind {
        CallKind::Function => ""@,
        CallKind::Method => "->"@,
        CallKind::NullSafeMethod => "?->"@,
        CallKind::StaticMethod => "::"@,
    }
}

pub fn member(kind: CallKind) -> (r: &'static str)
    ensures
        r@ == member_text(kind),
{
    match kind {
        CallKind::Function => "",
        CallKind::Method => "->",
        CallKind::NullSafeMethod => "?->",
        CallKind::StaticMethod => "::",
    }
}

fn construct_arguments(f: &mut FormatterState, keyword: &str, arguments: &Option<Vec<Argument>>) -> (r:
    Document)
    ensures
        final(f).positions@ == old(f).positions@,
        final(f).settings == old(f).settings,
        final(f).php_version == old(f).php_version,
    decreases arguments, 4nat,
{
    match arguments {
        Some(a) => {
            let args = print_call_arguments(f, a);
            Document::Concat(vec![txt(keyword), args])
        },
        None => txt(keyword),
    }
}

fn format_construct(f: &mut FormatterState, c: &Construct) -> (r: Document)
    ensures
        final(f).positions@ == old(f).positions@,
        final(f).settings == old(f).settings,
        final(f).php_version == old(f).php_version,
    decreases c, 5nat,
{
    match c {
        Construct::Isset(i) => {
            let items = format_expressions(f, &i.values, Position::Argument);
            bracketed("isset(", items, ")")
        },
        Construct::Empty(e) => {
            let d = child(f, &e.value, Position::Argument);
            Document::Concat(vec![txt("empty("), d, txt(")")])
        },
        Construct::Eval(e) => {
            let d = child(f, &e.value, Position::Argument);
            Document::Concat(vec![txt("eval("), d, txt(")")])
        },
        Construct::Include(e) => {
            let d = child(f, &e.value, Position::Argument);
            Document::Concat(vec![txt("include "), d])
        },
        Construct::IncludeOnce(e) => {
            let d = child(f, &e.value, Position::Argument);
            Document::Concat(vec![txt("include_once "), d])
        },
        Construct::Require(e) => {
            let d = child(f, &e.value, Position::Argument);
            Document::Concat(vec![txt("require "), d])
        },
        Construct::RequireOnce(e) => {
            let d = child(f, &e.value, Position::Argument);
            Document::Concat(vec![txt("require_once "), d])
        },
        Construct::Print(e) => {
            let d = child(f, &e.value, Position::Argument);
            Document::Concat(vec![txt("print "), d])
        },
        Construct::Exit(e) => construct_arguments(f, "exit", &e.arguments),
        Construct::Die(e) => construct_arguments(f, "die", &e.arguments),
    }
}

/// The two operands with the operator after a space, the right operand
/// after a line and one level deeper when the group breaks.
pub open spec fn binary_shape(r: Document, op: BinaryOperator) -> bool {
    r matches Document::Group(v, b, id) && !b && id is None && v@.len() == 4 && is_space(v@[1])
        && text_is(v@[2], binary_text(op)) && (v@[3] matches Document::Indent(w) && w@.len() == 2
        && w@[0] == Document::Line(LineKind::Default))
}

fn binary_document(left: Document, op: &BinaryOperator, right: Document) -> (r: Document)
    ensures
        binary_shape(r, *op),
        r matches Document::Group(w, _, _) && w@[0] == left && (w@[3] matches Document::Indent(u) && u@[1]
            == right),
{
    let inner = list2(Document::Line(LineKind::Default), right);
    Document::Group(list4(left, Document::space(), txt(op.as_str()), Document::Indent(inner)), false, None)
}

/// What stands between an object or class and the member it accesses.
pub open spec fn access_text(kind: AccessKind) -> Seq<char> {
    match kind {
        AccessKind::Property => "->"@,
        AccessKind::NullSafeProperty => "?->"@,
        AccessKind::StaticProperty => "::"@,
        AccessKind::ClassConstant => "::"@,
    }
}

/// `d` is a bracketed list of `n` items, as `bracketed` builds it.
pub open spec fn bracketed_shape(d: Document, open: Seq<char>, close: Seq<char>, n: nat) -> bool {
    &&& n == 0 ==> (d matches Document::Concat(w) && w@.len() == 2 && text_is(w@[0], open) && text_is(
        w@[1],
        close,
    ))
    &&& n > 0 ==> (d matches Document::Group(w, b, id) && !b && id is None && w@.len() == 4 && text_is(
        w@[0],
        open,
    ) && w@[1] is Indent && w@[2] == Document::Line(LineKind::Soft) && text_is(w@[3], close))
}

/// The document an expression gets at the positions `s`: its own document
/// (see `own_shape`), in parentheses where the resolver asks for them.
/// Source parentheses keep the shape of synthesized ones; a commented
/// expression is a concatenation.
pub open spec fn expression_shape(
    r: Document,
    e: Expression,
    s: Seq<Position>,
    settings: Settings,
    version: PhpVersion,
) -> bool
    decreases e, 1nat,
{
    let spaced = settings.space_within_grouping_parenthesis;
    match e {
        Expression::Parenthesized(x) => parenthesized(r, within(r, operation(*x)), operation(*x), spaced)
            && expression_shape(within(r, operation(*x)), *x, s.push(Position::Parenthesized), settings, version),
        Expression::Commented(..) => r is Concat,
        _ => if wrapped(e, s, settings, version) {
            parenthesized(r, within(r, operation(e)), operation(e), spaced) && own_shape(
                within(r, operation(e)),
                e,
                s,
                settings,
                version,
            )
        } else {
            own_shape(r, e, s, settings, version)
        },
    }
}

/// What a pair of parentheses built by `parenthesize` holds.
pub open spec fn within(r: Document, indented: bool) -> Document {
    match r {
        Document::Group(v, _, _) => if indented {
            match v@[1] {
                Document::Indent(w) => w@[1],
                _ => r,
            }
        } else {
            v@[2]
        },
        _ => r,
    }
}

/// The document of an expression before any parentheses of its own: the
/// tokens around its operands, each operand lowered at its own position.
pub open spec fn own_shape(
    d: Document,
    e: Expression,
    s: Seq<Position>,
    settings: Settings,
    version: PhpVersion,
) -> bool
    decreases e, 0nat,
{
    match e {
        Expression::Literal(l) => match l {
            Literal::Integer(v) => text_is(d, v@),
            Literal::Float(v) => text_is(d, v@),
            Literal::String(v) => text_is(d, v@),
            Literal::True => text_is(d, "true"@),
            Literal::False => text_is(d, "false"@),
            Literal::Null => text_is(d, "null"@),
        },
        Expression::Variable(n) => d matches Document::Concat(w) && w@.len() == 2 && text_is(w@[0], "$"@)
            && text_is(w@[1], n@),
        Expression::Identifier(n) => text_is(d, n@),
        Expression::ConstantAccess(n) => text_is(d, n@),
        Expression::MagicConstant(n) => text_is(d, n@),
        Expression::Static => text_is(d, "static"@),
        Expression::Self_ => text_is(d, "self"@),
        Expression::Parent => text_is(d, "parent"@),
        Expression::Binary(l, op, r) => binary_shape(d, op) && (d matches Document::Group(w, _, _)
            && expression_shape(w@[0], *l, s.push(Position::BinaryOperand(op, Side::Left)), settings, version)
            && (w@[3] matches Document::Indent(u) && expression_shape(
            u@[1],
            *r,
            s.push(Position::BinaryOperand(op, Side::Right)),
            settings,
            version,
        ))),
        Expression::UnaryPrefix(op, x) => d matches Document::Concat(w) && w@.len() == 2 && text_is(
            w@[0],
            prefix_text(op),
        ) && expression_shape(w@[1], *x, s.push(Position::UnaryOperand), settings, version),
        Expression::UnaryPostfix(x, op) => d matches Document::Concat(w) && w@.len() == 2
            && expression_shape(w@[0], *x, s.push(Position::UnaryOperand), settings, version) && text_is(
            w@[1],
            if op == UnaryPostfixOperator::PostIncrement {
                "++"@
            } else {
                "--"@
            },
        ),
        Expression::Conditional(c, then, otherwise) => d matches Document::Group(w, b, id) && !b && id
            is None && w@.len() == 2 && expression_shape(
            w@[0],
            *c,
            s.push(Position::ConditionalOperand(then is Some)),
            settings,
            version,
        ) && (w@[1] matches Document::Indent(u) && match then {
            Some(t) => u@.len() == 6 && u@[0] == Document::Line(LineKind::Default) && text_is(u@[1], "? "@)
                && expression_shape(u@[2], *t, s.push(Position::ConditionalOperand(true)), settings, version)
                && u@[3] == Document::Line(LineKind::Default) && text_is(u@[4], ": "@) && expression_shape(
                u@[5],
                *otherwise,
                s.push(Position::ConditionalOperand(true)),
                settings,
                version,
            ),
            None => u@.len() == 3 && u@[0] == Document::Line(LineKind::Default) && text_is(u@[1], "?: "@)
                && expression_shape(
                u@[2],
                *otherwise,
                s.push(Position::ConditionalOperand(false)),
                settings,
                version,
            ),
        }),
        Expression::Assignment(t, v) => d matches Document::Group(w, b, id) && !b && id is None && w@.len()
            == 3 && expression_shape(w@[0], *t, s.push(Position::AssignmentOperand), settings, version)
            && text_is(w@[1], " = "@) && expression_shape(
            w@[2],
            *v,
            s.push(Position::AssignmentOperand),
            settings,
            version,
        ),
        Expression::Pipe(l, r) => d matches Document::Group(w, b, id) && !b && id is None && w@.len() == 2
            && expression_shape(w@[0], *l, s.push(Position::PipeOperand), settings, version) && (w@[1] matches Document::Indent(
            u,
        ) && u@.len() == 3 && u@[0] == Document::Line(LineKind::Default) && text_is(u@[1], "|> "@)
            && expression_shape(u@[2], *r, s.push(Position::PipeOperand), settings, version)),
        Expression::Call(kind, callee, name, arguments) => d matches Document::Group(w, b, id) && !b && id
            is None && w@.len() == 4 && expression_shape(
            w@[0],
            *callee,
            s.push(Position::CallCallee(kind)),
            settings,
            version,
        ) && text_is(w@[1], member_text(kind)) && text_is(w@[2], name@) && call_arguments_shape(
            w@[3],
            arguments@,
        ),
        Expression::Access(kind, object, name) => d matches Document::Concat(w) && w@.len() == 3
            && expression_shape(w@[0], *object, s.push(Position::AccessObject), settings, version)
            && text_is(w@[1], access_text(kind)) && text_is(w@[2], name@),
        Expression::ArrayAccess(a, i) => d matches Document::Concat(w) && w@.len() == 4 && expression_shape(
            w@[0],
            *a,
            s.push(Position::ArrayAccessBase),
            settings,
            version,
        ) && text_is(w@[1], "["@) && expression_shape(
            w@[2],
            *i,
            s.push(Position::ArrayAccessIndex),
            settings,
            version,
        ) && text_is(w@[3], "]"@),
        Expression::ArrayAppend(a) => d matches Document::Concat(w) && w@.len() == 2 && expression_shape(
            w@[0],
            *a,
            s.push(Position::ArrayAppendBase),
            settings,
            version,
        ) && text_is(w@[1], "[]"@),
        Expression::Array(elements) => bracketed_shape(d, "["@, "]"@, elements@.len()),
        Expression::LegacyArray(elements) => bracketed_shape(d, "array("@, ")"@, elements@.len()),
        Expression::List(elements) => bracketed_shape(d, "list("@, ")"@, elements@.len()),
        Expression::Instantiation(class, arguments) => d matches Document::Concat(w) && text_is(
            w@[0],
            "new "@,
        ) && expression_shape(w@[1], *class, s.push(Position::InstantiationClass), settings, version)
            && match arguments {
            Some(a) => w@.len() == 3 && call_arguments_shape(w@[2], a@),
            None => w@.len() == 2,
        },
        Expression::Closure(_, body) => d matches Document::Concat(w) && text_is(w@[0], "function "@)
            && if body@.len() == 0 {
            w@.len() == 3 && text_is(w@[2], " {}"@)
        } else {
            w@.len() == 6 && text_is(w@[2], " {"@) && (w@[3] matches Document::Indent(u) && u@.len() == 2
                * body@.len() && u@[0] == Document::Line(LineKind::Hard)) && w@[4] == Document::Line(
                LineKind::Hard,
            ) && text_is(w@[5], "}"@)
        },
        Expression::ArrowFunction(_, body) => d matches Document::Group(w, b, id) && !b && id is None
            && w@.len() == 4 && text_is(w@[0], "fn"@) && text_is(w@[2], " => "@) && expression_shape(
            w@[3],
            *body,
            s.push(Position::ArrowFunctionBody),
            settings,
            version,
        ),
        Expression::ClosureCreation(kind, target, name) => d matches Document::Concat(w) && w@.len() == 4
            && expression_shape(w@[0], *target, s.push(Position::ClosureCreationTarget(kind)), settings, version)
            && text_is(w@[1], member_text(kind)) && text_is(w@[2], name@) && text_is(w@[3], "(...)"@),
        Expression::AnonymousClass(arguments) => match arguments {
            Some(a) => d matches Document::Concat(w) && w@.len() == 3 && text_is(w@[0], "new class"@)
                && call_arguments_shape(w@[1], a@) && text_is(w@[2], " {}"@),
            None => text_is(d, "new class {}"@),
        },
        Expression::Match(subject, _) => d matches Document::Group(w, b, id) && !b && id is None && w@.len()
            == 6 && text_is(w@[0], "match ("@) && expression_shape(
            w@[1],
            *subject,
            s.push(Position::Argument),
            settings,
            version,
        ) && text_is(w@[2], ") {"@) && w@[3] is Indent && w@[4] == Document::Line(LineKind::Hard)
            && text_is(w@[5], "}"@),
        Expression::Construct(_) => true,
        Expression::Parenthesized(..) | Expression::Commented(..) => true,
    }
}

/// Lowers `e` standing at position `p`.
fn child(f: &mut FormatterState, e: &Expression, p: Position) -> (r: Document)
    ensures
        final(f).positions@ == old(f).positions@,
        final(f).settings == old(f).settings,
        final(f).php_version == old(f).php_version,
        expression_shape(r, *e, old(f).positions@.push(p), old(f).settings, old(f).php_version),
    decreases e, 1nat,
{
    f.enter(p);
    let d = format_expression(f, e);
    f.leave();
    d
}

#[verifier::rlimit(100)]
/// Lowers an expression standing at the innermost position of `f`: see
/// `expression_shape`.
pub fn format_expression(f: &mut FormatterState, e: &Expression) -> (r: Document)
    ensures
        final(f).positions@ == old(f).positions@,
        final(f).settings == old(f).settings,
        final(f).php_version == old(f).php_version,
        expression_shape(r, *e, old(f).positions@, old(f).settings, old(f).php_version),
    decreases e, 0nat,
{
    let ghost s = f.positions@;
    let ghost settings = f.settings;
    let ghost version = f.php_version;
    let d = match e {
        Expression::Parenthesized(inner) => {
            let d = child(f, inner, Position::Parenthesized);
            let indented = f.should_indent(inner);
            let r = parenthesize(d, indented, f.settings.space_within_grouping_parenthesis);
            proof {
                assert(expression_shape(d, **inner, s.push(Position::Parenthesized), settings, version));
                assert(parenthesized(r, d, operation(**inner), settings.space_within_grouping_parenthesis));
                assert(expression_shape(r, *e, s, settings, version));
            }
            return r;
        },
        Expression::Commented(inner, leading, trailing) => {
            let d = format_expression(f, inner);
            let mut parts: Vec<Document> = Vec::new();
            if let Some(c) = leading {
                parts.push(owned(c));
                parts.push(Document::space());
            }
            parts.push(d);
            if let Some(c) = trailing {
                parts.push(Document::space());
                parts.push(owned(c));
            }
            return Document::Concat(parts);
        },
        Expression::Literal(l) => match l {
            Literal::Integer(v) => owned(v),
            Literal::Float(v) => owned(v),
            Literal::String(v) => owned(v),
            Literal::True => txt("true"),
            Literal::False => txt("false"),
            Literal::Null => txt("null"),
        },
        Expression::Variable(name) => variable(name),
        Expression::Identifier(name) => owned(name),
        Expression::ConstantAccess(name) => owned(name),
        Expression::MagicConstant(name) => owned(name),
        Expression::Static => txt("static"),
        Expression::Self_ => txt("self"),
        Expression::Parent => txt("parent"),
        Expression::Binary(l, op, r) => {
            let ld = child(f, l, Position::BinaryOperand(*op, Side::Left));
            let rd = child(f, r, Position::BinaryOperand(*op, Side::Right));
            binary_document(ld, op, rd)
        },
        Expression::UnaryPrefix(op, operand) => {
            let d = child(f, operand, Position::UnaryOperand);
            Document::Concat(list2(txt(op.as_str()), d))
        },
        Expression::UnaryPostfix(operand, op) => {
            let d = child(f, operand, Position::UnaryOperand);
            let sign = match op {
                UnaryPostfixOperator::PostIncrement => "++",
                UnaryPostfixOperator::PostDecrement => "--",
            };
            Document::Concat(list2(d, txt(sign)))
        },
        Expression::Conditional(condition, then, otherwise) => {
            let has_then = then.is_some();
            let cd = child(f, condition, Position::ConditionalOperand(has_then));
            let od = child(f, otherwise, Position::ConditionalOperand(has_then));
            match then {
                Some(t) => {
                    let td = child(f, t, Position::ConditionalOperand(true));
                    let mut inner = list5(
                        Document::Line(LineKind::Default),
                        txt("? "),
                        td,
                        Document::Line(LineKind::Default),
                        txt(": "),
                    );
                    let ghost before = inner@;
                    inner.push(od);
                    proof {
                        assert(inner@[5] == od);
                        assert(inner@[2] == before[2]);
                    }
                    Document::Group(list2(cd, Document::Indent(inner)), false, None)
                },
                None => Document::Group(
                    list2(cd, Document::Indent(list3(Document::Line(LineKind::Default), txt("?: "), od))),
                    false,
                    None,
                ),
            }
        },
        Expression::Assignment(target, value) => {
            let td = child(f, target, Position::AssignmentOperand);
            let vd = child(f, value, Position::AssignmentOperand);
            Document::Group(list3(td, txt(" = "), vd), false, None)
        },
        Expression::Pipe(l, r) => {
            let ld = child(f, l, Position::PipeOperand);
            let rd = child(f, r, Position::PipeOperand);
            Document::Group(
                list2(ld, Document::Indent(list3(Document::Line(LineKind::Default), txt("|> "), rd))),
                false,
                None,
            )
        },
        Expression::Call(kind, callee, name, arguments) => {
            let cd = child(f, callee, Position::CallCallee(*kind));
            let args = print_call_arguments(f, arguments);
            Document::Group(list4(cd, txt(member(*kind)), owned(name), args), false, None)
        },
        Expression::Access(kind, object, name) => {
            let od = child(f, object, Position::AccessObject);
            let sep = match kind {
                AccessKind::Property => "->",
                AccessKind::NullSafeProperty => "?->",
                AccessKind::StaticProperty => "::",
                AccessKind::ClassConstant => "::",
            };
            Document::Concat(list3(od, txt(sep), owned(name)))
        },
        Expression::ArrayAccess(array, index) => {
            let ad = child(f, array, Position::ArrayAccessBase);
            let id = child(f, index, Position::ArrayAccessIndex);
            Document::Concat(list4(ad, txt("["), id, txt("]")))
        },
        Expression::ArrayAppend(array) => {
            let ad = child(f, array, Position::ArrayAppendBase);
            Document::Concat(list2(ad, txt("[]")))
        },
        Expression::Array(elements) => {
            let items = format_elements(f, elements);
            bracketed("[", items, "]")
        },
        Expression::LegacyArray(elements) => {
            let items = format_elements(f, elements);
            bracketed("array(", items, ")")
        },
        Expression::List(elements) => {
            let items = format_elements(f, elements);
            bracketed("list(", items, ")")
        },
        Expression::Instantiation(class, arguments) => {
            let cd = child(f, class, Position::InstantiationClass);
            match arguments {
                Some(a) => {
                    let args = print_call_arguments(f, a);
                    Document::Concat(list3(txt("new "), cd, args))
                },
                None => Document::Concat(list2(txt("new "), cd)),
            }
        },
        Expression::Closure(params, body) => {
            let ps = parameters(params);
            if body.len() == 0 {
                Document::Concat(list3(txt("function "), ps, txt(" {}")))
            } else {
                let mut inner: Vec<Document> = Vec::new();
                inner.push(Document::Line(LineKind::Hard));
                let mut printed = print_statement_sequence(f, body);
                inner.append(&mut printed);
                let mut parts = list5(
                    txt("function "),
                    ps,
                    txt(" {"),
                    Document::Indent(inner),
                    Document::Line(LineKind::Hard),
                );
                parts.push(txt("}"));
                Document::Concat(parts)
            }
        },
        Expression::ArrowFunction(params, body) => {
            let ps = parameters(params);
            let bd = child(f, body, Position::ArrowFunctionBody);
            Document::Group(list4(txt("fn"), ps, txt(" => "), bd), false, None)
        },
        Expression::ClosureCreation(kind, target, name) => {
            let td = child(f, target, Position::ClosureCreationTarget(*kind));
            Document::Concat(list4(td, txt(member(*kind)), owned(name), txt("(...)")))
        },
        Expression::AnonymousClass(arguments) => match arguments {
            Some(a) => {
                let args = print_call_arguments(f, a);
                Document::Concat(list3(txt("new class"), args, txt(" {}")))
            },
            None => txt("new class {}"),
        },
        Expression::Match(subject, arms) => {
            let sd = child(f, subject, Position::Argument);
            let inner = format_match_arms(f, arms);
            let mut parts = list5(
                txt("match ("),
                sd,
                txt(") {"),
                Document::Indent(inner),
                Document::Line(LineKind::Hard),
            );
            parts.push(txt("}"));
            Document::Group(parts, false, None)
        },
        Expression::Construct(c) => format_construct(f, c),
    };
    let r = f.wrap_parens(d, e);
    proof {
        assert(!(*e is Parenthesized) && !(*e is Commented));
        assert(own_shape(d, *e, s, settings, version));
        if wrapped(*e, s, settings, version) {
            assert(parenthesized(r, d, operation(*e), settings.space_within_grouping_parenthesis));
        } else {
            assert(r == d);
        }
        assert(expression_shape(r, *e, s, settings, version));
    }
    r
}

/// The parts of a program's document: each statement's document, a hard
/// line after each, none for no statements.
pub open spec fn program_parts(v: Seq<Document>, statements: Seq<Statement>, settings: Settings) -> bool {
    &&& v.len() == 2 * statements.len()
    &&& forall|i: int| 0 <= i < statements.len() ==> statement_shape(#[trigger] v[2 * i], statements[i], settings)
    &&& forall|i: int| 0 <= i < statements.len() ==> #[trigger] v[2 * i + 1] == Document::Line(LineKind::Hard)
}

/// Formats a program: the statements one per line, printed within the
/// settings' width, each line ended by a newline.
pub fn format_program(statements: &Vec<Statement>, settings: Settings, php_version: PhpVersion) -> (r:
    String)
    ensures
        exists|d: Document|
            {
                &&& r@ == layout(d, settings.print_width as int, settings.indent_size as nat)
                &&& d matches Document::Concat(v) && program_parts(v@, statements@, settings)
            },
{
    let mut f = FormatterState::new(settings, php_version);
    let mut parts = print_statement_sequence(&mut f, statements);
    if parts.len() > 0 {
        parts.push(Document::Line(LineKind::Hard));
    }
    let ghost pv = parts@;
    let doc = Document::Concat(parts);
    let r = print_document(&doc, settings.print_width, settings.indent_size);
    proof {
        let n = statements@.len();
        if n > 0 {
            assert forall|i: int| 0 <= i < n implies statement_shape(#[trigger] pv[2 * i], statements@[i], settings) by {
                assert(pv[2 * i] == pv.drop_last()[2 * i]);
            }
            assert forall|i: int| 0 <= i < n - 1 implies #[trigger] pv[2 * i + 1] == Document::Line(LineKind::Hard) by {
                assert(pv[2 * i + 1] == pv.drop_last()[2 * i + 1]);
            }
        }
        assert(program_parts(pv, statements@, settings));
    }
    r
}

} // verus!
