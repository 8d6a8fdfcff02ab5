use mago_formatter::ast::{Argument, CallKind, Expression, Literal, Statement};
use mago_formatter::format::format_program;
use mago_formatter::operator::BinaryOperator;
use mago_formatter::state::{BraceStyle, PhpVersion, Settings};

fn settings(width: usize) -> Settings {
    Settings {
        print_width: width,
        indent_size: 4,
        control_brace_style: BraceStyle::SameLine,
        inline_empty_control_braces: false,
        static_before_visibility: false,
        space_within_grouping_parenthesis: false,
        parentheses_in_new_expression: true,
        parentheses_around_new_in_member_access: false,
    }
}

fn version() -> PhpVersion {
    PhpVersion { major: 8, minor: 4 }
}

fn integer(v: &str) -> Expression {
    Expression::Literal(Literal::Integer(v.to_string()))
}

fn var(n: &str) -> Expression {
    Expression::Variable(n.to_string())
}

fn bin(l: Expression, op: BinaryOperator, r: Expression) -> Expression {
    Expression::Binary(Box::new(l), op, Box::new(r))
}

fn paren(e: Expression) -> Expression {
    Expression::Parenthesized(Box::new(e))
}

fn run(e: Expression, width: usize) -> String {
    format_program(&vec![Statement::Expression(e)], settings(width), version())
}

#[test]
fn product_binds_tighter_than_sum() {
    let e = bin(integer("1"), BinaryOperator::Addition, bin(integer("2"), BinaryOperator::Multiplication, integer("3")));
    assert_eq!(run(e, 80), "1 + 2 * 3;\n");
}

#[test]
fn source_parentheses_are_kept() {
    let e = bin(paren(bin(integer("1"), BinaryOperator::Addition, integer("2"))), BinaryOperator::Multiplication, integer("3"));
    assert_eq!(run(e, 80), "(1 + 2) * 3;\n");
}

#[test]
fn parentheses_added_for_lower_precedence_operand() {
    let e = bin(bin(integer("1"), BinaryOperator::Addition, integer("2")), BinaryOperator::Multiplication, integer("3"));
    assert_eq!(run(e, 80), "(1 + 2) * 3;\n");
}

#[test]
fn left_nested_subtraction_stays_bare() {
    let e = bin(bin(var("a"), BinaryOperator::Subtraction, var("b")), BinaryOperator::Subtraction, var("c"));
    assert_eq!(run(e, 80), "$a - $b - $c;\n");
}

#[test]
fn right_nested_subtraction_keeps_its_parentheses() {
    let e = bin(var("a"), BinaryOperator::Subtraction, paren(bin(var("b"), BinaryOperator::Subtraction, var("c"))));
    assert_eq!(run(e, 80), "$a - ($b - $c);\n");
}

#[test]
fn right_nested_subtraction_built_without_parentheses_gets_them() {
    let e = bin(var("a"), BinaryOperator::Subtraction, bin(var("b"), BinaryOperator::Subtraction, var("c")));
    assert_eq!(run(e, 80), "$a - ($b - $c);\n");
}

#[test]
fn coalesce_under_keyword_operator_is_wrapped() {
    let e = bin(bin(var("a"), BinaryOperator::NullCoalesce, var("b")), BinaryOperator::LowOr, var("c"));
    assert_eq!(run(e, 80), "($a ?? $b) or $c;\n");
}

#[test]
fn right_nested_coalesce_chains_bare() {
    let e = bin(var("a"), BinaryOperator::NullCoalesce, bin(var("b"), BinaryOperator::NullCoalesce, var("c")));
    assert_eq!(run(e, 80), "$a ?? $b ?? $c;\n");
}

#[test]
fn mixed_additive_operators_get_parentheses() {
    let e = bin(bin(var("a"), BinaryOperator::Subtraction, var("b")), BinaryOperator::Addition, var("c"));
    assert_eq!(run(e, 80), "($a - $b) + $c;\n");
}

#[test]
fn closure_argument_hugs_the_call() {
    let closure = Expression::Closure(vec![], vec![Statement::Return(Some(integer("1")))]);
    let call = Expression::Call(
        CallKind::Function,
        Box::new(Expression::Identifier("foo".to_string())),
        String::new(),
        vec![Argument::Positional(false, closure)],
    );
    assert_eq!(run(call, 80), "foo(function () {\n    return 1;\n});\n");
}

#[test]
fn long_argument_list_breaks_one_per_line() {
    let call = Expression::Call(
        CallKind::Function,
        Box::new(Expression::Identifier("compute".to_string())),
        String::new(),
        vec![
            Argument::Positional(false, var("first_argument")),
            Argument::Positional(false, var("second_argument")),
        ],
    );
    assert_eq!(run(call, 30), "compute(\n    $first_argument,\n    $second_argument\n);\n");
}

#[test]
fn formatting_the_output_tree_again_is_stable() {
    let first = bin(bin(integer("1"), BinaryOperator::Addition, integer("2")), BinaryOperator::Multiplication, integer("3"));
    let out = run(first, 80);
    let again = bin(paren(bin(integer("1"), BinaryOperator::Addition, integer("2"))), BinaryOperator::Multiplication, integer("3"));
    assert_eq!(run(again, 80), out);
}

#[test]
fn integer_in_concatenation_is_wrapped() {
    let e = bin(var("a"), BinaryOperator::StringConcat, integer("1"));
    assert_eq!(run(e, 80), "$a . (1);\n");
}

#[test]
fn keyword_operator_under_assignment_is_wrapped() {
    let e = Expression::Assignment(Box::new(var("a")), Box::new(bin(var("b"), BinaryOperator::LowAnd, var("c"))));
    assert_eq!(run(e, 80), "$a = ($b and $c);\n");
}

#[test]
fn no_line_exceeds_the_width_when_breaks_suffice() {
    let mut e = var("alpha");
    for name in ["beta", "gamma", "delta", "epsilon", "zeta"] {
        e = bin(e, BinaryOperator::And, var(name));
    }
    let out = run(e, 20);
    for line in out.lines() {
        assert!(line.chars().count() <= 20, "{line:?}");
    }
}

#[test]
fn reformatting_broken_parentheses_is_stable() {
    let long_sum = || bin(var("first_quantity"), BinaryOperator::Addition, var("second_quantity"));
    let first = bin(long_sum(), BinaryOperator::Multiplication, var("factor"));
    let out = run(first, 24);
    let again = bin(paren(long_sum()), BinaryOperator::Multiplication, var("factor"));
    assert_eq!(run(again, 24), out);
    assert!(out.starts_with("(\n"), "{out:?}");
}
