use mago_formatter::ast::{Argument, CallKind, Construct, Expression, IncludeConstruct, IssetConstruct, Literal, PrintConstruct};
use mago_formatter::hug::{is_simple_expression, is_string_word_type, should_hug_expression};
use mago_formatter::operator::{BinaryOperator, UnaryPrefixOperator, should_flatten};
use mago_formatter::parens::{binary_operand_needs_parens, callee_expression_need_parenthesis, instantiation_needs_parens};
use mago_formatter::document::Document;
use mago_formatter::printer::print_document;
use mago_formatter::state::{BraceStyle, FormatterState, PhpVersion, Position, Settings, Side};

fn settings() -> Settings {
    Settings {
        print_width: 80,
        indent_size: 4,
        control_brace_style: BraceStyle::SameLine,
        inline_empty_control_braces: false,
        static_before_visibility: false,
        space_within_grouping_parenthesis: false,
        parentheses_in_new_expression: true,
        parentheses_around_new_in_member_access: false,
    }
}

fn state_at(positions: &[Position]) -> FormatterState {
    let mut f = FormatterState::new(settings(), PhpVersion { major: 8, minor: 4 });
    for p in positions {
        f.enter(*p);
    }
    f
}

fn var(n: &str) -> Expression {
    Expression::Variable(n.to_string())
}

fn bin(l: Expression, op: BinaryOperator, r: Expression) -> Expression {
    Expression::Binary(Box::new(l), op, Box::new(r))
}

#[test]
fn binary_table() {
    assert!(!binary_operand_needs_parens(&BinaryOperator::Multiplication, &BinaryOperator::Addition, Side::Left));
    assert!(binary_operand_needs_parens(&BinaryOperator::Addition, &BinaryOperator::Multiplication, Side::Left));
    assert!(!binary_operand_needs_parens(&BinaryOperator::Subtraction, &BinaryOperator::Subtraction, Side::Left));
    assert!(binary_operand_needs_parens(&BinaryOperator::Subtraction, &BinaryOperator::Addition, Side::Left));
    assert!(binary_operand_needs_parens(&BinaryOperator::Exponentiation, &BinaryOperator::Exponentiation, Side::Left));
    assert!(!binary_operand_needs_parens(&BinaryOperator::NullCoalesce, &BinaryOperator::NullCoalesce, Side::Left));
    assert!(binary_operand_needs_parens(&BinaryOperator::Or, &BinaryOperator::NullCoalesce, Side::Left));
    assert!(binary_operand_needs_parens(&BinaryOperator::Addition, &BinaryOperator::StringConcat, Side::Left));
    assert!(!binary_operand_needs_parens(&BinaryOperator::StringConcat, &BinaryOperator::StringConcat, Side::Left));
    assert!(binary_operand_needs_parens(&BinaryOperator::Equal, &BinaryOperator::Equal, Side::Left));
    assert!(!binary_operand_needs_parens(&BinaryOperator::Equal, &BinaryOperator::And, Side::Left));
    assert!(binary_operand_needs_parens(&BinaryOperator::Equal, &BinaryOperator::Addition, Side::Left));
    assert!(!binary_operand_needs_parens(&BinaryOperator::BitwiseAnd, &BinaryOperator::BitwiseAnd, Side::Left));
    assert!(binary_operand_needs_parens(&BinaryOperator::BitwiseOr, &BinaryOperator::BitwiseAnd, Side::Left));
    assert!(binary_operand_needs_parens(&BinaryOperator::LeftShift, &BinaryOperator::Addition, Side::Left));
    assert!(binary_operand_needs_parens(&BinaryOperator::LowAnd, &BinaryOperator::LowOr, Side::Left));
    assert!(binary_operand_needs_parens(&BinaryOperator::Addition, &BinaryOperator::Elvis, Side::Left));
    assert!(binary_operand_needs_parens(&BinaryOperator::Addition, &BinaryOperator::Instanceof, Side::Left));
    assert!(binary_operand_needs_parens(&BinaryOperator::Modulo, &BinaryOperator::Multiplication, Side::Left));
    assert!(!binary_operand_needs_parens(&BinaryOperator::And, &BinaryOperator::Or, Side::Left));
    assert!(binary_operand_needs_parens(&BinaryOperator::Or, &BinaryOperator::And, Side::Left));
    assert!(binary_operand_needs_parens(&BinaryOperator::Subtraction, &BinaryOperator::Subtraction, Side::Right));
    assert!(binary_operand_needs_parens(&BinaryOperator::Addition, &BinaryOperator::Addition, Side::Right));
    assert!(binary_operand_needs_parens(&BinaryOperator::BitwiseAnd, &BinaryOperator::BitwiseAnd, Side::Right));
    assert!(binary_operand_needs_parens(&BinaryOperator::And, &BinaryOperator::And, Side::Right));
    assert!(!binary_operand_needs_parens(&BinaryOperator::StringConcat, &BinaryOperator::StringConcat, Side::Right));
    assert!(!binary_operand_needs_parens(&BinaryOperator::NullCoalesce, &BinaryOperator::NullCoalesce, Side::Right));
    assert!(!binary_operand_needs_parens(&BinaryOperator::Multiplication, &BinaryOperator::Addition, Side::Right));
    assert!(binary_operand_needs_parens(&BinaryOperator::NullCoalesce, &BinaryOperator::LowAnd, Side::Left));
    assert!(binary_operand_needs_parens(&BinaryOperator::NullCoalesce, &BinaryOperator::Or, Side::Right));
}

#[test]
fn flattening() {
    assert!(should_flatten(&BinaryOperator::Addition, &BinaryOperator::Addition));
    assert!(should_flatten(&BinaryOperator::Subtraction, &BinaryOperator::Addition));
    assert!(!should_flatten(&BinaryOperator::Multiplication, &BinaryOperator::Division));
    assert!(!should_flatten(&BinaryOperator::Modulo, &BinaryOperator::Multiplication));
    assert!(!should_flatten(&BinaryOperator::Exponentiation, &BinaryOperator::Exponentiation));
    assert!(!should_flatten(&BinaryOperator::Equal, &BinaryOperator::NotEqual));
    assert!(!should_flatten(&BinaryOperator::LeftShift, &BinaryOperator::RightShift));
    assert!(!should_flatten(&BinaryOperator::Addition, &BinaryOperator::Multiplication));
    assert!(!should_flatten(&BinaryOperator::LowAnd, &BinaryOperator::LowAnd));
}

#[test]
fn binary_positions() {
    let sum = bin(var("a"), BinaryOperator::Addition, var("b"));
    assert!(state_at(&[Position::VariadicElement]).need_parens(&sum));
    assert!(state_at(&[Position::UnaryOperand]).need_parens(&sum));
    assert!(state_at(&[Position::ArrayAccessBase]).need_parens(&sum));
    assert!(!state_at(&[Position::ArrayAccessIndex]).need_parens(&sum));
    assert!(state_at(&[Position::AccessObject]).need_parens(&sum));
    assert!(!state_at(&[Position::AssignmentOperand]).need_parens(&sum));
    assert!(state_at(&[Position::ConditionalOperand(true)]).need_parens(&sum));
    let and = bin(var("a"), BinaryOperator::And, var("b"));
    assert!(!state_at(&[Position::ConditionalOperand(true)]).need_parens(&and));
    assert!(state_at(&[Position::PipeOperand, Position::ArrowFunctionBody]).need_parens(&sum));
    assert!(!state_at(&[Position::Argument, Position::ArrowFunctionBody]).need_parens(&sum));
    assert!(!state_at(&[Position::PipeOperand]).need_parens(&sum));
    let low = bin(var("a"), BinaryOperator::LowOr, var("b"));
    assert!(state_at(&[Position::AssignmentOperand]).need_parens(&low));
    assert!(state_at(&[Position::PipeOperand]).need_parens(&low));
}

#[test]
fn prefix_operations() {
    let silenced = Expression::UnaryPrefix(UnaryPrefixOperator::ErrorControl, Box::new(var("a")));
    let left = Position::BinaryOperand(BinaryOperator::Addition, Side::Left);
    let right = Position::BinaryOperand(BinaryOperator::Addition, Side::Right);
    assert!(state_at(&[left]).need_parens(&silenced));
    assert!(!state_at(&[right]).need_parens(&silenced));
    let cast = Expression::UnaryPrefix(UnaryPrefixOperator::IntCast, Box::new(var("a")));
    assert!(state_at(&[right]).need_parens(&cast));
    assert!(!state_at(&[Position::Argument]).need_parens(&cast));
    let not = Expression::UnaryPrefix(UnaryPrefixOperator::Not, Box::new(var("a")));
    assert!(!state_at(&[right]).need_parens(&not));
}

#[test]
fn conditionals_assignments_literals_pipes() {
    let assign = Expression::Assignment(Box::new(var("a")), Box::new(var("b")));
    assert!(state_at(&[Position::BinaryOperand(BinaryOperator::And, Side::Right)]).need_parens(&assign));
    assert!(!state_at(&[Position::Argument]).need_parens(&assign));
    assert!(!FormatterState::new(settings(), PhpVersion { major: 8, minor: 4 }).need_parens(&assign));
    let cond = Expression::Conditional(Box::new(var("a")), Some(Box::new(var("b"))), Box::new(var("c")));
    assert!(state_at(&[Position::ConditionalOperand(true)]).need_parens(&cond));
    assert!(state_at(&[Position::VariadicElement]).need_parens(&cond));
    let one = Expression::Literal(Literal::Integer("1".to_string()));
    assert!(state_at(&[Position::BinaryOperand(BinaryOperator::StringConcat, Side::Left)]).need_parens(&one));
    assert!(!state_at(&[Position::BinaryOperand(BinaryOperator::Addition, Side::Left)]).need_parens(&one));
    let pipe = Expression::Pipe(Box::new(var("a")), Box::new(var("f")));
    assert!(state_at(&[Position::BinaryOperand(BinaryOperator::Addition, Side::Left)]).need_parens(&pipe));
    assert!(!state_at(&[Position::BinaryOperand(BinaryOperator::Equal, Side::Left)]).need_parens(&pipe));
    assert!(!state_at(&[Position::AssignmentOperand]).need_parens(&pipe));
    assert!(state_at(&[Position::ArrayAppendBase]).need_parens(&pipe));
}

#[test]
fn callees() {
    let sum = bin(var("a"), BinaryOperator::Addition, var("b"));
    assert!(callee_expression_need_parenthesis(&sum, false));
    assert!(!callee_expression_need_parenthesis(&var("a"), false));
    let call = Expression::Call(CallKind::Function, Box::new(Expression::Identifier("f".to_string())), String::new(), vec![]);
    assert!(!callee_expression_need_parenthesis(&call, false));
    assert!(callee_expression_need_parenthesis(&call, true));
    let print = Expression::Construct(Construct::Print(PrintConstruct { value: Box::new(var("a")) }));
    assert!(callee_expression_need_parenthesis(&print, false));
    let isset = Expression::Construct(Construct::Isset(IssetConstruct { values: vec![var("a")] }));
    assert!(!callee_expression_need_parenthesis(&isset, false));
    let new = Expression::Instantiation(Box::new(Expression::Identifier("Foo".to_string())), None);
    assert!(state_at(&[Position::CallCallee(CallKind::Function)]).need_parens(&new));
    assert!(state_at(&[Position::InstantiationClass]).need_parens(&call));
    assert!(!state_at(&[Position::ClosureCreationTarget(CallKind::Function)]).need_parens(&var("f")));
}

#[test]
fn instantiation_as_method_object() {
    let mut f = state_at(&[]);
    assert!(!instantiation_needs_parens(&f, &None));
    assert!(!instantiation_needs_parens(&f, &Some(vec![Argument::Positional(false, var("a"))])));
    f.settings.parentheses_in_new_expression = false;
    assert!(instantiation_needs_parens(&f, &None));
    f.settings.parentheses_around_new_in_member_access = true;
    assert!(instantiation_needs_parens(&f, &Some(vec![Argument::Positional(false, var("a"))])));
    f.php_version = PhpVersion { major: 8, minor: 3 };
    f.settings.parentheses_around_new_in_member_access = false;
    assert!(instantiation_needs_parens(&f, &Some(vec![])));
}

#[test]
fn wrap_parens_shapes() {
    let sum = bin(var("a"), BinaryOperator::Addition, var("b"));
    let f = state_at(&[Position::UnaryOperand]);
    let d = f.wrap_parens(Document::Text("$a + $b".to_string()), &sum);
    assert_eq!(print_document(&d, 80, 4), "($a + $b)");
    assert_eq!(print_document(&f.wrap_parens(Document::Text("$a + $b".to_string()), &sum), 5, 4), "(\n    $a + $b\n)");
    let mut spaced = state_at(&[Position::UnaryOperand]);
    spaced.settings.space_within_grouping_parenthesis = true;
    assert_eq!(print_document(&spaced.wrap_parens(Document::Text("x".to_string()), &sum), 80, 4), "( x )");
    let g = state_at(&[Position::Argument]);
    assert_eq!(print_document(&g.wrap_parens(Document::Text("x".to_string()), &sum), 80, 4), "x");
}

#[test]
fn hugging() {
    let closure = Expression::Closure(vec![], vec![]);
    assert!(should_hug_expression(&closure, false));
    assert!(should_hug_expression(&Expression::Array(vec![]), false));
    assert!(!should_hug_expression(&var("a"), false));
    let simple_sum = bin(var("a"), BinaryOperator::Addition, var("b"));
    assert!(should_hug_expression(&simple_sum, false));
    let concat = bin(var("a"), BinaryOperator::StringConcat, Expression::Array(vec![]));
    assert!(should_hug_expression(&concat, false));
    let arrow = Expression::ArrowFunction(vec![], Box::new(Expression::Array(vec![])));
    assert!(should_hug_expression(&arrow, false));
    let nested_arrow = Expression::ArrowFunction(vec![], Box::new(Expression::ArrowFunction(vec![], Box::new(Expression::Array(vec![])))));
    assert!(!should_hug_expression(&nested_arrow, false));
    let commented = Expression::Commented(Box::new(Expression::Array(vec![])), Some("// x".to_string()), None);
    assert!(!should_hug_expression(&commented, false));
    let foo = || Box::new(Expression::Identifier("Foo".to_string()));
    assert!(should_hug_expression(&Expression::Instantiation(foo(), None), false));
    assert!(should_hug_expression(&Expression::Instantiation(foo(), Some(vec![])), false));
    let three_simple = Some(vec![
        Argument::Positional(false, var("a")),
        Argument::Positional(false, var("b")),
        Argument::Positional(false, var("c")),
    ]);
    assert!(should_hug_expression(&Expression::Instantiation(foo(), three_simple), false));
    let four_simple = Some(vec![
        Argument::Positional(false, var("a")),
        Argument::Positional(false, var("b")),
        Argument::Positional(false, var("c")),
        Argument::Positional(false, var("d")),
    ]);
    assert!(!should_hug_expression(&Expression::Instantiation(foo(), four_simple), false));
    let named = Some(vec![
        Argument::Named("a".to_string(), closure),
        Argument::Named("b".to_string(), var("b")),
        Argument::Named("c".to_string(), var("c")),
        Argument::Named("d".to_string(), var("d")),
    ]);
    assert!(should_hug_expression(&Expression::Instantiation(foo(), named), false));
    let one_simple = Some(vec![Argument::Positional(false, var("a"))]);
    assert!(should_hug_expression(&Expression::Instantiation(foo(), one_simple), false));
    let one_named = Some(vec![Argument::Named("a".to_string(), Expression::Call(CallKind::Function, foo(), String::new(), vec![]))]);
    assert!(should_hug_expression(&Expression::Instantiation(foo(), one_named), false));
    let one_complex = Some(vec![Argument::Positional(false, Expression::Conditional(Box::new(var("a")), None, Box::new(var("b"))))]);
    assert!(!should_hug_expression(&Expression::Instantiation(foo(), one_complex), false));
    let not_a_name = Expression::Instantiation(Box::new(var("class")), None);
    assert!(!should_hug_expression(&not_a_name, false));
    let inner_new = Some(vec![Argument::Positional(false, Expression::Instantiation(foo(), Some(vec![])))]);
    assert!(should_hug_expression(&Expression::Instantiation(foo(), inner_new), false));
    let mut chain = var("o");
    for m in ["a", "b", "c"] {
        chain = Expression::Call(CallKind::Method, Box::new(chain), m.to_string(), vec![]);
    }
    assert!(!should_hug_expression(&chain, false));
    let short = Expression::Call(CallKind::Method, Box::new(var("o")), "a".to_string(), vec![]);
    assert!(should_hug_expression(&short, false));
}

#[test]
fn simple_and_word_expressions() {
    assert!(is_simple_expression(&bin(var("a"), BinaryOperator::Addition, Expression::Literal(Literal::Null))));
    assert!(!is_simple_expression(&Expression::Array(vec![])));
    assert!(is_string_word_type(&Expression::Identifier("Foo".to_string())));
    assert!(!is_string_word_type(&Expression::Identifier("A\\Foo".to_string())));
    assert!(is_string_word_type(&var("a")));
    assert!(!is_string_word_type(&Expression::Literal(Literal::True)));
}

#[test]
fn constructs() {
    let loader = Construct::Include(IncludeConstruct { value: Box::new(var("a")) });
    assert!(loader.is_import());
    assert!(!loader.has_bounds());
    let isset = Construct::Isset(IssetConstruct { values: vec![] });
    assert!(!isset.is_import());
    assert!(isset.has_bounds());
}
