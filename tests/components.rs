use mago_formatter::ast::{Argument, CallKind, DieConstruct, Expression, Statement};
use mago_formatter::call_node::{CallLikeNode, print_call_like_node};
use mago_formatter::docblock::Token as DocToken;
use mago_formatter::document::{Document, LineKind};
use mago_formatter::format::format_program;
use mago_formatter::misc::{
    Attribute, AttributeList, ClauseContext, Modifier, adjust_clause, has_new_line_in_range,
    print_attribute_list_sequence, print_colon_delimited_body, print_condition, print_modifiers,
};
use mago_formatter::operator::{BANG_PRECEDENCE, BinaryOperator, PREFIX_PRECEDENCE, UnaryPrefixOperator};
use mago_formatter::printer::print_document;
use mago_formatter::state::{BraceStyle, FormatterState, PhpVersion, Settings};
use mago_formatter::type_error::{ParseError, SyntaxError};
use mago_formatter::type_token::{Span, TextPosition, TypeTokenKind};
use mago_formatter::unary::{Token, TokenError, TokenKind, parse_unary_prefix_operation};

fn settings() -> Settings {
    Settings {
        print_width: 80,
        indent_size: 4,
        control_brace_style: BraceStyle::SameLine,
        inline_empty_control_braces: false,
        static_before_visibility: false,
        space_within_grouping_parenthesis: false,
        parentheses_in_new_expression: true,
        parentheses_around_new_in_member_access: false,
    }
}

fn state() -> FormatterState {
    FormatterState::new(settings(), PhpVersion { major: 8, minor: 4 })
}

fn render(d: &Document) -> String {
    print_document(d, 80, 4)
}

fn words(docs: &[Document]) -> String {
    let mut out = String::new();
    for d in docs {
        out.push_str(&render(d));
    }
    out
}

fn var(n: &str) -> Expression {
    Expression::Variable(n.to_string())
}

fn span(a: u32, b: u32) -> Span {
    Span { start: TextPosition { offset: a }, end: TextPosition { offset: b } }
}

#[test]
fn modifiers_visibility_first() {
    let f = state();
    let mods = vec![Modifier::Static, Modifier::Public, Modifier::Final, Modifier::Readonly, Modifier::Private, Modifier::PrivateSet];
    assert_eq!(words(&print_modifiers(&f, &mods)), "final public private(set) static readonly");
}

#[test]
fn modifiers_static_first() {
    let mut f = state();
    f.settings.static_before_visibility = true;
    let mods = vec![Modifier::Protected, Modifier::Abstract, Modifier::Static];
    assert_eq!(words(&print_modifiers(&f, &mods)), "abstract static protected");
    assert!(print_modifiers(&f, &vec![]).is_empty());
}

#[test]
fn clause_placement() {
    let s = settings();
    let body = Statement::Expression(var("a"));
    let clause = Document::Text("$a;".to_string());
    let d = adjust_clause(&s, ClauseContext::Other, &body, clause, false);
    assert_eq!(render(&Document::Concat(vec![Document::Text("if ($x)".to_string()), d])), "if ($x)\n    $a;");
    let block = Statement::Block(vec![]);
    let d = adjust_clause(&s, ClauseContext::IfBody(true), &block, Document::Text("{}".to_string()), false);
    assert_eq!(render(&d), " {} ");
    let mut next_line = settings();
    next_line.control_brace_style = BraceStyle::NextLine;
    let d = adjust_clause(&next_line, ClauseContext::Other, &Statement::Block(vec![Statement::Noop]), Document::Text("{ }".to_string()), false);
    assert_eq!(render(&Document::Group(vec![Document::Text("if".to_string()), d], true, None)), "if\n{ }");
    next_line.inline_empty_control_braces = true;
    let d = adjust_clause(&next_line, ClauseContext::Other, &Statement::Block(vec![]), Document::Text("{}".to_string()), false);
    assert_eq!(render(&d), " {}");
    let nested_if = Statement::If(var("b"), Box::new(Statement::Noop));
    let d = adjust_clause(&s, ClauseContext::ElseClause, &nested_if, Document::Text("if ($b);".to_string()), false);
    assert_eq!(render(&d), " if ($b);");
    let d = adjust_clause(&s, ClauseContext::DoWhile, &body, Document::Text("$a;".to_string()), false);
    assert_eq!(render(&Document::Concat(vec![Document::Text("do".to_string()), d, Document::Text("while ($x);".to_string())])), "do\n        $a;\n    while ($x);");
    let d = adjust_clause(&s, ClauseContext::Other, &Statement::Noop, Document::Text(";".to_string()), false);
    assert_eq!(render(&d), ";");
}

#[test]
fn conditions() {
    let mut f = state();
    let c = print_condition(&mut f, &var("x"), true, false);
    assert_eq!(render(&c), " ($x)");
    let c = print_condition(&mut f, &var("x"), false, true);
    assert_eq!(render(&c), "( $x )");
    assert!(!f.in_condition);
    assert!(f.positions.is_empty());
}

#[test]
fn if_and_do_while_statements() {
    let program = vec![
        Statement::If(var("x"), Box::new(Statement::Block(vec![Statement::Expression(var("a"))]))),
        Statement::DoWhile(Box::new(Statement::Block(vec![])), var("y")),
    ];
    let out = format_program(&program, settings(), PhpVersion { major: 8, minor: 4 });
    assert_eq!(out, "if ($x) {\n    $a;\n}\ndo {} while ($y);\n");
}

#[test]
fn colon_delimited_body() {
    let mut f = state();
    let statements = vec![Statement::Expression(var("a"))];
    let d = print_colon_delimited_body(&mut f, &statements, "enddeclare", ";", None);
    assert_eq!(render(&d), ":\n    $a;\nenddeclare;");
    let d = print_colon_delimited_body(&mut f, &vec![], "endif", ";", None);
    assert_eq!(render(&d), ":\nendif;");
    let tags = vec![Statement::ClosingTag, Statement::OpeningTag];
    let d = print_colon_delimited_body(&mut f, &tags, "endwhile", ";", None);
    assert_eq!(render(&d), ": ?>\n<?php endwhile;");
    let d = print_colon_delimited_body(&mut f, &vec![], "endfor", ";", Some(Document::Concat(vec![Document::Text(" // done".to_string()), Document::Line(LineKind::Hard)])));
    assert_eq!(render(&d), ": // done\nendfor;");
}

#[test]
fn attribute_lists() {
    let mut f = state();
    assert!(print_attribute_list_sequence(&mut f, &vec![]).is_none());
    let lists = vec![
        AttributeList { attributes: vec![Attribute { name: "Pure".to_string(), arguments: None }], multiline: false },
        AttributeList {
            multiline: true,
            attributes: vec![
                Attribute { name: "Route".to_string(), arguments: Some(vec![Argument::Positional(false, var("path"))]) },
                Attribute { name: "Deprecated".to_string(), arguments: None },
            ],
        },
    ];
    let d = print_attribute_list_sequence(&mut f, &lists).unwrap();
    assert_eq!(render(&d), "#[Pure]\n#[Route($path), Deprecated]");
    let short = vec![
        AttributeList { attributes: vec![Attribute { name: "A".to_string(), arguments: None }], multiline: false },
        AttributeList { attributes: vec![Attribute { name: "B".to_string(), arguments: None }], multiline: false },
    ];
    let d = print_attribute_list_sequence(&mut f, &short).unwrap();
    assert_eq!(render(&d), "#[A] #[B]");
}

#[test]
fn newline_in_range() {
    assert!(has_new_line_in_range("ab\ncd", 0, 5));
    assert!(!has_new_line_in_range("ab\ncd", 3, 5));
    assert!(!has_new_line_in_range("ab\ncd", 2, 2));
}

#[test]
fn call_like_nodes() {
    let mut f = state();
    let die = DieConstruct { arguments: Some(vec![Argument::Positional(false, var("code"))]) };
    let node = CallLikeNode::DieConstruct(&die);
    assert!(node.is_exit_or_die_construct());
    assert!(!node.is_instantiation());
    assert_eq!(node.arguments().map(|a| a.len()), Some(1));
    assert_eq!(render(&print_call_like_node(&mut f, node)), "die($code)");
    let class = Expression::Identifier("Foo".to_string());
    let none: Option<Vec<Argument>> = None;
    let node = CallLikeNode::Instantiation(&class, &none);
    assert!(node.is_instantiation());
    assert!(node.arguments().is_none());
    assert_eq!(render(&print_call_like_node(&mut f, node)), "new Foo()");
    let callee = var("o");
    let name = "run".to_string();
    let args = vec![Argument::Named("fast".to_string(), Expression::Literal(mago_formatter::ast::Literal::True))];
    let node = CallLikeNode::Call(CallKind::Method, &callee, &name, &args);
    assert_eq!(render(&print_call_like_node(&mut f, node)), "$o->run(fast: true)");
    let attribute = Attribute { name: "Pure".to_string(), arguments: None };
    assert!(CallLikeNode::Attribute(&attribute).is_attribute());
}

#[test]
fn type_token_kinds() {
    assert!(TypeTokenKind::Whitespace.is_trivia());
    assert!(TypeTokenKind::SingleLineComment.is_trivia());
    assert!(!TypeTokenKind::Int.is_trivia());
    assert!(TypeTokenKind::Identifier.is_simple_identifier());
    assert!(!TypeTokenKind::QualifiedIdentifier.is_simple_identifier());
    assert!(TypeTokenKind::FullyQualifiedIdentifier.is_identifier());
    assert!(TypeTokenKind::NonEmptyList.is_keyword());
    assert!(TypeTokenKind::NegativeInt.is_keyword());
    assert!(!TypeTokenKind::Identifier.is_keyword());
    assert!(!TypeTokenKind::LiteralString.is_keyword());
    assert!(TypeTokenKind::AssociativeArray.is_array_like());
    assert!(!TypeTokenKind::Iterable.is_array_like());
    assert_eq!(TypeTokenKind::LessThan.name(), "LessThan");
}

#[test]
fn parse_error_notes_and_help() {
    let unrecognized = ParseError::SyntaxError(SyntaxError::UnrecognizedToken(b'$', TextPosition { offset: 3 }));
    assert_eq!(unrecognized.note(), "An invalid character was found that is not part of any valid type syntax.");
    assert_eq!(unrecognized.help(), "Remove or replace the invalid character.");
    assert_eq!(unrecognized.span(), span(3, 3));
    let eof = ParseError::UnexpectedEndOfFile(vec![TypeTokenKind::GreaterThan, TypeTokenKind::Comma], TextPosition { offset: 9 });
    assert_eq!(eof.note(), "The parser reached the end of the input but expected one of: `GreaterThan` or `Comma`.");
    assert_eq!(eof.span(), span(9, 9));
    let premature = ParseError::UnexpectedEndOfFile(vec![], TextPosition { offset: 0 });
    assert_eq!(premature.note(), "The type declaration ended prematurely.");
    let unexpected = ParseError::UnexpectedToken(vec![TypeTokenKind::Identifier], TypeTokenKind::Comma, span(1, 2));
    assert_eq!(unexpected.note(), "The parser expected one of the following here: `Identifier`.");
    assert_eq!(unexpected.help(), "Review the type syntax near the unexpected token.");
    assert_eq!(unexpected.span(), span(1, 2));
    let unclosed = ParseError::UnclosedLiteralString(span(4, 8));
    assert_eq!(unclosed.help(), "Add a closing quote (`'` or `\"`) to complete the string literal.");
    let low = ParseError::from_syntax_error(SyntaxError::UnexpectedEndOfFile(TextPosition { offset: 5 }));
    assert_eq!(low.note(), "A low-level syntax error occurred while parsing the type string.");
    assert_eq!(SyntaxError::UnexpectedToken(b'x', TextPosition { offset: 7 }).position(), TextPosition { offset: 7 });
}

#[test]
fn unary_prefix_operators() {
    let at = |kind| Some(Token { kind, span: span(0, 1) });
    assert!(matches!(parse_unary_prefix_operation(at(TokenKind::Bang)), Ok((UnaryPrefixOperator::Not, p)) if p == BANG_PRECEDENCE));
    assert!(matches!(parse_unary_prefix_operation(at(TokenKind::IntCast)), Ok((UnaryPrefixOperator::IntCast, p)) if p == PREFIX_PRECEDENCE));
    assert!(matches!(parse_unary_prefix_operation(at(TokenKind::VoidCast)), Ok((UnaryPrefixOperator::VoidCast, _))));
    let reference = parse_unary_prefix_operation(at(TokenKind::Ampersand));
    assert!(matches!(reference, Ok((UnaryPrefixOperator::Reference, p)) if p == BinaryOperator::BitwiseAnd.precedence()));
    match parse_unary_prefix_operation(at(TokenKind::Semicolon)) {
        Err(TokenError::UnexpectedToken(expected, found, where_)) => {
            assert_eq!(expected.len(), 20);
            assert_eq!(found, TokenKind::Semicolon);
            assert_eq!(where_, span(0, 1));
        }
        other => panic!("{other:?}"),
    }
    assert!(matches!(parse_unary_prefix_operation(None), Err(TokenError::UnexpectedEndOfFile(e)) if e.len() == 20));
}

#[test]
fn docblock_token_span() {
    let line = DocToken::Line { content: "@param int $a".to_string(), span: span(3, 16) };
    assert_eq!(line.span(), span(3, 16));
    assert_eq!(DocToken::EmptyLine { span: span(17, 18) }.span(), span(17, 18));
}

#[test]
fn hard_line_in_document_sequence() {
    let d = Document::Concat(vec![Document::Text("a".to_string()), Document::Line(LineKind::Hard), Document::Text("b".to_string())]);
    assert_eq!(render(&d), "a\nb");
}

#[test]
fn error_messages() {
    assert_eq!(SyntaxError::UnexpectedToken(b'$', TextPosition { offset: 0 }).message(), "Unexpected character '$'");
    assert_eq!(SyntaxError::UnrecognizedToken(b'#', TextPosition { offset: 0 }).message(), "Unrecognized character '#'");
    assert_eq!(SyntaxError::UnexpectedEndOfFile(TextPosition { offset: 0 }).message(), "Unexpected end of input");
    assert_eq!(ParseError::UnexpectedToken(vec![], TypeTokenKind::Pipe, span(0, 1)).message(), "Unexpected token `Pipe`");
    assert_eq!(ParseError::UnexpectedEndOfFile(vec![], TextPosition { offset: 0 }).message(), "Unexpected end of type declaration");
    assert_eq!(ParseError::UnclosedLiteralString(span(0, 1)).message(), "Unclosed string literal in type");
}

#[test]
fn call_like_node_hugs_a_closure() {
    let mut f = state();
    let callee = Expression::Identifier("foo".to_string());
    let name = String::new();
    let closure = Expression::Closure(vec![], vec![Statement::Return(Some(var("x")))]);
    let args = vec![Argument::Positional(false, closure)];
    let node = CallLikeNode::Call(CallKind::Function, &callee, &name, &args);
    assert_eq!(render(&print_call_like_node(&mut f, node)), "foo(function () {\n    return $x;\n})");
}

#[test]
fn printed_modifier_order_is_stable() {
    let f = state();
    let first = print_modifiers(&f, &vec![Modifier::Readonly, Modifier::Static, Modifier::Final, Modifier::Protected]);
    let again = print_modifiers(&f, &vec![Modifier::Final, Modifier::Protected, Modifier::Static, Modifier::Readonly]);
    assert_eq!(words(&first), words(&again));
}

#[test]
fn literal_line_drops_trailing_spaces() {
    let d = Document::Concat(vec![Document::Text("a ".to_string()), Document::Line(LineKind::Literal), Document::Text("b".to_string())]);
    assert_eq!(render(&d), "a\nb");
}
