use vstd::prelude::*;

use crate::operator::{BinaryOperator, UnaryPrefixOperator};

verus! {

#[derive(Debug)]
pub enum Literal {
    Integer(String),
    Float(String),
    String(String),
    True,
    False,
    Null,
}

#[derive(Clone, Copy, Debug, PartialEq, Eq, Structural)]
pub enum UnaryPostfixOperator {
    PostIncrement,
    PostDecrement,
}

/// The four shapes of a call, by what stands before the argument list.
#[derive(Clone, Copy, Debug, PartialEq, Eq, Structural)]
pub enum CallKind {
    /// `f(...)`
    Function,
    /// `$object->method(...)`
    Method,
    /// `$object?->method(...)`
    NullSafeMethod,
    /// `Class::method(...)`
    StaticMethod,
}

/// The four shapes of a member access.
#[derive(Clone, Copy, Debug, PartialEq, Eq, Structural)]
pub enum AccessKind {
    /// `$object->property`
    Property,
    /// `$object?->property`
    NullSafeProperty,
    /// `Class::$property`
    StaticProperty,
    /// `Class::CONSTANT`
    ClassConstant,
}

#[derive(Debug)]
pub enum Argument {
    /// A value, with `...` in front when the flag is set.
    Positional(bool, Expression),
    /// `name: value`
    Named(String, Expression),
}

#[derive(Debug)]
pub enum ArrayElement {
    Value(Expression),
    KeyValue(Expression, Expression),
    /// `...$values`
    Variadic(Expression),
}

#[derive(Debug)]
pub enum Statement {
    Expression(Expression),
    Return(Option<Expression>),
    Echo(Vec<Expression>),
    Block(Vec<Statement>),
    /// `if (condition) statement`
    If(Expression, Box<Statement>),
    /// `do statement while (condition);`
    DoWhile(Box<Statement>, Expression),
    /// A lone `;`.
    Noop,
    OpeningTag,
    ClosingTag,
}

/// An expression of PHP.
#[derive(Debug)]
pub enum Expression {
    Literal(Literal),
    /// A direct variable; the name is held without its `$`.
    Variable(String),
    Identifier(String),
    ConstantAccess(String),
    MagicConstant(String),
    Static,
    Self_,
    Parent,
    Binary(Box<Expression>, BinaryOperator, Box<Expression>),
    UnaryPrefix(UnaryPrefixOperator, Box<Expression>),
    UnaryPostfix(Box<Expression>, UnaryPostfixOperator),
    /// Parentheses written in the source.
    Parenthesized(Box<Expression>),
    /// `condition ? then : else`, or `condition ?: else` without `then`.
    Conditional(Box<Expression>, Option<Box<Expression>>, Box<Expression>),
    Assignment(Box<Expression>, Box<Expression>),
    Pipe(Box<Expression>, Box<Expression>),
    /// The callee (the function, object or class), the method name (empty
    /// for a function call) and the arguments.
    Call(CallKind, Box<Expression>, String, Vec<Argument>),
    Access(AccessKind, Box<Expression>, String),
    ArrayAccess(Box<Expression>, Box<Expression>),
    /// `$array[]`
    ArrayAppend(Box<Expression>),
    Array(Vec<ArrayElement>),
    LegacyArray(Vec<ArrayElement>),
    List(Vec<ArrayElement>),
    /// `new Class(arguments)`; no argument list when the parentheses are left out.
    Instantiation(Box<Expression>, Option<Vec<Argument>>),
    /// Parameter names and body.
    Closure(Vec<String>, Vec<Statement>),
    /// Parameter names and the returned expression.
    ArrowFunction(Vec<String>, Box<Expression>),
    /// `strlen(...)`, `$object->method(...)`: what stands before, and the method name.
    ClosureCreation(CallKind, Box<Expression>, String),
    AnonymousClass(Option<Vec<Argument>>),
    /// The subject and the arms, each with its conditions and result.
    Match(Box<Expression>, Vec<MatchArm>),
    Construct(Construct),
    /// An expression with the comments attached before and after it.
    Commented(Box<Expression>, Option<String>, Option<String>),
}

/// `conditions => result`
#[derive(Debug)]
pub struct MatchArm {
    pub conditions: Vec<Expression>,
    pub result: Expression,
}

#[derive(Debug)]
pub struct IssetConstruct {
    pub values: Vec<Expression>,
}

#[derive(Debug)]
pub struct EmptyConstruct {
    pub value: Box<Expression>,
}

#[derive(Debug)]
pub struct EvalConstruct {
    pub value: Box<Expression>,
}

#[derive(Debug)]
pub struct IncludeConstruct {
    pub value: Box<Expression>,
}

#[derive(Debug)]
pub struct IncludeOnceConstruct {
    pub value: Box<Expression>,
}

#[derive(Debug)]
pub struct RequireConstruct {
    pub value: Box<Expression>,
}

#[derive(Debug)]
pub struct RequireOnceConstruct {
    pub value: Box<Expression>,
}

#[derive(Debug)]
pub struct PrintConstruct {
    pub value: Box<Expression>,
}

#[derive(Debug)]
pub struct ExitConstruct {
    pub arguments: Option<Vec<Argument>>,
}

#[derive(Debug)]
pub struct DieConstruct {
    pub arguments: Option<Vec<Argument>>,
}

/// The language constructs that read like functions.
#[derive(Debug)]
pub enum Construct {
    Isset(IssetConstruct),
    Empty(EmptyConstruct),
    Eval(EvalConstruct),
    Include(IncludeConstruct),
    IncludeOnce(IncludeOnceConstruct),
    Require(RequireConstruct),
    RequireOnce(RequireOnceConstruct),
    Print(PrintConstruct),
    Exit(ExitConstruct),
    Die(DieConstruct),
}

/// The file-loading constructs.
pub open spec fn import_construct(c: Construct) -> bool {
    c is Include || c is IncludeOnce || c is Require || c is RequireOnce
}

/// Constructs whose operand is delimited by their own parentheses; the
/// others (`include`, `require`, `print` and their kin) take an open-ended
/// expression.
pub open spec fn bounded_construct(c: Construct) -> bool {
    !(import_construct(c) || c is Print)
}

impl Construct {
    pub fn is_import(&self) -> (r: bool)
        ensures
            r == import_construct(*self),
    {
        matches!(
            self,
            Construct::Include(_) | Construct::IncludeOnce(_) | Construct::Require(_)
                | Construct::RequireOnce(_)
        )
    }

    pub fn has_bounds(&self) -> (r: bool)
        ensures
            r == bounded_construct(*self),
    {
        !matches!(
            self,
            Construct::Include(_) | Construct::IncludeOnce(_) | Construct::Require(_)
                | Construct::RequireOnce(_) | Construct::Print(_)
        )
    }
}

} // verus!
