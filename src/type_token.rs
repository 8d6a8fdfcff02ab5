use vstd::prelude::*;

verus! {

/// Kinds of the tokens of PHP's docblock type syntax.
#[derive(Clone, Copy, Debug, PartialEq, Eq, Hash, Structural)]
pub enum TypeTokenKind {
    Int,
    String,
    Float,
    Bool,
    False,
    True,
    Object,
    Callable,
    Array,
    NonEmptyArray,
    NonEmptyString,
    LowercaseString,
    TruthyString,
    Iterable,
    Null,
    Mixed,
    NumericString,
    ClassString,
    InterfaceString,
    TraitString,
    EnumString,
    StringableObject,
    PureCallable,
    PureClosure,
    UnspecifiedLiteralString,
    UnspecifiedLiteralInt,
    NonEmptyUnspecifiedLiteralString,
    Resource,
    Void,
    Scalar,
    Numeric,
    NoReturn,
    NeverReturn,
    NeverReturns,
    Never,
    Nothing,
    ArrayKey,
    List,
    NonEmptyList,
    OpenResource,
    ClosedResource,
    AssociativeArray,
    KeyOf,
    ValueOf,
    Min,
    Max,
    PropertiesOf,
    PublicPropertiesOf,
    PrivatePropertiesOf,
    ProtectedPropertiesOf,
    PositiveInt,
    NegativeInt,
    As,
    Is,
    Not,
    Identifier,
    QualifiedIdentifier,
    FullyQualifiedIdentifier,
    Plus,
    Minus,
    LessThan,
    GreaterThan,
    Pipe,
    Ampersand,
    Question,
    Comma,
    Colon,
    ColonColon,
    LeftBrace,
    RightBrace,
    LeftBracket,
    RightBracket,
    LeftParenthesis,
    RightParenthesis,
    Equals,
    Ellipsis,
    PartialLiteralString,
    LiteralString,
    LiteralInteger,
    LiteralFloat,
    Variable,
    Whitespace,
    SingleLineComment,
}

/// The keywords of the type syntax: the built-in type names and the
/// type operators spelled as words.
pub open spec fn type_keyword(k: TypeTokenKind) -> bool {
    matches!(
        k,
        TypeTokenKind::Int
        | TypeTokenKind::String
        | TypeTokenKind::Float
        | TypeTokenKind::Bool
        | TypeTokenKind::False
        | TypeTokenKind::True
        | TypeTokenKind::Object
        | TypeTokenKind::Callable
        | TypeTokenKind::Array
        | TypeTokenKind::NonEmptyArray
        | TypeTokenKind::NonEmptyString
        | TypeTokenKind::LowercaseString
        | TypeTokenKind::TruthyString
        | TypeTokenKind::Iterable
        | TypeTokenKind::Null
        | TypeTokenKind::Mixed
        | TypeTokenKind::NumericString
        | TypeTokenKind::ClassString
        | TypeTokenKind::InterfaceString
        | TypeTokenKind::TraitString
        | TypeTokenKind::EnumString
        | TypeTokenKind::StringableObject
        | TypeTokenKind::PureCallable
        | TypeTokenKind::PureClosure
        | TypeTokenKind::UnspecifiedLiteralString
        | TypeTokenKind::NonEmptyUnspecifiedLiteralString
        | TypeTokenKind::Resource
        | TypeTokenKind::Void
        | TypeTokenKind::Scalar
        | TypeTokenKind::Numeric
        | TypeTokenKind::NoReturn
        | TypeTokenKind::NeverReturn
        | TypeTokenKind::NeverReturns
        | TypeTokenKind::Never
        | TypeTokenKind::Nothing
        | TypeTokenKind::ArrayKey
        | TypeTokenKind::List
        | TypeTokenKind::NonEmptyList
        | TypeTokenKind::OpenResource
        | TypeTokenKind::ClosedResource
        | TypeTokenKind::AssociativeArray
        | TypeTokenKind::Is
        | TypeTokenKind::As
        | TypeTokenKind::Not
        | TypeTokenKind::KeyOf
        | TypeTokenKind::ValueOf
        | TypeTokenKind::Min
        | TypeTokenKind::Max
        | TypeTokenKind::UnspecifiedLiteralInt
        | TypeTokenKind::PropertiesOf
        | TypeTokenKind::PublicPropertiesOf
        | TypeTokenKind::PrivatePropertiesOf
        | TypeTokenKind::ProtectedPropertiesOf
        | TypeTokenKind::PositiveInt
        | TypeTokenKind::NegativeInt
    )
}

/// The name of each kind, as it reads in messages.
pub open spec fn kind_name(k: TypeTokenKind) -> Seq<char> {
    match k {
        TypeTokenKind::Int => "Int"@,
        TypeTokenKind::String => "String"@,
        TypeTokenKind::Float => "Float"@,
        TypeTokenKind::Bool => "Bool"@,
        TypeTokenKind::False => "False"@,
        TypeTokenKind::True => "True"@,
        TypeTokenKind::Object => "Object"@,
        TypeTokenKind::Callable => "Callable"@,
        TypeTokenKind::Array => "Array"@,
        TypeTokenKind::NonEmptyArray => "NonEmptyArray"@,
        TypeTokenKind::NonEmptyString => "NonEmptyString"@,
        TypeTokenKind::LowercaseString => "LowercaseString"@,
        TypeTokenKind::TruthyString => "TruthyString"@,
        TypeTokenKind::Iterable => "Iterable"@,
        TypeTokenKind::Null => "Null"@,
        TypeTokenKind::Mixed => "Mixed"@,
        TypeTokenKind::NumericString => "NumericString"@,
        TypeTokenKind::ClassString => "ClassString"@,
        TypeTokenKind::InterfaceString => "InterfaceString"@,
        TypeTokenKind::TraitString => "TraitString"@,
        TypeTokenKind::EnumString => "EnumString"@,
        TypeTokenKind::StringableObject => "StringableObject"@,
        TypeTokenKind::PureCallable => "PureCallable"@,
        TypeTokenKind::PureClosure => "PureClosure"@,
        TypeTokenKind::UnspecifiedLiteralString => "UnspecifiedLiteralString"@,
        TypeTokenKind::UnspecifiedLiteralInt => "UnspecifiedLiteralInt"@,
        TypeTokenKind::NonEmptyUnspecifiedLiteralString => "NonEmptyUnspecifiedLiteralString"@,
        TypeTokenKind::Resource => "Resource"@,
        TypeTokenKind::Void => "Void"@,
        TypeTokenKind::Scalar => "Scalar"@,
        TypeTokenKind::Numeric => "Numeric"@,
        TypeTokenKind::NoReturn => "NoReturn"@,
        TypeTokenKind::NeverReturn => "NeverReturn"@,
        TypeTokenKind::NeverReturns => "NeverReturns"@,
        TypeTokenKind::Never => "Never"@,
        TypeTokenKind::Nothing => "Nothing"@,
        TypeTokenKind::ArrayKey => "ArrayKey"@,
        TypeTokenKind::List => "List"@,
        TypeTokenKind::NonEmptyList => "NonEmptyList"@,
        TypeTokenKind::OpenResource => "OpenResource"@,
        TypeTokenKind::ClosedResource => "ClosedResource"@,
        TypeTokenKind::AssociativeArray => "AssociativeArray"@,
        TypeTokenKind::KeyOf => "KeyOf"@,
        TypeTokenKind::ValueOf => "ValueOf"@,
        TypeTokenKind::Min => "Min"@,
        TypeTokenKind::Max => "Max"@,
        TypeTokenKind::PropertiesOf => "PropertiesOf"@,
        TypeTokenKind::PublicPropertiesOf => "PublicPropertiesOf"@,
        TypeTokenKind::PrivatePropertiesOf => "PrivatePropertiesOf"@,
        TypeTokenKind::ProtectedPropertiesOf => "ProtectedPropertiesOf"@,
        TypeTokenKind::PositiveInt => "PositiveInt"@,
        TypeTokenKind::NegativeInt => "NegativeInt"@,
        TypeTokenKind::As => "As"@,
        TypeTokenKind::Is => "Is"@,
        TypeTokenKind::Not => "Not"@,
        TypeTokenKind::Identifier => "Identifier"@,
        TypeTokenKind::QualifiedIdentifier => "QualifiedIdentifier"@,
        TypeTokenKind::FullyQualifiedIdentifier => "FullyQualifiedIdentifier"@,
        TypeTokenKind::Plus => "Plus"@,
        TypeTokenKind::Minus => "Minus"@,
        TypeTokenKind::LessThan => "LessThan"@,
        TypeTokenKind::GreaterThan => "GreaterThan"@,
        TypeTokenKind::Pipe => "Pipe"@,
        TypeTokenKind::Ampersand => "Ampersand"@,
        TypeTokenKind::Question => "Question"@,
        TypeTokenKind::Comma => "Comma"@,
        TypeTokenKind::Colon => "Colon"@,
        TypeTokenKind::ColonColon => "ColonColon"@,
        TypeTokenKind::LeftBrace => "LeftBrace"@,
        TypeTokenKind::RightBrace => "RightBrace"@,
        TypeTokenKind::LeftBracket => "LeftBracket"@,
        TypeTokenKind::RightBracket => "RightBracket"@,
        TypeTokenKind::LeftParenthesis => "LeftParenthesis"@,
        TypeTokenKind::RightParenthesis => "RightParenthesis"@,
        TypeTokenKind::Equals => "Equals"@,
        TypeTokenKind::Ellipsis => "Ellipsis"@,
        TypeTokenKind::PartialLiteralString => "PartialLiteralString"@,
        TypeTokenKind::LiteralString => "LiteralString"@,
        TypeTokenKind::LiteralInteger => "LiteralInteger"@,
        TypeTokenKind::LiteralFloat => "LiteralFloat"@,
        TypeTokenKind::Variable => "Variable"@,
        TypeTokenKind::Whitespace => "Whitespace"@,
        TypeTokenKind::SingleLineComment => "SingleLineComment"@,
    }
}

impl TypeTokenKind {

    pub fn is_trivia(&self) -> (r: bool)
        ensures
            r == (*self == TypeTokenKind::SingleLineComment || *self == TypeTokenKind::Whitespace),
    {
        matches!(self, TypeTokenKind::SingleLineComment | TypeTokenKind::Whitespace)
    }

    pub fn is_simple_identifier(&self) -> (r: bool)
        ensures
            r == (*self == TypeTokenKind::Identifier),
    {
        matches!(self, TypeTokenKind::Identifier)
    }

    pub fn is_identifier(&self) -> (r: bool)
        ensures
            r == (*self == TypeTokenKind::Identifier || *self == TypeTokenKind::QualifiedIdentifier
                || *self == TypeTokenKind::FullyQualifiedIdentifier),
    {
        matches!(
            self,
            TypeTokenKind::Identifier | TypeTokenKind::QualifiedIdentifier
                | TypeTokenKind::FullyQualifiedIdentifier
        )
    }

    pub fn is_keyword(&self) -> (r: bool)
        ensures
            r == type_keyword(*self),
    {
        matches!(
            self,
            TypeTokenKind::Int
                | TypeTokenKind::String
                | TypeTokenKind::Float
                | TypeTokenKind::Bool
                | TypeTokenKind::False
                | TypeTokenKind::True
                | TypeTokenKind::Object
                | TypeTokenKind::Callable
                | TypeTokenKind::Array
                | TypeTokenKind::NonEmptyArray
                | TypeTokenKind::NonEmptyString
                | TypeTokenKind::LowercaseString
                | TypeTokenKind::TruthyString
                | TypeTokenKind::Iterable
                | TypeTokenKind::Null
                | TypeTokenKind::Mixed
                | TypeTokenKind::NumericString
                | TypeTokenKind::ClassString
                | TypeTokenKind::InterfaceString
                | TypeTokenKind::TraitString
                | TypeTokenKind::EnumString
                | TypeTokenKind::StringableObject
                | TypeTokenKind::PureCallable
                | TypeTokenKind::PureClosure
                | TypeTokenKind::UnspecifiedLiteralString
                | TypeTokenKind::NonEmptyUnspecifiedLiteralString
                | TypeTokenKind::Resource
                | TypeTokenKind::Void
                | TypeTokenKind::Scalar
                | TypeTokenKind::Numeric
                | TypeTokenKind::NoReturn
                | TypeTokenKind::NeverReturn
                | TypeTokenKind::NeverReturns
                | TypeTokenKind::Never
                | TypeTokenKind::Nothing
                | TypeTokenKind::ArrayKey
                | TypeTokenKind::List
                | TypeTokenKind::NonEmptyList
                | TypeTokenKind::OpenResource
                | TypeTokenKind::ClosedResource
                | TypeTokenKind::AssociativeArray
                | TypeTokenKind::Is
                | TypeTokenKind::As
                | TypeTokenKind::Not
                | TypeTokenKind::KeyOf
                | TypeTokenKind::ValueOf
                | TypeTokenKind::Min
                | TypeTokenKind::Max
                | TypeTokenKind::UnspecifiedLiteralInt
                | TypeTokenKind::PropertiesOf
                | TypeTokenKind::PublicPropertiesOf
                | TypeTokenKind::PrivatePropertiesOf
                | TypeTokenKind::ProtectedPropertiesOf
                | TypeTokenKind::PositiveInt
                | TypeTokenKind::NegativeInt
        )
    }

    pub fn is_array_like(&self) -> (r: bool)
        ensures
            r == (*self == TypeTokenKind::Array || *self == TypeTokenKind::NonEmptyArray || *self
                == TypeTokenKind::AssociativeArray || *self == TypeTokenKind::List || *self
                == TypeTokenKind::NonEmptyList),
    {
        matches!(
            self,
            TypeTokenKind::Array | TypeTokenKind::NonEmptyArray | TypeTokenKind::AssociativeArray
                | TypeTokenKind::List | TypeTokenKind::NonEmptyList
        )
    }

    /// The name of the kind.
    pub fn name(&self) -> (r: &'static str)
        ensures
            r@ == kind_name(*self),
    {
        match self {
            TypeTokenKind::Int => "Int",
            TypeTokenKind::String => "String",
            TypeTokenKind::Float => "Float",
            TypeTokenKind::Bool => "Bool",
            TypeTokenKind::False => "False",
            TypeTokenKind::True => "True",
            TypeTokenKind::Object => "Object",
            TypeTokenKind::Callable => "Callable",
            TypeTokenKind::Array => "Array",
            TypeTokenKind::NonEmptyArray => "NonEmptyArray",
            TypeTokenKind::NonEmptyString => "NonEmptyString",
            TypeTokenKind::LowercaseString => "LowercaseString",
            TypeTokenKind::TruthyString => "TruthyString",
            TypeTokenKind::Iterable => "Iterable",
            TypeTokenKind::Null => "Null",
            TypeTokenKind::Mixed => "Mixed",
            TypeTokenKind::NumericString => "NumericString",
            TypeTokenKind::ClassString => "ClassString",
            TypeTokenKind::InterfaceString => "InterfaceString",
            TypeTokenKind::TraitString => "TraitString",
            TypeTokenKind::EnumString => "EnumString",
            TypeTokenKind::StringableObject => "StringableObject",
            TypeTokenKind::PureCallable => "PureCallable",
            TypeTokenKind::PureClosure => "PureClosure",
            TypeTokenKind::UnspecifiedLiteralString => "UnspecifiedLiteralString",
            TypeTokenKind::UnspecifiedLiteralInt => "UnspecifiedLiteralInt",
            TypeTokenKind::NonEmptyUnspecifiedLiteralString => "NonEmptyUnspecifiedLiteralString",
            TypeTokenKind::Resource => "Resource",
            TypeTokenKind::Void => "Void",
            TypeTokenKind::Scalar => "Scalar",
            TypeTokenKind::Numeric => "Numeric",
            TypeTokenKind::NoReturn => "NoReturn",
            TypeTokenKind::NeverReturn => "NeverReturn",
            TypeTokenKind::NeverReturns => "NeverReturns",
            TypeTokenKind::Never => "Never",
            TypeTokenKind::Nothing => "Nothing",
            TypeTokenKind::ArrayKey => "ArrayKey",
            TypeTokenKind::List => "List",
            TypeTokenKind::NonEmptyList => "NonEmptyList",
            TypeTokenKind::OpenResource => "OpenResource",
            TypeTokenKind::ClosedResource => "ClosedResource",
            TypeTokenKind::AssociativeArray => "AssociativeArray",
            TypeTokenKind::KeyOf => "KeyOf",
            TypeTokenKind::ValueOf => "ValueOf",
            TypeTokenKind::Min => "Min",
            TypeTokenKind::Max => "Max",
            TypeTokenKind::PropertiesOf => "PropertiesOf",
            TypeTokenKind::PublicPropertiesOf => "PublicPropertiesOf",
            TypeTokenKind::PrivatePropertiesOf => "PrivatePropertiesOf",
            TypeTokenKind::ProtectedPropertiesOf => "ProtectedPropertiesOf",
            TypeTokenKind::PositiveInt => "PositiveInt",
            TypeTokenKind::NegativeInt => "NegativeInt",
            TypeTokenKind::As => "As",
            TypeTokenKind::Is => "Is",
            TypeTokenKind::Not => "Not",
            TypeTokenKind::Identifier => "Identifier",
            TypeTokenKind::QualifiedIdentifier => "QualifiedIdentifier",
            TypeTokenKind::FullyQualifiedIdentifier => "FullyQualifiedIdentifier",
            TypeTokenKind::Plus => "Plus",
            TypeTokenKind::Minus => "Minus",
            TypeTokenKind::LessThan => "LessThan",
            TypeTokenKind::GreaterThan => "GreaterThan",
            TypeTokenKind::Pipe => "Pipe",
            TypeTokenKind::Ampersand => "Ampersand",
            TypeTokenKind::Question => "Question",
            TypeTokenKind::Comma => "Comma",
            TypeTokenKind::Colon => "Colon",
            TypeTokenKind::ColonColon => "ColonColon",
            TypeTokenKind::LeftBrace => "LeftBrace",
            TypeTokenKind::RightBrace => "RightBrace",
            TypeTokenKind::LeftBracket => "LeftBracket",
            TypeTokenKind::RightBracket => "RightBracket",
            TypeTokenKind::LeftParenthesis => "LeftParenthesis",
            TypeTokenKind::RightParenthesis => "RightParenthesis",
            TypeTokenKind::Equals => "Equals",
            TypeTokenKind::Ellipsis => "Ellipsis",
            TypeTokenKind::PartialLiteralString => "PartialLiteralString",
            TypeTokenKind::LiteralString => "LiteralString",
            TypeTokenKind::LiteralInteger => "LiteralInteger",
            TypeTokenKind::LiteralFloat => "LiteralFloat",
            TypeTokenKind::Variable => "Variable",
            TypeTokenKind::Whitespace => "Whitespace",
            TypeTokenKind::SingleLineComment => "SingleLineComment",
        }
    }
}

/// A place in the source, as a byte offset.
#[derive(Clone, Copy, Debug, PartialEq, Eq, Structural)]
pub struct TextPosition {
    pub offset: u32,
}

/// A range of the source, from `start` to `end`.
#[derive(Clone, Copy, Debug, PartialEq, Eq, Structural)]
pub struct Span {
    pub start: TextPosition,
    pub end: TextPosition,
}

/// A token of the type syntax: its kind, its text and where it stands.
#[derive(Debug)]
pub struct TypeToken {
    pub kind: TypeTokenKind,
    pub value: String,
    pub span: Span,
}

} // verus!
