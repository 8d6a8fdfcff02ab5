use vstd::prelude::*;

verus! {

/// Binary operators of PHP.
#[derive(Clone, Copy, Debug, PartialEq, Eq, Structural)]
pub enum BinaryOperator {
    Addition,
    Subtraction,
    Multiplication,
    Division,
    Modulo,
    Exponentiation,
    BitwiseAnd,
    BitwiseOr,
    BitwiseXor,
    LeftShift,
    RightShift,
    NullCoalesce,
    Equal,
    NotEqual,
    Identical,
    NotIdentical,
    AngledNotEqual,
    LessThan,
    LessThanOrEqual,
    GreaterThan,
    GreaterThanOrEqual,
    Spaceship,
    StringConcat,
    Instanceof,
    And,
    Or,
    LowAnd,
    LowOr,
    LowXor,
    Elvis,
}

/// How operators of one precedence level group when chained.
#[derive(Clone, Copy, Debug, PartialEq, Eq, Structural)]
pub enum Associativity {
    Left,
    Right,
    NonAssociative,
}

/// Binding strength of the pipe operator `|>`: below string concatenation,
/// above the comparisons.
pub const PIPE_PRECEDENCE: u8 = 15;

/// Binding strength of the prefix operators (casts, `@`, `~`, `-`, `++`).
pub const PREFIX_PRECEDENCE: u8 = 22;

/// Binding strength of `!`.
pub const BANG_PRECEDENCE: u8 = 20;

pub open spec fn precedence_of(op: BinaryOperator) -> u8 {
    match op {
        BinaryOperator::Exponentiation => 23,
        BinaryOperator::Instanceof => 21,
        BinaryOperator::Multiplication | BinaryOperator::Division | BinaryOperator::Modulo => 19,
        BinaryOperator::Addition | BinaryOperator::Subtraction => 18,
        BinaryOperator::LeftShift | BinaryOperator::RightShift => 17,
        BinaryOperator::StringConcat => 16,
        BinaryOperator::LessThan
        | BinaryOperator::LessThanOrEqual
        | BinaryOperator::GreaterThan
        | BinaryOperator::GreaterThanOrEqual => 14,
        BinaryOperator::Equal
        | BinaryOperator::NotEqual
        | BinaryOperator::Identical
        | BinaryOperator::NotIdentical
        | BinaryOperator::AngledNotEqual
        | BinaryOperator::Spaceship => 13,
        BinaryOperator::BitwiseAnd => 12,
        BinaryOperator::BitwiseXor => 11,
        BinaryOperator::BitwiseOr => 10,
        BinaryOperator::And => 9,
        BinaryOperator::Or => 8,
        BinaryOperator::NullCoalesce => 7,
        BinaryOperator::Elvis => 6,
        BinaryOperator::LowAnd => 2,
        BinaryOperator::LowXor => 1,
        BinaryOperator::LowOr => 0,
    }
}

pub open spec fn associativity_of(op: BinaryOperator) -> Associativity {
    match op {
        BinaryOperator::Exponentiation | BinaryOperator::NullCoalesce => Associativity::Right,
        BinaryOperator::LessThan
        | BinaryOperator::LessThanOrEqual
        | BinaryOperator::GreaterThan
        | BinaryOperator::GreaterThanOrEqual
        | BinaryOperator::Equal
        | BinaryOperator::NotEqual
        | BinaryOperator::Identical
        | BinaryOperator::NotIdentical
        | BinaryOperator::AngledNotEqual
        | BinaryOperator::Spaceship
        | BinaryOperator::Instanceof => Associativity::NonAssociative,
        _ => Associativity::Left,
    }
}

pub open spec fn arithmetic(op: BinaryOperator) -> bool {
    matches!(
        op,
        BinaryOperator::Addition | BinaryOperator::Subtraction | BinaryOperator::Multiplication
            | BinaryOperator::Division | BinaryOperator::Modulo | BinaryOperator::Exponentiation
    )
}

pub open spec fn bitwise(op: BinaryOperator) -> bool {
    matches!(
        op,
        BinaryOperator::BitwiseAnd | BinaryOperator::BitwiseOr | BinaryOperator::BitwiseXor
            | BinaryOperator::LeftShift | BinaryOperator::RightShift
    )
}

pub open spec fn bit_shift(op: BinaryOperator) -> bool {
    matches!(op, BinaryOperator::LeftShift | BinaryOperator::RightShift)
}

pub open spec fn equality(op: BinaryOperator) -> bool {
    matches!(
        op,
        BinaryOperator::Equal | BinaryOperator::NotEqual | BinaryOperator::Identical
            | BinaryOperator::NotIdentical | BinaryOperator::AngledNotEqual
    )
}

pub open spec fn comparison(op: BinaryOperator) -> bool {
    equality(op) || matches!(
        op,
        BinaryOperator::LessThan | BinaryOperator::LessThanOrEqual | BinaryOperator::GreaterThan
            | BinaryOperator::GreaterThanOrEqual | BinaryOperator::Spaceship
    )
}

pub open spec fn logical(op: BinaryOperator) -> bool {
    matches!(
        op,
        BinaryOperator::And | BinaryOperator::Or | BinaryOperator::LowAnd | BinaryOperator::LowOr
            | BinaryOperator::LowXor
    )
}

pub open spec fn low_precedence(op: BinaryOperator) -> bool {
    matches!(op, BinaryOperator::LowAnd | BinaryOperator::LowOr | BinaryOperator::LowXor)
}

pub open spec fn multiplicative(op: BinaryOperator) -> bool {
    matches!(op, BinaryOperator::Multiplication | BinaryOperator::Division)
}

/// Whether a child operation `op` under a parent operation `parent` of the
/// same precedence may go without parentheses.
pub open spec fn flattens(op: BinaryOperator, parent: BinaryOperator) -> bool {
    &&& !low_precedence(op)
    &&& precedence_of(op) == precedence_of(parent)
    &&& parent != BinaryOperator::Exponentiation
    &&& !(equality(op) && equality(parent))
    &&& !(op == BinaryOperator::Modulo && multiplicative(parent))
    &&& !(multiplicative(op) && parent == BinaryOperator::Modulo)
    &&& !(multiplicative(op) && multiplicative(parent) && op != parent)
    &&& !(bit_shift(op) && bit_shift(parent))
}

/// The operator as written in source.
pub open spec fn binary_text(op: BinaryOperator) -> Seq<char> {
    match op {
        BinaryOperator::Addition => "+"@,
        BinaryOperator::Subtraction => "-"@,
        BinaryOperator::Multiplication => "*"@,
        BinaryOperator::Division => "/"@,
        BinaryOperator::Modulo => "%"@,
        BinaryOperator::Exponentiation => "**"@,
        BinaryOperator::BitwiseAnd => "&"@,
        BinaryOperator::BitwiseOr => "|"@,
        BinaryOperator::BitwiseXor => "^"@,
        BinaryOperator::LeftShift => "<<"@,
        BinaryOperator::RightShift => ">>"@,
        BinaryOperator::NullCoalesce => "??"@,
        BinaryOperator::Equal => "=="@,
        BinaryOperator::NotEqual => "!="@,
        BinaryOperator::Identical => "==="@,
        BinaryOperator::NotIdentical => "!=="@,
        BinaryOperator::AngledNotEqual => "<>"@,
        BinaryOperator::LessThan => "<"@,
        BinaryOperator::LessThanOrEqual => "<="@,
        BinaryOperator::GreaterThan => ">"@,
        BinaryOperator::GreaterThanOrEqual => ">="@,
        BinaryOperator::Spaceship => "<=>"@,
        BinaryOperator::StringConcat => "."@,
        BinaryOperator::Instanceof => "instanceof"@,
        BinaryOperator::And => "&&"@,
        BinaryOperator::Or => "||"@,
        BinaryOperator::LowAnd => "and"@,
        BinaryOperator::LowOr => "or"@,
        BinaryOperator::LowXor => "xor"@,
        BinaryOperator::Elvis => "?:"@,
    }
}

impl BinaryOperator {
    pub fn precedence(&self) -> (r: u8)
        ensures
            r == precedence_of(*self),
    {
        match self {
            BinaryOperator::Exponentiation => 23,
            BinaryOperator::Instanceof => 21,
            BinaryOperator::Multiplication | BinaryOperator::Division | BinaryOperator::Modulo => 19,
            BinaryOperator::Addition | BinaryOperator::Subtraction => 18,
            BinaryOperator::LeftShift | BinaryOperator::RightShift => 17,
            BinaryOperator::StringConcat => 16,
            BinaryOperator::LessThan
            | BinaryOperator::LessThanOrEqual
            | BinaryOperator::GreaterThan
            | BinaryOperator::GreaterThanOrEqual => 14,
            BinaryOperator::Equal
            | BinaryOperator::NotEqual
            | BinaryOperator::Identical
            | BinaryOperator::NotIdentical
            | BinaryOperator::AngledNotEqual
            | BinaryOperator::Spaceship => 13,
            BinaryOperator::BitwiseAnd => 12,
            BinaryOperator::BitwiseXor => 11,
            BinaryOperator::BitwiseOr => 10,
            BinaryOperator::And => 9,
            BinaryOperator::Or => 8,
            BinaryOperator::NullCoalesce => 7,
            BinaryOperator::Elvis => 6,
            BinaryOperator::LowAnd => 2,
            BinaryOperator::LowXor => 1,
            BinaryOperator::LowOr => 0,
        }
    }

    pub fn is_arithmetic(&self) -> (r: bool)
        ensures
            r == arithmetic(*self),
    {
        matches!(
            self,
            BinaryOperator::Addition | BinaryOperator::Subtraction | BinaryOperator::Multiplication
                | BinaryOperator::Division | BinaryOperator::Modulo | BinaryOperator::Exponentiation
        )
    }

    pub fn is_bitwise(&self) -> (r: bool)
        ensures
            r == bitwise(*self),
    {
        matches!(
            self,
            BinaryOperator::BitwiseAnd | BinaryOperator::BitwiseOr | BinaryOperator::BitwiseXor
                | BinaryOperator::LeftShift | BinaryOperator::RightShift
        )
    }

    pub fn is_bit_shift(&self) -> (r: bool)
        ensures
            r == bit_shift(*self),
    {
        matches!(self, BinaryOperator::LeftShift | BinaryOperator::RightShift)
    }

    pub fn is_equality(&self) -> (r: bool)
        ensures
            r == equality(*self),
    {
        matches!(
            self,
            BinaryOperator::Equal | BinaryOperator::NotEqual | BinaryOperator::Identical
                | BinaryOperator::NotIdentical | BinaryOperator::AngledNotEqual
        )
    }

    pub fn is_comparison(&self) -> (r: bool)
        ensures
            r == comparison(*self),
    {
        self.is_equality() || matches!(
            self,
            BinaryOperator::LessThan | BinaryOperator::LessThanOrEqual | BinaryOperator::GreaterThan
                | BinaryOperator::GreaterThanOrEqual | BinaryOperator::Spaceship
        )
    }

    pub fn is_logical(&self) -> (r: bool)
        ensures
            r == logical(*self),
    {
        matches!(
            self,
            BinaryOperator::And | BinaryOperator::Or | BinaryOperator::LowAnd | BinaryOperator::LowOr
                | BinaryOperator::LowXor
        )
    }

    pub fn is_low_precedence(&self) -> (r: bool)
        ensures
            r == low_precedence(*self),
    {
        matches!(self, BinaryOperator::LowAnd | BinaryOperator::LowOr | BinaryOperator::LowXor)
    }

    pub fn is_multiplicative(&self) -> (r: bool)
        ensures
            r == multiplicative(*self),
    {
        matches!(self, BinaryOperator::Multiplication | BinaryOperator::Division)
    }

    pub fn is_concatenation(&self) -> (r: bool)
        ensures
            r == (*self == BinaryOperator::StringConcat),
    {
        matches!(self, BinaryOperator::StringConcat)
    }

    pub fn is_same_as(&self, other: &BinaryOperator) -> (r: bool)
        ensures
            r == (*self == *other),
    {
        *self == *other
    }

    pub fn associativity(&self) -> (r: Associativity)
        ensures
            r == associativity_of(*self),
    {
        match self {
            BinaryOperator::Exponentiation | BinaryOperator::NullCoalesce => Associativity::Right,
            BinaryOperator::LessThan
            | BinaryOperator::LessThanOrEqual
            | BinaryOperator::GreaterThan
            | BinaryOperator::GreaterThanOrEqual
            | BinaryOperator::Equal
            | BinaryOperator::NotEqual
            | BinaryOperator::Identical
            | BinaryOperator::NotIdentical
            | BinaryOperator::AngledNotEqual
            | BinaryOperator::Spaceship
            | BinaryOperator::Instanceof => Associativity::NonAssociative,
            _ => Associativity::Left,
        }
    }

    pub fn as_str(&self) -> (r: &'static str)
        ensures
            r@ == binary_text(*self),
    {
        match self {
            BinaryOperator::Addition => "+",
            BinaryOperator::Subtraction => "-",
            BinaryOperator::Multiplication => "*",
            BinaryOperator::Division => "/",
            BinaryOperator::Modulo => "%",
            BinaryOperator::Exponentiation => "**",
            BinaryOperator::BitwiseAnd => "&",
            BinaryOperator::BitwiseOr => "|",
            BinaryOperator::BitwiseXor => "^",
            BinaryOperator::LeftShift => "<<",
            BinaryOperator::RightShift => ">>",
            BinaryOperator::NullCoalesce => "??",
            BinaryOperator::Equal => "==",
            BinaryOperator::NotEqual => "!=",
            BinaryOperator::Identical => "===",
            BinaryOperator::NotIdentical => "!==",
            BinaryOperator::AngledNotEqual => "<>",
            BinaryOperator::LessThan => "<",
            BinaryOperator::LessThanOrEqual => "<=",
            BinaryOperator::GreaterThan => ">",
            BinaryOperator::GreaterThanOrEqual => ">=",
            BinaryOperator::Spaceship => "<=>",
            BinaryOperator::StringConcat => ".",
            BinaryOperator::Instanceof => "instanceof",
            BinaryOperator::And => "&&",
            BinaryOperator::Or => "||",
            BinaryOperator::LowAnd => "and",
            BinaryOperator::LowOr => "or",
            BinaryOperator::LowXor => "xor",
            BinaryOperator::Elvis => "?:",
        }
    }
}

/// Whether a binary child under a binary parent with the same precedence may
/// go without parentheses: never for keyword operators, for a right
/// associative parent (`**`), for chained equalities, for mixed `*`, `/` and
/// `%`, or for chained shifts.
pub fn should_flatten(op: &BinaryOperator, parent: &BinaryOperator) -> (r: bool)
    ensures
        r == flattens(*op, *parent),
{
    if op.is_low_precedence() {
        return false;
    }
    if op.precedence() != parent.precedence() {
        return false;
    }
    if *parent == BinaryOperator::Exponentiation {
        return false;
    }
    if op.is_equality() && parent.is_equality() {
        return false;
    }
    if (*op == BinaryOperator::Modulo && parent.is_multiplicative()) || (op.is_multiplicative()
        && *parent == BinaryOperator::Modulo) {
        return false;
    }
    if op.is_multiplicative() && parent.is_multiplicative() && !op.is_same_as(parent) {
        return false;
    }
    if op.is_bit_shift() && parent.is_bit_shift() {
        return false;
    }
    true
}

/// Prefix operators of PHP.
#[derive(Clone, Copy, Debug, PartialEq, Eq, Structural)]
pub enum UnaryPrefixOperator {
    ArrayCast,
    BoolCast,
    BooleanCast,
    DoubleCast,
    RealCast,
    FloatCast,
    IntCast,
    IntegerCast,
    ObjectCast,
    UnsetCast,
    BinaryCast,
    StringCast,
    VoidCast,
    ErrorControl,
    Not,
    BitwiseNot,
    Negation,
    Plus,
    PreIncrement,
    PreDecrement,
    Reference,
}

pub open spec fn cast(op: UnaryPrefixOperator) -> bool {
    matches!(
        op,
        UnaryPrefixOperator::ArrayCast | UnaryPrefixOperator::BoolCast
            | UnaryPrefixOperator::BooleanCast | UnaryPrefixOperator::DoubleCast
            | UnaryPrefixOperator::RealCast | UnaryPrefixOperator::FloatCast
            | UnaryPrefixOperator::IntCast | UnaryPrefixOperator::IntegerCast
            | UnaryPrefixOperator::ObjectCast | UnaryPrefixOperator::UnsetCast
            | UnaryPrefixOperator::BinaryCast | UnaryPrefixOperator::StringCast
            | UnaryPrefixOperator::VoidCast
    )
}

/// The prefix operator as written in source, a cast with the space after it.
pub open spec fn prefix_text(op: UnaryPrefixOperator) -> Seq<char> {
    match op {
        UnaryPrefixOperator::ArrayCast => "(array) "@,
        UnaryPrefixOperator::BoolCast => "(bool) "@,
        UnaryPrefixOperator::BooleanCast => "(boolean) "@,
        UnaryPrefixOperator::DoubleCast => "(double) "@,
        UnaryPrefixOperator::RealCast => "(real) "@,
        UnaryPrefixOperator::FloatCast => "(float) "@,
        UnaryPrefixOperator::IntCast => "(int) "@,
        UnaryPrefixOperator::IntegerCast => "(integer) "@,
        UnaryPrefixOperator::ObjectCast => "(object) "@,
        UnaryPrefixOperator::UnsetCast => "(unset) "@,
        UnaryPrefixOperator::BinaryCast => "(binary) "@,
        UnaryPrefixOperator::StringCast => "(string) "@,
        UnaryPrefixOperator::VoidCast => "(void) "@,
        UnaryPrefixOperator::ErrorControl => "@"@,
        UnaryPrefixOperator::Not => "!"@,
        UnaryPrefixOperator::BitwiseNot => "~"@,
        UnaryPrefixOperator::Negation => "-"@,
        UnaryPrefixOperator::Plus => "+"@,
        UnaryPrefixOperator::PreIncrement => "++"@,
        UnaryPrefixOperator::PreDecrement => "--"@,
        UnaryPrefixOperator::Reference => "&"@,
    }
}

impl UnaryPrefixOperator {
    pub fn is_cast(&self) -> (r: bool)
        ensures
            r == cast(*self),
    {
        matches!(
            self,
            UnaryPrefixOperator::ArrayCast | UnaryPrefixOperator::BoolCast
                | UnaryPrefixOperator::BooleanCast | UnaryPrefixOperator::DoubleCast
                | UnaryPrefixOperator::RealCast | UnaryPrefixOperator::FloatCast
                | UnaryPrefixOperator::IntCast | UnaryPrefixOperator::IntegerCast
                | UnaryPrefixOperator::ObjectCast | UnaryPrefixOperator::UnsetCast
                | UnaryPrefixOperator::BinaryCast | UnaryPrefixOperator::StringCast
                | UnaryPrefixOperator::VoidCast
        )
    }

    pub fn is_error_control(&self) -> (r: bool)
        ensures
            r == (*self == UnaryPrefixOperator::ErrorControl),
    {
        matches!(self, UnaryPrefixOperator::ErrorControl)
    }

    /// The operator as written in source.
    pub fn as_str(&self) -> (r: &'static str)
        ensures
            r@ == prefix_text(*self),
    {
        match self {
            UnaryPrefixOperator::ArrayCast => "(array) ",
            UnaryPrefixOperator::BoolCast => "(bool) ",
            UnaryPrefixOperator::BooleanCast => "(boolean) ",
            UnaryPrefixOperator::DoubleCast => "(double) ",
            UnaryPrefixOperator::RealCast => "(real) ",
            UnaryPrefixOperator::FloatCast => "(float) ",
            UnaryPrefixOperator::IntCast => "(int) ",
            UnaryPrefixOperator::IntegerCast => "(integer) ",
            UnaryPrefixOperator::ObjectCast => "(object) ",
            UnaryPrefixOperator::UnsetCast => "(unset) ",
            UnaryPrefixOperator::BinaryCast => "(binary) ",
            UnaryPrefixOperator::StringCast => "(string) ",
            UnaryPrefixOperator::VoidCast => "(void) ",
            UnaryPrefixOperator::ErrorControl => "@",
            UnaryPrefixOperator::Not => "!",
            UnaryPrefixOperator::BitwiseNot => "~",
            UnaryPrefixOperator::Negation => "-",
            UnaryPrefixOperator::Plus => "+",
            UnaryPrefixOperator::PreIncrement => "++",
            UnaryPrefixOperator::PreDecrement => "--",
            UnaryPrefixOperator::Reference => "&",
        }
    }
}

} // verus!
