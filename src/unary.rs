use vstd::prelude::*;

use crate::operator::{BANG_PRECEDENCE, PREFIX_PRECEDENCE, UnaryPrefixOperator, precedence_of};
use crate::operator::BinaryOperator;
use crate::type_token::Span;

verus! {

/// Kinds of PHP tokens that can open a prefix operation, and a few others.
#[derive(Clone, Copy, Debug, PartialEq, Eq, Structural)]
pub enum TokenKind {
    ArrayCast,
    BoolCast,
    BooleanCast,
    DoubleCast,
    RealCast,
    FloatCast,
    IntCast,
    IntegerCast,
    ObjectCast,
    UnsetCast,
    BinaryCast,
    StringCast,
    VoidCast,
    At,
    Bang,
    Tilde,
    Minus,
    Plus,
    PlusPlus,
    MinusMinus,
    Ampersand,
    Variable,
    Identifier,
    LiteralInteger,
    LeftParenthesis,
    RightParenthesis,
    Semicolon,
}

#[derive(Clone, Copy, Debug, PartialEq, Eq, Structural)]
pub struct Token {
    pub kind: TokenKind,
    pub span: Span,
}

/// An error of the expression parser.
#[derive(Debug)]
pub enum TokenError {
    /// The input ended where one of these kinds was expected.
    UnexpectedEndOfFile(Vec<TokenKind>),
    /// One of the expected kinds, the kind found, and where.
    UnexpectedToken(Vec<TokenKind>, TokenKind, Span),
}

pub open spec fn prefix_operator_of(k: TokenKind) -> Option<UnaryPrefixOperator> {
    match k {
        TokenKind::ArrayCast => Some(UnaryPrefixOperator::ArrayCast),
        TokenKind::BoolCast => Some(UnaryPrefixOperator::BoolCast),
        TokenKind::BooleanCast => Some(UnaryPrefixOperator::BooleanCast),
        TokenKind::DoubleCast => Some(UnaryPrefixOperator::DoubleCast),
        TokenKind::RealCast => Some(UnaryPrefixOperator::RealCast),
        TokenKind::FloatCast => Some(UnaryPrefixOperator::FloatCast),
        TokenKind::IntCast => Some(UnaryPrefixOperator::IntCast),
        TokenKind::IntegerCast => Some(UnaryPrefixOperator::IntegerCast),
        TokenKind::ObjectCast => Some(UnaryPrefixOperator::ObjectCast),
        TokenKind::UnsetCast => Some(UnaryPrefixOperator::UnsetCast),
        TokenKind::BinaryCast => Some(UnaryPrefixOperator::BinaryCast),
        TokenKind::StringCast => Some(UnaryPrefixOperator::StringCast),
        TokenKind::VoidCast => Some(UnaryPrefixOperator::VoidCast),
        TokenKind::At => Some(UnaryPrefixOperator::ErrorControl),
        TokenKind::Bang => Some(UnaryPrefixOperator::Not),
        TokenKind::Tilde => Some(UnaryPrefixOperator::BitwiseNot),
        TokenKind::Minus => Some(UnaryPrefixOperator::Negation),
        TokenKind::Plus => Some(UnaryPrefixOperator::Plus),
        TokenKind::PlusPlus => Some(UnaryPrefixOperator::PreIncrement),
        TokenKind::MinusMinus => Some(UnaryPrefixOperator::PreDecrement),
        TokenKind::Ampersand => Some(UnaryPrefixOperator::Reference),
        _ => None,
    }
}

/// The precedence at which the operand of a prefix operator is parsed:
/// that of `!` for `!`, of `&` for a reference, of the prefix operators
/// otherwise.
pub open spec fn operand_precedence(op: UnaryPrefixOperator) -> u8 {
    if op == UnaryPrefixOperator::Not {
        BANG_PRECEDENCE
    } else if op == UnaryPrefixOperator::Reference {
        precedence_of(BinaryOperator::BitwiseAnd)
    } else {
        PREFIX_PRECEDENCE
    }
}

/// The kinds that open a prefix operation, in the order an error lists them.
pub open spec fn prefix_kinds() -> Seq<TokenKind> {
    seq![
        TokenKind::ArrayCast,
        TokenKind::BoolCast,
        TokenKind::BooleanCast,
        TokenKind::DoubleCast,
        TokenKind::RealCast,
        TokenKind::FloatCast,
        TokenKind::IntCast,
        TokenKind::IntegerCast,
        TokenKind::ObjectCast,
        TokenKind::UnsetCast,
        TokenKind::BinaryCast,
        TokenKind::StringCast,
        TokenKind::At,
        TokenKind::Bang,
        TokenKind::Tilde,
        TokenKind::Minus,
        TokenKind::Plus,
        TokenKind::PlusPlus,
        TokenKind::MinusMinus,
        TokenKind::Ampersand,
    ]
}

fn prefix_kind_list() -> (r: Vec<TokenKind>)
    ensures
        r@ == prefix_kinds(),
{
    let r = vec![
        TokenKind::ArrayCast,
        TokenKind::BoolCast,
        TokenKind::BooleanCast,
        TokenKind::DoubleCast,
        TokenKind::RealCast,
        TokenKind::FloatCast,
        TokenKind::IntCast,
        TokenKind::IntegerCast,
        TokenKind::ObjectCast,
        TokenKind::UnsetCast,
        TokenKind::BinaryCast,
        TokenKind::StringCast,
        TokenKind::At,
        TokenKind::Bang,
        TokenKind::Tilde,
        TokenKind::Minus,
        TokenKind::Plus,
        TokenKind::PlusPlus,
        TokenKind::MinusMinus,
        TokenKind::Ampersand,
    ];
    proof {
        assert(r@ =~= prefix_kinds());
    }
    r
}

/// Reads the operator of a prefix operation from its first token (`None`
/// at the end of input), with the precedence at which its operand is then
/// parsed.
pub fn parse_unary_prefix_operation(token: Option<Token>) -> (r: Result<
    (UnaryPrefixOperator, u8),
    TokenError,
>)
    ensures
        token is None ==> (r matches Err(TokenError::UnexpectedEndOfFile(expected)) && expected@
            == prefix_kinds()),
        token matches Some(t) ==> match prefix_operator_of(t.kind) {
            Some(op) => r == Ok::<(UnaryPrefixOperator, u8), TokenError>((op, operand_precedence(op))),
            None => r matches Err(TokenError::UnexpectedToken(expected, found, span)) && expected@
                == prefix_kinds() && found == t.kind && span == t.span,
        },
{
    let token = match token {
        Some(t) => t,
        None => {
            return Err(TokenError::UnexpectedEndOfFile(prefix_kind_list()));
        },
    };
    let mut precedence = PREFIX_PRECEDENCE;
    let operator = match token.kind {
        TokenKind::ArrayCast => UnaryPrefixOperator::ArrayCast,
        TokenKind::BoolCast => UnaryPrefixOperator::BoolCast,
        TokenKind::BooleanCast => UnaryPrefixOperator::BooleanCast,
        TokenKind::DoubleCast => UnaryPrefixOperator::DoubleCast,
        TokenKind::RealCast => UnaryPrefixOperator::RealCast,
        TokenKind::FloatCast => UnaryPrefixOperator::FloatCast,
        TokenKind::IntCast => UnaryPrefixOperator::IntCast,
        TokenKind::IntegerCast => UnaryPrefixOperator::IntegerCast,
        TokenKind::ObjectCast => UnaryPrefixOperator::ObjectCast,
        TokenKind::UnsetCast => UnaryPrefixOperator::UnsetCast,
        TokenKind::BinaryCast => UnaryPrefixOperator::BinaryCast,
        TokenKind::StringCast => UnaryPrefixOperator::StringCast,
        TokenKind::VoidCast => UnaryPrefixOperator::VoidCast,
        TokenKind::At => UnaryPrefixOperator::ErrorControl,
        TokenKind::Bang => {
            precedence = BANG_PRECEDENCE;
            UnaryPrefixOperator::Not
        },
        TokenKind::Tilde => UnaryPrefixOperator::BitwiseNot,
        TokenKind::Minus => UnaryPrefixOperator::Negation,
        TokenKind::Plus => UnaryPrefixOperator::Plus,
        TokenKind::PlusPlus => UnaryPrefixOperator::PreIncrement,
        TokenKind::MinusMinus => UnaryPrefixOperator::PreDecrement,
        TokenKind::Ampersand => {
            precedence = BinaryOperator::BitwiseAnd.precedence();
            UnaryPrefixOperator::Reference
        },
        _ => {
            return Err(TokenError::UnexpectedToken(prefix_kind_list(), token.kind, token.span));
        },
    };
    Ok((operator, precedence))
}

} // verus!
