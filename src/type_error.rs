use vstd::prelude::*;

use crate::printer::collect_string;
use crate::type_token::{Span, TextPosition, TypeTokenKind, kind_name};

verus! {

/// A character-level error of the type lexer.
#[derive(Clone, Copy, Debug, PartialEq, Eq, Structural)]
pub enum SyntaxError {
    UnexpectedToken(u8, TextPosition),
    UnrecognizedToken(u8, TextPosition),
    UnexpectedEndOfFile(TextPosition),
}

/// An error of the type parser.
#[derive(Debug)]
pub enum ParseError {
    SyntaxError(SyntaxError),
    /// The kinds that were expected, and where the input ended.
    UnexpectedEndOfFile(Vec<TypeTokenKind>, TextPosition),
    /// The kinds that were expected, the kind found, and where.
    UnexpectedToken(Vec<TypeTokenKind>, TypeTokenKind, Span),
    UnclosedLiteralString(Span),
}

/// The expected kinds, each in backticks, joined by ` or `.
pub open spec fn expected_list(s: Seq<TypeTokenKind>) -> Seq<char>
    decreases s.len(),
{
    if s.len() == 0 {
        Seq::empty()
    } else if s.len() == 1 {
        "`"@ + kind_name(s[0]) + "`"@
    } else {
        expected_list(s.drop_last()) + " or `"@ + kind_name(s.last()) + "`"@
    }
}

pub open spec fn note_text(e: ParseError) -> Seq<char> {
    match e {
        ParseError::SyntaxError(SyntaxError::UnrecognizedToken(..)) =>
            "An invalid character was found that is not part of any valid type syntax."@,
        ParseError::SyntaxError(_) => "A low-level syntax error occurred while parsing the type string."@,
        ParseError::UnexpectedEndOfFile(expected, _) => if expected@.len() == 0 {
            "The type declaration ended prematurely."@
        } else {
            "The parser reached the end of the input but expected one of: "@ + expected_list(expected@)
                + "."@
        },
        ParseError::UnexpectedToken(expected, _, _) => if expected@.len() == 0 {
            "The parser encountered a token that was not expected at this position."@
        } else {
            "The parser expected one of the following here: "@ + expected_list(expected@) + "."@
        },
        ParseError::UnclosedLiteralString(_) =>
            "String literals within type declarations must be closed with a matching quote."@,
    }
}

pub open spec fn help_text(e: ParseError) -> Seq<char> {
    match e {
        ParseError::SyntaxError(SyntaxError::UnrecognizedToken(..)) => "Remove or replace the invalid character."@,
        ParseError::SyntaxError(_) => "Review the syntax of the type declaration for errors."@,
        ParseError::UnexpectedEndOfFile(..) =>
            "Complete the type declaration. Check for unclosed parentheses `()`, angle brackets `<>`, or curly braces `{}`."@,
        ParseError::UnexpectedToken(..) => "Review the type syntax near the unexpected token."@,
        ParseError::UnclosedLiteralString(_) =>
            "Add a closing quote (`'` or `\"`) to complete the string literal."@,
    }
}

fn expected_string(expected: &Vec<TypeTokenKind>) -> (r: String)
    ensures
        r@ == expected_list(expected@),
{
    let mut out = String::new();
    let mut i: usize = 0;
    while i < expected.len()
        invariant
            i <= expected@.len(),
            out@ == expected_list(expected@.subrange(0, i as int)),
        decreases expected@.len() - i,
    {
        proof {
            assert(expected@.subrange(0, i + 1).drop_last() =~= expected@.subrange(0, i as int));
        }
        if i > 0 {
            out.append(" or `");
        } else {
            out.append("`");
        }
        out.append(expected[i].name());
        out.append("`");
        i = i + 1;
        proof {
            assert(out@ =~= expected_list(expected@.subrange(0, i as int)));
        }
    }
    proof {
        assert(expected@.subrange(0, expected@.len() as int) =~= expected@);
    }
    out
}

/// The text of a lexer error.
pub open spec fn syntax_message(e: SyntaxError) -> Seq<char> {
    match e {
        SyntaxError::UnexpectedToken(b, _) => "Unexpected character '"@ + seq![b as char] + "'"@,
        SyntaxError::UnrecognizedToken(b, _) => "Unrecognized character '"@ + seq![b as char] + "'"@,
        SyntaxError::UnexpectedEndOfFile(_) => "Unexpected end of input"@,
    }
}

/// The text of a parser error.
pub open spec fn parse_message(e: ParseError) -> Seq<char> {
    match e {
        ParseError::SyntaxError(s) => syntax_message(s),
        ParseError::UnexpectedEndOfFile(..) => "Unexpected end of type declaration"@,
        ParseError::UnexpectedToken(_, k, _) => "Unexpected token `"@ + kind_name(k) + "`"@,
        ParseError::UnclosedLiteralString(_) => "Unclosed string literal in type"@,
    }
}

fn quoted_byte(prefix: &str, b: u8) -> (r: String)
    ensures
        r@ == prefix@ + seq![b as char] + "'"@,
{
    let mut chars: Vec<char> = Vec::new();
    chars.push(b as char);
    let ch = collect_string(&chars);
    let mut out = String::from_str(prefix);
    out.append(ch.as_str());
    out.append("'");
    out
}

impl SyntaxError {
    pub fn message(&self) -> (r: String)
        ensures
            r@ == syntax_message(*self),
    {
        match self {
            SyntaxError::UnexpectedToken(token, _) => quoted_byte("Unexpected character '", *token),
            SyntaxError::UnrecognizedToken(token, _) => quoted_byte("Unrecognized character '", *token),
            SyntaxError::UnexpectedEndOfFile(_) => String::from_str("Unexpected end of input"),
        }
    }

    pub fn position(&self) -> (r: TextPosition)
        ensures
            r == match *self {
                SyntaxError::UnexpectedToken(_, p) => p,
                SyntaxError::UnrecognizedToken(_, p) => p,
                SyntaxError::UnexpectedEndOfFile(p) => p,
            },
    {
        match self {
            SyntaxError::UnexpectedToken(_, position)
            | SyntaxError::UnrecognizedToken(_, position)
            | SyntaxError::UnexpectedEndOfFile(position) => *position,
        }
    }
}

impl ParseError {
    pub fn message(&self) -> (r: String)
        ensures
            r@ == parse_message(*self),
    {
        match self {
            ParseError::SyntaxError(err) => err.message(),
            ParseError::UnexpectedEndOfFile(_, _) => String::from_str("Unexpected end of type declaration"),
            ParseError::UnexpectedToken(_, token, _) => {
                let mut out = String::from_str("Unexpected token `");
                out.append(token.name());
                out.append("`");
                out
            },
            ParseError::UnclosedLiteralString(_) => String::from_str("Unclosed string literal in type"),
        }
    }

    /// A detailed note on the context of the error.
    pub fn note(&self) -> (r: String)
        ensures
            r@ == note_text(*self),
    {
        match self {
            ParseError::SyntaxError(SyntaxError::UnrecognizedToken(_, _)) => String::from_str(
                "An invalid character was found that is not part of any valid type syntax.",
            ),
            ParseError::SyntaxError(_) => String::from_str(
                "A low-level syntax error occurred while parsing the type string.",
            ),
            ParseError::UnexpectedEndOfFile(expected, _) => {
                if expected.len() == 0 {
                    String::from_str("The type declaration ended prematurely.")
                } else {
                    let mut out = String::from_str(
                        "The parser reached the end of the input but expected one of: ",
                    );
                    let list = expected_string(expected);
                    out.append(list.as_str());
                    out.append(".");
                    out
                }
            },
            ParseError::UnexpectedToken(expected, _, _) => {
                if expected.len() == 0 {
                    String::from_str(
                        "The parser encountered a token that was not expected at this position.",
                    )
                } else {
                    let mut out = String::from_str("The parser expected one of the following here: ");
                    let list = expected_string(expected);
                    out.append(list.as_str());
                    out.append(".");
                    out
                }
            },
            ParseError::UnclosedLiteralString(_) => String::from_str(
                "String literals within type declarations must be closed with a matching quote.",
            ),
        }
    }

    /// A short suggestion of a fix.
    pub fn help(&self) -> (r: String)
        ensures
            r@ == help_text(*self),
    {
        match self {
            ParseError::SyntaxError(SyntaxError::UnrecognizedToken(_, _)) => String::from_str(
                "Remove or replace the invalid character.",
            ),
            ParseError::SyntaxError(_) => String::from_str(
                "Review the syntax of the type declaration for errors.",
            ),
            ParseError::UnexpectedEndOfFile(_, _) => String::from_str(
                "Complete the type declaration. Check for unclosed parentheses `()`, angle brackets `<>`, or curly braces `{}`.",
            ),
            ParseError::UnexpectedToken(_, _, _) => String::from_str(
                "Review the type syntax near the unexpected token.",
            ),
            ParseError::UnclosedLiteralString(_) => String::from_str(
                "Add a closing quote (`'` or `\"`) to complete the string literal.",
            ),
        }
    }

    /// Where the error stands: an empty span at the position of a lexer
    /// error or of the end of input.
    pub fn span(&self) -> (r: Span)
        ensures
            r == match *self {
                ParseError::SyntaxError(e) => {
                    let p = match e {
                        SyntaxError::UnexpectedToken(_, p) => p,
                        SyntaxError::UnrecognizedToken(_, p) => p,
                        SyntaxError::UnexpectedEndOfFile(p) => p,
                    };
                    Span { start: p, end: p }
                },
                ParseError::UnexpectedEndOfFile(_, p) => Span { start: p, end: p },
                ParseError::UnexpectedToken(_, _, s) => s,
                ParseError::UnclosedLiteralString(s) => s,
            },
    {
        match self {
            ParseError::SyntaxError(error) => {
                let position = error.position();
                Span { start: position, end: position }
            },
            ParseError::UnexpectedEndOfFile(_, position) => Span { start: *position, end: *position },
            ParseError::UnexpectedToken(_, _, span) => *span,
            ParseError::UnclosedLiteralString(span) => *span,
        }
    }

    pub fn from_syntax_error(error: SyntaxError) -> (r: ParseError)
        ensures
            r == ParseError::SyntaxError(error),
    {
        ParseError::SyntaxError(error)
    }
}

} // verus!
