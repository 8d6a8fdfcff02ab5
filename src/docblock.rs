use vstd::prelude::*;

use crate::type_token::Span;

verus! {

/// A line of a docblock comment, as its lexer hands it out.
#[derive(Debug)]
pub enum Token {
    Line { content: String, span: Span },
    EmptyLine { span: Span },
}

impl Token {
    pub fn span(&self) -> (r: Span)
        ensures
            r == match *self {
                Token::Line { span, .. } => span,
                Token::EmptyLine { span } => span,
            },
    {
        match self {
            Token::Line { span, .. } => *span,
            Token::EmptyLine { span } => *span,
        }
    }
}

} // verus!
