use vstd::prelude::*;

use crate::span::Span;
use crate::token::TokenKind;

verus! {

/// Why a parse failed. A failed parse yields no tree.
#[derive(Clone, Debug, PartialEq, Eq)]
pub enum ParseError {
    /// A token of one of the `expected` kinds was required, `actual` stood there.
    UnexpectedToken { expected: Vec<TokenKind>, actual: TokenKind, span: Span },
    /// A token of one of the `expected` kinds was required, and the input had ended.
    UnexpectedEnd { expected: Vec<TokenKind>, span: Span },
}

impl ParseError {
    pub fn span(&self) -> (r: Span)
        ensures
            r == self.spec_span(),
    {
        match self {
            ParseError::UnexpectedToken { span, .. } => *span,
            ParseError::UnexpectedEnd { span, .. } => *span,
        }
    }

    pub open spec fn spec_span(&self) -> Span {
        match self {
            ParseError::UnexpectedToken { span, .. } => *span,
            ParseError::UnexpectedEnd { span, .. } => *span,
        }
    }
}

} // verus!
