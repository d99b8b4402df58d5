use vstd::prelude::*;

use crate::span::Span;

verus! {

/// An interned string: equal ids stand for equal text within one interner.
#[derive(Clone, Copy, Debug, PartialEq, Eq, Hash, Structural)]
pub struct SymbolId {
    pub index: u32,
}

/// The kind tag of a lexed token.
#[derive(Clone, Copy, Debug, PartialEq, Eq, Hash, Structural)]
pub enum TokenKind {
    OpenTag,
    CloseTag,
    Identifier,
    Variable,
    IntegerLiteral,
    StringLiteral,
    Use,
    As,
    Const,
    Function,
    If,
    ElseIf,
    Else,
    EndIf,
    Echo,
    Goto,
    Class,
    Public,
    Protected,
    Private,
    Readonly,
    Static,
    NamespaceSeparator,
    LeftBrace,
    RightBrace,
    LeftParenthesis,
    RightParenthesis,
    LeftBracket,
    RightBracket,
    HashLeftBracket,
    Comma,
    Colon,
    Semicolon,
    Equals,
    Ellipsis,
    Ampersand,
    Question,
    /// `callable` in a type annotation.
    CallableKeyword,
    /// `pure-callable` in a type annotation.
    PureCallableKeyword,
    /// `Closure` in a type annotation.
    ClosureKeyword,
    /// `pure-Closure` in a type annotation.
    PureClosureKeyword,
}

/// A token: its kind, where it stands, and its interned text.
#[derive(Clone, Copy, Debug, PartialEq, Eq, Hash, Structural)]
pub struct Token {
    pub kind: TokenKind,
    pub span: Span,
    pub value: SymbolId,
}

/// A sequence of tokens is well formed when each span is and they come in source order.
pub open spec fn tokens_wf(tokens: Seq<Token>) -> bool {
    &&& forall|i: int| 0 <= i < tokens.len() ==> (#[trigger] tokens[i]).span.wf()
    &&& forall|i: int, j: int|
        0 <= i < j < tokens.len() ==> (#[trigger] tokens[i]).span.precedes(#[trigger] tokens[j].span)
}

} // verus!
