use vstd::prelude::*;

use crate::error::ParseError;
use crate::span::Span;
use crate::token::{tokens_wf, Token, TokenKind};

verus! {

/// A cursor over a lexed token buffer. Looking ahead never consumes.
#[derive(Clone, Debug)]
pub struct TokenStream {
    pub tokens: Vec<Token>,
    pub position: usize,
    /// The offset where the source text ends.
    pub end: u32,
}

/// Tokens that come in source order keep that order for any two positions.
pub proof fn lemma_tokens_ordered(tokens: Seq<Token>, i: int, j: int)
    requires
        tokens_wf(tokens),
        0 <= i <= j < tokens.len(),
    ensures
        tokens[i].span.start <= tokens[j].span.start,
        tokens[i].span.end <= tokens[j].span.end,
        tokens[i].span.start <= tokens[j].span.end,
        i < j ==> tokens[i].span.end <= tokens[j].span.start,
{
    assert(tokens[i].span.wf());
    assert(tokens[j].span.wf());
    if i < j {
        assert(tokens[i].span.precedes(tokens[j].span));
    }
}

/// The list that holds `kind` alone.
pub fn one_kind(kind: TokenKind) -> (r: Vec<TokenKind>)
    ensures
        r@ == seq![kind],
{
    let mut r = Vec::new();
    r.push(kind);
    r
}

/// The list that holds `a` and then `b`.
pub fn two_kinds(a: TokenKind, b: TokenKind) -> (r: Vec<TokenKind>)
    ensures
        r@ == seq![a, b],
{
    let mut r = Vec::new();
    r.push(a);
    r.push(b);
    r
}

impl TokenStream {
    pub open spec fn wf(&self) -> bool {
        &&& tokens_wf(self.tokens@)
        &&& self.position <= self.tokens.len()
        &&& forall|i: int| 0 <= i < self.tokens.len() ==> (#[trigger] self.tokens[i]).span.end <= self.end
    }

    /// How many tokens are left.
    pub open spec fn remaining(&self) -> nat {
        (self.tokens.len() - self.position) as nat
    }

    /// The kind of the token `k` places past the cursor, if there is one.
    pub open spec fn kind_at(&self, k: int) -> Option<TokenKind> {
        if 0 <= self.position + k < self.tokens.len() {
            Some(self.tokens[self.position + k].kind)
        } else {
            None
        }
    }

    /// The stream with the cursor `n` tokens further on.
    pub open spec fn skip(&self, n: int) -> TokenStream {
        TokenStream { tokens: self.tokens, position: (self.position + n) as usize, end: self.end }
    }

    /// The token under the cursor has kind `kind`.
    pub open spec fn next_is(&self, kind: TokenKind) -> bool {
        self.kind_at(0) == Some(kind)
    }

    /// Where a diagnostic about the token under the cursor points: that token,
    /// or the zero-width span at the end of the source.
    pub open spec fn cursor_span(&self) -> Span {
        if self.position < self.tokens.len() {
            self.tokens[self.position as int].span
        } else {
            Span { start: self.end, end: self.end }
        }
    }

    /// `self` is `prev` with the cursor moved forward, over the same tokens.
    pub open spec fn advanced_from(&self, prev: &TokenStream) -> bool {
        &&& self.tokens@ == prev.tokens@
        &&& self.end == prev.end
        &&& prev.position <= self.position <= self.tokens.len()
    }

    /// `self` is `prev` with at least one more token consumed, and `s` runs from
    /// the first of the tokens consumed since `prev` to the last of them.
    pub open spec fn consumed(&self, prev: &TokenStream, s: Span) -> bool {
        &&& self.advanced_from(prev)
        &&& prev.position < self.position
        &&& s.start == self.tokens[prev.position as int].span.start
        &&& s.end == self.tokens[self.position - 1].span.end
    }

    /// The span of `a` ends before the span of `b` starts when `a` was consumed
    /// up to `mid` and `b` from `mid` on.
    pub proof fn lemma_consumed_in_order(&self, first: &TokenStream, mid: &TokenStream, a: Span, b: Span)
        requires
            first.wf(),
            mid.consumed(first, a),
            self.consumed(mid, b),
        ensures
            a.precedes(b),
            a.wf(),
            b.wf(),
            self.consumed(first, Span { start: a.start, end: b.end }),
    {
        lemma_tokens_ordered(self.tokens@, mid.position - 1, mid.position as int);
        lemma_tokens_ordered(self.tokens@, first.position as int, mid.position - 1);
        lemma_tokens_ordered(self.tokens@, mid.position as int, self.position - 1);
    }

    /// A span consumed from a well-formed stream is well formed.
    pub proof fn lemma_consumed_wf(&self, prev: &TokenStream, s: Span)
        requires
            prev.wf(),
            self.consumed(prev, s),
        ensures
            s.wf(),
    {
        lemma_tokens_ordered(self.tokens@, prev.position as int, self.position - 1);
    }

    pub fn new(tokens: Vec<Token>, end: u32) -> (r: TokenStream)
        requires
            tokens_wf(tokens@),
            forall|i: int| 0 <= i < tokens.len() ==> (#[trigger] tokens[i]).span.end <= end,
        ensures
            r.wf(),
            r.tokens@ == tokens@,
            r.position == 0,
            r.end == end,
    {
        TokenStream { tokens, position: 0, end }
    }

    pub fn is_at_end(&self) -> (r: bool)
        requires
            self.wf(),
        ensures
            r == (self.remaining() == 0),
    {
        self.position >= self.tokens.len()
    }

    /// The span where the next token stands, or the end of the source.
    pub fn current_span(&self) -> (r: Span)
        requires
            self.wf(),
        ensures
            r == self.cursor_span(),
    {
        if self.position < self.tokens.len() {
            self.tokens[self.position].span
        } else {
            Span::zero_at(self.end)
        }
    }

    /// The token under the cursor has kind `kind`.
    pub fn is_next(&self, kind: TokenKind) -> (r: bool)
        requires
            self.wf(),
        ensures
            r == self.next_is(kind),
    {
        self.position < self.tokens.len() && self.tokens[self.position].kind == kind
    }

    /// The token under the cursor, if any.
    pub fn maybe_peek(&self) -> (r: Option<Token>)
        requires
            self.wf(),
        ensures
            r == (if self.position < self.tokens.len() {
                Some(self.tokens[self.position as int])
            } else {
                None::<Token>
            }),
    {
        if self.position < self.tokens.len() {
            Some(self.tokens[self.position])
        } else {
            None
        }
    }

    /// The token `n` places past the cursor, if any; `0` is the token under the cursor.
    pub fn maybe_peek_nth(&self, n: usize) -> (r: Option<Token>)
        requires
            self.wf(),
        ensures
            r == (if self.position + n < self.tokens.len() {
                Some(self.tokens[self.position + n])
            } else {
                None::<Token>
            }),
            r matches Some(t) ==> self.kind_at(n as int) == Some(t.kind),
            r is None ==> self.kind_at(n as int) is None,
    {
        if n < self.tokens.len() - self.position {
            Some(self.tokens[self.position + n])
        } else {
            None
        }
    }

    /// The token under the cursor; at the end of the input the grammar wanted
    /// one of `expected`, and that is the error.
    pub fn peek(&self, expected: Vec<TokenKind>) -> (r: Result<Token, ParseError>)
        requires
            self.wf(),
        ensures
            self.position < self.tokens.len() ==> r == Ok::<Token, ParseError>(
                self.tokens[self.position as int],
            ),
            self.position >= self.tokens.len() ==> r is Err && self.rejects(r->Err_0, expected@),
    {
        if self.position < self.tokens.len() {
            Ok(self.tokens[self.position])
        } else {
            Err(ParseError::UnexpectedEnd { expected, span: Span::zero_at(self.end) })
        }
    }

    /// The error for a token that the grammar does not allow where the cursor stands.
    pub fn unexpected(&self, expected: Vec<TokenKind>) -> (r: ParseError)
        requires
            self.wf(),
        ensures
            self.rejects(r, expected@),
    {
        if self.position < self.tokens.len() {
            let t = self.tokens[self.position];
            ParseError::UnexpectedToken { expected, actual: t.kind, span: t.span }
        } else {
            ParseError::UnexpectedEnd { expected, span: Span::zero_at(self.end) }
        }
    }

    /// Consumes the token under the cursor iff it has kind `kind`.
    pub fn expect(&mut self, kind: TokenKind) -> (r: Result<Token, ParseError>)
        requires
            old(self).wf(),
        ensures
            final(self).wf(),
            old(self).next_is(kind) ==> *final(self) == old(self).skip(1),
            old(self).next_is(kind) ==> r == Ok::<Token, ParseError>(
                old(self).tokens[old(self).position as int],
            ) && final(self).consumed(old(self), r->Ok_0.span) && final(self).position == old(self).position
                + 1 && r->Ok_0.span.wf(),
            !old(self).next_is(kind) ==> *final(self) == *old(self) && r is Err && old(self).rejects(
                r->Err_0,
                seq![kind],
            ),
    {
        if self.position < self.tokens.len() && self.tokens[self.position].kind == kind {
            let t = self.tokens[self.position];
            self.position = self.position + 1;
            Ok(t)
        } else {
            Err(self.unexpected(one_kind(kind)))
        }
    }

    /// Consumes the token under the cursor if it has kind `kind`; never fails.
    pub fn maybe_expect(&mut self, kind: TokenKind) -> (r: Option<Token>)
        requires
            old(self).wf(),
        ensures
            final(self).wf(),
            old(self).next_is(kind) ==> r == Some(old(self).tokens[old(self).position as int])
                && final(self).consumed(old(self), r->Some_0.span) && final(self).position
                == old(self).position + 1 && r->Some_0.span.wf(),
            !old(self).next_is(kind) ==> *final(self) == *old(self) && r is None,
    {
        if self.position < self.tokens.len() && self.tokens[self.position].kind == kind {
            let t = self.tokens[self.position];
            self.position = self.position + 1;
            Some(t)
        } else {
            None
        }
    }

    /// Consumes the token under the cursor whatever its kind.
    pub fn advance(&mut self) -> (r: Token)
        requires
            old(self).wf(),
            old(self).position < old(self).tokens.len(),
        ensures
            final(self).wf(),
            r == old(self).tokens[old(self).position as int],
            final(self).consumed(old(self), r.span),
            final(self).position == old(self).position + 1,
            r.span.wf(),
    {
        let t = self.tokens[self.position];
        self.position = self.position + 1;
        t
    }

    /// `e` is the error for a token of one of the kinds `expected` missing under the cursor.
    pub open spec fn rejects(&self, e: ParseError, expected: Seq<TokenKind>) -> bool {
        if self.position < self.tokens.len() {
            e matches ParseError::UnexpectedToken { expected: x, actual, span } && x@ == expected
                && actual == self.tokens[self.position as int].kind && span == self.cursor_span()
        } else {
            e matches ParseError::UnexpectedEnd { expected: x, span } && x@ == expected && span
                == self.cursor_span()
        }
    }
}

} // verus!
