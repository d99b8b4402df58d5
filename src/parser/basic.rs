use vstd::prelude::*;

use crate::ast::expression::{
    argument_spans, Argument, ArgumentList, DirectVariable, Expression, FunctionCall, Literal,
    LiteralKind, NamedArgument, PositionalArgument,
};
use crate::ast::node::{
    in_order, interleave, lemma_interleave_push_item, lemma_interleave_push_separator,
    lemma_parsed_outer, lemma_parsed_push, lemma_parsed_single, parsed_spans, separators_accounted,
    Identifier, Keyword, LocalIdentifier, Terminator, TokenSeparatedSequence,
};
use crate::parser::grammar::{argument_end, argument_list_end, arguments_end, expression_end, follows, kind_is};
use crate::span::Span;
use crate::error::ParseError;
use crate::stream::{lemma_tokens_ordered, one_kind, two_kinds, TokenStream};
use crate::token::{Token, TokenKind};

verus! {

/// A token of kind `kind` at the cursor is consumed and becomes `r`.
pub open spec fn took_token(old_stream: TokenStream, new_stream: TokenStream, kind: TokenKind, span: crate::span::Span) -> bool {
    &&& old_stream.next_is(kind)
    &&& new_stream.tokens@ == old_stream.tokens@
    &&& new_stream.end == old_stream.end
    &&& new_stream.position == old_stream.position + 1
    &&& span == old_stream.tokens[old_stream.position as int].span
}

/// Consumes a keyword of kind `kind`.
pub fn expect_keyword(stream: &mut TokenStream, kind: TokenKind) -> (r: Result<Keyword, ParseError>)
    requires
        old(stream).wf(),
    ensures
        final(stream).wf(),
        r is Ok <==> old(stream).next_is(kind),
        r is Ok ==> *final(stream) == old(stream).skip(1),
        r matches Ok(k) ==> took_token(*old(stream), *final(stream), kind, k.span)
            && final(stream).consumed(old(stream), k.span)
            && k.value == old(stream).tokens[old(stream).position as int].value,
        r matches Err(e) ==> *final(stream) == *old(stream) && old(stream).rejects(e, seq![kind]),
{
    match stream.expect(kind) {
        Ok(t) => Ok(Keyword { span: t.span, value: t.value }),
        Err(e) => Err(e),
    }
}

/// Consumes a token of kind `kind` and gives its span.
pub fn expect_span(stream: &mut TokenStream, kind: TokenKind) -> (r: Result<crate::span::Span, ParseError>)
    requires
        old(stream).wf(),
    ensures
        final(stream).wf(),
        r is Ok <==> old(stream).next_is(kind),
        r matches Ok(s) ==> took_token(*old(stream), *final(stream), kind, s)
            && final(stream).consumed(old(stream), s),
        r matches Err(e) ==> *final(stream) == *old(stream) && old(stream).rejects(e, seq![kind]),
{
    match stream.expect(kind) {
        Ok(t) => Ok(t.span),
        Err(e) => Err(e),
    }
}

/// Consumes a name: a possibly qualified identifier.
pub fn parse_identifier(stream: &mut TokenStream) -> (r: Result<Identifier, ParseError>)
    requires
        old(stream).wf(),
    ensures
        final(stream).wf(),
        r is Ok <==> old(stream).next_is(TokenKind::Identifier),
        r matches Ok(i) ==> took_token(*old(stream), *final(stream), TokenKind::Identifier, i.span)
            && final(stream).consumed(old(stream), i.span)
            && i.value == old(stream).tokens[old(stream).position as int].value,
        r matches Err(e) ==> *final(stream) == *old(stream) && old(stream).rejects(e, seq![TokenKind::Identifier]),
{
    match stream.expect(TokenKind::Identifier) {
        Ok(t) => Ok(Identifier { span: t.span, value: t.value }),
        Err(e) => Err(e),
    }
}

/// Consumes a bare name.
pub fn parse_local_identifier(stream: &mut TokenStream) -> (r: Result<LocalIdentifier, ParseError>)
    requires
        old(stream).wf(),
    ensures
        final(stream).wf(),
        r is Ok <==> old(stream).next_is(TokenKind::Identifier),
        r matches Ok(i) ==> took_token(*old(stream), *final(stream), TokenKind::Identifier, i.span)
            && final(stream).consumed(old(stream), i.span)
            && i.value == old(stream).tokens[old(stream).position as int].value,
        r matches Err(e) ==> *final(stream) == *old(stream) && old(stream).rejects(e, seq![TokenKind::Identifier]),
{
    match stream.expect(TokenKind::Identifier) {
        Ok(t) => Ok(LocalIdentifier { span: t.span, value: t.value }),
        Err(e) => Err(e),
    }
}

/// Consumes the end of a statement: `;` or a closing tag.
pub fn parse_terminator(stream: &mut TokenStream) -> (r: Result<Terminator, ParseError>)
    requires
        old(stream).wf(),
    ensures
        final(stream).wf(),
        r is Ok <==> (old(stream).next_is(TokenKind::Semicolon) || old(stream).next_is(TokenKind::CloseTag)),
        r matches Ok(t) ==> final(stream).consumed(old(stream), t.span())
            && final(stream).position == old(stream).position + 1
            && (t is Semicolon <==> old(stream).next_is(TokenKind::Semicolon)),
        r matches Err(e) ==> *final(stream) == *old(stream)
            && old(stream).rejects(e, seq![TokenKind::Semicolon, TokenKind::CloseTag]),
{
    if let Some(t) = stream.maybe_expect(TokenKind::Semicolon) {
        return Ok(Terminator::Semicolon(t.span));
    }
    if let Some(t) = stream.maybe_expect(TokenKind::CloseTag) {
        return Ok(Terminator::ClosingTag(t.span));
    }
    Err(stream.unexpected(two_kinds(TokenKind::Semicolon, TokenKind::CloseTag)))
}

/// The token kinds that begin an expression.
pub open spec fn starts_expression(kind: TokenKind) -> bool {
    kind == TokenKind::Variable || kind == TokenKind::IntegerLiteral || kind
        == TokenKind::StringLiteral || kind == TokenKind::Identifier
}

/// Consumes an expression: a variable, a literal, a name, or a name followed
/// by an argument list.
pub fn parse_expression(stream: &mut TokenStream) -> (r: Result<Expression, ParseError>)
    requires
        old(stream).wf(),
    ensures
        final(stream).wf(),
        final(stream).advanced_from(old(stream)),
        r is Ok ==> (old(stream).kind_at(0) matches Some(k) && starts_expression(k)),
        !(old(stream).kind_at(0) matches Some(k) && starts_expression(k)) ==> r is Err && *final(stream)
            == *old(stream),
        r matches Ok(e) ==> e.wf() && final(stream).consumed(old(stream), e.span())
            && (e is Variable <==> old(stream).next_is(TokenKind::Variable))
            && (e is Call <==> (old(stream).next_is(TokenKind::Identifier) && old(stream).kind_at(1) == Some(
            TokenKind::LeftParenthesis,
        ))) && (e is ConstantAccess <==> (old(stream).next_is(TokenKind::Identifier) && old(stream).kind_at(1)
            != Some(TokenKind::LeftParenthesis))),
        follows(r is Ok, *old(stream), *final(stream), expression_end(old(stream).tokens@, old(stream).position as int)),
    decreases old(stream).remaining(), 0nat,
{
    let ghost s0 = *stream;
    match stream.maybe_peek() {
        Some(t) => {
            if t.kind == TokenKind::Variable {
                let t = stream.advance();
                Ok(Expression::Variable(DirectVariable { span: t.span, name: t.value }))
            } else if t.kind == TokenKind::IntegerLiteral {
                let t = stream.advance();
                Ok(Expression::Literal(Literal { kind: LiteralKind::Integer, span: t.span, value: t.value }))
            } else if t.kind == TokenKind::StringLiteral {
                let t = stream.advance();
                Ok(Expression::Literal(Literal { kind: LiteralKind::String, span: t.span, value: t.value }))
            } else if t.kind == TokenKind::Identifier {
                let t = stream.advance();
                let function = Identifier { span: t.span, value: t.value };
                if stream.is_next(TokenKind::LeftParenthesis) {
                    let ghost s1 = *stream;
                    let argument_list = parse_argument_list(stream)?;
                    let call = FunctionCall { function, argument_list };
                    proof {
                        lemma_parsed_single(function.span, s0, s1);
                        lemma_parsed_push(seq![function.span], argument_list.span(), s0, s1, *stream);
                        assert(seq![function.span].push(argument_list.span()) =~= call.child_spans());
                        lemma_parsed_outer(call.child_spans(), s0, *stream);
                    }
                    Ok(Expression::Call(call))
                } else {
                    Ok(Expression::ConstantAccess(function))
                }
            } else {
                Err(stream.unexpected(expression_starts()))
            }
        },
        None => Err(stream.unexpected(expression_starts())),
    }
}

/// Parses `(argument, ... [,])`.
#[verifier::rlimit(100)]
pub fn parse_argument_list(stream: &mut TokenStream) -> (r: Result<ArgumentList, ParseError>)
    requires
        old(stream).wf(),
    ensures
        final(stream).wf(),
        final(stream).advanced_from(old(stream)),
        r matches Ok(l) ==> final(stream).consumed(old(stream), l.span()) && in_order(l.child_spans())
            && separators_accounted(l.arguments.nodes.len() as nat, l.arguments.tokens.len() as nat)
            && (forall|k: int| 0 <= k < l.arguments.nodes.len() ==> (#[trigger] l.arguments.nodes@[k]).wf()),
        !old(stream).next_is(TokenKind::LeftParenthesis) ==> r is Err,
        follows(r is Ok, *old(stream), *final(stream), argument_list_end(old(stream).tokens@, old(stream).position as int)),
    decreases old(stream).remaining(), 0nat,
{
    let ghost s0 = *stream;
    let left_parenthesis = expect_span(stream, TokenKind::LeftParenthesis)?;
    let ghost p = seq![left_parenthesis];
    proof {
        lemma_parsed_single(left_parenthesis, s0, *stream);
        assert(p + interleave(Seq::<Span>::empty(), Seq::<Span>::empty()) =~= p);
    }
    let mut arguments: Vec<Argument> = Vec::new();
    let mut commas: Vec<Span> = Vec::new();
    proof {
        assert(argument_spans(arguments@) =~= Seq::<Span>::empty());
    }
    let mut done = false;
    while !done && !stream.is_next(TokenKind::RightParenthesis)
        invariant
            !done ==> arguments_end(s0.tokens@, s0.position + 1) == arguments_end(s0.tokens@, stream.position as int),
            done ==> arguments_end(s0.tokens@, s0.position + 1) == (if kind_is(s0.tokens@, stream.position as int, TokenKind::RightParenthesis) {
                Some(stream.position + 1)
            } else {
                None
            }),
            s0 == *old(stream),
            s0.wf(),
            stream.wf(),
            stream.advanced_from(&s0),
            stream.position > s0.position,
            done ==> commas.len() + 1 == arguments.len(),
            !done ==> commas.len() == arguments.len(),
            parsed_spans(s0, *stream, p + interleave(argument_spans(arguments@), commas@)),
            forall|k: int| 0 <= k < arguments.len() ==> (#[trigger] arguments@[k]).wf(),
        decreases stream.remaining(),
    {
        let ghost before = *stream;
        proof {
            assert(arguments_end(s0.tokens@, before.position as int) == match argument_end(s0.tokens@, before.position as int) {
                Some(e) => if before.position < e <= s0.tokens@.len() && kind_is(s0.tokens@, e, TokenKind::Comma) {
                    arguments_end(s0.tokens@, e + 1)
                } else if kind_is(s0.tokens@, e, TokenKind::RightParenthesis) {
                    Some(e + 1)
                } else {
                    None
                },
                None => None,
            });
        }
        let argument = parse_argument(stream)?;
        let ghost mid = *stream;
        proof {
            let a = argument_spans(arguments@);
            lemma_parsed_push(p + interleave(a, commas@), argument.span(), s0, before, mid);
            lemma_interleave_push_item(a, commas@, argument.span());
            assert((p + interleave(a, commas@)).push(argument.span()) =~= p + interleave(
                a.push(argument.span()),
                commas@,
            ));
            assert(argument_spans(arguments@.push(argument)) =~= a.push(argument.span()));
        }
        arguments.push(argument);
        match stream.maybe_expect(TokenKind::Comma) {
            Some(comma) => {
                proof {
                    let a = argument_spans(arguments@);
                    lemma_parsed_push(p + interleave(a, commas@), comma.span, s0, mid, *stream);
                    lemma_interleave_push_separator(a, commas@, comma.span);
                    assert((p + interleave(a, commas@)).push(comma.span) =~= p + interleave(a, commas@.push(comma.span)));
                }
                commas.push(comma.span);
            },
            None => {
                done = true;
            },
        }
    }
    let ghost s1 = *stream;
    let right_parenthesis = expect_span(stream, TokenKind::RightParenthesis)?;
    let l = ArgumentList {
        left_parenthesis,
        arguments: TokenSeparatedSequence::new(arguments, commas),
        right_parenthesis,
    };
    proof {
        let body = p + interleave(argument_spans(arguments@), commas@);
        lemma_parsed_push(body, right_parenthesis, s0, s1, *stream);
        assert(body.push(right_parenthesis) =~= l.child_spans());
        lemma_parsed_outer(l.child_spans(), s0, *stream);
    }
    Ok(l)
}

/// Parses an argument: named when a name and `:` come next, positional
/// (with an optional leading `...`) otherwise.
pub fn parse_argument(stream: &mut TokenStream) -> (r: Result<Argument, ParseError>)
    requires
        old(stream).wf(),
    ensures
        final(stream).wf(),
        final(stream).advanced_from(old(stream)),
        r matches Ok(a) ==> a.wf() && final(stream).consumed(old(stream), a.span())
            && (a is Named <==> (old(stream).next_is(TokenKind::Identifier) && old(stream).kind_at(1) == Some(
            TokenKind::Colon,
        ))),
        follows(r is Ok, *old(stream), *final(stream), argument_end(old(stream).tokens@, old(stream).position as int)),
    decreases old(stream).remaining(), 1nat,
{
    let ghost s0 = *stream;
    let named = match stream.maybe_peek_nth(1) {
        Some(t) => stream.is_next(TokenKind::Identifier) && t.kind == TokenKind::Colon,
        None => false,
    };
    if named {
        let name = parse_local_identifier(stream)?;
        let ghost s1 = *stream;
        let colon = expect_span(stream, TokenKind::Colon)?;
        let ghost s2 = *stream;
        let value = parse_expression(stream)?;
        let n = NamedArgument { name, colon, value };
        let a = Argument::Named(n);
        proof {
            lemma_parsed_single(name.span, s0, s1);
            lemma_parsed_push(seq![name.span], colon, s0, s1, s2);
            lemma_parsed_push(seq![name.span].push(colon), a.child_spans()[2], s0, s2, *stream);
            assert(seq![name.span].push(colon).push(a.child_spans()[2]) =~= a.child_spans());
            lemma_parsed_outer(a.child_spans(), s0, *stream);
        }
        Ok(a)
    } else {
        let ellipsis = match stream.maybe_expect(TokenKind::Ellipsis) {
            Some(t) => Some(t.span),
            None => None,
        };
        let ghost s1 = *stream;
        let value = parse_expression(stream)?;
        let ghost vs = value.spec_span();
        let a = Argument::Positional(PositionalArgument { ellipsis, value });
        proof {
            match ellipsis {
                Some(e) => {
                    lemma_parsed_single(e, s0, s1);
                    lemma_parsed_push(seq![e], vs, s0, s1, *stream);
                    assert(seq![e].push(vs) =~= a.child_spans());
                },
                None => {
                    lemma_parsed_single(vs, s0, *stream);
                    assert(seq![vs] =~= a.child_spans());
                },
            }
            lemma_parsed_outer(a.child_spans(), s0, *stream);
        }
        Ok(a)
    }
}

/// The kinds that an expression may begin with.
pub fn expression_starts() -> (r: Vec<TokenKind>)
    ensures
        forall|i: int| 0 <= i < r.len() ==> starts_expression(#[trigger] r[i]),
{
    let mut r = Vec::new();
    r.push(TokenKind::Variable);
    r.push(TokenKind::IntegerLiteral);
    r.push(TokenKind::StringLiteral);
    r.push(TokenKind::Identifier);
    r
}

} // verus!
