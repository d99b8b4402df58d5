use vstd::prelude::*;

use crate::ast::expression::Expression;
use crate::ast::node::{
    in_order, interleave, lemma_interleave_push_item, lemma_interleave_push_separator,
    lemma_parsed_concat, lemma_parsed_empty, lemma_parsed_outer, lemma_parsed_push,
    lemma_parsed_single, outer_span, parsed_spans, Sequence, TokenSeparatedSequence,
};
use crate::ast::statement::{
    expression_spans, statement_spans, Block, Echo, ExpressionStatement, Goto, Label, Statement,
};
use crate::error::ParseError;
use crate::parser::basic::{
    expect_keyword, expect_span, parse_expression, parse_local_identifier, parse_terminator,
};
use crate::parser::conditional::parse_if;
use crate::parser::declaration::{parse_class, parse_function};
use crate::parser::imports::parse_use;
use crate::parser::grammar::{
    block_end, echo_end, echo_values_end, expression_statement_end, follows, goto_end, kind_is, program_end,
    statement_end, statements_until_end, terminator_end,
};
use crate::span::Span;
use crate::stream::TokenStream;
use crate::token::TokenKind;

verus! {

/// A whole source file: its statements.
#[derive(Debug, PartialEq, Eq)]
pub struct Program {
    pub statements: Sequence<Statement>,
}

impl Program {
    pub open spec fn wf(&self) -> bool {
        &&& in_order(statement_spans(self.statements.nodes@))
        &&& forall|k: int| 0 <= k < self.statements.nodes.len() ==> (#[trigger] self.statements.nodes@[k]).wf()
    }
}

/// The statements `v` were parsed from `first` to `last`, in order, each well formed.
pub open spec fn statements_parsed(first: TokenStream, last: TokenStream, v: Seq<Statement>) -> bool {
    &&& parsed_spans(first, last, statement_spans(v))
    &&& forall|k: int| 0 <= k < v.len() ==> (#[trigger] v[k]).wf()
}

/// The kind of the token under the cursor is one of `stops`.
pub open spec fn next_is_one_of(s: TokenStream, stops: Seq<TokenKind>) -> bool {
    exists|i: int| 0 <= i < stops.len() && s.next_is(#[trigger] stops[i])
}

/// Whether the token under the cursor has one of the kinds `stops`.
pub fn is_next_one_of(stream: &TokenStream, stops: &Vec<TokenKind>) -> (r: bool)
    requires
        stream.wf(),
    ensures
        r == next_is_one_of(*stream, stops@),
{
    let mut i: usize = 0;
    while i < stops.len()
        invariant
            stream.wf(),
            i <= stops.len(),
            forall|j: int| 0 <= j < i ==> !stream.next_is(#[trigger] stops@[j]),
        decreases stops.len() - i,
    {
        if stream.is_next(stops[i]) {
            return true;
        }
        i = i + 1;
    }
    false
}

/// Parses statements until the token under the cursor has one of the kinds
/// `stops`; the input must not end first.
pub fn parse_statements_until(stream: &mut TokenStream, stops: &Vec<TokenKind>) -> (r: Result<Vec<Statement>, ParseError>)
    requires
        old(stream).wf(),
    ensures
        final(stream).wf(),
        final(stream).advanced_from(old(stream)),
        r matches Ok(v) ==> statements_parsed(*old(stream), *final(stream), v@) && next_is_one_of(
            *final(stream),
            stops@,
        ),
        follows(r is Ok, *old(stream), *final(stream), statements_until_end(old(stream).tokens@, old(stream).position as int, stops@)),
    decreases old(stream).remaining(), 2nat,
{
    let ghost s0 = *stream;
    let mut statements: Vec<Statement> = Vec::new();
    proof {
        lemma_parsed_empty(s0);
        assert(statement_spans(statements@) =~= Seq::<Span>::empty());
    }
    let mut done = false;
    while !done
        invariant
            s0 == *old(stream),
            s0.wf(),
            stream.wf(),
            stream.advanced_from(&s0),
            statements_parsed(s0, *stream, statements@),
            done ==> next_is_one_of(*stream, stops@),
            !done ==> statements_until_end(s0.tokens@, s0.position as int, stops@) == statements_until_end(s0.tokens@, stream.position as int, stops@),
            done ==> statements_until_end(s0.tokens@, s0.position as int, stops@) == Some(stream.position as int),
        decreases stream.remaining() + if done { 0int } else { 1int },
    {
        let next = stream.peek(stops.clone())?;
        if is_next_one_of(stream, stops) {
            proof {
                let i = choose|i: int| 0 <= i < stops@.len() && stream.next_is(#[trigger] stops@[i]);
                assert(stops@.contains(next.kind)) by {
                    assert(stops@[i] == next.kind);
                }
            }
            done = true;
        } else {
            proof {
                if stops@.contains(next.kind) {
                    let i = choose|i: int| 0 <= i < stops@.len() && stops@[i] == next.kind;
                    assert(stream.next_is(stops@[i]));
                }
            }
            let ghost before = *stream;
            let statement = parse_statement(stream)?;
            proof {
                lemma_parsed_push(statement_spans(statements@), statement.span(), s0, before, *stream);
                assert(statement_spans(statements@.push(statement)) =~= statement_spans(statements@).push(
                    statement.span(),
                ));
            }
            statements.push(statement);
        }
    }
    Ok(statements)
}

/// Parses one statement, of the kind that the next tokens select.
pub fn parse_statement(stream: &mut TokenStream) -> (r: Result<Statement, ParseError>)
    requires
        old(stream).wf(),
    ensures
        final(stream).wf(),
        final(stream).advanced_from(old(stream)),
        r matches Ok(s) ==> s.wf() && final(stream).consumed(old(stream), s.span()),
        r matches Ok(s) ==> (s is OpeningTag <==> old(stream).next_is(TokenKind::OpenTag))
            && (s is Use <==> old(stream).next_is(TokenKind::Use))
            && (s is If <==> old(stream).next_is(TokenKind::If))
            && (s is Echo <==> old(stream).next_is(TokenKind::Echo))
            && (s is Goto <==> old(stream).next_is(TokenKind::Goto))
            && (s is Block <==> old(stream).next_is(TokenKind::LeftBrace))
            && (s is Class <==> old(stream).next_is(TokenKind::Class))
            && (s is Function <==> old(stream).next_is(TokenKind::Function))
            && (s is Noop <==> old(stream).next_is(TokenKind::Semicolon))
            && (s is Label <==> (old(stream).next_is(TokenKind::Identifier) && old(stream).kind_at(1) == Some(
            TokenKind::Colon,
        ))),
        old(stream).remaining() == 0 ==> r is Err,
        follows(r is Ok, *old(stream), *final(stream), statement_end(old(stream).tokens@, old(stream).position as int)),
    decreases old(stream).remaining(), 1nat,
{
    let next = stream.peek(crate::parser::basic::expression_starts())?;
    match next.kind {
        TokenKind::OpenTag => {
            let t = stream.advance();
            Ok(Statement::OpeningTag(t.span))
        },
        TokenKind::Use => Ok(Statement::Use(parse_use(stream)?)),
        TokenKind::If => Ok(Statement::If(parse_if(stream)?)),
        TokenKind::Echo => Ok(Statement::Echo(parse_echo(stream)?)),
        TokenKind::Goto => Ok(Statement::Goto(parse_goto(stream)?)),
        TokenKind::LeftBrace => Ok(Statement::Block(parse_block(stream)?)),
        TokenKind::Class => Ok(Statement::Class(parse_class(stream)?)),
        TokenKind::Function => Ok(Statement::Function(parse_function(stream)?)),
        TokenKind::Semicolon => {
            let t = stream.advance();
            Ok(Statement::Noop(t.span))
        },
        _ => {
            if next.kind == TokenKind::Identifier && stream.maybe_peek_nth(1).is_some()
                && stream.maybe_peek_nth(1).unwrap().kind == TokenKind::Colon {
                Ok(Statement::Label(parse_label(stream)?))
            } else {
                Ok(Statement::Expression(parse_expression_statement(stream)?))
            }
        },
    }
}

/// Parses `{ statements }`.
pub fn parse_block(stream: &mut TokenStream) -> (r: Result<Block, ParseError>)
    requires
        old(stream).wf(),
    ensures
        final(stream).wf(),
        final(stream).advanced_from(old(stream)),
        r matches Ok(b) ==> Statement::Block(b).wf() && final(stream).consumed(old(stream), Statement::Block(b).span()),
        !old(stream).next_is(TokenKind::LeftBrace) ==> r is Err,
        follows(r is Ok, *old(stream), *final(stream), block_end(old(stream).tokens@, old(stream).position as int)),
    decreases old(stream).remaining(), 0nat,
{
    let ghost s0 = *stream;
    let left_brace = expect_span(stream, TokenKind::LeftBrace)?;
    let ghost s1 = *stream;
    let statements = parse_statements_until(stream, &crate::stream::one_kind(TokenKind::RightBrace))?;
    let ghost s2 = *stream;
    proof {
        let i = choose|i: int| 0 <= i < seq![TokenKind::RightBrace].len() && s2.next_is(#[trigger] seq![TokenKind::RightBrace][i]);
    }
    let right_brace = expect_span(stream, TokenKind::RightBrace)?;
    let b = Block { left_brace, statements: Sequence::new(statements), right_brace };
    proof {
        lemma_parsed_single(left_brace, s0, s1);
        lemma_parsed_concat(seq![left_brace], statement_spans(statements@), s0, s1, s2);
        lemma_parsed_push(seq![left_brace] + statement_spans(statements@), right_brace, s0, s2, *stream);
        assert((seq![left_brace] + statement_spans(statements@)).push(right_brace) =~= b.child_spans());
        lemma_parsed_outer(b.child_spans(), s0, *stream);
    }
    Ok(b)
}

/// Parses `echo value, value, ...;`.
pub fn parse_echo(stream: &mut TokenStream) -> (r: Result<Echo, ParseError>)
    requires
        old(stream).wf(),
    ensures
        final(stream).wf(),
        final(stream).advanced_from(old(stream)),
        r matches Ok(e) ==> e.wf() && final(stream).consumed(old(stream), outer_span(e.child_spans())),
        !old(stream).next_is(TokenKind::Echo) ==> r is Err,
        follows(r is Ok, *old(stream), *final(stream), echo_end(old(stream).tokens@, old(stream).position as int)),
{
    let ghost s0 = *stream;
    let echo = expect_keyword(stream, TokenKind::Echo)?;
    let ghost s1 = *stream;
    let mut values: Vec<Expression> = Vec::new();
    let mut commas: Vec<Span> = Vec::new();
    let first = parse_expression(stream)?;
    proof {
        lemma_parsed_single(echo.span, s0, s1);
        lemma_parsed_push(seq![echo.span], first.span(), s0, s1, *stream);
        lemma_interleave_push_item(Seq::<Span>::empty(), Seq::<Span>::empty(), first.span());
        assert(expression_spans(values@.push(first)) =~= Seq::<Span>::empty().push(first.span()));
        assert(seq![echo.span] + interleave(Seq::<Span>::empty(), Seq::<Span>::empty()) =~= seq![echo.span]);
        assert(seq![echo.span] + interleave(Seq::<Span>::empty(), Seq::<Span>::empty()).push(first.span())
            =~= seq![echo.span].push(first.span()));
    }
    values.push(first);
    while stream.is_next(TokenKind::Comma)
        invariant
            s0 == *old(stream),
            s0.wf(),
            stream.wf(),
            stream.advanced_from(&s0),
            values.len() > 0,
            commas.len() + 1 == values.len(),
            parsed_spans(s0, *stream, seq![echo.span] + interleave(expression_spans(values@), commas@)),
            forall|k: int| 0 <= k < values.len() ==> (#[trigger] values@[k]).wf(),
            echo_values_end(s0.tokens@, s0.position + 1) == (if kind_is(s0.tokens@, stream.position as int, TokenKind::Comma) {
                echo_values_end(s0.tokens@, stream.position + 1)
            } else {
                Some(stream.position as int)
            }),
        decreases stream.remaining(),
    {
        let ghost before = *stream;
        let comma = stream.advance();
        let ghost mid = *stream;
        let value = parse_expression(stream)?;
        proof {
            let p = seq![echo.span];
            let a = expression_spans(values@);
            lemma_parsed_push(p + interleave(a, commas@), comma.span, s0, before, mid);
            lemma_interleave_push_separator(a, commas@, comma.span);
            assert((p + interleave(a, commas@)).push(comma.span) =~= p + interleave(a, commas@.push(comma.span)));
            lemma_parsed_push(p + interleave(a, commas@.push(comma.span)), value.span(), s0, mid, *stream);
            lemma_interleave_push_item(a, commas@.push(comma.span), value.span());
            assert((p + interleave(a, commas@.push(comma.span))).push(value.span()) =~= p + interleave(
                a.push(value.span()),
                commas@.push(comma.span),
            ));
            assert(expression_spans(values@.push(value)) =~= a.push(value.span()));
        }
        commas.push(comma.span);
        values.push(value);
    }
    let ghost s2 = *stream;
    let terminator = parse_terminator(stream)?;
    let e = Echo { echo, values: TokenSeparatedSequence::new(values, commas), terminator };
    proof {
        let body = seq![echo.span] + interleave(expression_spans(values@), commas@);
        lemma_parsed_push(body, terminator.span(), s0, s2, *stream);
        assert(body.push(terminator.span()) =~= e.child_spans());
        lemma_parsed_outer(e.child_spans(), s0, *stream);
    }
    Ok(e)
}

/// Parses `goto label;`.
pub fn parse_goto(stream: &mut TokenStream) -> (r: Result<Goto, ParseError>)
    requires
        old(stream).wf(),
    ensures
        final(stream).wf(),
        final(stream).advanced_from(old(stream)),
        r matches Ok(g) ==> in_order(g.child_spans()) && final(stream).consumed(old(stream), outer_span(g.child_spans())),
        !old(stream).next_is(TokenKind::Goto) ==> r is Err,
        follows(r is Ok, *old(stream), *final(stream), goto_end(old(stream).tokens@, old(stream).position as int)),
{
    let ghost s0 = *stream;
    let goto = expect_keyword(stream, TokenKind::Goto)?;
    let ghost s1 = *stream;
    let label = parse_local_identifier(stream)?;
    let ghost s2 = *stream;
    let terminator = parse_terminator(stream)?;
    let g = Goto { goto, label, terminator };
    proof {
        lemma_parsed_single(goto.span, s0, s1);
        lemma_parsed_push(seq![goto.span], label.span, s0, s1, s2);
        lemma_parsed_push(seq![goto.span].push(label.span), terminator.span(), s0, s2, *stream);
        assert(seq![goto.span].push(label.span).push(terminator.span()) =~= g.child_spans());
        lemma_parsed_outer(g.child_spans(), s0, *stream);
    }
    Ok(g)
}

/// Parses `label:`.
pub fn parse_label(stream: &mut TokenStream) -> (r: Result<Label, ParseError>)
    requires
        old(stream).wf(),
    ensures
        final(stream).wf(),
        final(stream).advanced_from(old(stream)),
        r is Ok <==> (old(stream).next_is(TokenKind::Identifier) && old(stream).kind_at(1) == Some(TokenKind::Colon)),
        r is Ok ==> final(stream).position == old(stream).position + 2,
        r matches Ok(l) ==> in_order(l.child_spans()) && final(stream).consumed(old(stream), outer_span(l.child_spans())),
{
    let ghost s0 = *stream;
    let name = parse_local_identifier(stream)?;
    let ghost s1 = *stream;
    let colon = expect_span(stream, TokenKind::Colon)?;
    let l = Label { name, colon };
    proof {
        lemma_parsed_single(name.span, s0, s1);
        lemma_parsed_push(seq![name.span], colon, s0, s1, *stream);
        assert(seq![name.span].push(colon) =~= l.child_spans());
        lemma_parsed_outer(l.child_spans(), s0, *stream);
    }
    Ok(l)
}

/// Parses an expression and its terminator.
pub fn parse_expression_statement(stream: &mut TokenStream) -> (r: Result<ExpressionStatement, ParseError>)
    requires
        old(stream).wf(),
    ensures
        final(stream).wf(),
        final(stream).advanced_from(old(stream)),
        r matches Ok(e) ==> in_order(e.child_spans()) && e.expression.wf() && final(stream).consumed(
            old(stream),
            outer_span(e.child_spans()),
        ),
        follows(r is Ok, *old(stream), *final(stream), expression_statement_end(old(stream).tokens@, old(stream).position as int)),
{
    let ghost s0 = *stream;
    let expression = parse_expression(stream)?;
    let ghost s1 = *stream;
    let terminator = parse_terminator(stream)?;
    let e = ExpressionStatement { expression, terminator };
    proof {
        lemma_parsed_single(expression.span(), s0, s1);
        lemma_parsed_push(seq![expression.span()], terminator.span(), s0, s1, *stream);
        assert(seq![expression.span()].push(terminator.span()) =~= e.child_spans());
        lemma_parsed_outer(e.child_spans(), s0, *stream);
    }
    Ok(e)
}

/// Parses a whole token stream into its statements; every token is consumed
/// when it succeeds.
pub fn parse_program(stream: &mut TokenStream) -> (r: Result<Program, ParseError>)
    requires
        old(stream).wf(),
    ensures
        final(stream).wf(),
        final(stream).advanced_from(old(stream)),
        r matches Ok(p) ==> p.wf() && statements_parsed(*old(stream), *final(stream), p.statements.nodes@)
            && final(stream).remaining() == 0,
        follows(r is Ok, *old(stream), *final(stream), program_end(old(stream).tokens@, old(stream).position as int)),
{
    let ghost s0 = *stream;
    let mut statements: Vec<Statement> = Vec::new();
    proof {
        lemma_parsed_empty(s0);
        assert(statement_spans(statements@) =~= Seq::<Span>::empty());
    }
    while !stream.is_at_end()
        invariant
            s0 == *old(stream),
            s0.wf(),
            stream.wf(),
            stream.advanced_from(&s0),
            statements_parsed(s0, *stream, statements@),
            program_end(s0.tokens@, s0.position as int) == program_end(s0.tokens@, stream.position as int),
        decreases stream.remaining(),
    {
        let ghost before = *stream;
        let statement = parse_statement(stream)?;
        proof {
            lemma_parsed_push(statement_spans(statements@), statement.span(), s0, before, *stream);
            assert(statement_spans(statements@.push(statement)) =~= statement_spans(statements@).push(
                statement.span(),
            ));
        }
        statements.push(statement);
    }
    Ok(Program { statements: Sequence::new(statements) })
}

} // verus!
