use vstd::prelude::*;

use crate::ast::node::{
    lemma_parsed_concat, lemma_parsed_empty, lemma_parsed_outer, lemma_parsed_push,
    lemma_parsed_single, outer_span, parsed_spans, Keyword, Sequence, Terminator,
};
use crate::ast::statement::{
    colon_body_else_if_spans, statement_body_else_if_spans, statement_spans, If, IfBody,
    IfColonDelimitedBody, IfColonDelimitedBodyElseClause, IfColonDelimitedBodyElseIfClause,
    IfStatementBody, IfStatementBodyElseClause, IfStatementBodyElseIfClause, Statement,
};
use crate::ast::expression::Expression;
use crate::error::ParseError;
use crate::parser::basic::{expect_keyword, expect_span, parse_expression, parse_terminator};
use crate::parser::grammar::statements_until_end;
use crate::parser::statement::{next_is_one_of, parse_statement, parse_statements_until};
use crate::parser::grammar::{
    colon_tail_end,
    branch_stops, colon_body_end, colon_else_clause_end, colon_else_end, colon_else_if_clause_end,
    colon_else_ifs_end, else_clause_end, else_end, else_if_clause_end, else_ifs_end, follows, if_body_end,
    if_end, kind_is, statement_body_end,
};
use crate::span::Span;
use crate::stream::{one_kind, TokenStream};
use crate::token::TokenKind;

verus! {

/// The statement-body `elseif` clause is well formed.
pub open spec fn statement_else_if_wf(c: IfStatementBodyElseIfClause) -> bool {
    &&& c.statement.wf()
    &&& c.condition.wf()
    &&& crate::ast::node::in_order(c.child_spans())
}

/// The colon-delimited `elseif` clause is well formed.
pub open spec fn colon_else_if_wf(c: IfColonDelimitedBodyElseIfClause) -> bool {
    &&& c.condition.wf()
    &&& crate::ast::node::in_order(c.child_spans())
    &&& forall|j: int| 0 <= j < c.statements.nodes.len() ==> (#[trigger] c.statements.nodes@[j]).wf()
}

/// The statement that opens a statement body was read from `s0` to `s1`.
pub open spec fn statement_end_is(s0: TokenStream, s1: TokenStream) -> bool {
    crate::parser::grammar::statement_end(s0.tokens@, s0.position as int) == Some(s1.position as int)
}

/// The kinds that end the statements of a colon-delimited branch before `else`.
fn branch_ends() -> (r: Vec<TokenKind>)
    ensures
        r@ == seq![TokenKind::ElseIf, TokenKind::Else, TokenKind::EndIf],
{
    let mut r = Vec::new();
    r.push(TokenKind::ElseIf);
    r.push(TokenKind::Else);
    r.push(TokenKind::EndIf);
    r
}

#[verifier::spinoff_prover]
#[verifier::rlimit(100)]
/// Parses `if (condition)` and its body.
pub fn parse_if(stream: &mut TokenStream) -> (r: Result<If, ParseError>)
    requires
        old(stream).wf(),
    ensures
        final(stream).wf(),
        final(stream).advanced_from(old(stream)),
        r matches Ok(i) ==> i.wf() && final(stream).consumed(old(stream), i.span()),
        !old(stream).next_is(TokenKind::If) ==> r is Err,
        follows(r is Ok, *old(stream), *final(stream), if_end(old(stream).tokens@, old(stream).position as int)),
    decreases old(stream).remaining(), 0nat,
{
    let ghost s0 = *stream;
    let if_keyword = expect_keyword(stream, TokenKind::If)?;
    let ghost s1 = *stream;
    let left_parenthesis = expect_span(stream, TokenKind::LeftParenthesis)?;
    let ghost s2 = *stream;
    let condition = parse_expression(stream)?;
    let ghost s3 = *stream;
    let right_parenthesis = expect_span(stream, TokenKind::RightParenthesis)?;
    let ghost s4 = *stream;
    let body = parse_if_body(stream)?;
    let i = If { if_keyword, left_parenthesis, condition: Box::new(condition), right_parenthesis, body };
    proof {
        lemma_parsed_single(if_keyword.span, s0, s1);
        lemma_parsed_push(seq![if_keyword.span], left_parenthesis, s0, s1, s2);
        lemma_parsed_push(seq![if_keyword.span, left_parenthesis], condition.span(), s0, s2, s3);
        lemma_parsed_push(seq![if_keyword.span, left_parenthesis, condition.span()], right_parenthesis, s0, s3, s4);
        lemma_parsed_push(
            seq![if_keyword.span, left_parenthesis, condition.span(), right_parenthesis],
            body.span(),
            s0,
            s4,
            *stream,
        );
        assert(seq![if_keyword.span].push(left_parenthesis) =~= seq![if_keyword.span, left_parenthesis]);
        assert(seq![if_keyword.span, left_parenthesis].push(condition.span()) =~= seq![if_keyword.span, left_parenthesis, condition.span()]);
        assert(seq![if_keyword.span, left_parenthesis, condition.span()].push(right_parenthesis) =~= seq![
            if_keyword.span,
            left_parenthesis,
            condition.span(),
            right_parenthesis,
        ]);
        assert(seq![if_keyword.span, left_parenthesis, condition.span(), right_parenthesis].push(body.span())
            =~= i.child_spans());
        lemma_parsed_outer(i.child_spans(), s0, *stream);
    }
    Ok(i)
}

#[verifier::spinoff_prover]
#[verifier::rlimit(100)]
/// Parses the body of an `if`: colon-delimited when a `:` comes next, a statement otherwise.
pub fn parse_if_body(stream: &mut TokenStream) -> (r: Result<IfBody, ParseError>)
    requires
        old(stream).wf(),
    ensures
        final(stream).wf(),
        final(stream).advanced_from(old(stream)),
        r matches Ok(b) ==> b.wf() && final(stream).consumed(old(stream), b.span())
            && (b is ColonDelimited <==> old(stream).next_is(TokenKind::Colon)),
        old(stream).remaining() == 0 ==> r is Err,
        follows(r is Ok, *old(stream), *final(stream), if_body_end(old(stream).tokens@, old(stream).position as int)),
    decreases old(stream).remaining(), 5nat,
{
    let next = stream.peek(one_kind(TokenKind::Colon))?;
    if next.kind == TokenKind::Colon {
        Ok(IfBody::ColonDelimited(parse_if_colon_delimited_body(stream)?))
    } else {
        Ok(IfBody::Statement(parse_if_statement_body(stream)?))
    }
}

#[verifier::spinoff_prover]
#[verifier::rlimit(100)]
/// Parses `statement [elseif (c) statement]* [else statement]`.
pub fn parse_if_statement_body(stream: &mut TokenStream) -> (r: Result<IfStatementBody, ParseError>)
    requires
        old(stream).wf(),
    ensures
        final(stream).wf(),
        final(stream).advanced_from(old(stream)),
        r matches Ok(b) ==> IfBody::Statement(b).wf() && final(stream).consumed(old(stream), b.span()),
        follows(r is Ok, *old(stream), *final(stream), statement_body_end(old(stream).tokens@, old(stream).position as int)),
    decreases old(stream).remaining(), 3nat,
{
    let ghost s0 = *stream;
    let statement = parse_statement(stream)?;
    let ghost s1 = *stream;
    let mut else_if_clauses: Vec<IfStatementBodyElseIfClause> = Vec::new();
    proof {
        lemma_parsed_single(statement.span(), s0, s1);
        assert(statement_body_else_if_spans(else_if_clauses@) =~= Seq::<Span>::empty());
        assert(seq![statement.span()] + Seq::<Span>::empty() =~= seq![statement.span()]);
    }
    let mut done = false;
    while !done
        invariant
            s0 == *old(stream),
            s0.wf(),
            s1.wf(),
            s1.position > s0.position,
            stream.wf(),
            stream.advanced_from(&s1),
            s1.advanced_from(&s0),
            parsed_spans(s0, *stream, seq![statement.span()] + statement_body_else_if_spans(else_if_clauses@)),
            forall|k: int| 0 <= k < else_if_clauses.len() ==> statement_else_if_wf(#[trigger] else_if_clauses@[k]),
            !done ==> else_ifs_end(s0.tokens@, s1.position as int) == else_ifs_end(s0.tokens@, stream.position as int),
            done ==> else_ifs_end(s0.tokens@, s1.position as int) == Some(stream.position as int),
            statement_end_is(s0, s1),
        decreases stream.remaining() + if done { 0int } else { 1int },
    {
        let ghost before = *stream;
        match parse_optional_if_statement_body_else_if_clause(stream)? {
            Some(clause) => {
                proof {
                    let a = seq![statement.span()] + statement_body_else_if_spans(else_if_clauses@);
                    lemma_parsed_push(a, clause.span(), s0, before, *stream);
                    assert(a.push(clause.span()) =~= seq![statement.span()] + statement_body_else_if_spans(
                        else_if_clauses@.push(clause),
                    ));
                }
                else_if_clauses.push(clause);
            },
            None => {
                done = true;
            },
        }
    }
    let ghost s2 = *stream;
    let else_clause = parse_optional_if_statement_body_else_clause(stream)?;
    let ghost else_ghost = else_clause;
    let b = IfStatementBody {
        statement: Box::new(statement),
        else_if_clauses: Sequence::new(else_if_clauses),
        else_clause,
    };
    proof {
        let a = seq![statement.span()] + statement_body_else_if_spans(else_if_clauses@);
        match else_ghost {
            Some(e) => {
                lemma_parsed_push(a, e.span(), s0, s2, *stream);
                assert(a.push(e.span()) =~= b.child_spans());
            },
            None => {
                assert(a =~= b.child_spans());
            },
        }
        lemma_parsed_outer(b.child_spans(), s0, *stream);
        let c = b.child_spans();
        if else_if_clauses.len() > 0 && else_ghost is None {
            assert(c.last() == statement_body_else_if_spans(else_if_clauses@).last());
        }
    }
    Ok(b)
}

#[verifier::spinoff_prover]
#[verifier::rlimit(100)]
/// Parses an `elseif` clause of a statement body if `elseif` comes next.
pub fn parse_optional_if_statement_body_else_if_clause(stream: &mut TokenStream) -> (r: Result<
    Option<IfStatementBodyElseIfClause>,
    ParseError,
>)
    requires
        old(stream).wf(),
    ensures
        final(stream).wf(),
        final(stream).advanced_from(old(stream)),
        r matches Ok(None) ==> !old(stream).next_is(TokenKind::ElseIf) && *final(stream) == *old(stream),
        r matches Ok(Some(c)) ==> old(stream).next_is(TokenKind::ElseIf) && statement_else_if_wf(c)
            && final(stream).consumed(old(stream), c.span()),
        !old(stream).next_is(TokenKind::ElseIf) ==> r == Ok::<Option<IfStatementBodyElseIfClause>, ParseError>(None)
            && *final(stream) == *old(stream),
        old(stream).next_is(TokenKind::ElseIf) ==> (r matches Ok(Some(_)) || r is Err),
        old(stream).next_is(TokenKind::ElseIf) ==> follows(r is Ok, *old(stream), *final(stream), else_if_clause_end(old(stream).tokens@, old(stream).position as int)),
    decreases old(stream).remaining(), 1nat,
{
    if stream.is_next(TokenKind::ElseIf) {
        Ok(Some(parse_if_statement_body_else_if_clause(stream)?))
    } else {
        Ok(None)
    }
}

#[verifier::spinoff_prover]
#[verifier::rlimit(100)]
/// Parses `elseif (condition) statement`.
pub fn parse_if_statement_body_else_if_clause(stream: &mut TokenStream) -> (r: Result<IfStatementBodyElseIfClause, ParseError>)
    requires
        old(stream).wf(),
    ensures
        final(stream).wf(),
        final(stream).advanced_from(old(stream)),
        r matches Ok(c) ==> statement_else_if_wf(c) && final(stream).consumed(old(stream), c.span()),
        !old(stream).next_is(TokenKind::ElseIf) ==> r is Err,
        !old(stream).next_is(TokenKind::ElseIf) ==> (r matches Err(e) ==> old(stream).rejects(e, seq![TokenKind::ElseIf])),
        follows(r is Ok, *old(stream), *final(stream), else_if_clause_end(old(stream).tokens@, old(stream).position as int)),
    decreases old(stream).remaining(), 0nat,
{
    let ghost s0 = *stream;
    let elseif = expect_keyword(stream, TokenKind::ElseIf)?;
    let ghost s1 = *stream;
    let left_parenthesis = expect_span(stream, TokenKind::LeftParenthesis)?;
    let ghost s2 = *stream;
    let condition = parse_expression(stream)?;
    let ghost s3 = *stream;
    let right_parenthesis = expect_span(stream, TokenKind::RightParenthesis)?;
    let ghost s4 = *stream;
    let statement = parse_statement(stream)?;
    let c = IfStatementBodyElseIfClause {
        elseif,
        left_parenthesis,
        condition: Box::new(condition),
        right_parenthesis,
        statement: Box::new(statement),
    };
    proof {
        lemma_parsed_single(elseif.span, s0, s1);
        lemma_parsed_push(seq![elseif.span], left_parenthesis, s0, s1, s2);
        lemma_parsed_push(seq![elseif.span].push(left_parenthesis), condition.span(), s0, s2, s3);
        lemma_parsed_push(seq![elseif.span].push(left_parenthesis).push(condition.span()), right_parenthesis, s0, s3, s4);
        lemma_parsed_push(
            seq![elseif.span].push(left_parenthesis).push(condition.span()).push(right_parenthesis),
            statement.span(),
            s0,
            s4,
            *stream,
        );
        assert(seq![elseif.span].push(left_parenthesis).push(condition.span()).push(right_parenthesis).push(
            statement.span(),
        ) =~= c.child_spans());
        lemma_parsed_outer(c.child_spans(), s0, *stream);
    }
    Ok(c)
}

#[verifier::spinoff_prover]
#[verifier::rlimit(100)]
/// Parses the `else` clause of a statement body if `else` comes next.
pub fn parse_optional_if_statement_body_else_clause(stream: &mut TokenStream) -> (r: Result<
    Option<IfStatementBodyElseClause>,
    ParseError,
>)
    requires
        old(stream).wf(),
    ensures
        final(stream).wf(),
        final(stream).advanced_from(old(stream)),
        r matches Ok(None) ==> !old(stream).next_is(TokenKind::Else) && *final(stream) == *old(stream),
        r matches Ok(Some(c)) ==> old(stream).next_is(TokenKind::Else) && c.statement.wf()
            && crate::ast::node::in_order(c.child_spans()) && final(stream).consumed(old(stream), c.span()),
        !old(stream).next_is(TokenKind::Else) ==> r == Ok::<Option<IfStatementBodyElseClause>, ParseError>(None)
            && *final(stream) == *old(stream),
        old(stream).next_is(TokenKind::Else) ==> (r matches Ok(Some(_)) || r is Err),
        follows(r is Ok, *old(stream), *final(stream), else_end(old(stream).tokens@, old(stream).position as int)),
    decreases old(stream).remaining(), 1nat,
{
    if stream.is_next(TokenKind::Else) {
        Ok(Some(parse_if_statement_body_else_clause(stream)?))
    } else {
        Ok(None)
    }
}

#[verifier::spinoff_prover]
#[verifier::rlimit(100)]
/// Parses `else statement`.
pub fn parse_if_statement_body_else_clause(stream: &mut TokenStream) -> (r: Result<IfStatementBodyElseClause, ParseError>)
    requires
        old(stream).wf(),
    ensures
        final(stream).wf(),
        final(stream).advanced_from(old(stream)),
        r matches Ok(c) ==> c.statement.wf() && crate::ast::node::in_order(c.child_spans())
            && final(stream).consumed(old(stream), c.span()),
        !old(stream).next_is(TokenKind::Else) ==> r is Err,
        follows(r is Ok, *old(stream), *final(stream), else_clause_end(old(stream).tokens@, old(stream).position as int)),
    decreases old(stream).remaining(), 0nat,
{
    let ghost s0 = *stream;
    let else_keyword = expect_keyword(stream, TokenKind::Else)?;
    let ghost s1 = *stream;
    let statement = parse_statement(stream)?;
    let c = IfStatementBodyElseClause { else_keyword, statement: Box::new(statement) };
    proof {
        lemma_parsed_single(else_keyword.span, s0, s1);
        lemma_parsed_push(seq![else_keyword.span], statement.span(), s0, s1, *stream);
        assert(seq![else_keyword.span].push(statement.span()) =~= c.child_spans());
        lemma_parsed_outer(c.child_spans(), s0, *stream);
    }
    Ok(c)
}

/// The spans of what follows the first statements of a colon-delimited body.
pub open spec fn tail_spans(
    clauses: Seq<IfColonDelimitedBodyElseIfClause>,
    else_clause: Option<IfColonDelimitedBodyElseClause>,
    endif: Span,
    terminator: Span,
) -> Seq<Span> {
    colon_body_else_if_spans(clauses) + match else_clause {
        Some(e) => seq![e.span()],
        None => Seq::empty(),
    } + seq![endif, terminator]
}

/// Parses what follows the first statements of a colon-delimited body:
/// `elseif` clauses, an optional `else` clause, `endif` and a terminator.
#[verifier::spinoff_prover]
#[verifier::rlimit(100)]
pub fn parse_if_colon_delimited_body_tail(stream: &mut TokenStream) -> (r: Result<
    (Vec<IfColonDelimitedBodyElseIfClause>, Option<IfColonDelimitedBodyElseClause>, Keyword, Terminator),
    ParseError,
>)
    requires
        old(stream).wf(),
    ensures
        final(stream).wf(),
        final(stream).advanced_from(old(stream)),
        r matches Ok((v, e, k, t)) ==> parsed_spans(*old(stream), *final(stream), tail_spans(v@, e, k.span, t.spec_span()))
            && (forall|j: int| 0 <= j < v.len() ==> colon_else_if_wf(#[trigger] v@[j]))
            && (e matches Some(c) ==> crate::ast::node::in_order(c.child_spans())
                && (forall|j: int| 0 <= j < c.statements.nodes.len() ==> (#[trigger] c.statements.nodes@[j]).wf())),
        follows(r is Ok, *old(stream), *final(stream), colon_tail_end(old(stream).tokens@, old(stream).position as int)),
    decreases old(stream).remaining(), 3nat,
{
    let ghost s0 = *stream;
    let else_if_clauses = parse_colon_else_if_clauses(stream)?;
    let ghost s1 = *stream;
    let else_clause = parse_optional_if_colon_delimited_body_else_clause(stream)?;
    let ghost else_ghost = else_clause;
    let ghost s2 = *stream;
    let endif = expect_keyword(stream, TokenKind::EndIf)?;
    let ghost s3 = *stream;
    let terminator = parse_terminator(stream)?;
    proof {
        let a = colon_body_else_if_spans(else_if_clauses@);
        let e = match else_ghost {
            Some(x) => seq![x.span()],
            None => Seq::<Span>::empty(),
        };
        match else_ghost {
            Some(x) => {
                lemma_parsed_single(x.span(), s1, s2);
            },
            None => {
                lemma_parsed_empty(s1);
            },
        }
        lemma_parsed_concat(a, e, s0, s1, s2);
        lemma_parsed_push(a + e, endif.span, s0, s2, s3);
        lemma_parsed_push((a + e).push(endif.span), terminator.span(), s0, s3, *stream);
        assert((a + e).push(endif.span).push(terminator.span()) =~= tail_spans(else_if_clauses@, else_ghost, endif.span, terminator.span()));
    }
    Ok((else_if_clauses, else_clause, endif, terminator))
}

/// Parses `: statements [elseif (c): statements]* [else: statements] endif;`.
#[verifier::spinoff_prover]
#[verifier::rlimit(100)]
pub fn parse_if_colon_delimited_body(stream: &mut TokenStream) -> (r: Result<IfColonDelimitedBody, ParseError>)
    requires
        old(stream).wf(),
    ensures
        final(stream).wf(),
        final(stream).advanced_from(old(stream)),
        r matches Ok(b) ==> IfBody::ColonDelimited(b).wf() && final(stream).consumed(old(stream), b.span()),
        !old(stream).next_is(TokenKind::Colon) ==> r is Err,
        follows(r is Ok, *old(stream), *final(stream), colon_body_end(old(stream).tokens@, old(stream).position as int)),
    decreases old(stream).remaining(), 4nat,
{
    let ghost s0 = *stream;
    let colon = expect_span(stream, TokenKind::Colon)?;
    let ghost s1 = *stream;
    let statements = parse_statements_until(stream, &branch_ends())?;
    let ghost s2 = *stream;
    let (else_if_clauses, else_clause, endif, terminator) = parse_if_colon_delimited_body_tail(stream)?;
    let ghost tail = tail_spans(else_if_clauses@, else_clause, endif.span, terminator.spec_span());
    let b = IfColonDelimitedBody {
        colon,
        statements: Sequence::new(statements),
        else_if_clauses: Sequence::new(else_if_clauses),
        else_clause,
        endif,
        terminator,
    };
    proof {
        assert(IfBody::ColonDelimited(b).wf() && stream.consumed(&s0, b.span())) by {
            lemma_parsed_single(colon, s0, s1);
            lemma_parsed_concat(seq![colon], statement_spans(statements@), s0, s1, s2);
            lemma_parsed_concat(seq![colon] + statement_spans(statements@), tail, s0, s2, *stream);
            assert(seq![colon] + statement_spans(statements@) + tail =~= b.child_spans());
            lemma_parsed_outer(b.child_spans(), s0, *stream);
        }
    }
    Ok(b)
}

#[verifier::spinoff_prover]
#[verifier::rlimit(100)]
/// How a colon-delimited body ends once its first statements end at `s`.
pub proof fn lemma_colon_body_unfold(t: Seq<crate::token::Token>, p: int, s: int, f: int, g: Option<int>)
    requires
        kind_is(t, p, TokenKind::Colon),
        statements_until_end(t, p + 1, branch_stops()) == Some(s),
        p < s <= t.len(),
        colon_else_ifs_end(t, s) == Some(f),
        s <= f <= t.len(),
        colon_else_end(t, f) == g,
    ensures
        colon_body_end(t, p) == match g {
            Some(g) => if kind_is(t, g, TokenKind::EndIf) {
                crate::parser::grammar::terminator_end(t, g + 1)
            } else {
                None
            },
            None => None,
        },
{
}

/// Parses the `elseif` clauses of a colon-delimited body that come next.
pub fn parse_colon_else_if_clauses(stream: &mut TokenStream) -> (r: Result<Vec<IfColonDelimitedBodyElseIfClause>, ParseError>)
    requires
        old(stream).wf(),
    ensures
        final(stream).wf(),
        final(stream).advanced_from(old(stream)),
        r matches Ok(v) ==> parsed_spans(*old(stream), *final(stream), colon_body_else_if_spans(v@))
            && (forall|k: int| 0 <= k < v.len() ==> colon_else_if_wf(#[trigger] v@[k])),
        follows(r is Ok, *old(stream), *final(stream), colon_else_ifs_end(old(stream).tokens@, old(stream).position as int)),
    decreases old(stream).remaining(), 2nat,
{
    let ghost s0 = *stream;
    let mut else_if_clauses: Vec<IfColonDelimitedBodyElseIfClause> = Vec::new();
    proof {
        lemma_parsed_empty(s0);
        assert(colon_body_else_if_spans(else_if_clauses@) =~= Seq::<Span>::empty());
    }
    let mut done = false;
    while !done
        invariant
            s0 == *old(stream),
            s0.wf(),
            stream.wf(),
            stream.advanced_from(&s0),
            parsed_spans(s0, *stream, colon_body_else_if_spans(else_if_clauses@)),
            forall|k: int| 0 <= k < else_if_clauses.len() ==> colon_else_if_wf(#[trigger] else_if_clauses@[k]),
            !done ==> colon_else_ifs_end(s0.tokens@, s0.position as int) == colon_else_ifs_end(s0.tokens@, stream.position as int),
            done ==> colon_else_ifs_end(s0.tokens@, s0.position as int) == Some(stream.position as int),
        decreases stream.remaining() + if done { 0int } else { 1int },
    {
        let ghost before = *stream;
        match parse_optional_if_colon_delimited_body_else_if_clause(stream)? {
            Some(clause) => {
                proof {
                    let a = colon_body_else_if_spans(else_if_clauses@);
                    lemma_parsed_push(a, clause.span(), s0, before, *stream);
                    assert(a.push(clause.span()) =~= colon_body_else_if_spans(else_if_clauses@.push(clause)));
                }
                else_if_clauses.push(clause);
            },
            None => {
                done = true;
            },
        }
    }
    Ok(else_if_clauses)
}

#[verifier::spinoff_prover]
#[verifier::rlimit(100)]
/// Parses an `elseif` clause of a colon-delimited body if `elseif` comes next.
pub fn parse_optional_if_colon_delimited_body_else_if_clause(stream: &mut TokenStream) -> (r: Result<
    Option<IfColonDelimitedBodyElseIfClause>,
    ParseError,
>)
    requires
        old(stream).wf(),
    ensures
        final(stream).wf(),
        final(stream).advanced_from(old(stream)),
        r matches Ok(None) ==> !old(stream).next_is(TokenKind::ElseIf) && *final(stream) == *old(stream),
        r matches Ok(Some(c)) ==> old(stream).next_is(TokenKind::ElseIf) && colon_else_if_wf(c)
            && final(stream).consumed(old(stream), c.span()),
        !old(stream).next_is(TokenKind::ElseIf) ==> r == Ok::<Option<IfColonDelimitedBodyElseIfClause>, ParseError>(None)
            && *final(stream) == *old(stream),
        old(stream).next_is(TokenKind::ElseIf) ==> (r matches Ok(Some(_)) || r is Err),
        old(stream).next_is(TokenKind::ElseIf) ==> follows(r is Ok, *old(stream), *final(stream), colon_else_if_clause_end(old(stream).tokens@, old(stream).position as int)),
        r matches Ok(Some(_)) ==> next_is_one_of(*final(stream), branch_stops()),
    decreases old(stream).remaining(), 1nat,
{
    if stream.is_next(TokenKind::ElseIf) {
        Ok(Some(parse_if_colon_delimited_body_else_if_clause(stream)?))
    } else {
        Ok(None)
    }
}

#[verifier::spinoff_prover]
#[verifier::rlimit(100)]
/// Parses `elseif (condition): statements`.
pub fn parse_if_colon_delimited_body_else_if_clause(stream: &mut TokenStream) -> (r: Result<
    IfColonDelimitedBodyElseIfClause,
    ParseError,
>)
    requires
        old(stream).wf(),
    ensures
        final(stream).wf(),
        final(stream).advanced_from(old(stream)),
        r matches Ok(c) ==> colon_else_if_wf(c) && final(stream).consumed(old(stream), c.span()),
        !old(stream).next_is(TokenKind::ElseIf) ==> r is Err,
        r is Ok ==> next_is_one_of(*final(stream), branch_stops()),
        follows(r is Ok, *old(stream), *final(stream), colon_else_if_clause_end(old(stream).tokens@, old(stream).position as int)),

    decreases old(stream).remaining(), 0nat,
{
    let ghost s0 = *stream;
    let (elseif, left_parenthesis, condition, right_parenthesis, colon) = parse_colon_else_if_header(stream)?;
    let ghost s5 = *stream;
    let statements = parse_statements_until(stream, &branch_ends())?;
    let c = IfColonDelimitedBodyElseIfClause {
        elseif,
        left_parenthesis,
        condition: Box::new(condition),
        right_parenthesis,
        colon,
        statements: Sequence::new(statements),
    };
    proof {
        assert(colon_else_if_wf(c) && stream.consumed(&s0, c.span())) by {
            let p = seq![elseif.span, left_parenthesis, condition.spec_span(), right_parenthesis, colon];
            lemma_parsed_concat(p, statement_spans(statements@), s0, s5, *stream);
            assert(p + statement_spans(statements@) =~= c.child_spans());
            lemma_parsed_outer(c.child_spans(), s0, *stream);
            if statements.len() > 0 {
                assert(c.child_spans().last() == statement_spans(statements@).last());
            }
        }
    }
    Ok(c)
}

#[verifier::spinoff_prover]
#[verifier::rlimit(100)]
/// Parses `elseif (condition):`, the head of a colon-delimited `elseif` clause.
#[verifier::spinoff_prover]
#[verifier::rlimit(100)]
pub fn parse_colon_else_if_header(stream: &mut TokenStream) -> (r: Result<(Keyword, Span, Expression, Span, Span), ParseError>)
    requires
        old(stream).wf(),
    ensures
        final(stream).wf(),
        final(stream).advanced_from(old(stream)),
        r matches Ok((k, lp, c, rp, col)) ==> parsed_spans(*old(stream), *final(stream), seq![k.span, lp, c.spec_span(), rp, col])
            && c.wf(),
        follows(r is Ok, *old(stream), *final(stream), crate::parser::grammar::colon_else_if_header_end(old(stream).tokens@, old(stream).position as int)),
{
    let ghost s0 = *stream;
    let elseif = expect_keyword(stream, TokenKind::ElseIf)?;
    let ghost s1 = *stream;
    let left_parenthesis = expect_span(stream, TokenKind::LeftParenthesis)?;
    let ghost s2 = *stream;
    let condition = parse_expression(stream)?;
    let ghost s3 = *stream;
    let right_parenthesis = expect_span(stream, TokenKind::RightParenthesis)?;
    let ghost s4 = *stream;
    let colon = expect_span(stream, TokenKind::Colon)?;
    proof {
        lemma_parsed_single(elseif.span, s0, s1);
        lemma_parsed_push(seq![elseif.span], left_parenthesis, s0, s1, s2);
        lemma_parsed_push(seq![elseif.span].push(left_parenthesis), condition.spec_span(), s0, s2, s3);
        lemma_parsed_push(seq![elseif.span].push(left_parenthesis).push(condition.spec_span()), right_parenthesis, s0, s3, s4);
        lemma_parsed_push(
            seq![elseif.span].push(left_parenthesis).push(condition.spec_span()).push(right_parenthesis),
            colon,
            s0,
            s4,
            *stream,
        );
        assert(seq![elseif.span].push(left_parenthesis).push(condition.spec_span()).push(right_parenthesis).push(colon)
            =~= seq![elseif.span, left_parenthesis, condition.spec_span(), right_parenthesis, colon]);
    }
    Ok((elseif, left_parenthesis, condition, right_parenthesis, colon))
}

/// Parses the `else` clause of a colon-delimited body if `else` comes next.
pub fn parse_optional_if_colon_delimited_body_else_clause(stream: &mut TokenStream) -> (r: Result<
    Option<IfColonDelimitedBodyElseClause>,
    ParseError,
>)
    requires
        old(stream).wf(),
    ensures
        final(stream).wf(),
        final(stream).advanced_from(old(stream)),
        r matches Ok(None) ==> !old(stream).next_is(TokenKind::Else) && *final(stream) == *old(stream),
        r matches Ok(Some(c)) ==> old(stream).next_is(TokenKind::Else) && crate::ast::node::in_order(c.child_spans())
            && (forall|j: int| 0 <= j < c.statements.nodes.len() ==> (#[trigger] c.statements.nodes@[j]).wf())
            && final(stream).consumed(old(stream), c.span()),
        !old(stream).next_is(TokenKind::Else) ==> r == Ok::<Option<IfColonDelimitedBodyElseClause>, ParseError>(None)
            && *final(stream) == *old(stream),
        old(stream).next_is(TokenKind::Else) ==> (r matches Ok(Some(_)) || r is Err),
        r matches Ok(Some(_)) ==> final(stream).next_is(TokenKind::EndIf),
        follows(r is Ok, *old(stream), *final(stream), colon_else_end(old(stream).tokens@, old(stream).position as int)),
    decreases old(stream).remaining(), 1nat,
{
    if stream.is_next(TokenKind::Else) {
        Ok(Some(parse_if_colon_delimited_body_else_clause(stream)?))
    } else {
        Ok(None)
    }
}

#[verifier::spinoff_prover]
#[verifier::rlimit(100)]
/// Parses `else: statements`.
pub fn parse_if_colon_delimited_body_else_clause(stream: &mut TokenStream) -> (r: Result<
    IfColonDelimitedBodyElseClause,
    ParseError,
>)
    requires
        old(stream).wf(),
    ensures
        final(stream).wf(),
        final(stream).advanced_from(old(stream)),
        r matches Ok(c) ==> crate::ast::node::in_order(c.child_spans())
            && (forall|j: int| 0 <= j < c.statements.nodes.len() ==> (#[trigger] c.statements.nodes@[j]).wf())
            && final(stream).consumed(old(stream), c.span()),
        !old(stream).next_is(TokenKind::Else) ==> r is Err,
        r is Ok ==> final(stream).next_is(TokenKind::EndIf),
        follows(r is Ok, *old(stream), *final(stream), colon_else_clause_end(old(stream).tokens@, old(stream).position as int)),
    decreases old(stream).remaining(), 0nat,
{
    let ghost s0 = *stream;
    let else_keyword = expect_keyword(stream, TokenKind::Else)?;
    let ghost s1 = *stream;
    let colon = expect_span(stream, TokenKind::Colon)?;
    let ghost s2 = *stream;
    let statements = parse_statements_until(stream, &one_kind(TokenKind::EndIf))?;
    let c = IfColonDelimitedBodyElseClause { else_keyword, colon, statements: Sequence::new(statements) };
    proof {
        lemma_parsed_single(else_keyword.span, s0, s1);
        lemma_parsed_push(seq![else_keyword.span], colon, s0, s1, s2);
        lemma_parsed_concat(seq![else_keyword.span].push(colon), statement_spans(statements@), s0, s2, *stream);
        assert(seq![else_keyword.span].push(colon) + statement_spans(statements@) =~= c.child_spans());
        lemma_parsed_outer(c.child_spans(), s0, *stream);
        if statements.len() > 0 {
            assert(c.child_spans().last() == statement_spans(statements@).last());
        }
    }
    Ok(c)
}

} // verus!
