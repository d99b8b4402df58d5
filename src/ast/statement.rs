use vstd::prelude::*;

use crate::ast::declaration::{Class, Function};
use crate::ast::expression::Expression;
use crate::ast::imports::Use;
use crate::ast::node::{
    in_order, interleave, outer_span, Keyword, LocalIdentifier, Sequence, Terminator,
    TokenSeparatedSequence,
};
use crate::span::Span;

verus! {

/// A statement.
#[derive(Debug, PartialEq, Eq)]
pub enum Statement {
    /// `<?php`
    OpeningTag(Span),
    Use(Use),
    If(If),
    Echo(Echo),
    Goto(Goto),
    Label(Label),
    Block(Block),
    Class(Class),
    Function(Function),
    Expression(ExpressionStatement),
    /// A lone `;`.
    Noop(Span),
}

/// `if (condition)` and one of the two body shapes.
#[derive(Debug, PartialEq, Eq)]
pub struct If {
    pub if_keyword: Keyword,
    pub left_parenthesis: Span,
    pub condition: Box<Expression>,
    pub right_parenthesis: Span,
    pub body: IfBody,
}

/// The body of an `if`: a statement, or statements delimited by `:` and `endif`.
#[derive(Debug, PartialEq, Eq)]
pub enum IfBody {
    Statement(IfStatementBody),
    ColonDelimited(IfColonDelimitedBody),
}

/// `statement [elseif (c) statement]* [else statement]`
#[derive(Debug, PartialEq, Eq)]
pub struct IfStatementBody {
    pub statement: Box<Statement>,
    pub else_if_clauses: Sequence<IfStatementBodyElseIfClause>,
    pub else_clause: Option<IfStatementBodyElseClause>,
}

#[derive(Debug, PartialEq, Eq)]
pub struct IfStatementBodyElseIfClause {
    pub elseif: Keyword,
    pub left_parenthesis: Span,
    pub condition: Box<Expression>,
    pub right_parenthesis: Span,
    pub statement: Box<Statement>,
}

#[derive(Debug, PartialEq, Eq)]
pub struct IfStatementBodyElseClause {
    pub else_keyword: Keyword,
    pub statement: Box<Statement>,
}

/// `: statements [elseif (c): statements]* [else: statements] endif;`
#[derive(Debug, PartialEq, Eq)]
pub struct IfColonDelimitedBody {
    pub colon: Span,
    pub statements: Sequence<Statement>,
    pub else_if_clauses: Sequence<IfColonDelimitedBodyElseIfClause>,
    pub else_clause: Option<IfColonDelimitedBodyElseClause>,
    pub endif: Keyword,
    pub terminator: Terminator,
}

#[derive(Debug, PartialEq, Eq)]
pub struct IfColonDelimitedBodyElseIfClause {
    pub elseif: Keyword,
    pub left_parenthesis: Span,
    pub condition: Box<Expression>,
    pub right_parenthesis: Span,
    pub colon: Span,
    pub statements: Sequence<Statement>,
}

#[derive(Debug, PartialEq, Eq)]
pub struct IfColonDelimitedBodyElseClause {
    pub else_keyword: Keyword,
    pub colon: Span,
    pub statements: Sequence<Statement>,
}

/// `echo a, b;`
#[derive(Debug, PartialEq, Eq)]
pub struct Echo {
    pub echo: Keyword,
    pub values: TokenSeparatedSequence<Expression>,
    pub terminator: Terminator,
}

/// `goto label;`
#[derive(Clone, Copy, Debug, PartialEq, Eq, Structural)]
pub struct Goto {
    pub goto: Keyword,
    pub label: LocalIdentifier,
    pub terminator: Terminator,
}

/// `label:`
#[derive(Clone, Copy, Debug, PartialEq, Eq, Structural)]
pub struct Label {
    pub name: LocalIdentifier,
    pub colon: Span,
}

/// `{ statements }`
#[derive(Debug, PartialEq, Eq)]
pub struct Block {
    pub left_brace: Span,
    pub statements: Sequence<Statement>,
    pub right_brace: Span,
}

/// An expression followed by a terminator.
#[derive(Debug, PartialEq, Eq)]
pub struct ExpressionStatement {
    pub expression: Expression,
    pub terminator: Terminator,
}

/// The spans of a list of statements.
pub open spec fn statement_spans(s: Seq<Statement>) -> Seq<Span> {
    Seq::new(s.len(), |i: int| s[i].span())
}

pub open spec fn statement_body_else_if_spans(s: Seq<IfStatementBodyElseIfClause>) -> Seq<Span> {
    Seq::new(s.len(), |i: int| s[i].span())
}

pub open spec fn colon_body_else_if_spans(s: Seq<IfColonDelimitedBodyElseIfClause>) -> Seq<Span> {
    Seq::new(s.len(), |i: int| s[i].span())
}

pub open spec fn expression_spans(s: Seq<Expression>) -> Seq<Span> {
    Seq::new(s.len(), |i: int| s[i].span())
}

impl Statement {
    pub open spec fn span(&self) -> Span
        decreases self,
    {
        match self {
            Statement::OpeningTag(s) => *s,
            Statement::Use(u) => u.span(),
            Statement::If(i) => i.span(),
            Statement::Echo(e) => outer_span(e.child_spans()),
            Statement::Goto(g) => outer_span(g.child_spans()),
            Statement::Label(l) => outer_span(l.child_spans()),
            Statement::Block(b) => outer_span(b.fixed_spans()),
            Statement::Class(c) => c.span(),
            Statement::Function(f) => f.span(),
            Statement::Expression(e) => outer_span(e.child_spans()),
            Statement::Noop(s) => *s,
        }
    }

    pub open spec fn wf(&self) -> bool
        decreases self,
    {
        match self {
            Statement::OpeningTag(s) => s.wf(),
            Statement::Use(u) => u.wf(),
            Statement::If(i) => {
                &&& in_order(i.child_spans())
                &&& i.condition.wf()
                &&& i.body.wf()
            },
            Statement::Echo(e) => e.wf(),
            Statement::Goto(g) => in_order(g.child_spans()),
            Statement::Label(l) => in_order(l.child_spans()),
            Statement::Block(b) => {
                &&& in_order(b.child_spans())
                &&& forall|k: int| 0 <= k < b.statements.nodes.len() ==> (#[trigger] b.statements.nodes@[k]).wf()
            },
            Statement::Class(c) => c.wf(),
            Statement::Function(f) => {
                &&& in_order(f.child_spans())
                &&& f.parameter_list.wf()
                &&& forall|k: int| 0 <= k < f.body.statements.nodes.len() ==> (#[trigger] f.body.statements.nodes@[k]).wf()
            },
            Statement::Expression(e) => in_order(e.child_spans()) && e.expression.wf(),
            Statement::Noop(s) => s.wf(),
        }
    }
}

impl Statement {
    /// The spans of the statement's direct children, in source order.
    pub open spec fn child_spans(&self) -> Seq<Span> {
        match self {
            Statement::OpeningTag(s) => seq![*s],
            Statement::Use(u) => u.child_spans(),
            Statement::If(i) => i.child_spans(),
            Statement::Echo(e) => e.child_spans(),
            Statement::Goto(g) => g.child_spans(),
            Statement::Label(l) => l.child_spans(),
            Statement::Block(b) => b.child_spans(),
            Statement::Class(c) => c.child_spans(),
            Statement::Function(f) => f.child_spans(),
            Statement::Expression(e) => e.child_spans(),
            Statement::Noop(s) => seq![*s],
        }
    }
}

/// A well-formed statement's span covers the span of each of its direct
/// children, and those children come one after another in source order.
pub proof fn lemma_statement_children(s: Statement)
    requires
        s.wf(),
    ensures
        s.child_spans().len() > 0,
        forall|i: int| 0 <= i < s.child_spans().len() ==> s.span().covers(#[trigger] s.child_spans()[i]),
        forall|i: int, j: int|
            0 <= i < j < s.child_spans().len() ==> (#[trigger] s.child_spans()[i]).precedes(
                #[trigger] s.child_spans()[j],
            ),
{
    let c = s.child_spans();
    assert(c.len() > 0);
    assert(in_order(c)) by {
        match s {
            Statement::OpeningTag(x) => {},
            Statement::Noop(x) => {},
            _ => {},
        }
    }
    crate::ast::node::lemma_in_order(c);
    assert(s.span() == outer_span(c)) by {
        match s {
            Statement::Block(b) => {
                assert(c.last() == b.right_brace);
            },
            Statement::Class(k) => {
                assert(c.last() == k.right_brace);
            },
            Statement::Function(f) => {
                assert(c[0] == f.function_keyword.span);
                assert(c.last() == f.body.child_spans().last());
                assert(f.body.child_spans().last() == f.body.right_brace);
            },
            _ => {},
        }
    }
}

/// A well-formed `echo` has one comma fewer than values.
pub proof fn lemma_echo_separators(e: Echo)
    requires
        e.wf(),
    ensures
        e.values.tokens.len() + 1 == e.values.nodes.len(),
{
}

/// Every `if` has exactly one of the two body shapes.
pub proof fn lemma_if_body_exclusive(i: If)
    ensures
        (i.body is Statement) != (i.body is ColonDelimited),
{
}

impl If {
    pub open spec fn child_spans(&self) -> Seq<Span> {
        seq![self.if_keyword.span, self.left_parenthesis, self.condition.span(), self.right_parenthesis, self.body.span()]
    }

    pub open spec fn span(&self) -> Span
        decreases self,
    {
        Span { start: self.if_keyword.span.start, end: self.body.span().end }
    }

    pub open spec fn wf(&self) -> bool {
        Statement::If(*self).wf()
    }
}

impl IfBody {
    pub open spec fn span(&self) -> Span
        decreases self,
    {
        match self {
            IfBody::Statement(b) => b.span(),
            IfBody::ColonDelimited(b) => b.span(),
        }
    }

    pub open spec fn wf(&self) -> bool
        decreases self,
    {
        match self {
            IfBody::Statement(b) => {
                &&& in_order(b.child_spans())
                &&& b.statement.wf()
                &&& forall|k: int| 0 <= k < b.else_if_clauses.nodes.len() ==> (#[trigger] b.else_if_clauses.nodes@[k]).statement.wf()
                &&& forall|k: int| 0 <= k < b.else_if_clauses.nodes.len() ==> in_order((#[trigger] b.else_if_clauses.nodes@[k]).child_spans())
                &&& forall|k: int| 0 <= k < b.else_if_clauses.nodes.len() ==> (#[trigger] b.else_if_clauses.nodes@[k]).condition.wf()
                &&& b.else_clause matches Some(e) ==> e.statement.wf() && in_order(e.child_spans())
            },
            IfBody::ColonDelimited(b) => {
                &&& in_order(b.child_spans())
                &&& forall|k: int| 0 <= k < b.statements.nodes.len() ==> (#[trigger] b.statements.nodes@[k]).wf()
                &&& forall|k: int| 0 <= k < b.else_if_clauses.nodes.len() ==> in_order((#[trigger] b.else_if_clauses.nodes@[k]).child_spans())
                &&& forall|k: int| 0 <= k < b.else_if_clauses.nodes.len() ==> (#[trigger] b.else_if_clauses.nodes@[k]).condition.wf()
                &&& forall|k: int, j: int| 0 <= k < b.else_if_clauses.nodes.len() && 0 <= j < b.else_if_clauses.nodes@[k].statements.nodes.len()
                    ==> (#[trigger] b.else_if_clauses.nodes@[k].statements.nodes@[j]).wf()
                &&& b.else_clause matches Some(e) ==> in_order(e.child_spans()) && (forall|j: int| 0 <= j < e.statements.nodes.len() ==> (#[trigger] e.statements.nodes@[j]).wf())
            },
        }
    }
}

impl IfStatementBody {
    pub open spec fn child_spans(&self) -> Seq<Span> {
        seq![self.statement.span()] + statement_body_else_if_spans(self.else_if_clauses.nodes@) + match self.else_clause {
            Some(e) => seq![e.span()],
            None => Seq::empty(),
        }
    }

    pub open spec fn span(&self) -> Span
        decreases self,
    {
        Span {
            start: self.statement.span().start,
            end: match self.else_clause {
                Some(e) => e.span().end,
                None => if self.else_if_clauses.nodes.len() > 0 {
                    self.else_if_clauses.nodes@.last().span().end
                } else {
                    self.statement.span().end
                },
            },
        }
    }
}

impl IfStatementBodyElseIfClause {
    pub open spec fn child_spans(&self) -> Seq<Span> {
        seq![self.elseif.span, self.left_parenthesis, self.condition.span(), self.right_parenthesis, self.statement.span()]
    }

    pub open spec fn span(&self) -> Span
        decreases self,
    {
        Span { start: self.elseif.span.start, end: self.statement.span().end }
    }
}

impl IfStatementBodyElseClause {
    pub open spec fn child_spans(&self) -> Seq<Span> {
        seq![self.else_keyword.span, self.statement.span()]
    }

    pub open spec fn span(&self) -> Span
        decreases self,
    {
        Span { start: self.else_keyword.span.start, end: self.statement.span().end }
    }
}

impl IfColonDelimitedBody {
    pub open spec fn child_spans(&self) -> Seq<Span> {
        seq![self.colon] + statement_spans(self.statements.nodes@) + colon_body_else_if_spans(self.else_if_clauses.nodes@)
            + match self.else_clause {
            Some(e) => seq![e.span()],
            None => Seq::empty(),
        } + seq![self.endif.span, self.terminator.span()]
    }

    pub open spec fn span(&self) -> Span {
        Span { start: self.colon.start, end: self.terminator.span().end }
    }
}

impl IfColonDelimitedBodyElseIfClause {
    pub open spec fn child_spans(&self) -> Seq<Span> {
        seq![self.elseif.span, self.left_parenthesis, self.condition.span(), self.right_parenthesis, self.colon]
            + statement_spans(self.statements.nodes@)
    }

    pub open spec fn span(&self) -> Span {
        Span {
            start: self.elseif.span.start,
            end: if self.statements.nodes.len() > 0 {
                self.statements.nodes@.last().span().end
            } else {
                self.colon.end
            },
        }
    }
}

impl IfColonDelimitedBodyElseClause {
    pub open spec fn child_spans(&self) -> Seq<Span> {
        seq![self.else_keyword.span, self.colon] + statement_spans(self.statements.nodes@)
    }

    pub open spec fn span(&self) -> Span {
        Span {
            start: self.else_keyword.span.start,
            end: if self.statements.nodes.len() > 0 {
                self.statements.nodes@.last().span().end
            } else {
                self.colon.end
            },
        }
    }
}

impl Echo {
    pub open spec fn child_spans(&self) -> Seq<Span> {
        seq![self.echo.span] + interleave(expression_spans(self.values.nodes@), self.values.tokens@) + seq![
            self.terminator.span(),
        ]
    }

    pub open spec fn wf(&self) -> bool {
        &&& self.values.nodes.len() > 0
        &&& self.values.tokens.len() + 1 == self.values.nodes.len()
        &&& in_order(self.child_spans())
        &&& forall|k: int| 0 <= k < self.values.nodes.len() ==> (#[trigger] self.values.nodes@[k]).wf()
    }
}

impl Goto {
    pub open spec fn child_spans(&self) -> Seq<Span> {
        seq![self.goto.span, self.label.span, self.terminator.span()]
    }
}

impl Label {
    pub open spec fn child_spans(&self) -> Seq<Span> {
        seq![self.name.span, self.colon]
    }
}

impl Block {
    pub open spec fn fixed_spans(&self) -> Seq<Span> {
        seq![self.left_brace, self.right_brace]
    }

    pub open spec fn child_spans(&self) -> Seq<Span> {
        seq![self.left_brace] + statement_spans(self.statements.nodes@) + seq![self.right_brace]
    }
}

impl ExpressionStatement {
    pub open spec fn child_spans(&self) -> Seq<Span> {
        seq![self.expression.span(), self.terminator.span()]
    }
}

} // verus!
