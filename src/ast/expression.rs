use vstd::prelude::*;

use crate::ast::node::{in_order, interleave, outer_span, Identifier, LocalIdentifier, TokenSeparatedSequence};
use crate::span::Span;
use crate::token::SymbolId;

verus! {

/// A variable written with its name, such as `$foo`.
#[derive(Clone, Copy, Debug, PartialEq, Eq, Hash, Structural)]
pub struct DirectVariable {
    pub span: Span,
    pub name: SymbolId,
}

#[derive(Clone, Copy, Debug, PartialEq, Eq, Hash, Structural)]
pub enum LiteralKind {
    Integer,
    String,
}

/// A literal value written in the source.
#[derive(Clone, Copy, Debug, PartialEq, Eq, Hash, Structural)]
pub struct Literal {
    pub kind: LiteralKind,
    pub span: Span,
    pub value: SymbolId,
}

/// An expression: a variable, a literal, a bare name, or a call.
#[derive(Debug, PartialEq, Eq)]
pub enum Expression {
    Variable(DirectVariable),
    Literal(Literal),
    /// A bare name, such as `true` or `PHP_EOL`.
    ConstantAccess(Identifier),
    /// `name(arguments)`
    Call(FunctionCall),
}

/// `name(arguments)`
#[derive(Debug, PartialEq, Eq)]
pub struct FunctionCall {
    pub function: Identifier,
    pub argument_list: ArgumentList,
}

/// A parenthesised list of arguments, such as `($bar, 42)` in `foo($bar, 42)`.
#[derive(Debug, PartialEq, Eq)]
pub struct ArgumentList {
    pub left_parenthesis: Span,
    pub arguments: TokenSeparatedSequence<Argument>,
    pub right_parenthesis: Span,
}

/// An argument: positional or named.
#[derive(Debug, PartialEq, Eq)]
pub enum Argument {
    Positional(PositionalArgument),
    Named(NamedArgument),
}

/// `$foo`, or `...$bar` to unpack.
#[derive(Debug, PartialEq, Eq)]
pub struct PositionalArgument {
    pub ellipsis: Option<Span>,
    pub value: Expression,
}

/// `name: value`
#[derive(Debug, PartialEq, Eq)]
pub struct NamedArgument {
    pub name: LocalIdentifier,
    pub colon: Span,
    pub value: Expression,
}

/// The spans of a list of arguments.
pub open spec fn argument_spans(s: Seq<Argument>) -> Seq<Span> {
    Seq::new(s.len(), |i: int| s[i].spec_span())
}

impl Expression {
    pub open spec fn spec_span(&self) -> Span
        decreases self,
    {
        match self {
            Expression::Variable(v) => v.span,
            Expression::Literal(l) => l.span,
            Expression::ConstantAccess(i) => i.span,
            Expression::Call(c) => Span { start: c.function.span.start, end: c.argument_list.right_parenthesis.end },
        }
    }

    #[verifier::when_used_as_spec(spec_span)]
    pub fn span(&self) -> (r: Span)
        ensures
            r == self.spec_span(),
    {
        match self {
            Expression::Variable(v) => v.span,
            Expression::Literal(l) => l.span,
            Expression::ConstantAccess(i) => i.span,
            Expression::Call(c) => Span { start: c.function.span.start, end: c.argument_list.right_parenthesis.end },
        }
    }

    /// Spans in order all the way down.
    pub open spec fn wf(&self) -> bool
        decreases self,
    {
        match self {
            Expression::Call(c) => {
                &&& in_order(c.child_spans())
                &&& in_order(c.argument_list.child_spans())
                &&& crate::ast::node::separators_accounted(
                    c.argument_list.arguments.nodes.len() as nat,
                    c.argument_list.arguments.tokens.len() as nat,
                )
                &&& forall|k: int| 0 <= k < c.argument_list.arguments.nodes.len() ==> (#[trigger] c.argument_list.arguments.nodes@[k]).wf()
            },
            _ => self.spec_span().wf(),
        }
    }
}

impl FunctionCall {
    pub open spec fn child_spans(&self) -> Seq<Span> {
        seq![self.function.span, self.argument_list.spec_span()]
    }
}

impl ArgumentList {
    pub open spec fn child_spans(&self) -> Seq<Span> {
        seq![self.left_parenthesis] + interleave(argument_spans(self.arguments.nodes@), self.arguments.tokens@)
            + seq![self.right_parenthesis]
    }

    pub open spec fn spec_span(&self) -> Span {
        Span { start: self.left_parenthesis.start, end: self.right_parenthesis.end }
    }

    #[verifier::when_used_as_spec(spec_span)]
    pub fn span(&self) -> (r: Span)
        ensures
            r == self.spec_span(),
    {
        Span { start: self.left_parenthesis.start, end: self.right_parenthesis.end }
    }
}

impl Argument {
    pub open spec fn child_spans(&self) -> Seq<Span> {
        match self {
            Argument::Positional(p) => match p.ellipsis {
                Some(e) => seq![e, p.value.spec_span()],
                None => seq![p.value.spec_span()],
            },
            Argument::Named(n) => seq![n.name.span, n.colon, n.value.spec_span()],
        }
    }

    pub open spec fn spec_span(&self) -> Span {
        match self {
            Argument::Positional(p) => p.spec_span(),
            Argument::Named(n) => n.spec_span(),
        }
    }

    pub open spec fn wf(&self) -> bool
        decreases self,
    {
        &&& in_order(self.child_spans())
        &&& match self {
            Argument::Positional(p) => p.value.wf(),
            Argument::Named(n) => n.value.wf(),
        }
    }

    pub fn is_positional(&self) -> (r: bool)
        ensures
            r == self is Positional,
    {
        matches!(self, Argument::Positional(_))
    }

    /// A positional argument written with `...`.
    pub fn is_unpacked(&self) -> (r: bool)
        ensures
            r == (self matches Argument::Positional(p) && p.ellipsis is Some),
    {
        match self {
            Argument::Positional(arg) => arg.ellipsis.is_some(),
            Argument::Named(_) => false,
        }
    }

    pub fn value(&self) -> (r: &Expression)
        ensures
            self matches Argument::Positional(p) ==> *r == p.value,
            self matches Argument::Named(n) ==> *r == n.value,
    {
        match self {
            Argument::Positional(arg) => &arg.value,
            Argument::Named(arg) => &arg.value,
        }
    }

    #[verifier::when_used_as_spec(spec_span)]
    pub fn span(&self) -> (r: Span)
        ensures
            r == self.spec_span(),
    {
        match self {
            Argument::Positional(argument) => argument.span(),
            Argument::Named(argument) => argument.span(),
        }
    }
}

impl PositionalArgument {
    pub open spec fn spec_span(&self) -> Span {
        match self.ellipsis {
            Some(e) => Span { start: e.start, end: self.value.spec_span().end },
            None => self.value.spec_span(),
        }
    }

    /// From the `...`, if any, to the end of the value.
    #[verifier::when_used_as_spec(spec_span)]
    pub fn span(&self) -> (r: Span)
        ensures
            r == self.spec_span(),
    {
        match self.ellipsis {
            Some(ellipsis) => Span { start: ellipsis.start, end: self.value.span().end },
            None => self.value.span(),
        }
    }
}

impl NamedArgument {
    pub open spec fn spec_span(&self) -> Span {
        Span { start: self.name.span.start, end: self.value.spec_span().end }
    }

    /// From the name to the end of the value.
    #[verifier::when_used_as_spec(spec_span)]
    pub fn span(&self) -> (r: Span)
        ensures
            r == self.spec_span(),
    {
        Span { start: self.name.span.start, end: self.value.span().end }
    }
}

} // verus!
