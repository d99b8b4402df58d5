//! The type-annotation sublanguage: callable types with parameter lists and
//! return types.

use vstd::prelude::*;
use vstd::string::*;

use crate::error::ParseError;
use crate::interner::Interner;
use crate::span::Span;
use crate::stream::TokenStream;
use crate::token::TokenKind;
use crate::parser::grammar::{callable_type_end, follows, kind_is, type_end, type_parameters_end};

verus! {

/// Which callable keyword a callable type is written with.
#[derive(Clone, Copy, Debug, PartialEq, Eq, Hash, Structural)]
pub enum CallableTypeKind {
    Callable,
    PureCallable,
    Closure,
    PureClosure,
}

impl CallableTypeKind {
    pub fn is_pure(&self) -> (r: bool)
        ensures
            r == (*self == CallableTypeKind::PureCallable || *self == CallableTypeKind::PureClosure),
    {
        matches!(self, CallableTypeKind::PureCallable | CallableTypeKind::PureClosure)
    }

    pub fn is_closure(&self) -> (r: bool)
        ensures
            r == (*self == CallableTypeKind::Closure || *self == CallableTypeKind::PureClosure),
    {
        matches!(self, CallableTypeKind::Closure | CallableTypeKind::PureClosure)
    }

    /// The keyword that writes this kind.
    pub open spec fn spec_keyword_text(self) -> Seq<char> {
        match self {
            CallableTypeKind::Callable => "callable"@,
            CallableTypeKind::PureCallable => "pure-callable"@,
            CallableTypeKind::Closure => "Closure"@,
            CallableTypeKind::PureClosure => "pure-Closure"@,
        }
    }
}

/// The kind that a keyword token stands for.
pub open spec fn callable_kind_of(k: TokenKind) -> Option<CallableTypeKind> {
    match k {
        TokenKind::CallableKeyword => Some(CallableTypeKind::Callable),
        TokenKind::PureCallableKeyword => Some(CallableTypeKind::PureCallable),
        TokenKind::ClosureKeyword => Some(CallableTypeKind::Closure),
        TokenKind::PureClosureKeyword => Some(CallableTypeKind::PureClosure),
        _ => None,
    }
}

/// A word of a type annotation and where it stands.
#[derive(Clone, Debug, PartialEq, Eq)]
pub struct TypeKeyword {
    pub span: Span,
    pub value: String,
}

/// A type: a named type, or a callable type.
#[derive(Debug, PartialEq, Eq)]
pub enum Type {
    Named(TypeKeyword),
    Callable(CallableType),
}

#[derive(Debug, PartialEq, Eq)]
pub struct CallableType {
    pub kind: CallableTypeKind,
    pub keyword: TypeKeyword,
    pub specification: Option<CallableTypeSpecification>,
}

#[derive(Debug, PartialEq, Eq)]
pub struct CallableTypeSpecification {
    pub parameters: CallableTypeParameters,
    pub return_type: Option<CallableTypeReturnType>,
}

#[derive(Debug, PartialEq, Eq)]
pub struct CallableTypeParameters {
    pub left_parenthesis: Span,
    pub entries: Vec<CallableTypeParameter>,
    pub right_parenthesis: Span,
}

#[derive(Debug, PartialEq, Eq)]
pub struct CallableTypeParameter {
    pub parameter_type: Box<Type>,
    pub equals: Option<Span>,
    pub ellipsis: Option<Span>,
    pub comma: Option<Span>,
}

#[derive(Debug, PartialEq, Eq)]
pub struct CallableTypeReturnType {
    pub colon: Span,
    pub return_type: Box<Type>,
}

impl CallableTypeParameter {
    pub fn is_variadic(&self) -> (r: bool)
        ensures
            r == self.ellipsis is Some,
    {
        self.ellipsis.is_some()
    }

    pub fn is_optional(&self) -> (r: bool)
        ensures
            r == self.equals is Some,
    {
        self.equals.is_some()
    }
}

impl Type {
    pub open spec fn spec_span(&self) -> Span
        decreases self,
    {
        match self {
            Type::Named(k) => k.span,
            Type::Callable(c) => match c.specification {
                Some(s) => c.keyword.span.spec_join(
                    match s.return_type {
                        Some(r) => Span {
                            start: s.parameters.left_parenthesis.start,
                            end: s.parameters.right_parenthesis.end,
                        }.spec_join(r.colon.spec_join(r.return_type.spec_span())),
                        None => Span { start: s.parameters.left_parenthesis.start, end: s.parameters.right_parenthesis.end },
                    },
                ),
                None => c.keyword.span,
            },
        }
    }

    #[verifier::when_used_as_spec(spec_span)]
    pub fn span(&self) -> (r: Span)
        ensures
            r == self.spec_span(),
        decreases self,
    {
        match self {
            Type::Named(k) => k.span,
            Type::Callable(c) => c.span(),
        }
    }
}

impl CallableType {
    /// The keyword joined with the specification, if any.
    pub fn span(&self) -> (r: Span)
        ensures
            r == Type::Callable(*self).spec_span(),
        decreases self,
    {
        match &self.specification {
            Some(specification) => self.keyword.span.join(specification.span()),
            None => self.keyword.span,
        }
    }
}

impl CallableTypeSpecification {
    /// The parameter list joined with the return type, if any.
    pub fn span(&self) -> (r: Span)
        ensures
            r == match self.return_type {
                Some(rt) => Span { start: self.parameters.left_parenthesis.start, end: self.parameters.right_parenthesis.end }.spec_join(
                    rt.colon.spec_join(rt.return_type.spec_span()),
                ),
                None => Span { start: self.parameters.left_parenthesis.start, end: self.parameters.right_parenthesis.end },
            },
        decreases self,
    {
        match &self.return_type {
            Some(return_type) => self.parameters.span().join(return_type.span()),
            None => self.parameters.span(),
        }
    }
}

impl CallableTypeParameters {
    /// From `(` to `)`.
    pub fn span(&self) -> (r: Span)
        ensures
            r == (Span { start: self.left_parenthesis.start, end: self.right_parenthesis.end }),
    {
        Span { start: self.left_parenthesis.start, end: self.right_parenthesis.end }
    }
}

impl CallableTypeReturnType {
    /// The colon joined with the type.
    pub fn span(&self) -> (r: Span)
        ensures
            r == self.colon.spec_join(self.return_type.spec_span()),
        decreases self,
    {
        self.colon.join(self.return_type.span())
    }
}

impl CallableTypeParameter {
    /// The type joined with the last marker present: the comma, else `...`, else `=`.
    pub fn span(&self) -> (r: Span)
        ensures
            r == match self.comma {
                Some(c) => self.parameter_type.spec_span().spec_join(c),
                None => match self.ellipsis {
                    Some(e) => self.parameter_type.spec_span().spec_join(e),
                    None => match self.equals {
                        Some(q) => self.parameter_type.spec_span().spec_join(q),
                        None => self.parameter_type.spec_span(),
                    },
                },
            },
        decreases self,
    {
        match &self.comma {
            Some(comma) => self.parameter_type.span().join(*comma),
            None => match &self.ellipsis {
                Some(ellipsis) => self.parameter_type.span().join(*ellipsis),
                None => match &self.equals {
                    Some(equals) => self.parameter_type.span().join(*equals),
                    None => self.parameter_type.span(),
                },
            },
        }
    }
}

/// The text of the entries of a parameter list from `i` on, joined by `, `.
pub open spec fn entries_text(entries: Seq<CallableTypeParameter>, i: int) -> Seq<char>
    decreases entries, entries.len() - i,
{
    if i >= entries.len() || i < 0 {
        Seq::empty()
    } else if i == entries.len() - 1 {
        entries[i].text()
    } else {
        entries[i].text() + ", "@ + entries_text(entries, i + 1)
    }
}

impl Type {
    /// The canonical text of a type.
    pub open spec fn text(&self) -> Seq<char>
        decreases self,
    {
        match self {
            Type::Named(k) => k.value@,
            Type::Callable(c) => c.keyword.value@ + match c.specification {
                Some(s) => "("@ + entries_text(s.parameters.entries@, 0) + ")"@ + match s.return_type {
                    Some(r) => ": "@ + r.return_type.text(),
                    None => Seq::empty(),
                },
                None => Seq::empty(),
            },
        }
    }
}

impl CallableTypeParameter {
    /// The text of a parameter: its type, then `=` or `...`.
    pub open spec fn text(&self) -> Seq<char>
        decreases self,
    {
        self.parameter_type.text() + if self.equals is Some {
            "="@
        } else if self.ellipsis is Some {
            "..."@
        } else {
            Seq::empty()
        }
    }
}

/// Writes a type in its canonical text.
pub fn format_type(t: &Type) -> (r: String)
    ensures
        r@ == t.text(),
    decreases t,
{
    match t {
        Type::Named(k) => k.value.clone(),
        Type::Callable(c) => {
            let mut out = c.keyword.value.clone();
            match &c.specification {
                Some(s) => {
                    out.append("(");
                    let entries = format_entries(&s.parameters.entries);
                    out.append(entries.as_str());
                    out.append(")");
                    match &s.return_type {
                        Some(r) => {
                            out.append(": ");
                            let rt = format_type(&r.return_type);
                            out.append(rt.as_str());
                        },
                        None => {},
                    }
                },
                None => {},
            }
            proof {
                reveal_strlit("(");
                reveal_strlit(")");
                reveal_strlit(": ");
            }
            out
        },
    }
}

/// Writes parameter entries joined by `, `.
pub fn format_entries(entries: &Vec<CallableTypeParameter>) -> (r: String)
    ensures
        r@ == entries_text(entries@, 0),
    decreases entries,
{
    let mut out = String::new();
    let mut i: usize = entries.len();
    proof {
        assert(entries_text(entries@, i as int) == Seq::<char>::empty());
    }
    while i > 0
        invariant
            i <= entries.len(),
            out@ == entries_text(entries@, i as int),
        decreases i,
    {
        i = i - 1;
        let mut piece = format_parameter(&entries[i]);
        if i + 1 < entries.len() {
            piece.append(", ");
        }
        piece.append(out.as_str());
        proof {
            reveal_strlit(", ");
            if i + 1 >= entries.len() {
                assert(out@ == Seq::<char>::empty());
                assert(piece@ =~= entries[i as int].text());
            } else {
                assert(piece@ =~= entries[i as int].text() + ", "@ + entries_text(entries@, i + 1));
            }
        }
        out = piece;
    }
    out
}

/// Writes one parameter: its type, then `=` or `...`.
pub fn format_parameter(p: &CallableTypeParameter) -> (r: String)
    ensures
        r@ == p.text(),
    decreases p,
{
    let mut out = format_type(&p.parameter_type);
    if p.equals.is_some() {
        out.append("=");
    } else if p.ellipsis.is_some() {
        out.append("...");
    }
    proof {
        reveal_strlit("=");
        reveal_strlit("...");
        assert(out@ =~= p.text());
    }
    out
}

/// The keyword token kind of a callable kind.
pub open spec fn keyword_kind_of(k: CallableTypeKind) -> TokenKind {
    match k {
        CallableTypeKind::Callable => TokenKind::CallableKeyword,
        CallableTypeKind::PureCallable => TokenKind::PureCallableKeyword,
        CallableTypeKind::Closure => TokenKind::ClosureKeyword,
        CallableTypeKind::PureClosure => TokenKind::PureClosureKeyword,
    }
}

/// The kinds of the tokens read from `first` up to `last`.
pub open spec fn kinds_read(first: TokenStream, last: TokenStream) -> Seq<TokenKind> {
    Seq::new((last.position - first.position) as nat, |i: int| first.tokens[first.position + i].kind)
}

/// Reading from `a` to `b` and on to `c` reads what `a` to `b` read, then what `b` to `c` read.
pub proof fn lemma_kinds_read_concat(a: TokenStream, b: TokenStream, c: TokenStream)
    requires
        b.advanced_from(&a),
        c.advanced_from(&b),
    ensures
        kinds_read(a, c) == kinds_read(a, b) + kinds_read(b, c),
{
    assert(kinds_read(a, c) =~= kinds_read(a, b) + kinds_read(b, c));
}

/// The kinds of the tokens of parameter entries from `i` on.
pub open spec fn entries_kinds(entries: Seq<CallableTypeParameter>, i: int) -> Seq<TokenKind>
    decreases entries, entries.len() - i,
{
    if i >= entries.len() || i < 0 {
        Seq::empty()
    } else {
        entries[i].token_kinds() + entries_kinds(entries, i + 1)
    }
}

/// Appending an entry appends its kinds.
pub proof fn lemma_entries_kinds_push(entries: Seq<CallableTypeParameter>, x: CallableTypeParameter, i: int)
    requires
        0 <= i <= entries.len(),
    ensures
        entries_kinds(entries.push(x), i) == entries_kinds(entries, i) + x.token_kinds(),
    decreases entries.len() - i,
{
    if i == entries.len() {
        assert(entries_kinds(entries.push(x), i + 1) =~= Seq::<TokenKind>::empty());
        assert(entries.push(x)[i] == x);
        assert(entries_kinds(entries, i) =~= Seq::<TokenKind>::empty());
        assert(entries_kinds(entries.push(x), i) =~= x.token_kinds() + Seq::<TokenKind>::empty());
    } else {
        lemma_entries_kinds_push(entries, x, i + 1);
        assert(entries.push(x)[i] == entries[i]);
        assert(entries_kinds(entries.push(x), i) =~= entries[i].token_kinds() + entries_kinds(entries.push(x), i + 1));
    }
}

impl Type {
    /// The kinds of the tokens that the tree records, in order.
    pub open spec fn token_kinds(&self) -> Seq<TokenKind>
        decreases self,
    {
        match self {
            Type::Named(_) => seq![TokenKind::Identifier],
            Type::Callable(c) => seq![keyword_kind_of(c.kind)] + match c.specification {
                Some(s) => seq![TokenKind::LeftParenthesis] + entries_kinds(s.parameters.entries@, 0) + seq![
                    TokenKind::RightParenthesis,
                ] + match s.return_type {
                    Some(r) => seq![TokenKind::Colon] + r.return_type.token_kinds(),
                    None => Seq::empty(),
                },
                None => Seq::empty(),
            },
        }
    }
}

impl CallableTypeParameter {
    /// The kinds of the parameter's tokens: its type, `=` or `...`, and the comma.
    pub open spec fn token_kinds(&self) -> Seq<TokenKind>
        decreases self,
    {
        self.parameter_type.token_kinds() + (if self.equals is Some {
            seq![TokenKind::Equals]
        } else {
            Seq::empty()
        }) + (if self.ellipsis is Some {
            seq![TokenKind::Ellipsis]
        } else {
            Seq::empty()
        }) + (if self.comma is Some {
            seq![TokenKind::Comma]
        } else {
            Seq::empty()
        })
    }
}

/// The kind of a callable keyword token.
pub fn callable_kind(k: TokenKind) -> (r: Option<CallableTypeKind>)
    ensures
        r == callable_kind_of(k),
{
    match k {
        TokenKind::CallableKeyword => Some(CallableTypeKind::Callable),
        TokenKind::PureCallableKeyword => Some(CallableTypeKind::PureCallable),
        TokenKind::ClosureKeyword => Some(CallableTypeKind::Closure),
        TokenKind::PureClosureKeyword => Some(CallableTypeKind::PureClosure),
        _ => None,
    }
}

#[verifier::spinoff_prover]
#[verifier::rlimit(100)]
/// Parses a type: a callable type when a callable keyword comes next, a named type otherwise.
pub fn parse_type(stream: &mut TokenStream, interner: &Interner) -> (r: Result<Type, ParseError>)
    requires
        old(stream).wf(),
    ensures
        final(stream).wf(),
        final(stream).advanced_from(old(stream)),
        r is Ok ==> final(stream).position > old(stream).position,
        r matches Ok(t) ==> (t is Callable <==> (old(stream).kind_at(0) matches Some(k) && callable_kind_of(k) is Some)),
        r matches Ok(t) ==> (t matches Type::Callable(c) ==> Some(c.kind) == callable_kind_of(old(stream).tokens[old(stream).position as int].kind)),
        r matches Ok(t) ==> kinds_read(*old(stream), *final(stream)) == t.token_kinds(),
        follows(r is Ok, *old(stream), *final(stream), type_end(old(stream).tokens@, old(stream).position as int)),
        r matches Ok(t) ==> (t matches Type::Named(k) ==> (interner.holds(old(stream).tokens[old(stream).position as int].value)
            ==> k.value@ == interner@[old(stream).tokens[old(stream).position as int].value.index as int])),
    decreases old(stream).remaining(), 1nat,
{
    let next = stream.peek(crate::stream::one_kind(TokenKind::Identifier))?;
    match callable_kind(next.kind) {
        Some(_) => {
            let c = parse_callable_type(stream, interner)?;
            Ok(Type::Callable(c))
        },
        None => {
            let ghost s0 = *stream;
            let t = stream.expect(TokenKind::Identifier)?;
            proof {
                assert(kinds_read(s0, *stream) =~= seq![TokenKind::Identifier]);
            }
            Ok(Type::Named(TypeKeyword { span: t.span, value: String::from_str(interner.resolve(t.value)) }))
        },
    }
}

#[verifier::spinoff_prover]
#[verifier::rlimit(100)]
/// Parses a callable keyword, then a parameter list if `(` follows, then a
/// return type if `:` follows the list.
pub fn parse_callable_type(stream: &mut TokenStream, interner: &Interner) -> (r: Result<CallableType, ParseError>)
    requires
        old(stream).wf(),
    ensures
        final(stream).wf(),
        final(stream).advanced_from(old(stream)),
        r is Ok ==> final(stream).position > old(stream).position,
        r matches Ok(c) ==> old(stream).kind_at(0) matches Some(k) && callable_kind_of(k) == Some(c.kind),
        r matches Ok(c) ==> (c.specification is Some <==> old(stream).kind_at(1) == Some(TokenKind::LeftParenthesis)),
        r matches Ok(c) ==> kinds_read(*old(stream), *final(stream)) == Type::Callable(c).token_kinds(),
        follows(r is Ok, *old(stream), *final(stream), callable_type_end(old(stream).tokens@, old(stream).position as int)),
    decreases old(stream).remaining(), 0nat,
{
    let ghost s0 = *stream;
    let next = stream.peek(crate::stream::one_kind(TokenKind::CallableKeyword))?;
    let kind = match callable_kind(next.kind) {
        Some(kind) => kind,
        None => {
            return Err(stream.unexpected(crate::stream::one_kind(TokenKind::CallableKeyword)));
        },
    };
    let t = stream.advance();
    let ghost s1 = *stream;
    proof {
        assert(kinds_read(s0, s1) =~= seq![keyword_kind_of(kind)]);
    }
    let keyword = TypeKeyword { span: t.span, value: String::from_str(interner.resolve(t.value)) };
    let specification = if stream.is_next(TokenKind::LeftParenthesis) {
        let parameters = parse_callable_type_parameters(stream, interner)?;
        let ghost s2 = *stream;
        let return_type = if stream.is_next(TokenKind::Colon) {
            let colon = stream.advance();
            let ghost s3 = *stream;
            let return_type = parse_type(stream, interner)?;
            proof {
                assert(kinds_read(s2, s3) =~= seq![TokenKind::Colon]);
                lemma_kinds_read_concat(s2, s3, *stream);
            }
            Some(CallableTypeReturnType { colon: colon.span, return_type: Box::new(return_type) })
        } else {
            proof {
                assert(kinds_read(s2, *stream) =~= Seq::<TokenKind>::empty());
            }
            None
        };
        proof {
            lemma_kinds_read_concat(s1, s2, *stream);
        }
        Some(CallableTypeSpecification { parameters, return_type })
    } else {
        proof {
            assert(kinds_read(s1, *stream) =~= Seq::<TokenKind>::empty());
        }
        None
    };
    let c = CallableType { kind, keyword, specification };
    proof {
        lemma_kinds_read_concat(s0, s1, *stream);
        assert(kinds_read(s0, *stream) =~= Type::Callable(c).token_kinds());
    }
    Ok(c)
}

#[verifier::spinoff_prover]
#[verifier::rlimit(100)]
/// Parses `(type[=|...], ... [,])`.
pub fn parse_callable_type_parameters(stream: &mut TokenStream, interner: &Interner) -> (r: Result<
    CallableTypeParameters,
    ParseError,
>)
    requires
        old(stream).wf(),
    ensures
        final(stream).wf(),
        final(stream).advanced_from(old(stream)),
        r is Ok ==> final(stream).position > old(stream).position,
        !old(stream).next_is(TokenKind::LeftParenthesis) ==> r is Err,
        r matches Ok(p) ==> kinds_read(*old(stream), *final(stream)) == seq![TokenKind::LeftParenthesis]
            + entries_kinds(p.entries@, 0) + seq![TokenKind::RightParenthesis],
        follows(r is Ok, *old(stream), *final(stream), if old(stream).next_is(TokenKind::LeftParenthesis) {
            type_parameters_end(old(stream).tokens@, old(stream).position + 1)
        } else {
            None
        }),
    decreases old(stream).remaining(), 0nat,
{
    let ghost s0 = *stream;
    let left_parenthesis = stream.expect(TokenKind::LeftParenthesis)?;
    let mut entries: Vec<CallableTypeParameter> = Vec::new();
    proof {
        assert(kinds_read(s0, *stream) =~= seq![TokenKind::LeftParenthesis] + entries_kinds(entries@, 0));
    }
    let mut done = false;
    while !done && !stream.is_next(TokenKind::RightParenthesis)
        invariant
            s0 == *old(stream),
            stream.wf(),
            stream.advanced_from(&s0),
            stream.position > s0.position,
            kinds_read(s0, *stream) == seq![TokenKind::LeftParenthesis] + entries_kinds(entries@, 0),
            !done ==> type_parameters_end(s0.tokens@, s0.position + 1) == type_parameters_end(s0.tokens@, stream.position as int),
            done ==> type_parameters_end(s0.tokens@, s0.position + 1) == (if kind_is(s0.tokens@, stream.position as int, TokenKind::RightParenthesis) {
                Some(stream.position + 1)
            } else {
                None
            }),
        decreases stream.remaining(),
    {
        let ghost before = *stream;
        let parameter_type = parse_type(stream, interner)?;
        let ghost a = *stream;
        let equals = match stream.maybe_expect(TokenKind::Equals) {
            Some(t) => Some(t.span),
            None => None,
        };
        let ghost b = *stream;
        let ellipsis = if equals.is_none() {
            match stream.maybe_expect(TokenKind::Ellipsis) {
                Some(t) => Some(t.span),
                None => None,
            }
        } else {
            None
        };
        let ghost c = *stream;
        let comma = match stream.maybe_expect(TokenKind::Comma) {
            Some(t) => Some(t.span),
            None => None,
        };
        if comma.is_none() {
            done = true;
        }
        let entry = CallableTypeParameter { parameter_type: Box::new(parameter_type), equals, ellipsis, comma };
        proof {
            assert(kinds_read(a, b) =~= if equals is Some { seq![TokenKind::Equals] } else { Seq::<TokenKind>::empty() });
            assert(kinds_read(b, c) =~= if ellipsis is Some { seq![TokenKind::Ellipsis] } else { Seq::<TokenKind>::empty() });
            assert(kinds_read(c, *stream) =~= if comma is Some { seq![TokenKind::Comma] } else { Seq::<TokenKind>::empty() });
            lemma_kinds_read_concat(before, a, b);
            lemma_kinds_read_concat(before, b, c);
            lemma_kinds_read_concat(before, c, *stream);
            assert(kinds_read(before, *stream) =~= entry.token_kinds());
            lemma_kinds_read_concat(s0, before, *stream);
            lemma_entries_kinds_push(entries@, entry, 0);
            assert(kinds_read(s0, *stream) =~= seq![TokenKind::LeftParenthesis] + entries_kinds(entries@.push(entry), 0));
        }
        entries.push(entry);
    }
    let ghost s1 = *stream;
    let right_parenthesis = stream.expect(TokenKind::RightParenthesis)?;
    proof {
        assert(kinds_read(s1, *stream) =~= seq![TokenKind::RightParenthesis]);
        lemma_kinds_read_concat(s0, s1, *stream);
    }
    Ok(CallableTypeParameters { left_parenthesis: left_parenthesis.span, entries, right_parenthesis: right_parenthesis.span })
}

} // verus!
