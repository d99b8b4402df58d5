use vstd::prelude::*;

use crate::ast::expression::{DirectVariable, Expression};
use crate::ast::node::{
    in_order, interleave, outer_span, Identifier, Keyword, LocalIdentifier, Sequence, Terminator,
    TokenSeparatedSequence,
};
use crate::ast::statement::Block;
use crate::span::Span;

verus! {

/// `class Name { members }`
#[derive(Debug, PartialEq, Eq)]
pub struct Class {
    pub class_keyword: Keyword,
    pub name: LocalIdentifier,
    pub left_brace: Span,
    pub members: Sequence<ClassLikeMember>,
    pub right_brace: Span,
}

/// A member of a class body.
#[derive(Debug, PartialEq, Eq)]
pub enum ClassLikeMember {
    Constant(ClassLikeConstant),
}

/// `[modifiers] const [hint] NAME = value, ...;`
#[derive(Debug, PartialEq, Eq)]
pub struct ClassLikeConstant {
    pub modifiers: Sequence<Modifier>,
    pub const_keyword: Keyword,
    pub hint: Option<Hint>,
    pub items: TokenSeparatedSequence<ClassLikeConstantItem>,
    pub terminator: Terminator,
}

/// `NAME = value`
#[derive(Debug, PartialEq, Eq)]
pub struct ClassLikeConstantItem {
    pub name: LocalIdentifier,
    pub equals: Span,
    pub value: Expression,
}

#[derive(Clone, Copy, Debug, PartialEq, Eq, Structural)]
pub enum ModifierKind {
    Public,
    Protected,
    Private,
    Readonly,
    Static,
}

/// A visibility or other modifier keyword.
#[derive(Clone, Copy, Debug, PartialEq, Eq, Structural)]
pub struct Modifier {
    pub kind: ModifierKind,
    pub keyword: Keyword,
}

/// A type hint: a named type.
#[derive(Clone, Copy, Debug, PartialEq, Eq, Structural)]
pub struct Hint {
    pub name: Identifier,
}

/// `function name(parameters) { body }`
#[derive(Debug, PartialEq, Eq)]
pub struct Function {
    pub function_keyword: Keyword,
    pub name: LocalIdentifier,
    pub parameter_list: FunctionLikeParameterList,
    pub body: Block,
}

/// `(parameter, ...)`
#[derive(Debug, PartialEq, Eq)]
pub struct FunctionLikeParameterList {
    pub left_parenthesis: Span,
    pub parameters: TokenSeparatedSequence<FunctionLikeParameter>,
    pub right_parenthesis: Span,
}

/// A parameter, such as `int $foo`, `string &$bar`, `bool ...$baz` or `mixed $qux = null`.
#[derive(Debug, PartialEq, Eq)]
pub struct FunctionLikeParameter {
    pub attribute_lists: Sequence<AttributeList>,
    pub modifiers: Sequence<Modifier>,
    pub hint: Option<Hint>,
    pub ampersand: Option<Span>,
    pub ellipsis: Option<Span>,
    pub variable: DirectVariable,
    pub default_value: Option<FunctionLikeParameterDefaultValue>,
    pub hooks: Option<PropertyHookList>,
}

/// `= value`
#[derive(Debug, PartialEq, Eq)]
pub struct FunctionLikeParameterDefaultValue {
    pub equals: Span,
    pub value: Expression,
}

/// `#[Name, Name]`
#[derive(Clone, Debug, PartialEq, Eq)]
pub struct AttributeList {
    pub hash_left_bracket: Span,
    pub attributes: TokenSeparatedSequence<Identifier>,
    pub right_bracket: Span,
}

/// `{ get; set; }`
#[derive(Clone, Debug, PartialEq, Eq)]
pub struct PropertyHookList {
    pub left_brace: Span,
    pub hooks: Sequence<PropertyHook>,
    pub right_brace: Span,
}

/// `name;`
#[derive(Clone, Copy, Debug, PartialEq, Eq, Structural)]
pub struct PropertyHook {
    pub name: LocalIdentifier,
    pub terminator: Terminator,
}

pub open spec fn modifier_spans(s: Seq<Modifier>) -> Seq<Span> {
    Seq::new(s.len(), |i: int| s[i].keyword.span)
}

pub open spec fn member_spans(s: Seq<ClassLikeMember>) -> Seq<Span> {
    Seq::new(s.len(), |i: int| s[i].span())
}

pub open spec fn constant_item_spans(s: Seq<ClassLikeConstantItem>) -> Seq<Span> {
    Seq::new(s.len(), |i: int| s[i].span())
}

pub open spec fn parameter_spans(s: Seq<FunctionLikeParameter>) -> Seq<Span> {
    Seq::new(s.len(), |i: int| s[i].span())
}

pub open spec fn attribute_list_spans(s: Seq<AttributeList>) -> Seq<Span> {
    Seq::new(s.len(), |i: int| s[i].span())
}

pub open spec fn identifier_spans(s: Seq<Identifier>) -> Seq<Span> {
    Seq::new(s.len(), |i: int| s[i].span)
}

pub open spec fn hook_spans(s: Seq<PropertyHook>) -> Seq<Span> {
    Seq::new(s.len(), |i: int| s[i].span())
}

/// `Some(x)` as the one-element sequence of its span, `None` as the empty one.
pub open spec fn optional_span(s: Option<Span>) -> Seq<Span> {
    match s {
        Some(x) => seq![x],
        None => Seq::empty(),
    }
}

pub open spec fn hint_spans(h: Option<Hint>) -> Seq<Span> {
    match h {
        Some(h) => seq![h.name.span],
        None => Seq::empty(),
    }
}

pub open spec fn default_value_spans(d: Option<FunctionLikeParameterDefaultValue>) -> Seq<Span> {
    match d {
        Some(d) => seq![d.span()],
        None => Seq::empty(),
    }
}

pub open spec fn hooks_spans(h: Option<PropertyHookList>) -> Seq<Span> {
    match h {
        Some(h) => seq![h.span()],
        None => Seq::empty(),
    }
}

/// A well-formed class constant declaration has one comma fewer than constants.
pub proof fn lemma_constant_separators(c: ClassLikeConstant)
    requires
        c.wf(),
    ensures
        c.items.tokens.len() + 1 == c.items.nodes.len(),
{
}

/// A well-formed parameter list has one comma per parameter, or one fewer.
pub proof fn lemma_parameter_separators(l: FunctionLikeParameterList)
    requires
        l.wf(),
    ensures
        crate::ast::node::separators_accounted(l.parameters.nodes.len() as nat, l.parameters.tokens.len() as nat),
{
}

/// A well-formed attribute list has one comma per attribute, or one fewer.
pub proof fn lemma_attribute_separators(a: AttributeList)
    requires
        a.wf(),
    ensures
        crate::ast::node::separators_accounted(a.attributes.nodes.len() as nat, a.attributes.tokens.len() as nat),
{
}

impl Class {
    pub open spec fn child_spans(&self) -> Seq<Span> {
        seq![self.class_keyword.span, self.name.span, self.left_brace] + member_spans(self.members.nodes@)
            + seq![self.right_brace]
    }

    pub open spec fn span(&self) -> Span {
        Span { start: self.class_keyword.span.start, end: self.right_brace.end }
    }

    pub open spec fn wf(&self) -> bool {
        &&& in_order(self.child_spans())
        &&& forall|k: int| 0 <= k < self.members.nodes.len() ==> (#[trigger] self.members.nodes@[k]).wf()
    }
}

impl ClassLikeMember {
    pub open spec fn span(&self) -> Span {
        match self {
            ClassLikeMember::Constant(c) => c.span(),
        }
    }

    pub open spec fn wf(&self) -> bool {
        match self {
            ClassLikeMember::Constant(c) => c.wf(),
        }
    }
}

impl ClassLikeConstant {
    pub open spec fn child_spans(&self) -> Seq<Span> {
        modifier_spans(self.modifiers.nodes@) + seq![self.const_keyword.span] + hint_spans(self.hint) + interleave(constant_item_spans(self.items.nodes@), self.items.tokens@) + seq![
            self.terminator.span(),
        ]
    }

    pub open spec fn spec_span(&self) -> Span {
        outer_span(self.child_spans())
    }

    pub open spec fn wf(&self) -> bool {
        &&& self.items.nodes.len() > 0
        &&& self.items.tokens.len() + 1 == self.items.nodes.len()
        &&& in_order(self.child_spans())
        &&& forall|k: int| 0 <= k < self.items.nodes.len() ==> in_order((#[trigger] self.items.nodes@[k]).child_spans())
        &&& forall|k: int| 0 <= k < self.items.nodes.len() ==> (#[trigger] self.items.nodes@[k]).value.wf()
    }

    /// The span from the first modifier, or `const`, to the terminator.
    #[verifier::when_used_as_spec(spec_span)]
    pub fn span(&self) -> (r: Span)
        ensures
            r == self.spec_span(),
    {
        let start = if self.modifiers.nodes.len() > 0 {
            self.modifiers.nodes[0].keyword.span
        } else {
            self.const_keyword.span
        };
        let end = self.terminator.span();
        proof {
            let c = self.child_spans();
            if self.modifiers.nodes.len() > 0 {
                assert(c[0] == modifier_spans(self.modifiers.nodes@)[0]);
            } else {
                assert(c[0] == self.const_keyword.span);
            }
            assert(c.last() == self.terminator.span());
        }
        Span { start: start.start, end: end.end }
    }

    /// The first constant that this declaration declares.
    pub fn first_item(&self) -> (r: &ClassLikeConstantItem)
        requires
            self.items.nodes.len() > 0,
        ensures
            *r == self.items.nodes@[0],
    {
        &self.items.nodes[0]
    }
}

impl ClassLikeConstantItem {
    pub open spec fn child_spans(&self) -> Seq<Span> {
        seq![self.name.span, self.equals, self.value.span()]
    }

    pub open spec fn span(&self) -> Span {
        outer_span(self.child_spans())
    }
}

impl Function {
    pub open spec fn child_spans(&self) -> Seq<Span> {
        seq![self.function_keyword.span, self.name.span, self.parameter_list.span()] + self.body.child_spans()
    }

    pub open spec fn span(&self) -> Span {
        Span { start: self.function_keyword.span.start, end: self.body.right_brace.end }
    }
}

impl FunctionLikeParameterList {
    pub open spec fn child_spans(&self) -> Seq<Span> {
        seq![self.left_parenthesis] + interleave(parameter_spans(self.parameters.nodes@), self.parameters.tokens@)
            + seq![self.right_parenthesis]
    }

    pub open spec fn spec_span(&self) -> Span {
        Span { start: self.left_parenthesis.start, end: self.right_parenthesis.end }
    }

    pub open spec fn wf(&self) -> bool {
        &&& crate::ast::node::separators_accounted(
            self.parameters.nodes.len() as nat,
            self.parameters.tokens.len() as nat,
        )
        &&& in_order(self.child_spans())
        &&& forall|k: int| 0 <= k < self.parameters.nodes.len() ==> (#[trigger] self.parameters.nodes@[k]).wf()
    }

    #[verifier::when_used_as_spec(spec_span)]
    pub fn span(&self) -> (r: Span)
        requires
            self.left_parenthesis.start <= self.right_parenthesis.end,
        ensures
            r == self.spec_span(),
    {
        Span::between(self.left_parenthesis, self.right_parenthesis)
    }
}

impl FunctionLikeParameter {
    pub open spec fn child_spans(&self) -> Seq<Span> {
        attribute_list_spans(self.attribute_lists.nodes@) + modifier_spans(self.modifiers.nodes@)
            + hint_spans(self.hint) + optional_span(self.ampersand)
            + optional_span(self.ellipsis) + seq![self.variable.span] + default_value_spans(self.default_value) + hooks_spans(self.hooks)
    }

    /// Where the parameter ends: its hooks, else its default value, else its variable.
    pub open spec fn right_span(&self) -> Span {
        match self.hooks {
            Some(h) => h.span(),
            None => match self.default_value {
                Some(d) => d.span(),
                None => self.variable.span,
            },
        }
    }

    /// Where the parameter starts: the leftmost of its parts that is present.
    pub open spec fn left_span(&self) -> Span {
        if self.attribute_lists.nodes.len() > 0 {
            self.attribute_lists.nodes@[0].span()
        } else if self.modifiers.nodes.len() > 0 {
            self.modifiers.nodes@[0].keyword.span
        } else if self.hint is Some {
            self.hint->Some_0.name.span
        } else if self.ampersand is Some {
            self.ampersand->Some_0
        } else if self.ellipsis is Some {
            self.ellipsis->Some_0
        } else {
            self.variable.span
        }
    }

    pub open spec fn spec_span(&self) -> Span {
        Span { start: self.left_span().start, end: self.right_span().end }
    }

    pub open spec fn wf(&self) -> bool {
        &&& in_order(self.child_spans())
        &&& forall|k: int| 0 <= k < self.attribute_lists.nodes.len() ==> (#[trigger] self.attribute_lists.nodes@[k]).wf()
        &&& self.hooks matches Some(h) ==> h.wf()
        &&& self.default_value matches Some(d) ==> in_order(d.child_spans()) && d.value.wf()
    }

    /// A promoted property: a parameter with a modifier or with hooks.
    pub fn is_promoted_property(&self) -> (r: bool)
        ensures
            r == (self.modifiers.nodes.len() > 0 || self.hooks is Some),
    {
        !self.modifiers.is_empty() || self.hooks.is_some()
    }

    pub fn is_variadic(&self) -> (r: bool)
        ensures
            r == self.ellipsis is Some,
    {
        self.ellipsis.is_some()
    }

    pub fn is_reference(&self) -> (r: bool)
        ensures
            r == self.ampersand is Some,
    {
        self.ampersand.is_some()
    }

    /// The span from the leftmost part present to the hooks, else the
    /// default value, else the variable.
    #[verifier::spinoff_prover]
    #[verifier::rlimit(100)]
    #[verifier::when_used_as_spec(spec_span)]
    pub fn span(&self) -> (r: Span)
        ensures
            r == self.spec_span(),
            r == outer_span(self.child_spans()),
            self.wf() ==> r.wf(),
    {
        let right = match &self.hooks {
            Some(hooks) => hooks.span(),
            None => match &self.default_value {
                Some(default_value) => default_value.span(),
                None => self.variable.span,
            },
        };
        let left = if self.attribute_lists.nodes.len() > 0 {
            self.attribute_lists.nodes[0].span()
        } else if self.modifiers.nodes.len() > 0 {
            self.modifiers.nodes[0].keyword.span
        } else if let Some(hint) = &self.hint {
            hint.name.span
        } else if let Some(ampersand) = self.ampersand {
            ampersand
        } else if let Some(ellipsis) = self.ellipsis {
            ellipsis
        } else {
            self.variable.span
        };
        proof {
            self.lemma_span_is_outer();
            if self.wf() {
                crate::ast::node::lemma_in_order(self.child_spans());
            }
        }
        Span { start: left.start, end: right.end }
    }

    /// The span that the parameter computes is the span from its first child to its last.
    pub proof fn lemma_span_is_outer(&self)
        ensures
            self.spec_span() == outer_span(self.child_spans()),
    {
        let a = attribute_list_spans(self.attribute_lists.nodes@);
        let m = modifier_spans(self.modifiers.nodes@);
        let h = hint_spans(self.hint);
        let amp = optional_span(self.ampersand);
        let e = optional_span(self.ellipsis);
        let v = seq![self.variable.span];
        let d = default_value_spans(self.default_value);
        let k = hooks_spans(self.hooks);
        let c = self.child_spans();
        assert(c == a + m + h + amp + e + v + d + k);
        if a.len() > 0 {
            assert(c[0] == a[0]);
        } else if m.len() > 0 {
            assert(c[0] == m[0]);
        } else if h.len() > 0 {
            assert(c[0] == h[0]);
        } else if amp.len() > 0 {
            assert(c[0] == amp[0]);
        } else if e.len() > 0 {
            assert(c[0] == e[0]);
        } else {
            assert(c[0] == v[0]);
        }
        if k.len() > 0 {
            assert(c.last() == k[0]);
        } else if d.len() > 0 {
            assert(c.last() == d[0]);
        } else {
            assert(c.last() == v[0]);
        }
    }
}

impl FunctionLikeParameterDefaultValue {
    pub open spec fn child_spans(&self) -> Seq<Span> {
        seq![self.equals, self.value.span()]
    }

    pub open spec fn spec_span(&self) -> Span {
        Span { start: self.equals.start, end: self.value.span().end }
    }

    #[verifier::when_used_as_spec(spec_span)]
    pub fn span(&self) -> (r: Span)
        ensures
            r == self.spec_span(),
    {
        Span { start: self.equals.start, end: self.value.span().end }
    }
}

impl AttributeList {
    pub open spec fn child_spans(&self) -> Seq<Span> {
        seq![self.hash_left_bracket] + interleave(identifier_spans(self.attributes.nodes@), self.attributes.tokens@)
            + seq![self.right_bracket]
    }

    pub open spec fn spec_span(&self) -> Span {
        Span { start: self.hash_left_bracket.start, end: self.right_bracket.end }
    }

    pub open spec fn wf(&self) -> bool {
        &&& crate::ast::node::separators_accounted(
            self.attributes.nodes.len() as nat,
            self.attributes.tokens.len() as nat,
        )
        &&& in_order(self.child_spans())
    }

    #[verifier::when_used_as_spec(spec_span)]
    pub fn span(&self) -> (r: Span)
        ensures
            r == self.spec_span(),
    {
        Span { start: self.hash_left_bracket.start, end: self.right_bracket.end }
    }
}

impl PropertyHookList {
    pub open spec fn child_spans(&self) -> Seq<Span> {
        seq![self.left_brace] + hook_spans(self.hooks.nodes@) + seq![self.right_brace]
    }

    pub open spec fn spec_span(&self) -> Span {
        Span { start: self.left_brace.start, end: self.right_brace.end }
    }

    pub open spec fn wf(&self) -> bool {
        &&& in_order(self.child_spans())
        &&& forall|k: int| 0 <= k < self.hooks.nodes.len() ==> in_order((#[trigger] self.hooks.nodes@[k]).child_spans())
    }

    #[verifier::when_used_as_spec(spec_span)]
    pub fn span(&self) -> (r: Span)
        ensures
            r == self.spec_span(),
    {
        Span { start: self.left_brace.start, end: self.right_brace.end }
    }
}

impl PropertyHook {
    pub open spec fn child_spans(&self) -> Seq<Span> {
        seq![self.name.span, self.terminator.span()]
    }

    pub open spec fn span(&self) -> Span {
        outer_span(self.child_spans())
    }
}

} // verus!
