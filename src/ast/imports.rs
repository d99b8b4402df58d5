use vstd::prelude::*;

use crate::ast::node::{
    in_order, interleave, outer_span, Identifier, Keyword, LocalIdentifier, Terminator,
    TokenSeparatedSequence,
};
use crate::span::Span;

verus! {

/// `use` followed by one of four shapes of imported items and a terminator.
#[derive(Clone, Debug, PartialEq, Eq)]
pub struct Use {
    pub use_keyword: Keyword,
    pub items: UseItems,
    pub terminator: Terminator,
}

/// The four shapes of a `use` import.
#[derive(Clone, Debug, PartialEq, Eq)]
pub enum UseItems {
    /// `use Foo\Bar, Baz as B;`
    Sequence(UseItemSequence),
    /// `use function foo, bar;`
    TypedSequence(TypedUseItemSequence),
    /// `use function Foo\{bar, baz};`
    TypedList(TypedUseItemList),
    /// `use Foo\{Bar, function baz, const QUX};`
    MixedList(MixedUseItemList),
}

/// Which of the four shapes a `use` import has.
#[derive(Clone, Copy, Debug, PartialEq, Eq, Structural)]
pub enum UseShape {
    Sequence,
    TypedSequence,
    TypedList,
    MixedList,
}

#[derive(Clone, Debug, PartialEq, Eq)]
pub struct UseItemSequence {
    pub items: TokenSeparatedSequence<UseItem>,
}

#[derive(Clone, Debug, PartialEq, Eq)]
pub struct TypedUseItemSequence {
    pub use_type: UseType,
    pub items: TokenSeparatedSequence<UseItem>,
}

#[derive(Clone, Debug, PartialEq, Eq)]
pub struct TypedUseItemList {
    pub use_type: UseType,
    pub namespace: Identifier,
    pub namespace_separator: Span,
    pub left_brace: Span,
    pub items: TokenSeparatedSequence<UseItem>,
    pub right_brace: Span,
}

#[derive(Clone, Debug, PartialEq, Eq)]
pub struct MixedUseItemList {
    pub namespace: Identifier,
    pub namespace_separator: Span,
    pub left_brace: Span,
    pub items: TokenSeparatedSequence<MaybeTypedUseItem>,
    pub right_brace: Span,
}

/// An item of a mixed list, which may say for itself what it imports.
#[derive(Clone, Copy, Debug, PartialEq, Eq, Structural)]
pub struct MaybeTypedUseItem {
    pub use_type: Option<UseType>,
    pub item: UseItem,
}

/// What a typed import brings in: functions or constants.
#[derive(Clone, Copy, Debug, PartialEq, Eq, Structural)]
pub enum UseType {
    Function(Keyword),
    Const(Keyword),
}

/// An imported name and its alias, if any.
#[derive(Clone, Copy, Debug, PartialEq, Eq, Structural)]
pub struct UseItem {
    pub name: Identifier,
    pub alias: Option<UseItemAlias>,
}

/// `as Name`
#[derive(Clone, Copy, Debug, PartialEq, Eq, Structural)]
pub struct UseItemAlias {
    pub as_keyword: Keyword,
    pub identifier: LocalIdentifier,
}

impl UseItemAlias {
    pub open spec fn child_spans(&self) -> Seq<Span> {
        seq![self.as_keyword.span, self.identifier.span]
    }

    pub open spec fn span(&self) -> Span {
        outer_span(self.child_spans())
    }

    pub open spec fn wf(&self) -> bool {
        in_order(self.child_spans())
    }
}

impl UseType {
    pub open spec fn span(&self) -> Span {
        match self {
            UseType::Function(k) => k.span,
            UseType::Const(k) => k.span,
        }
    }

    pub open spec fn wf(&self) -> bool {
        self.span().wf()
    }
}

impl UseItem {
    pub open spec fn child_spans(&self) -> Seq<Span> {
        match self.alias {
            Some(a) => seq![self.name.span, a.span()],
            None => seq![self.name.span],
        }
    }

    pub open spec fn span(&self) -> Span {
        outer_span(self.child_spans())
    }

    pub open spec fn wf(&self) -> bool {
        &&& in_order(self.child_spans())
        &&& self.alias matches Some(a) ==> a.wf()
    }
}

impl MaybeTypedUseItem {
    pub open spec fn child_spans(&self) -> Seq<Span> {
        match self.use_type {
            Some(t) => seq![t.span(), self.item.span()],
            None => seq![self.item.span()],
        }
    }

    pub open spec fn span(&self) -> Span {
        outer_span(self.child_spans())
    }

    pub open spec fn wf(&self) -> bool {
        &&& in_order(self.child_spans())
        &&& self.item.wf()
    }
}

/// The spans of the items and commas of a list of use items, in source order.
pub open spec fn use_item_spans(items: TokenSeparatedSequence<UseItem>) -> Seq<Span> {
    interleave(spans_of_use_items(items.nodes@), items.tokens@)
}

pub open spec fn spans_of_use_items(items: Seq<UseItem>) -> Seq<Span> {
    items.map_values(|i: UseItem| i.span())
}

pub open spec fn spans_of_maybe_typed_items(items: Seq<MaybeTypedUseItem>) -> Seq<Span> {
    items.map_values(|i: MaybeTypedUseItem| i.span())
}

pub open spec fn use_items_wf(items: TokenSeparatedSequence<UseItem>) -> bool {
    forall|i: int| 0 <= i < items.nodes.len() ==> (#[trigger] items.nodes@[i]).wf()
}

pub open spec fn maybe_typed_item_spans(items: TokenSeparatedSequence<MaybeTypedUseItem>) -> Seq<Span> {
    interleave(spans_of_maybe_typed_items(items.nodes@), items.tokens@)
}

pub open spec fn maybe_typed_items_wf(items: TokenSeparatedSequence<MaybeTypedUseItem>) -> bool {
    forall|i: int| 0 <= i < items.nodes.len() ==> (#[trigger] items.nodes@[i]).wf()
}

impl UseItemSequence {
    pub open spec fn child_spans(&self) -> Seq<Span> {
        use_item_spans(self.items)
    }

    pub open spec fn span(&self) -> Span {
        outer_span(self.child_spans())
    }

    pub open spec fn wf(&self) -> bool {
        &&& self.items.nodes.len() > 0
        &&& self.items.tokens.len() + 1 == self.items.nodes.len()
        &&& in_order(self.child_spans())
        &&& use_items_wf(self.items)
    }
}

impl TypedUseItemSequence {
    pub open spec fn child_spans(&self) -> Seq<Span> {
        seq![self.use_type.span()] + use_item_spans(self.items)
    }

    pub open spec fn span(&self) -> Span {
        outer_span(self.child_spans())
    }

    pub open spec fn wf(&self) -> bool {
        &&& self.items.nodes.len() > 0
        &&& self.items.tokens.len() + 1 == self.items.nodes.len()
        &&& in_order(self.child_spans())
        &&& use_items_wf(self.items)
    }
}

impl TypedUseItemList {
    pub open spec fn child_spans(&self) -> Seq<Span> {
        seq![self.use_type.span(), self.namespace.span, self.namespace_separator, self.left_brace]
            + use_item_spans(self.items) + seq![self.right_brace]
    }

    pub open spec fn span(&self) -> Span {
        outer_span(self.child_spans())
    }

    pub open spec fn wf(&self) -> bool {
        &&& crate::ast::node::separators_accounted(
            self.items.nodes.len() as nat,
            self.items.tokens.len() as nat,
        )
        &&& in_order(self.child_spans())
        &&& use_items_wf(self.items)
    }
}

impl MixedUseItemList {
    pub open spec fn child_spans(&self) -> Seq<Span> {
        seq![self.namespace.span, self.namespace_separator, self.left_brace]
            + maybe_typed_item_spans(self.items) + seq![self.right_brace]
    }

    pub open spec fn span(&self) -> Span {
        outer_span(self.child_spans())
    }

    pub open spec fn wf(&self) -> bool {
        &&& crate::ast::node::separators_accounted(
            self.items.nodes.len() as nat,
            self.items.tokens.len() as nat,
        )
        &&& in_order(self.child_spans())
        &&& maybe_typed_items_wf(self.items)
    }
}

impl UseItems {
    pub open spec fn span(&self) -> Span {
        match self {
            UseItems::Sequence(s) => s.span(),
            UseItems::TypedSequence(s) => s.span(),
            UseItems::TypedList(l) => l.span(),
            UseItems::MixedList(l) => l.span(),
        }
    }

    pub open spec fn wf(&self) -> bool {
        match self {
            UseItems::Sequence(s) => s.wf(),
            UseItems::TypedSequence(s) => s.wf(),
            UseItems::TypedList(l) => l.wf(),
            UseItems::MixedList(l) => l.wf(),
        }
    }

    pub open spec fn shape(&self) -> UseShape {
        match self {
            UseItems::Sequence(_) => UseShape::Sequence,
            UseItems::TypedSequence(_) => UseShape::TypedSequence,
            UseItems::TypedList(_) => UseShape::TypedList,
            UseItems::MixedList(_) => UseShape::MixedList,
        }
    }
}

impl UseItems {
    /// The list's separators are one per item, or one fewer.
    pub open spec fn separators_accounted(&self) -> bool {
        match self {
            UseItems::Sequence(s) => crate::ast::node::separators_accounted(
                s.items.nodes.len() as nat,
                s.items.tokens.len() as nat,
            ),
            UseItems::TypedSequence(s) => crate::ast::node::separators_accounted(
                s.items.nodes.len() as nat,
                s.items.tokens.len() as nat,
            ),
            UseItems::TypedList(l) => crate::ast::node::separators_accounted(
                l.items.nodes.len() as nat,
                l.items.tokens.len() as nat,
            ),
            UseItems::MixedList(l) => crate::ast::node::separators_accounted(
                l.items.nodes.len() as nat,
                l.items.tokens.len() as nat,
            ),
        }
    }
}

/// In every well-formed list of use items there is one separator per item,
/// or one fewer; the sequences, which allow no trailing comma, have one fewer.
pub proof fn lemma_use_separators(items: UseItems)
    requires
        items.wf(),
    ensures
        items.separators_accounted(),
        items is Sequence || items is TypedSequence ==> match items {
            UseItems::Sequence(s) => s.items.tokens.len() + 1 == s.items.nodes.len(),
            UseItems::TypedSequence(s) => s.items.tokens.len() + 1 == s.items.nodes.len(),
            _ => true,
        },
{
}

impl Use {
    pub open spec fn child_spans(&self) -> Seq<Span> {
        seq![self.use_keyword.span, self.items.span(), self.terminator.span()]
    }

    pub open spec fn span(&self) -> Span {
        outer_span(self.child_spans())
    }

    pub open spec fn wf(&self) -> bool {
        &&& in_order(self.child_spans())
        &&& self.items.wf()
    }
}

} // verus!
