use vstd::prelude::*;

use crate::span::Span;
use crate::stream::TokenStream;
use crate::token::SymbolId;

verus! {

/// Spans in source order: each well formed, each ending before the next starts.
pub open spec fn in_order(s: Seq<Span>) -> bool {
    &&& forall|i: int| 0 <= i < s.len() ==> (#[trigger] s[i]).wf()
    &&& forall|i: int| 0 <= i < s.len() - 1 ==> (#[trigger] s[i]).precedes(s[i + 1])
}

/// The span from the first of `s` to the last of `s`.
pub open spec fn outer_span(s: Seq<Span>) -> Span {
    Span { start: s[0].start, end: s.last().end }
}

/// Spans in order cover one another in order, and the outer span covers them all.
pub proof fn lemma_in_order(s: Seq<Span>)
    requires
        in_order(s),
        s.len() > 0,
    ensures
        forall|i: int, j: int| 0 <= i < j < s.len() ==> (#[trigger] s[i]).precedes(#[trigger] s[j]),
        forall|i: int| 0 <= i < s.len() ==> outer_span(s).covers(#[trigger] s[i]),
        outer_span(s).wf(),
    decreases s.len(),
{
    if s.len() > 1 {
        let t = s.drop_last();
        assert forall|i: int| 0 <= i < t.len() - 1 implies (#[trigger] t[i]).precedes(t[i + 1]) by {
            assert(s[i].precedes(s[i + 1]));
        }
        assert forall|i: int| 0 <= i < t.len() implies (#[trigger] t[i]).wf() by {
            assert(s[i].wf());
        }
        lemma_in_order(t);
        assert(s[s.len() - 2].precedes(s[s.len() - 1]));
        assert(s[s.len() - 1].wf());
        assert forall|i: int, j: int| 0 <= i < j < s.len() implies (#[trigger] s[i]).precedes(
            #[trigger] s[j],
        ) by {
            if j < s.len() - 1 {
                assert(t[i].precedes(t[j]));
            } else if i < s.len() - 2 {
                assert(t[i].precedes(t[s.len() - 2]));
                assert(s[s.len() - 2].wf());
            }
        }
        assert forall|i: int| 0 <= i < s.len() implies outer_span(s).covers(#[trigger] s[i]) by {
            assert(s[i].wf());
            if i > 0 {
                assert(s[0].precedes(s[i]));
                assert(s[0].wf());
            }
            if i < s.len() - 1 {
                assert(s[i].precedes(s[s.len() - 1]));
            }
        }
        assert(s[0].precedes(s[s.len() - 1]));
        assert(s[0].wf());
    } else {
        assert(s[0].wf());
    }
}

/// One more span after spans in order keeps them in order.
pub proof fn lemma_in_order_push(s: Seq<Span>, x: Span)
    requires
        in_order(s),
        x.wf(),
        s.len() > 0 ==> s.last().precedes(x),
    ensures
        in_order(s.push(x)),
        s.len() > 0 ==> outer_span(s.push(x)) == (Span { start: outer_span(s).start, end: x.end }),
        s.len() == 0 ==> outer_span(s.push(x)) == x,
{
    let t = s.push(x);
    assert forall|i: int| 0 <= i < t.len() - 1 implies (#[trigger] t[i]).precedes(t[i + 1]) by {
        if i < s.len() - 1 {
            assert(s[i].precedes(s[i + 1]));
        }
    }
    assert forall|i: int| 0 <= i < t.len() implies (#[trigger] t[i]).wf() by {
        if i < s.len() {
            assert(s[i].wf());
        }
    }
}

/// Appending a node when every node has its separator.
pub proof fn lemma_interleave_push_item(items: Seq<Span>, separators: Seq<Span>, x: Span)
    requires
        separators.len() == items.len(),
    ensures
        interleave(items.push(x), separators) == interleave(items, separators).push(x),
    decreases items.len(),
{
    if items.len() == 0 {
        assert(separators =~= Seq::<Span>::empty());
        assert(items.push(x) =~= seq![x]);
    } else {
        lemma_interleave_push_item(items.drop_first(), separators.drop_first(), x);
        assert(items.push(x).drop_first() =~= items.drop_first().push(x));
        assert(interleave(items.push(x), separators) =~= seq![items[0], separators[0]] + interleave(
            items.drop_first().push(x),
            separators.drop_first(),
        ));
        assert(interleave(items, separators) =~= seq![items[0], separators[0]] + interleave(
            items.drop_first(),
            separators.drop_first(),
        ));
        assert((seq![items[0], separators[0]] + interleave(items.drop_first(), separators.drop_first())).push(x)
            =~= seq![items[0], separators[0]] + interleave(items.drop_first(), separators.drop_first()).push(x));
    }
}

/// Appending a separator after the last node.
pub proof fn lemma_interleave_push_separator(items: Seq<Span>, separators: Seq<Span>, c: Span)
    requires
        separators.len() + 1 == items.len(),
    ensures
        interleave(items, separators.push(c)) == interleave(items, separators).push(c),
    decreases items.len(),
{
    if items.len() == 1 {
        assert(separators =~= Seq::<Span>::empty());
        assert(separators.push(c) =~= seq![c]);
        assert(items.drop_first() =~= Seq::<Span>::empty());
        assert(seq![c].drop_first() =~= Seq::<Span>::empty());
        assert(interleave(items, separators) =~= items);
        assert(interleave(items.drop_first(), seq![c].drop_first()) =~= Seq::<Span>::empty());
        assert(interleave(items, separators.push(c)) =~= seq![items[0], c] + interleave(
            items.drop_first(),
            seq![c].drop_first(),
        ));
    } else {
        lemma_interleave_push_separator(items.drop_first(), separators.drop_first(), c);
        assert(separators.push(c).drop_first() =~= separators.drop_first().push(c));
        assert((seq![items[0], separators[0]] + interleave(items.drop_first(), separators.drop_first())).push(c)
            =~= seq![items[0], separators[0]] + interleave(items.drop_first(), separators.drop_first()).push(c));
    }
}

/// Spans consumed in order from `first`: after one more node, consumed up to
/// `last`, they stay in order and stay consumed.
pub proof fn lemma_consumed_step(
    spans: Seq<Span>,
    x: Span,
    first: TokenStream,
    mid: TokenStream,
    last: TokenStream,
)
    requires
        first.wf(),
        spans.len() > 0,
        in_order(spans),
        mid.consumed(&first, outer_span(spans)),
        last.consumed(&mid, x),
    ensures
        in_order(spans.push(x)),
        last.consumed(&first, outer_span(spans.push(x))),
{
    last.lemma_consumed_in_order(&first, &mid, outer_span(spans), x);
    lemma_in_order_push(spans, x);
}

/// The first node consumed from `first` starts a sequence in order.
pub proof fn lemma_consumed_first(x: Span, first: TokenStream, last: TokenStream)
    requires
        first.wf(),
        last.consumed(&first, x),
    ensures
        in_order(seq![x]),
        last.consumed(&first, outer_span(seq![x])),
{
    last.lemma_consumed_wf(&first, x);
    lemma_in_order_push(Seq::<Span>::empty(), x);
    assert(Seq::<Span>::empty().push(x) =~= seq![x]);
}

/// A node after the last separator of a separated list, consumed in order.
pub proof fn lemma_separated_push_item(
    prefix: Seq<Span>,
    items: Seq<Span>,
    separators: Seq<Span>,
    x: Span,
    first: TokenStream,
    mid: TokenStream,
    last: TokenStream,
)
    requires
        first.wf(),
        separators.len() == items.len(),
        prefix.len() + items.len() > 0,
        in_order(prefix + interleave(items, separators)),
        mid.consumed(&first, outer_span(prefix + interleave(items, separators))),
        last.consumed(&mid, x),
    ensures
        in_order(prefix + interleave(items.push(x), separators)),
        last.consumed(&first, outer_span(prefix + interleave(items.push(x), separators))),
{
    lemma_interleave_push_item(items, separators, x);
    assert(prefix + interleave(items, separators).push(x) =~= (prefix + interleave(items, separators)).push(x));
    lemma_consumed_step(prefix + interleave(items, separators), x, first, mid, last);
}

/// A separator after the last node of a separated list, consumed in order.
pub proof fn lemma_separated_push_separator(
    prefix: Seq<Span>,
    items: Seq<Span>,
    separators: Seq<Span>,
    c: Span,
    first: TokenStream,
    mid: TokenStream,
    last: TokenStream,
)
    requires
        first.wf(),
        separators.len() + 1 == items.len(),
        in_order(prefix + interleave(items, separators)),
        mid.consumed(&first, outer_span(prefix + interleave(items, separators))),
        last.consumed(&mid, c),
    ensures
        in_order(prefix + interleave(items, separators.push(c))),
        last.consumed(&first, outer_span(prefix + interleave(items, separators.push(c)))),
{
    lemma_interleave_push_separator(items, separators, c);
    assert(prefix + interleave(items, separators).push(c) =~= (prefix + interleave(items, separators)).push(c));
    lemma_interleave_len(items, separators);
    lemma_consumed_step(prefix + interleave(items, separators), c, first, mid, last);
}

/// The interleaving holds every node and every separator.
pub proof fn lemma_interleave_len(items: Seq<Span>, separators: Seq<Span>)
    ensures
        interleave(items, separators).len() == items.len() + separators.len(),
    decreases items.len(),
{
    if items.len() > 0 && separators.len() > 0 {
        lemma_interleave_len(items.drop_first(), separators.drop_first());
    }
}

/// The spans `spans`, in order, are what was consumed from `first` to reach
/// `last`: nothing when there are none, else from the first one to the last one.
pub open spec fn parsed_spans(first: TokenStream, last: TokenStream, spans: Seq<Span>) -> bool {
    &&& last.advanced_from(&first)
    &&& in_order(spans)
    &&& spans.len() == 0 ==> last.position == first.position
    &&& spans.len() > 0 ==> last.consumed(&first, outer_span(spans))
}

/// One node consumed is a parsed sequence of one span.
pub proof fn lemma_parsed_single(x: Span, first: TokenStream, last: TokenStream)
    requires
        first.wf(),
        last.consumed(&first, x),
    ensures
        parsed_spans(first, last, seq![x]),
{
    lemma_consumed_first(x, first, last);
}

/// Nothing consumed is a parsed empty sequence.
pub proof fn lemma_parsed_empty(first: TokenStream)
    requires
        first.wf(),
    ensures
        parsed_spans(first, first, Seq::<Span>::empty()),
{
}

/// Two parsed sequences, one after the other, make one parsed sequence.
pub proof fn lemma_parsed_concat(
    a: Seq<Span>,
    b: Seq<Span>,
    first: TokenStream,
    mid: TokenStream,
    last: TokenStream,
)
    requires
        first.wf(),
        parsed_spans(first, mid, a),
        parsed_spans(mid, last, b),
    ensures
        parsed_spans(first, last, a + b),
{
    let c = a + b;
    if a.len() == 0 {
        assert(c =~= b);
    } else if b.len() == 0 {
        assert(c =~= a);
    } else {
        crate::stream::lemma_tokens_ordered(last.tokens@, mid.position - 1, mid.position as int);
        assert(a.last().precedes(b[0]));
        assert forall|i: int| 0 <= i < c.len() implies (#[trigger] c[i]).wf() by {
            if i < a.len() {
                assert(a[i].wf());
            } else {
                assert(b[i - a.len()].wf());
            }
        }
        assert forall|i: int| 0 <= i < c.len() - 1 implies (#[trigger] c[i]).precedes(c[i + 1]) by {
            if i < a.len() - 1 {
                assert(a[i].precedes(a[i + 1]));
            } else if i >= a.len() {
                assert(b[i - a.len()].precedes(b[i - a.len() + 1]));
            }
        }
        assert(c[0] == a[0]);
        assert(c.last() == b.last());
    }
}

/// A parsed sequence followed by one more node consumed.
pub proof fn lemma_parsed_push(a: Seq<Span>, x: Span, first: TokenStream, mid: TokenStream, last: TokenStream)
    requires
        first.wf(),
        parsed_spans(first, mid, a),
        last.consumed(&mid, x),
    ensures
        parsed_spans(first, last, a.push(x)),
{
    lemma_parsed_single(x, mid, last);
    lemma_parsed_concat(a, seq![x], first, mid, last);
    assert(a + seq![x] =~= a.push(x));
}

/// A parsed sequence is a single consumed span, if it is not empty.
pub proof fn lemma_parsed_outer(spans: Seq<Span>, first: TokenStream, last: TokenStream)
    requires
        first.wf(),
        parsed_spans(first, last, spans),
        spans.len() > 0,
    ensures
        last.consumed(&first, outer_span(spans)),
        outer_span(spans).wf(),
        forall|i: int| 0 <= i < spans.len() ==> outer_span(spans).covers(#[trigger] spans[i]),
{
    lemma_in_order(spans);
}

/// A keyword token kept in the tree: where it stands and its text.
#[derive(Clone, Copy, Debug, PartialEq, Eq, Hash, Structural)]
pub struct Keyword {
    pub span: Span,
    pub value: SymbolId,
}

/// A bare name, such as a label or an alias.
#[derive(Clone, Copy, Debug, PartialEq, Eq, Hash, Structural)]
pub struct LocalIdentifier {
    pub span: Span,
    pub value: SymbolId,
}

/// A name that may hold namespace separators, such as `Foo\Bar`.
#[derive(Clone, Copy, Debug, PartialEq, Eq, Hash, Structural)]
pub struct Identifier {
    pub span: Span,
    pub value: SymbolId,
}

/// The end of a statement: a `;` or a closing tag.
#[derive(Clone, Copy, Debug, PartialEq, Eq, Hash, Structural)]
pub enum Terminator {
    Semicolon(Span),
    ClosingTag(Span),
}

impl Terminator {
    pub open spec fn spec_span(&self) -> Span {
        match self {
            Terminator::Semicolon(s) => *s,
            Terminator::ClosingTag(s) => *s,
        }
    }

    #[verifier::when_used_as_spec(spec_span)]
    pub fn span(&self) -> (r: Span)
        ensures
            r == self.spec_span(),
    {
        match self {
            Terminator::Semicolon(s) => *s,
            Terminator::ClosingTag(s) => *s,
        }
    }
}

/// An ordered list of nodes with nothing between them.
#[derive(Clone, Debug, PartialEq, Eq)]
pub struct Sequence<T> {
    pub nodes: Vec<T>,
}

impl<T> Sequence<T> {
    pub fn new(nodes: Vec<T>) -> (r: Sequence<T>)
        ensures
            r.nodes@ == nodes@,
    {
        Sequence { nodes }
    }

    pub fn len(&self) -> (r: usize)
        ensures
            r == self.nodes.len(),
    {
        self.nodes.len()
    }

    pub fn is_empty(&self) -> (r: bool)
        ensures
            r == (self.nodes.len() == 0),
    {
        self.nodes.len() == 0
    }
}

/// Nodes with the spans of the separators (commas) between them; one
/// separator may trail the last node.
#[derive(Clone, Debug, PartialEq, Eq)]
pub struct TokenSeparatedSequence<T> {
    pub nodes: Vec<T>,
    pub tokens: Vec<Span>,
}

/// Separators are one per node, or one fewer.
pub open spec fn separators_accounted(items: nat, separators: nat) -> bool {
    separators == items || separators + 1 == items
}

/// The spans of nodes and separators interleaved: node, separator, node, ...
pub open spec fn interleave(items: Seq<Span>, separators: Seq<Span>) -> Seq<Span>
    decreases items.len(),
{
    if items.len() == 0 {
        separators
    } else if separators.len() == 0 {
        items
    } else {
        seq![items[0], separators[0]] + interleave(items.drop_first(), separators.drop_first())
    }
}

impl<T> TokenSeparatedSequence<T> {
    pub fn new(nodes: Vec<T>, tokens: Vec<Span>) -> (r: TokenSeparatedSequence<T>)
        ensures
            r.nodes@ == nodes@,
            r.tokens@ == tokens@,
    {
        TokenSeparatedSequence { nodes, tokens }
    }

    pub fn len(&self) -> (r: usize)
        ensures
            r == self.nodes.len(),
    {
        self.nodes.len()
    }

    pub fn is_empty(&self) -> (r: bool)
        ensures
            r == (self.nodes.len() == 0),
    {
        self.nodes.len() == 0
    }

    pub fn has_trailing_token(&self) -> (r: bool)
        ensures
            r == (self.nodes.len() > 0 && self.tokens.len() == self.nodes.len()),
    {
        self.nodes.len() > 0 && self.tokens.len() == self.nodes.len()
    }
}

} // verus!
