use vstd::prelude::*;

use crate::ast::imports::{
    spans_of_maybe_typed_items, spans_of_use_items, MaybeTypedUseItem, MixedUseItemList,
    TypedUseItemList, TypedUseItemSequence, Use, UseItem, UseItemAlias, UseItemSequence,
    UseItems, UseShape, UseType,
};
use crate::ast::node::{
    in_order, interleave, lemma_consumed_first, lemma_consumed_step, lemma_separated_push_item,
    lemma_separated_push_separator, outer_span, TokenSeparatedSequence,
};
use crate::error::ParseError;
use crate::parser::grammar::{use_braced_end, use_items_grammar_end, use_sequence_end, use_statement_end};
use crate::parser::basic::{
    expect_keyword, expect_span, parse_identifier, parse_local_identifier, parse_terminator,
};
use crate::span::Span;
use crate::stream::{two_kinds, TokenStream};
use crate::token::TokenKind;

verus! {

/// A use item stands `k` places past the cursor: a name, then `as` and a name if `as` follows.
pub open spec fn use_item_at(s: TokenStream, k: int) -> bool {
    &&& s.kind_at(k) == Some(TokenKind::Identifier)
    &&& s.kind_at(k + 1) == Some(TokenKind::As) ==> s.kind_at(k + 2) == Some(TokenKind::Identifier)
}

/// How many tokens the use item that stands `k` places past the cursor takes.
pub open spec fn use_item_length(s: TokenStream, k: int) -> int {
    if s.kind_at(k + 1) == Some(TokenKind::As) {
        3
    } else {
        1
    }
}

/// Where a comma-separated run of use items that starts `k` places past the
/// cursor ends (as an offset from the cursor), with no trailing comma; `None`
/// when no such run stands there.
pub open spec fn item_sequence_end(s: TokenStream, k: int) -> Option<int>
    decreases s.tokens.len() - s.position - k,
{
    if !use_item_at(s, k) || k < 0 {
        None
    } else {
        let j = k + use_item_length(s, k);
        if s.kind_at(j) == Some(TokenKind::Comma) {
            item_sequence_end(s, j + 1)
        } else {
            Some(j)
        }
    }
}

/// Where the items of a braced list that start `k` places past the cursor
/// end: the offset of the closing `}`. Items are separated by commas and one
/// comma may trail; with `mixed`, each item may begin with `function` or `const`.
pub open spec fn braced_items_end(s: TokenStream, k: int, mixed: bool) -> Option<int>
    decreases s.tokens.len() - s.position - k,
{
    if k < 0 || s.kind_at(k) is None {
        None
    } else if s.kind_at(k) == Some(TokenKind::RightBrace) {
        Some(k)
    } else {
        let t = if mixed && is_use_type_kind(s.kind_at(k)) {
            1int
        } else {
            0int
        };
        if !use_item_at(s, k + t) {
            None
        } else {
            let j = k + t + use_item_length(s, k + t);
            if s.kind_at(j) == Some(TokenKind::Comma) {
                braced_items_end(s, j + 1, mixed)
            } else if s.kind_at(j) == Some(TokenKind::RightBrace) {
                Some(j)
            } else {
                None
            }
        }
    }
}

/// The token kind that begins a typed import.
pub open spec fn is_use_type_kind(k: Option<TokenKind>) -> bool {
    k == Some(TokenKind::Function) || k == Some(TokenKind::Const)
}

/// The shape of a `use` import is decided by the kinds of the next three tokens:
/// a type keyword and a namespace separator after the name make a typed list;
/// a type keyword alone a typed sequence; a separator after the first name a
/// mixed list; neither a plain sequence.
pub open spec fn use_shape(s: TokenStream) -> UseShape {
    if is_use_type_kind(s.kind_at(0)) {
        if s.kind_at(2) == Some(TokenKind::NamespaceSeparator) {
            UseShape::TypedList
        } else {
            UseShape::TypedSequence
        }
    } else if s.kind_at(1) == Some(TokenKind::NamespaceSeparator) {
        UseShape::MixedList
    } else {
        UseShape::Sequence
    }
}

/// The next tokens begin a typed grouped list: `const|function Name \`.
pub open spec fn starts_typed_list(s: TokenStream) -> bool {
    is_use_type_kind(s.kind_at(0)) && s.kind_at(2) == Some(TokenKind::NamespaceSeparator)
}

/// The next tokens begin a typed sequence: `const|function` without a separator after the name.
pub open spec fn starts_typed_sequence(s: TokenStream) -> bool {
    is_use_type_kind(s.kind_at(0)) && s.kind_at(2) != Some(TokenKind::NamespaceSeparator)
}

/// The next tokens begin a mixed grouped list: a name, then `\`.
pub open spec fn starts_mixed_list(s: TokenStream) -> bool {
    !is_use_type_kind(s.kind_at(0)) && s.kind_at(1) == Some(TokenKind::NamespaceSeparator)
}

/// The next tokens begin a plain sequence: a name not followed by `\`.
pub open spec fn starts_plain_sequence(s: TokenStream) -> bool {
    !is_use_type_kind(s.kind_at(0)) && s.kind_at(1) != Some(TokenKind::NamespaceSeparator)
}

/// The four shapes of a `use` import are disjoint and total: whatever the
/// input, exactly one of them is selected, and it is the one that the
/// dispatch picks.
pub proof fn lemma_use_shape_dispatch(s: TokenStream)
    ensures
        (if starts_typed_list(s) { 1int } else { 0int }) + (if starts_typed_sequence(s) { 1int } else { 0int })
            + (if starts_mixed_list(s) { 1int } else { 0int }) + (if starts_plain_sequence(s) { 1int } else { 0int })
            == 1,
        starts_typed_list(s) <==> use_shape(s) == UseShape::TypedList,
        starts_typed_sequence(s) <==> use_shape(s) == UseShape::TypedSequence,
        starts_mixed_list(s) <==> use_shape(s) == UseShape::MixedList,
        starts_plain_sequence(s) <==> use_shape(s) == UseShape::Sequence,
{
}

/// Where the items of a `use` import that start at the cursor end, in the
/// shape that the next tokens select; `None` when they do not parse.
pub open spec fn use_items_end(s: TokenStream) -> Option<int> {
    match use_shape(s) {
        UseShape::TypedList => if s.kind_at(1) == Some(TokenKind::Identifier) && s.kind_at(2) == Some(
            TokenKind::NamespaceSeparator,
        ) && s.kind_at(3) == Some(TokenKind::LeftBrace) && braced_items_end(s, 4, false) is Some {
            Some(braced_items_end(s, 4, false)->Some_0 + 1)
        } else {
            None
        },
        UseShape::TypedSequence => item_sequence_end(s, 1),
        UseShape::MixedList => if s.kind_at(0) == Some(TokenKind::Identifier) && s.kind_at(2) == Some(
            TokenKind::LeftBrace,
        ) && braced_items_end(s, 3, true) is Some {
            Some(braced_items_end(s, 3, true)->Some_0 + 1)
        } else {
            None
        },
        UseShape::Sequence => item_sequence_end(s, 0),
    }
}

/// An offset from a stream's cursor, as a position.
pub open spec fn shifted(r: Option<int>, by: int) -> Option<int> {
    match r {
        Some(e) => Some(e + by),
        None => None,
    }
}

/// The sequence grammar read from the cursor agrees with the one read at positions.
pub proof fn lemma_item_sequence_positions(s: TokenStream, k: int)
    requires
        k >= 0,
    ensures
        shifted(item_sequence_end(s, k), s.position as int) == use_sequence_end(s.tokens@, s.position + k),
    decreases s.tokens.len() - s.position - k,
{
    if use_item_at(s, k) {
        let j = k + use_item_length(s, k);
        if s.kind_at(j) == Some(TokenKind::Comma) {
            lemma_item_sequence_positions(s, j + 1);
        }
    }
}

/// The braced-list grammar read from the cursor agrees with the one read at positions.
pub proof fn lemma_braced_positions(s: TokenStream, k: int, mixed: bool)
    requires
        k >= 0,
    ensures
        shifted(braced_items_end(s, k, mixed), s.position as int) == use_braced_end(s.tokens@, s.position + k, mixed),
    decreases s.tokens.len() - s.position - k,
{
    if s.kind_at(k) is Some && s.kind_at(k) != Some(TokenKind::RightBrace) {
        let t = if mixed && is_use_type_kind(s.kind_at(k)) {
            1int
        } else {
            0int
        };
        if use_item_at(s, k + t) {
            let j = k + t + use_item_length(s, k + t);
            if s.kind_at(j) == Some(TokenKind::Comma) {
                lemma_braced_positions(s, j + 1, mixed);
            }
        }
    }
}

/// The `use` items grammar read from the cursor agrees with the one read at positions.
pub proof fn lemma_use_items_positions(s: TokenStream)
    ensures
        shifted(use_items_end(s), s.position as int) == use_items_grammar_end(s.tokens@, s.position as int),
{
    lemma_item_sequence_positions(s, 0);
    lemma_item_sequence_positions(s, 1);
    lemma_braced_positions(s, 4, false);
    lemma_braced_positions(s, 3, true);
}

/// Parses `as Name`.
pub fn parse_use_item_alias(stream: &mut TokenStream) -> (r: Result<UseItemAlias, ParseError>)
    requires
        old(stream).wf(),
    ensures
        final(stream).wf(),
        final(stream).advanced_from(old(stream)),
        r is Ok <==> (old(stream).next_is(TokenKind::As) && old(stream).kind_at(1) == Some(
            TokenKind::Identifier,
        )),
        r matches Ok(a) ==> a.wf() && final(stream).consumed(old(stream), a.span())
            && final(stream).position == old(stream).position + 2,
        r matches Ok(a) ==> a.as_keyword.span == old(stream).tokens[old(stream).position as int].span && a.identifier.span == old(stream).tokens[old(stream).position + 1].span
            && a.identifier.value == old(stream).tokens[old(stream).position + 1].value,
{
    let ghost s0 = *stream;
    let as_keyword = expect_keyword(stream, TokenKind::As)?;
    let ghost s1 = *stream;
    let identifier = parse_local_identifier(stream)?;
    let a = UseItemAlias { as_keyword, identifier };
    proof {
        lemma_consumed_first(as_keyword.span, s0, s1);
        lemma_consumed_step(seq![as_keyword.span], identifier.span, s0, s1, *stream);
        assert(seq![as_keyword.span].push(identifier.span) =~= a.child_spans());
    }
    Ok(a)
}

/// Parses `as Name` if `as` comes next.
pub fn parse_optional_use_item_alias(stream: &mut TokenStream) -> (r: Result<Option<UseItemAlias>, ParseError>)
    requires
        old(stream).wf(),
    ensures
        final(stream).wf(),
        final(stream).advanced_from(old(stream)),
        r is Err <==> (old(stream).next_is(TokenKind::As) && old(stream).kind_at(1) != Some(
            TokenKind::Identifier,
        )),
        r matches Ok(None) ==> !old(stream).next_is(TokenKind::As) && *final(stream) == *old(stream),
        r matches Ok(Some(a)) ==> a.identifier.value == old(stream).tokens[old(stream).position + 1].value,
        r matches Ok(Some(a)) ==> old(stream).next_is(TokenKind::As) && a.wf() && final(stream).consumed(
            old(stream),
            a.span(),
        ) && final(stream).position == old(stream).position + 2,
{
    if stream.is_next(TokenKind::As) {
        Ok(Some(parse_use_item_alias(stream)?))
    } else {
        Ok(None)
    }
}

/// Parses a name and its optional alias.
pub fn parse_use_item(stream: &mut TokenStream) -> (r: Result<UseItem, ParseError>)
    requires
        old(stream).wf(),
    ensures
        final(stream).wf(),
        final(stream).advanced_from(old(stream)),
        r is Ok <==> use_item_at(*old(stream), 0),
        r matches Ok(i) ==> i.wf() && final(stream).consumed(old(stream), i.span())
            && final(stream).position == old(stream).position + use_item_length(*old(stream), 0)
            && (i.alias is Some <==> old(stream).kind_at(1) == Some(TokenKind::As)),
        r matches Ok(i) ==> i.name.value == old(stream).tokens[old(stream).position as int].value && i.name.span == old(stream).tokens[old(stream).position as int].span
            && (i.alias matches Some(a) ==> a.identifier.value == old(stream).tokens[old(stream).position + 2].value),
{
    let ghost s0 = *stream;
    let name = parse_identifier(stream)?;
    let ghost s1 = *stream;
    let alias = parse_optional_use_item_alias(stream)?;
    let i = UseItem { name, alias };
    proof {
        lemma_consumed_first(name.span, s0, s1);
        match alias {
            Some(a) => {
                lemma_consumed_step(seq![name.span], a.span(), s0, s1, *stream);
                assert(seq![name.span].push(a.span()) =~= i.child_spans());
            },
            None => {},
        }
    }
    Ok(i)
}

/// Parses `function` or `const`.
pub fn parse_use_type(stream: &mut TokenStream) -> (r: Result<UseType, ParseError>)
    requires
        old(stream).wf(),
    ensures
        final(stream).wf(),
        final(stream).advanced_from(old(stream)),
        r is Ok <==> is_use_type_kind(old(stream).kind_at(0)),
        r matches Ok(t) ==> t.wf() && final(stream).consumed(old(stream), t.span())
            && final(stream).position == old(stream).position + 1
            && (t is Function <==> old(stream).next_is(TokenKind::Function)),
        r matches Err(e) ==> old(stream).rejects(e, seq![TokenKind::Function, TokenKind::Const]),
{
    if stream.is_next(TokenKind::Function) {
        Ok(UseType::Function(expect_keyword(stream, TokenKind::Function)?))
    } else if stream.is_next(TokenKind::Const) {
        Ok(UseType::Const(expect_keyword(stream, TokenKind::Const)?))
    } else {
        Err(stream.unexpected(two_kinds(TokenKind::Function, TokenKind::Const)))
    }
}

/// Parses `function` or `const` if one of them comes next.
pub fn parse_optional_use_type(stream: &mut TokenStream) -> (r: Result<Option<UseType>, ParseError>)
    requires
        old(stream).wf(),
    ensures
        final(stream).wf(),
        final(stream).advanced_from(old(stream)),
        r is Ok,
        r matches Ok(None) ==> !is_use_type_kind(old(stream).kind_at(0)) && *final(stream) == *old(stream),
        r matches Ok(Some(t)) ==> is_use_type_kind(old(stream).kind_at(0)) && t.wf()
            && final(stream).consumed(old(stream), t.span())
            && final(stream).position == old(stream).position + 1
            && (t is Function <==> old(stream).next_is(TokenKind::Function)),
{
    if stream.is_next(TokenKind::Function) || stream.is_next(TokenKind::Const) {
        Ok(Some(parse_use_type(stream)?))
    } else {
        Ok(None)
    }
}

/// Parses an item of a mixed list: an optional `function` or `const`, then a use item.
pub fn parse_maybe_typed_use_item(stream: &mut TokenStream) -> (r: Result<MaybeTypedUseItem, ParseError>)
    requires
        old(stream).wf(),
    ensures
        final(stream).wf(),
        final(stream).advanced_from(old(stream)),
        r is Ok <==> use_item_at(
            *old(stream),
            if is_use_type_kind(old(stream).kind_at(0)) {
                1
            } else {
                0
            },
        ),
        r is Ok ==> final(stream).position == old(stream).position + (if is_use_type_kind(old(stream).kind_at(0)) {
            1int
        } else {
            0int
        }) + use_item_length(
            *old(stream),
            if is_use_type_kind(old(stream).kind_at(0)) {
                1int
            } else {
                0int
            },
        ),
        r matches Ok(i) ==> i.wf() && final(stream).consumed(old(stream), i.span())
            && (i.use_type is Some <==> is_use_type_kind(old(stream).kind_at(0)))
            && (i.use_type matches Some(t) ==> (t is Function <==> old(stream).next_is(TokenKind::Function))),
        r matches Ok(i) ==> i.item.name.value == old(stream).tokens[old(stream).position + if i.use_type is Some { 1int } else { 0int }].value
            && (i.item.alias matches Some(a) ==> a.identifier.value == old(stream).tokens[old(stream).position + if i.use_type is Some { 3int } else { 2int }].value),
{
    let ghost s0 = *stream;
    let use_type = parse_optional_use_type(stream)?;
    let ghost s1 = *stream;
    let item = parse_use_item(stream)?;
    let i = MaybeTypedUseItem { use_type, item };
    proof {
        match use_type {
            Some(t) => {
                lemma_consumed_first(t.span(), s0, s1);
                lemma_consumed_step(seq![t.span()], item.span(), s0, s1, *stream);
                assert(seq![t.span()].push(item.span()) =~= i.child_spans());
            },
            None => {
                lemma_consumed_first(item.span(), s0, *stream);
            },
        }
    }
    Ok(i)
}

/// Parses `Name [as Alias], Name [as Alias], ...` with no trailing comma.
pub fn parse_use_item_sequence(stream: &mut TokenStream) -> (r: Result<UseItemSequence, ParseError>)
    requires
        old(stream).wf(),
    ensures
        final(stream).wf(),
        final(stream).advanced_from(old(stream)),
        r matches Ok(s) ==> s.wf() && final(stream).consumed(old(stream), s.span()),
        r is Ok <==> item_sequence_end(*old(stream), 0) is Some,
        r is Ok ==> final(stream).position == old(stream).position + item_sequence_end(*old(stream), 0)->Some_0,
{
    let ghost s0 = *stream;
    let ghost none = Seq::<Span>::empty();
    let mut items: Vec<UseItem> = Vec::new();
    let mut commas: Vec<Span> = Vec::new();
    let first = parse_use_item(stream)?;
    items.push(first);
    proof {
        lemma_consumed_first(first.span(), s0, *stream);
        assert(spans_of_use_items(items@) =~= seq![first.span()]);
        assert(none + interleave(seq![first.span()], commas@) =~= seq![first.span()]);
    }
    while stream.is_next(TokenKind::Comma)
        invariant
            item_sequence_end(s0, 0) == (if s0.kind_at(stream.position - s0.position) == Some(TokenKind::Comma) {
                item_sequence_end(s0, stream.position - s0.position + 1)
            } else {
                Some(stream.position - s0.position)
            }),
            s0.wf(),
            s0 == *old(stream),
            stream.wf(),
            stream.advanced_from(&s0),
            none.len() == 0,
            items.len() > 0,
            commas.len() + 1 == items.len(),
            in_order(none + interleave(spans_of_use_items(items@), commas@)),
            stream.consumed(&s0, outer_span(none + interleave(spans_of_use_items(items@), commas@))),
            forall|i: int| 0 <= i < items.len() ==> (#[trigger] items@[i]).wf(),
        decreases stream.remaining(),
    {
        let ghost before = *stream;
        let comma = stream.advance();
        let ghost mid = *stream;
        let item = parse_use_item(stream)?;
        proof {
            lemma_separated_push_separator(none, spans_of_use_items(items@), commas@, comma.span, s0, before, mid);
            lemma_separated_push_item(
                none,
                spans_of_use_items(items@),
                commas@.push(comma.span),
                item.span(),
                s0,
                mid,
                *stream,
            );
            assert(spans_of_use_items(items@.push(item)) =~= spans_of_use_items(items@).push(item.span()));
        }
        commas.push(comma.span);
        items.push(item);
    }
    let s = UseItemSequence { items: TokenSeparatedSequence::new(items, commas) };
    proof {
        assert(none + interleave(spans_of_use_items(items@), commas@) =~= s.child_spans());
    }
    Ok(s)
}

/// Parses `function|const Name [as Alias], ...` with no trailing comma.
pub fn parse_typed_use_item_sequence(stream: &mut TokenStream) -> (r: Result<TypedUseItemSequence, ParseError>)
    requires
        old(stream).wf(),
    ensures
        final(stream).wf(),
        final(stream).advanced_from(old(stream)),
        r matches Ok(s) ==> s.wf() && final(stream).consumed(old(stream), s.span())
            && (s.use_type is Function <==> old(stream).next_is(TokenKind::Function)),
        r is Ok <==> (is_use_type_kind(old(stream).kind_at(0)) && item_sequence_end(*old(stream), 1) is Some),
        r is Ok ==> final(stream).position == old(stream).position + item_sequence_end(*old(stream), 1)->Some_0,
{
    let ghost s0 = *stream;
    let use_type = parse_use_type(stream)?;
    let ghost s1 = *stream;
    let ghost prefix = seq![use_type.span()];
    let mut items: Vec<UseItem> = Vec::new();
    let mut commas: Vec<Span> = Vec::new();
    let first = parse_use_item(stream)?;
    proof {
        lemma_consumed_first(use_type.span(), s0, s1);
        assert(prefix + interleave(Seq::<Span>::empty(), Seq::<Span>::empty()) =~= prefix);
        lemma_separated_push_item(
            prefix,
            Seq::<Span>::empty(),
            Seq::<Span>::empty(),
            first.span(),
            s0,
            s1,
            *stream,
        );
        assert(spans_of_use_items(items@.push(first)) =~= Seq::<Span>::empty().push(first.span()));
    }
    items.push(first);
    while stream.is_next(TokenKind::Comma)
        invariant
            item_sequence_end(s0, 1) == (if s0.kind_at(stream.position - s0.position) == Some(TokenKind::Comma) {
                item_sequence_end(s0, stream.position - s0.position + 1)
            } else {
                Some(stream.position - s0.position)
            }),
            is_use_type_kind(s0.kind_at(0)),
            s0.wf(),
            s0 == *old(stream),
            stream.wf(),
            stream.advanced_from(&s0),
            prefix == seq![use_type.span()],
            items.len() > 0,
            commas.len() + 1 == items.len(),
            in_order(prefix + interleave(spans_of_use_items(items@), commas@)),
            stream.consumed(&s0, outer_span(prefix + interleave(spans_of_use_items(items@), commas@))),
            forall|i: int| 0 <= i < items.len() ==> (#[trigger] items@[i]).wf(),
        decreases stream.remaining(),
    {
        let ghost before = *stream;
        let comma = stream.advance();
        let ghost mid = *stream;
        let item = parse_use_item(stream)?;
        proof {
            lemma_separated_push_separator(prefix, spans_of_use_items(items@), commas@, comma.span, s0, before, mid);
            lemma_separated_push_item(
                prefix,
                spans_of_use_items(items@),
                commas@.push(comma.span),
                item.span(),
                s0,
                mid,
                *stream,
            );
            assert(spans_of_use_items(items@.push(item)) =~= spans_of_use_items(items@).push(item.span()));
        }
        commas.push(comma.span);
        items.push(item);
    }
    let s = TypedUseItemSequence { use_type, items: TokenSeparatedSequence::new(items, commas) };
    proof {
        assert(prefix + interleave(spans_of_use_items(items@), commas@) =~= s.child_spans());
    }
    Ok(s)
}

#[verifier::spinoff_prover]
#[verifier::rlimit(100)]
/// Parses `function|const Namespace\{Name [as Alias], ... [,]}`.
pub fn parse_typed_use_item_list(stream: &mut TokenStream) -> (r: Result<TypedUseItemList, ParseError>)
    requires
        old(stream).wf(),
    ensures
        final(stream).wf(),
        final(stream).advanced_from(old(stream)),
        r matches Ok(l) ==> l.wf() && final(stream).consumed(old(stream), l.span())
            && (l.use_type is Function <==> old(stream).next_is(TokenKind::Function)),
        r is Ok <==> (is_use_type_kind(old(stream).kind_at(0)) && old(stream).kind_at(1) == Some(TokenKind::Identifier)
            && old(stream).kind_at(2) == Some(TokenKind::NamespaceSeparator)
            && old(stream).kind_at(3) == Some(TokenKind::LeftBrace) && braced_items_end(*old(stream), 4, false) is Some),
        r is Ok ==> final(stream).position == old(stream).position + braced_items_end(*old(stream), 4, false)->Some_0 + 1,
        r matches Ok(l) ==> ((l.items.tokens.len() == l.items.nodes.len() && l.items.nodes.len() > 0)
            <==> old(stream).tokens[final(stream).position - 2].kind == TokenKind::Comma),
{
    let ghost s0 = *stream;
    let use_type = parse_use_type(stream)?;
    let ghost s1 = *stream;
    let namespace = parse_identifier(stream)?;
    let ghost s2 = *stream;
    let namespace_separator = expect_span(stream, TokenKind::NamespaceSeparator)?;
    let ghost s3 = *stream;
    let left_brace = expect_span(stream, TokenKind::LeftBrace)?;
    let ghost prefix = seq![use_type.span(), namespace.span, namespace_separator, left_brace];
    proof {
        lemma_consumed_first(use_type.span(), s0, s1);
        lemma_consumed_step(seq![use_type.span()], namespace.span, s0, s1, s2);
        lemma_consumed_step(seq![use_type.span(), namespace.span], namespace_separator, s0, s2, s3);
        assert(seq![use_type.span()].push(namespace.span) =~= seq![use_type.span(), namespace.span]);
        assert(seq![use_type.span(), namespace.span].push(namespace_separator) =~= seq![
            use_type.span(),
            namespace.span,
            namespace_separator,
        ]);
        lemma_consumed_step(
            seq![use_type.span(), namespace.span, namespace_separator],
            left_brace,
            s0,
            s3,
            *stream,
        );
        assert(seq![use_type.span(), namespace.span, namespace_separator].push(left_brace) =~= prefix);
        assert(prefix + interleave(Seq::<Span>::empty(), Seq::<Span>::empty()) =~= prefix);
    }
    let mut items: Vec<UseItem> = Vec::new();
    let mut commas: Vec<Span> = Vec::new();
    let mut done = false;
    while !done && !stream.is_next(TokenKind::RightBrace)
        invariant
            s0.wf(),
            s0 == *old(stream),
            stream.wf(),
            stream.advanced_from(&s0),
            prefix.len() == 4,
            prefix == seq![use_type.span(), namespace.span, namespace_separator, left_brace],
            stream.position >= s0.position + 4,
            is_use_type_kind(s0.kind_at(0)) && s0.kind_at(1) == Some(TokenKind::Identifier) && s0.kind_at(2) == Some(
                TokenKind::NamespaceSeparator,
            ) && s0.kind_at(3) == Some(TokenKind::LeftBrace),
            !done ==> commas.len() == items.len() && (items.len() > 0 ==> s0.tokens[stream.position - 1].kind == TokenKind::Comma)
                && (items.len() == 0 ==> s0.tokens[stream.position - 1].kind == TokenKind::LeftBrace),
            done ==> s0.tokens[stream.position - 1].kind == TokenKind::Identifier,
            !done ==> braced_items_end(s0, 4, false) == braced_items_end(s0, stream.position - s0.position, false),
            done ==> braced_items_end(s0, 4, false) == (if s0.kind_at(stream.position - s0.position) == Some(
                TokenKind::RightBrace,
            ) {
                Some(stream.position - s0.position)
            } else {
                None
            }),
            done ==> commas.len() + 1 == items.len(),
            !done ==> commas.len() == items.len(),
            in_order(prefix + interleave(spans_of_use_items(items@), commas@)),
            stream.consumed(&s0, outer_span(prefix + interleave(spans_of_use_items(items@), commas@))),
            forall|i: int| 0 <= i < items.len() ==> (#[trigger] items@[i]).wf(),
        decreases stream.remaining(),
    {
        let ghost before = *stream;
        let item = parse_use_item(stream)?;
        let ghost mid = *stream;
        proof {
            lemma_separated_push_item(prefix, spans_of_use_items(items@), commas@, item.span(), s0, before, mid);
            assert(spans_of_use_items(items@.push(item)) =~= spans_of_use_items(items@).push(item.span()));
        }
        items.push(item);
        match stream.maybe_expect(TokenKind::Comma) {
            Some(comma) => {
                proof {
                    lemma_separated_push_separator(
                        prefix,
                        spans_of_use_items(items@),
                        commas@,
                        comma.span,
                        s0,
                        mid,
                        *stream,
                    );
                }
                commas.push(comma.span);
            },
            None => {
                done = true;
            },
        }
    }
    let ghost before_close = *stream;
    let right_brace = expect_span(stream, TokenKind::RightBrace)?;
    let l = TypedUseItemList {
        use_type,
        namespace,
        namespace_separator,
        left_brace,
        items: TokenSeparatedSequence::new(items, commas),
        right_brace,
    };
    proof {
        let body = prefix + interleave(spans_of_use_items(items@), commas@);
        lemma_consumed_step(body, right_brace, s0, before_close, *stream);
        assert(body.push(right_brace) =~= l.child_spans());
    }
    Ok(l)
}

#[verifier::spinoff_prover]
#[verifier::rlimit(100)]
/// Parses `Namespace\{[function|const] Name [as Alias], ... [,]}`.
pub fn parse_mixed_use_item_list(stream: &mut TokenStream) -> (r: Result<MixedUseItemList, ParseError>)
    requires
        old(stream).wf(),
    ensures
        final(stream).wf(),
        final(stream).advanced_from(old(stream)),
        r matches Ok(l) ==> l.wf() && final(stream).consumed(old(stream), l.span()),
        r is Ok <==> (old(stream).kind_at(0) == Some(TokenKind::Identifier) && old(stream).kind_at(1) == Some(
            TokenKind::NamespaceSeparator,
        ) && old(stream).kind_at(2) == Some(TokenKind::LeftBrace) && braced_items_end(*old(stream), 3, true) is Some),
        r is Ok ==> final(stream).position == old(stream).position + braced_items_end(*old(stream), 3, true)->Some_0 + 1,
        r matches Ok(l) ==> ((l.items.tokens.len() == l.items.nodes.len() && l.items.nodes.len() > 0)
            <==> old(stream).tokens[final(stream).position - 2].kind == TokenKind::Comma),
{
    let ghost s0 = *stream;
    let namespace = parse_identifier(stream)?;
    let ghost s1 = *stream;
    let namespace_separator = expect_span(stream, TokenKind::NamespaceSeparator)?;
    let ghost s2 = *stream;
    let left_brace = expect_span(stream, TokenKind::LeftBrace)?;
    let ghost prefix = seq![namespace.span, namespace_separator, left_brace];
    proof {
        lemma_consumed_first(namespace.span, s0, s1);
        lemma_consumed_step(seq![namespace.span], namespace_separator, s0, s1, s2);
        assert(seq![namespace.span].push(namespace_separator) =~= seq![namespace.span, namespace_separator]);
        lemma_consumed_step(seq![namespace.span, namespace_separator], left_brace, s0, s2, *stream);
        assert(seq![namespace.span, namespace_separator].push(left_brace) =~= prefix);
        assert(prefix + interleave(Seq::<Span>::empty(), Seq::<Span>::empty()) =~= prefix);
    }
    let mut items: Vec<MaybeTypedUseItem> = Vec::new();
    let mut commas: Vec<Span> = Vec::new();
    let mut done = false;
    while !done && !stream.is_next(TokenKind::RightBrace)
        invariant
            s0.wf(),
            s0 == *old(stream),
            stream.wf(),
            stream.advanced_from(&s0),
            prefix.len() == 3,
            prefix == seq![namespace.span, namespace_separator, left_brace],
            stream.position >= s0.position + 3,
            s0.kind_at(0) == Some(TokenKind::Identifier) && s0.kind_at(1) == Some(TokenKind::NamespaceSeparator)
                && s0.kind_at(2) == Some(TokenKind::LeftBrace),
            !done ==> commas.len() == items.len() && (items.len() > 0 ==> s0.tokens[stream.position - 1].kind == TokenKind::Comma)
                && (items.len() == 0 ==> s0.tokens[stream.position - 1].kind == TokenKind::LeftBrace),
            done ==> s0.tokens[stream.position - 1].kind == TokenKind::Identifier,
            !done ==> braced_items_end(s0, 3, true) == braced_items_end(s0, stream.position - s0.position, true),
            done ==> braced_items_end(s0, 3, true) == (if s0.kind_at(stream.position - s0.position) == Some(
                TokenKind::RightBrace,
            ) {
                Some(stream.position - s0.position)
            } else {
                None
            }),
            done ==> commas.len() + 1 == items.len(),
            !done ==> commas.len() == items.len(),
            in_order(prefix + interleave(spans_of_maybe_typed_items(items@), commas@)),
            stream.consumed(&s0, outer_span(prefix + interleave(spans_of_maybe_typed_items(items@), commas@))),
            forall|i: int| 0 <= i < items.len() ==> (#[trigger] items@[i]).wf(),
        decreases stream.remaining(),
    {
        let ghost before = *stream;
        let item = parse_maybe_typed_use_item(stream)?;
        let ghost mid = *stream;
        proof {
            lemma_separated_push_item(
                prefix,
                spans_of_maybe_typed_items(items@),
                commas@,
                item.span(),
                s0,
                before,
                mid,
            );
            assert(spans_of_maybe_typed_items(items@.push(item)) =~= spans_of_maybe_typed_items(items@).push(
                item.span(),
            ));
        }
        items.push(item);
        match stream.maybe_expect(TokenKind::Comma) {
            Some(comma) => {
                proof {
                    lemma_separated_push_separator(
                        prefix,
                        spans_of_maybe_typed_items(items@),
                        commas@,
                        comma.span,
                        s0,
                        mid,
                        *stream,
                    );
                }
                commas.push(comma.span);
            },
            None => {
                done = true;
            },
        }
    }
    let ghost before_close = *stream;
    let right_brace = expect_span(stream, TokenKind::RightBrace)?;
    let l = MixedUseItemList {
        namespace,
        namespace_separator,
        left_brace,
        items: TokenSeparatedSequence::new(items, commas),
        right_brace,
    };
    proof {
        let body = prefix + interleave(spans_of_maybe_typed_items(items@), commas@);
        lemma_consumed_step(body, right_brace, s0, before_close, *stream);
        assert(body.push(right_brace) =~= l.child_spans());
    }
    Ok(l)
}

/// Parses the items of a `use` import, in the shape that the next tokens select.
pub fn parse_use_items(stream: &mut TokenStream) -> (r: Result<UseItems, ParseError>)
    requires
        old(stream).wf(),
    ensures
        final(stream).wf(),
        final(stream).advanced_from(old(stream)),
        r matches Ok(items) ==> items.wf() && final(stream).consumed(old(stream), items.span())
            && items.shape() == use_shape(*old(stream)),
        r is Ok <==> use_items_end(*old(stream)) is Some,
        r is Ok ==> final(stream).position == old(stream).position + use_items_end(*old(stream))->Some_0,
{
    let next = stream.peek(crate::stream::one_kind(TokenKind::Identifier))?;
    if next.kind == TokenKind::Const || next.kind == TokenKind::Function {
        match stream.maybe_peek_nth(2) {
            Some(t) if t.kind == TokenKind::NamespaceSeparator => Ok(
                UseItems::TypedList(parse_typed_use_item_list(stream)?),
            ),
            _ => Ok(UseItems::TypedSequence(parse_typed_use_item_sequence(stream)?)),
        }
    } else {
        match stream.maybe_peek_nth(1) {
            Some(t) if t.kind == TokenKind::NamespaceSeparator => Ok(
                UseItems::MixedList(parse_mixed_use_item_list(stream)?),
            ),
            _ => Ok(UseItems::Sequence(parse_use_item_sequence(stream)?)),
        }
    }
}

/// Parses a whole `use` import: the keyword, its items and the terminator.
pub fn parse_use(stream: &mut TokenStream) -> (r: Result<Use, ParseError>)
    requires
        old(stream).wf(),
    ensures
        final(stream).wf(),
        final(stream).advanced_from(old(stream)),
        r matches Ok(u) ==> u.wf() && final(stream).consumed(old(stream), u.span())
            && old(stream).next_is(TokenKind::Use),
        r is Ok <==> (old(stream).next_is(TokenKind::Use) && use_items_end(old(stream).skip(1)) is Some && (old(
            stream,
        ).kind_at(1 + use_items_end(old(stream).skip(1))->Some_0) == Some(TokenKind::Semicolon) || old(
            stream,
        ).kind_at(1 + use_items_end(old(stream).skip(1))->Some_0) == Some(TokenKind::CloseTag))),
        r is Ok <==> use_statement_end(old(stream).tokens@, old(stream).position as int) is Some,
        r is Ok ==> final(stream).position == use_statement_end(old(stream).tokens@, old(stream).position as int)->Some_0,
{
    let ghost s0 = *stream;
    proof {
        lemma_use_items_positions(s0.skip(1));
    }
    let use_keyword = expect_keyword(stream, TokenKind::Use)?;
    let ghost s1 = *stream;
    let items = parse_use_items(stream)?;
    let ghost s2 = *stream;
    let terminator = parse_terminator(stream)?;
    let u = Use { use_keyword, items, terminator };
    proof {
        lemma_consumed_first(use_keyword.span, s0, s1);
        lemma_consumed_step(seq![use_keyword.span], items.span(), s0, s1, s2);
        assert(seq![use_keyword.span].push(items.span()) =~= seq![use_keyword.span, items.span()]);
        lemma_consumed_step(seq![use_keyword.span, items.span()], terminator.span(), s0, s2, *stream);
        assert(seq![use_keyword.span, items.span()].push(terminator.span()) =~= u.child_spans());
    }
    Ok(u)
}

} // verus!
