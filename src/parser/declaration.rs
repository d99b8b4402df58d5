use vstd::prelude::*;

use crate::ast::declaration::{
    attribute_list_spans, constant_item_spans, hint_spans, hook_spans, identifier_spans,
    member_spans, modifier_spans, parameter_spans, AttributeList, Class, ClassLikeConstant,
    ClassLikeConstantItem, ClassLikeMember, Function, FunctionLikeParameter,
    FunctionLikeParameterDefaultValue, FunctionLikeParameterList, Hint, Modifier, ModifierKind,
    PropertyHook, PropertyHookList,
};
use crate::ast::node::{
    in_order, interleave, lemma_interleave_push_item, lemma_interleave_push_separator,
    lemma_parsed_concat, lemma_parsed_empty, lemma_parsed_outer, lemma_parsed_push,
    lemma_parsed_single, outer_span, parsed_spans, Identifier, Sequence, TokenSeparatedSequence,
};
use crate::ast::expression::DirectVariable;
use crate::ast::statement::Statement;
use crate::error::ParseError;
use crate::parser::basic::{
    expect_keyword, expect_span, parse_expression, parse_identifier, parse_local_identifier,
    parse_terminator,
};
use crate::parser::statement::parse_block;
use crate::parser::grammar::{
    attribute_list_end, attribute_lists_end, attributes_end, class_end, class_like_constant_end,
    constant_item_end, constant_items_end, expression_end, follows, function_end, hook_list_end, hooks_end,
    kind_is, members_end, modifiers_end, parameter_end, parameter_list_end, parameters_end, terminator_end,
};
use crate::span::Span;
use crate::stream::TokenStream;
use crate::token::TokenKind;

verus! {

/// The modifier that a token kind stands for, if any.
pub open spec fn modifier_kind_of(k: TokenKind) -> Option<ModifierKind> {
    match k {
        TokenKind::Public => Some(ModifierKind::Public),
        TokenKind::Protected => Some(ModifierKind::Protected),
        TokenKind::Private => Some(ModifierKind::Private),
        TokenKind::Readonly => Some(ModifierKind::Readonly),
        TokenKind::Static => Some(ModifierKind::Static),
        _ => None,
    }
}

#[verifier::spinoff_prover]
#[verifier::rlimit(100)]
/// The modifier that a token kind stands for, if any.
pub fn modifier_kind(k: TokenKind) -> (r: Option<ModifierKind>)
    ensures
        r == modifier_kind_of(k),
{
    match k {
        TokenKind::Public => Some(ModifierKind::Public),
        TokenKind::Protected => Some(ModifierKind::Protected),
        TokenKind::Private => Some(ModifierKind::Private),
        TokenKind::Readonly => Some(ModifierKind::Readonly),
        TokenKind::Static => Some(ModifierKind::Static),
        _ => None,
    }
}

#[verifier::spinoff_prover]
#[verifier::rlimit(100)]
/// Parses the modifiers that come next, if any; never fails.
pub fn parse_modifiers(stream: &mut TokenStream) -> (r: Vec<Modifier>)
    requires
        old(stream).wf(),
    ensures
        final(stream).wf(),
        parsed_spans(*old(stream), *final(stream), modifier_spans(r@)),
        !(final(stream).kind_at(0) matches Some(k) && modifier_kind_of(k) is Some),
        forall|i: int| 0 <= i < r.len() ==> modifier_kind_of(old(stream).tokens[old(stream).position + i].kind)
            == Some((#[trigger] r@[i]).kind),
        final(stream).position == modifiers_end(old(stream).tokens@, old(stream).position as int),
{
    let ghost s0 = *stream;
    let mut modifiers: Vec<Modifier> = Vec::new();
    proof {
        lemma_parsed_empty(s0);
        assert(modifier_spans(modifiers@) =~= Seq::<Span>::empty());
    }
    let mut done = false;
    while !done
        invariant
            s0 == *old(stream),
            s0.wf(),
            stream.wf(),
            parsed_spans(s0, *stream, modifier_spans(modifiers@)),
            stream.position == s0.position + modifiers.len(),
            !done ==> modifiers_end(s0.tokens@, s0.position as int) == modifiers_end(s0.tokens@, stream.position as int),
            done ==> modifiers_end(s0.tokens@, s0.position as int) == stream.position,
            done ==> !(stream.kind_at(0) matches Some(k) && modifier_kind_of(k) is Some),
            forall|i: int| 0 <= i < modifiers.len() ==> modifier_kind_of(s0.tokens[s0.position + i].kind) == Some(
                (#[trigger] modifiers@[i]).kind,
            ),
        decreases stream.remaining() + if done { 0int } else { 1int },
    {
        match stream.maybe_peek() {
            Some(t) => match modifier_kind(t.kind) {
                Some(kind) => {
                    let ghost before = *stream;
                    let t = stream.advance();
                    let m = Modifier { kind, keyword: crate::ast::node::Keyword { span: t.span, value: t.value } };
                    proof {
                        lemma_parsed_push(modifier_spans(modifiers@), t.span, s0, before, *stream);
                        assert(modifier_spans(modifiers@.push(m)) =~= modifier_spans(modifiers@).push(t.span));
                    }
                    modifiers.push(m);
                },
                None => {
                    done = true;
                },
            },
            None => {
                done = true;
            },
        }
    }
    modifiers
}

#[verifier::spinoff_prover]
#[verifier::rlimit(100)]
/// Parses a type hint if a name comes next and another name follows it.
pub fn parse_optional_hint(stream: &mut TokenStream) -> (r: Option<Hint>)
    requires
        old(stream).wf(),
    ensures
        final(stream).wf(),
        parsed_spans(*old(stream), *final(stream), hint_spans(r)),
        r is Some <==> (old(stream).next_is(TokenKind::Identifier) && old(stream).kind_at(1) == Some(TokenKind::Identifier)),
        final(stream).position == old(stream).position + if r is Some { 1int } else { 0int },
{
    let ghost s0 = *stream;
    if stream.is_next(TokenKind::Identifier) {
        match stream.maybe_peek_nth(1) {
            Some(t) if t.kind == TokenKind::Identifier => {
                let t = stream.advance();
                proof {
                    lemma_parsed_single(t.span, s0, *stream);
                }
                return Some(Hint { name: Identifier { span: t.span, value: t.value } });
            },
            _ => {},
        }
    }
    proof {
        lemma_parsed_empty(s0);
    }
    None
}

#[verifier::spinoff_prover]
#[verifier::rlimit(100)]
/// Parses `NAME = value`.
pub fn parse_class_like_constant_item(stream: &mut TokenStream) -> (r: Result<ClassLikeConstantItem, ParseError>)
    requires
        old(stream).wf(),
    ensures
        final(stream).wf(),
        final(stream).advanced_from(old(stream)),
        r matches Ok(i) ==> in_order(i.child_spans()) && i.value.wf() && final(stream).consumed(old(stream), i.span()),
        follows(r is Ok, *old(stream), *final(stream), constant_item_end(old(stream).tokens@, old(stream).position as int)),
{
    let ghost s0 = *stream;
    let name = parse_local_identifier(stream)?;
    let ghost s1 = *stream;
    let equals = expect_span(stream, TokenKind::Equals)?;
    let ghost s2 = *stream;
    let value = parse_expression(stream)?;
    let i = ClassLikeConstantItem { name, equals, value };
    proof {
        lemma_parsed_single(name.span, s0, s1);
        lemma_parsed_push(seq![name.span], equals, s0, s1, s2);
        lemma_parsed_push(seq![name.span].push(equals), value.span(), s0, s2, *stream);
        assert(seq![name.span].push(equals).push(value.span()) =~= i.child_spans());
        lemma_parsed_outer(i.child_spans(), s0, *stream);
    }
    Ok(i)
}

#[verifier::spinoff_prover]
#[verifier::rlimit(100)]
/// Parses `[modifiers] const [hint] NAME = value, ...;`.
pub fn parse_class_like_constant(stream: &mut TokenStream) -> (r: Result<ClassLikeConstant, ParseError>)
    requires
        old(stream).wf(),
    ensures
        final(stream).wf(),
        final(stream).advanced_from(old(stream)),
        r matches Ok(c) ==> c.wf() && final(stream).consumed(old(stream), c.span()),
        follows(r is Ok, *old(stream), *final(stream), class_like_constant_end(old(stream).tokens@, old(stream).position as int)),
{
    let ghost s0 = *stream;
    let modifiers = parse_modifiers(stream);
    let ghost s1 = *stream;
    let const_keyword = expect_keyword(stream, TokenKind::Const)?;
    let ghost s2 = *stream;
    let hint = parse_optional_hint(stream);
    let ghost s3 = *stream;
    let ghost p = modifier_spans(modifiers@) + seq![const_keyword.span] + hint_spans(hint);
    proof {
        lemma_parsed_single(const_keyword.span, s1, s2);
        lemma_parsed_concat(modifier_spans(modifiers@), seq![const_keyword.span], s0, s1, s2);
        lemma_parsed_concat(modifier_spans(modifiers@) + seq![const_keyword.span], hint_spans(hint), s0, s2, s3);
    }
    proof {
        assert(class_like_constant_end(s0.tokens@, s0.position as int) == match constant_items_end(s0.tokens@, s3.position as int) {
            Some(e) => terminator_end(s0.tokens@, e),
            None => None,
        });
    }
    let mut items: Vec<ClassLikeConstantItem> = Vec::new();
    let mut commas: Vec<Span> = Vec::new();
    let first = parse_class_like_constant_item(stream)?;
    proof {
        lemma_parsed_push(p, first.span(), s0, s3, *stream);
        lemma_interleave_push_item(Seq::<Span>::empty(), Seq::<Span>::empty(), first.span());
        assert(constant_item_spans(items@.push(first)) =~= Seq::<Span>::empty().push(first.span()));
        assert(p + interleave(Seq::<Span>::empty(), Seq::<Span>::empty()).push(first.span()) =~= p.push(first.span()));
    }
    items.push(first);
    while stream.is_next(TokenKind::Comma)
        invariant
            s0 == *old(stream),
            s0.wf(),
            stream.wf(),
            stream.advanced_from(&s0),
            items.len() > 0,
            commas.len() + 1 == items.len(),
            parsed_spans(s0, *stream, p + interleave(constant_item_spans(items@), commas@)),
            forall|k: int| 0 <= k < items.len() ==> in_order((#[trigger] items@[k]).child_spans()),
            forall|k: int| 0 <= k < items.len() ==> (#[trigger] items@[k]).value.wf(),
            constant_items_end(s0.tokens@, s3.position as int) == (if kind_is(s0.tokens@, stream.position as int, TokenKind::Comma) {
                constant_items_end(s0.tokens@, stream.position + 1)
            } else {
                Some(stream.position as int)
            }),
            s3.position < stream.position,
            class_like_constant_end(s0.tokens@, s0.position as int) == match constant_items_end(s0.tokens@, s3.position as int) {
                Some(e) => terminator_end(s0.tokens@, e),
                None => None,
            },
        decreases stream.remaining(),
    {
        let ghost before = *stream;
        let comma = stream.advance();
        let ghost mid = *stream;
        let item = parse_class_like_constant_item(stream)?;
        proof {
            let a = constant_item_spans(items@);
            lemma_parsed_push(p + interleave(a, commas@), comma.span, s0, before, mid);
            lemma_interleave_push_separator(a, commas@, comma.span);
            assert((p + interleave(a, commas@)).push(comma.span) =~= p + interleave(a, commas@.push(comma.span)));
            lemma_parsed_push(p + interleave(a, commas@.push(comma.span)), item.span(), s0, mid, *stream);
            lemma_interleave_push_item(a, commas@.push(comma.span), item.span());
            assert((p + interleave(a, commas@.push(comma.span))).push(item.span()) =~= p + interleave(
                a.push(item.span()),
                commas@.push(comma.span),
            ));
            assert(constant_item_spans(items@.push(item)) =~= a.push(item.span()));
        }
        commas.push(comma.span);
        items.push(item);
    }
    let ghost s4 = *stream;
    let terminator = parse_terminator(stream)?;
    let c = ClassLikeConstant {
        modifiers: Sequence::new(modifiers),
        const_keyword,
        hint,
        items: TokenSeparatedSequence::new(items, commas),
        terminator,
    };
    proof {
        let body = p + interleave(constant_item_spans(items@), commas@);
        lemma_parsed_push(body, terminator.span(), s0, s4, *stream);
        assert(body.push(terminator.span()) =~= c.child_spans());
        lemma_parsed_outer(c.child_spans(), s0, *stream);
    }
    Ok(c)
}

#[verifier::spinoff_prover]
#[verifier::rlimit(100)]
/// Parses `class Name { constants }`.
pub fn parse_class(stream: &mut TokenStream) -> (r: Result<Class, ParseError>)
    requires
        old(stream).wf(),
    ensures
        final(stream).wf(),
        final(stream).advanced_from(old(stream)),
        r matches Ok(c) ==> c.wf() && final(stream).consumed(old(stream), c.span()),
        !old(stream).next_is(TokenKind::Class) ==> r is Err,
        follows(r is Ok, *old(stream), *final(stream), class_end(old(stream).tokens@, old(stream).position as int)),
{
    let ghost s0 = *stream;
    let class_keyword = expect_keyword(stream, TokenKind::Class)?;
    let ghost s1 = *stream;
    let name = parse_local_identifier(stream)?;
    let ghost s2 = *stream;
    let left_brace = expect_span(stream, TokenKind::LeftBrace)?;
    let ghost s3 = *stream;
    let ghost p = seq![class_keyword.span, name.span, left_brace];
    proof {
        lemma_parsed_single(class_keyword.span, s0, s1);
        lemma_parsed_push(seq![class_keyword.span], name.span, s0, s1, s2);
        lemma_parsed_push(seq![class_keyword.span].push(name.span), left_brace, s0, s2, s3);
        assert(seq![class_keyword.span].push(name.span).push(left_brace) =~= p);
    }
    let mut members: Vec<ClassLikeMember> = Vec::new();
    proof {
        assert(p + member_spans(members@) =~= p);
    }
    while !stream.is_next(TokenKind::RightBrace)
        invariant
            s0 == *old(stream),
            s0.wf(),
            stream.wf(),
            stream.advanced_from(&s0),
            parsed_spans(s0, *stream, p + member_spans(members@)),
            forall|k: int| 0 <= k < members.len() ==> (#[trigger] members@[k]).wf(),
            members_end(s0.tokens@, s0.position + 3) == members_end(s0.tokens@, stream.position as int),
        decreases stream.remaining(),
    {
        let ghost before = *stream;
        let constant = parse_class_like_constant(stream)?;
        let m = ClassLikeMember::Constant(constant);
        proof {
            lemma_parsed_push(p + member_spans(members@), m.span(), s0, before, *stream);
            assert((p + member_spans(members@)).push(m.span()) =~= p + member_spans(members@.push(m)));
        }
        members.push(m);
    }
    let ghost s4 = *stream;
    let right_brace = expect_span(stream, TokenKind::RightBrace)?;
    let c = Class { class_keyword, name, left_brace, members: Sequence::new(members), right_brace };
    proof {
        lemma_parsed_push(p + member_spans(members@), right_brace, s0, s4, *stream);
        assert((p + member_spans(members@)).push(right_brace) =~= c.child_spans());
        lemma_parsed_outer(c.child_spans(), s0, *stream);
    }
    Ok(c)
}

#[verifier::spinoff_prover]
#[verifier::rlimit(100)]
/// Parses `#[Name, ...]`.
pub fn parse_attribute_list(stream: &mut TokenStream) -> (r: Result<AttributeList, ParseError>)
    requires
        old(stream).wf(),
    ensures
        final(stream).wf(),
        final(stream).advanced_from(old(stream)),
        r matches Ok(a) ==> a.wf() && final(stream).consumed(old(stream), a.span()),
        !old(stream).next_is(TokenKind::HashLeftBracket) ==> r is Err,
        follows(r is Ok, *old(stream), *final(stream), attribute_list_end(old(stream).tokens@, old(stream).position as int)),
{
    let ghost s0 = *stream;
    let hash_left_bracket = expect_span(stream, TokenKind::HashLeftBracket)?;
    let ghost p = seq![hash_left_bracket];
    proof {
        lemma_parsed_single(hash_left_bracket, s0, *stream);
        assert(p + interleave(Seq::<Span>::empty(), Seq::<Span>::empty()) =~= p);
    }
    let mut attributes: Vec<Identifier> = Vec::new();
    let mut commas: Vec<Span> = Vec::new();
    proof {
        assert(identifier_spans(attributes@) =~= Seq::<Span>::empty());
    }
    let mut done = false;
    while !done && !stream.is_next(TokenKind::RightBracket)
        invariant
            s0 == *old(stream),
            s0.wf(),
            stream.wf(),
            stream.advanced_from(&s0),
            done ==> commas.len() + 1 == attributes.len(),
            !done ==> commas.len() == attributes.len(),
            parsed_spans(s0, *stream, p + interleave(identifier_spans(attributes@), commas@)),
            !done ==> attributes_end(s0.tokens@, s0.position + 1) == attributes_end(s0.tokens@, stream.position as int),
            done ==> attributes_end(s0.tokens@, s0.position + 1) == (if kind_is(s0.tokens@, stream.position as int, TokenKind::RightBracket) {
                Some(stream.position + 1)
            } else {
                None
            }),
        decreases stream.remaining(),
    {
        let ghost before = *stream;
        let attribute = parse_identifier(stream)?;
        let ghost mid = *stream;
        proof {
            let a = identifier_spans(attributes@);
            lemma_parsed_push(p + interleave(a, commas@), attribute.span, s0, before, mid);
            lemma_interleave_push_item(a, commas@, attribute.span);
            assert((p + interleave(a, commas@)).push(attribute.span) =~= p + interleave(a.push(attribute.span), commas@));
            assert(identifier_spans(attributes@.push(attribute)) =~= a.push(attribute.span));
        }
        attributes.push(attribute);
        match stream.maybe_expect(TokenKind::Comma) {
            Some(comma) => {
                proof {
                    let a = identifier_spans(attributes@);
                    lemma_parsed_push(p + interleave(a, commas@), comma.span, s0, mid, *stream);
                    lemma_interleave_push_separator(a, commas@, comma.span);
                    assert((p + interleave(a, commas@)).push(comma.span) =~= p + interleave(a, commas@.push(comma.span)));
                }
                commas.push(comma.span);
            },
            None => {
                done = true;
            },
        }
    }
    let ghost s1 = *stream;
    let right_bracket = expect_span(stream, TokenKind::RightBracket)?;
    let a = AttributeList { hash_left_bracket, attributes: TokenSeparatedSequence::new(attributes, commas), right_bracket };
    proof {
        let body = p + interleave(identifier_spans(attributes@), commas@);
        lemma_parsed_push(body, right_bracket, s0, s1, *stream);
        assert(body.push(right_bracket) =~= a.child_spans());
        lemma_parsed_outer(a.child_spans(), s0, *stream);
    }
    Ok(a)
}

#[verifier::spinoff_prover]
#[verifier::rlimit(100)]
/// Parses `{ name; ... }`.
pub fn parse_property_hook_list(stream: &mut TokenStream) -> (r: Result<PropertyHookList, ParseError>)
    requires
        old(stream).wf(),
    ensures
        final(stream).wf(),
        final(stream).advanced_from(old(stream)),
        r matches Ok(h) ==> h.wf() && final(stream).consumed(old(stream), h.span()),
        !old(stream).next_is(TokenKind::LeftBrace) ==> r is Err,
        follows(r is Ok, *old(stream), *final(stream), hook_list_end(old(stream).tokens@, old(stream).position as int)),
{
    let ghost s0 = *stream;
    let left_brace = expect_span(stream, TokenKind::LeftBrace)?;
    let ghost p = seq![left_brace];
    let mut hooks: Vec<PropertyHook> = Vec::new();
    proof {
        lemma_parsed_single(left_brace, s0, *stream);
        assert(p + hook_spans(hooks@) =~= p);
    }
    while !stream.is_next(TokenKind::RightBrace)
        invariant
            s0 == *old(stream),
            s0.wf(),
            stream.wf(),
            stream.advanced_from(&s0),
            parsed_spans(s0, *stream, p + hook_spans(hooks@)),
            forall|k: int| 0 <= k < hooks.len() ==> in_order((#[trigger] hooks@[k]).child_spans()),
            hooks_end(s0.tokens@, s0.position + 1) == hooks_end(s0.tokens@, stream.position as int),
        decreases stream.remaining(),
    {
        let ghost before = *stream;
        let name = parse_local_identifier(stream)?;
        let ghost mid = *stream;
        let terminator = parse_terminator(stream)?;
        let hook = PropertyHook { name, terminator };
        proof {
            lemma_parsed_single(name.span, before, mid);
            lemma_parsed_push(seq![name.span], terminator.span(), before, mid, *stream);
            assert(seq![name.span].push(terminator.span()) =~= hook.child_spans());
            lemma_parsed_outer(hook.child_spans(), before, *stream);
            lemma_parsed_push(p + hook_spans(hooks@), hook.span(), s0, before, *stream);
            assert((p + hook_spans(hooks@)).push(hook.span()) =~= p + hook_spans(hooks@.push(hook)));
        }
        hooks.push(hook);
    }
    let ghost s1 = *stream;
    let right_brace = expect_span(stream, TokenKind::RightBrace)?;
    let h = PropertyHookList { left_brace, hooks: Sequence::new(hooks), right_brace };
    proof {
        lemma_parsed_push(p + hook_spans(hooks@), right_brace, s0, s1, *stream);
        assert((p + hook_spans(hooks@)).push(right_brace) =~= h.child_spans());
        lemma_parsed_outer(h.child_spans(), s0, *stream);
    }
    Ok(h)
}

/// Eight parsed sequences, one after another, make one.
proof fn lemma_parsed_eight(
    a: Seq<Span>,
    m: Seq<Span>,
    h: Seq<Span>,
    amp: Seq<Span>,
    e: Seq<Span>,
    v: Seq<Span>,
    d: Seq<Span>,
    k: Seq<Span>,
    s0: TokenStream,
    s1: TokenStream,
    s2: TokenStream,
    s3: TokenStream,
    s4: TokenStream,
    s5: TokenStream,
    s6: TokenStream,
    s7: TokenStream,
    s8: TokenStream,
)
    requires
        s0.wf(),
        parsed_spans(s0, s1, a),
        parsed_spans(s1, s2, m),
        parsed_spans(s2, s3, h),
        parsed_spans(s3, s4, amp),
        parsed_spans(s4, s5, e),
        parsed_spans(s5, s6, v),
        parsed_spans(s6, s7, d),
        parsed_spans(s7, s8, k),
    ensures
        parsed_spans(s0, s8, a + m + h + amp + e + v + d + k),
{
    lemma_parsed_concat(a, m, s0, s1, s2);
    lemma_parsed_concat(a + m, h, s0, s2, s3);
    lemma_parsed_concat(a + m + h, amp, s0, s3, s4);
    lemma_parsed_concat(a + m + h + amp, e, s0, s4, s5);
    lemma_parsed_concat(a + m + h + amp + e, v, s0, s5, s6);
    lemma_parsed_concat(a + m + h + amp + e + v, d, s0, s6, s7);
    lemma_parsed_concat(a + m + h + amp + e + v + d, k, s0, s7, s8);
}

#[verifier::spinoff_prover]
#[verifier::rlimit(100)]
/// Parses the attribute lists that come next.
pub fn parse_attribute_lists(stream: &mut TokenStream) -> (r: Result<Vec<AttributeList>, ParseError>)
    requires
        old(stream).wf(),
    ensures
        final(stream).wf(),
        final(stream).advanced_from(old(stream)),
        r matches Ok(v) ==> parsed_spans(*old(stream), *final(stream), attribute_list_spans(v@)) && (forall|k: int|
            0 <= k < v.len() ==> (#[trigger] v@[k]).wf()),
        follows(r is Ok, *old(stream), *final(stream), attribute_lists_end(old(stream).tokens@, old(stream).position as int)),
{
    let ghost s0 = *stream;
    let mut attribute_lists: Vec<AttributeList> = Vec::new();
    proof {
        lemma_parsed_empty(s0);
        assert(attribute_list_spans(attribute_lists@) =~= Seq::<Span>::empty());
    }
    while stream.is_next(TokenKind::HashLeftBracket)
        invariant
            s0 == *old(stream),
            s0.wf(),
            stream.wf(),
            stream.advanced_from(&s0),
            parsed_spans(s0, *stream, attribute_list_spans(attribute_lists@)),
            forall|k: int| 0 <= k < attribute_lists.len() ==> (#[trigger] attribute_lists@[k]).wf(),
            attribute_lists_end(s0.tokens@, s0.position as int) == attribute_lists_end(s0.tokens@, stream.position as int),
        decreases stream.remaining(),
    {
        let ghost before = *stream;
        let list = parse_attribute_list(stream)?;
        proof {
            lemma_parsed_push(attribute_list_spans(attribute_lists@), list.span(), s0, before, *stream);
            assert(attribute_list_spans(attribute_lists@).push(list.span()) =~= attribute_list_spans(
                attribute_lists@.push(list),
            ));
        }
        attribute_lists.push(list);
    }
    Ok(attribute_lists)
}

#[verifier::spinoff_prover]
#[verifier::rlimit(100)]
/// Consumes a token of kind `kind` if it comes next, and gives its span.
pub fn parse_optional_span(stream: &mut TokenStream, kind: TokenKind) -> (r: Option<Span>)
    requires
        old(stream).wf(),
    ensures
        final(stream).wf(),
        parsed_spans(*old(stream), *final(stream), crate::ast::declaration::optional_span(r)),
        r is Some <==> old(stream).next_is(kind),
        final(stream).position == old(stream).position + if r is Some { 1int } else { 0int },
        r matches Some(x) ==> x == old(stream).tokens[old(stream).position as int].span,
{
    let ghost s0 = *stream;
    match stream.maybe_expect(kind) {
        Some(t) => {
            proof {
                lemma_parsed_single(t.span, s0, *stream);
            }
            Some(t.span)
        },
        None => {
            proof {
                lemma_parsed_empty(s0);
            }
            None
        },
    }
}

#[verifier::spinoff_prover]
#[verifier::rlimit(100)]
/// Parses the hint of a parameter: a name, if one comes next.
pub fn parse_optional_parameter_hint(stream: &mut TokenStream) -> (r: Option<Hint>)
    requires
        old(stream).wf(),
    ensures
        final(stream).wf(),
        parsed_spans(*old(stream), *final(stream), hint_spans(r)),
        r is Some <==> old(stream).next_is(TokenKind::Identifier),
        final(stream).position == old(stream).position + if r is Some { 1int } else { 0int },
        r matches Some(h) ==> h.name.span == old(stream).tokens[old(stream).position as int].span
            && h.name.value == old(stream).tokens[old(stream).position as int].value,
{
    let ghost s0 = *stream;
    if stream.is_next(TokenKind::Identifier) {
        let t = stream.advance();
        proof {
            lemma_parsed_single(t.span, s0, *stream);
        }
        Some(Hint { name: Identifier { span: t.span, value: t.value } })
    } else {
        proof {
            lemma_parsed_empty(s0);
        }
        None
    }
}

#[verifier::spinoff_prover]
#[verifier::rlimit(100)]
/// Parses `= value` if `=` comes next.
pub fn parse_optional_default_value(stream: &mut TokenStream) -> (r: Result<Option<FunctionLikeParameterDefaultValue>, ParseError>)
    requires
        old(stream).wf(),
    ensures
        final(stream).wf(),
        final(stream).advanced_from(old(stream)),
        r matches Ok(d) ==> parsed_spans(*old(stream), *final(stream), crate::ast::declaration::default_value_spans(d))
            && (d is Some <==> old(stream).next_is(TokenKind::Equals))
            && (d matches Some(x) ==> in_order(x.child_spans()) && x.value.wf()),
        follows(r is Ok, *old(stream), *final(stream), if old(stream).next_is(TokenKind::Equals) {
            expression_end(old(stream).tokens@, old(stream).position + 1)
        } else {
            Some(old(stream).position as int)
        }),
{
    let ghost s0 = *stream;
    if stream.is_next(TokenKind::Equals) {
        let equals = stream.advance();
        let ghost m = *stream;
        let value = parse_expression(stream)?;
        let d = FunctionLikeParameterDefaultValue { equals: equals.span, value };
        proof {
            lemma_parsed_single(equals.span, s0, m);
            lemma_parsed_push(seq![equals.span], value.span(), s0, m, *stream);
            assert(seq![equals.span].push(value.span()) =~= d.child_spans());
            lemma_parsed_outer(d.child_spans(), s0, *stream);
            lemma_parsed_single(d.span(), s0, *stream);
        }
        Ok(Some(d))
    } else {
        proof {
            lemma_parsed_empty(s0);
        }
        Ok(None)
    }
}

#[verifier::spinoff_prover]
#[verifier::rlimit(100)]
/// Parses property hooks if `{` comes next.
pub fn parse_optional_property_hook_list(stream: &mut TokenStream) -> (r: Result<Option<PropertyHookList>, ParseError>)
    requires
        old(stream).wf(),
    ensures
        final(stream).wf(),
        final(stream).advanced_from(old(stream)),
        r matches Ok(h) ==> parsed_spans(*old(stream), *final(stream), crate::ast::declaration::hooks_spans(h))
            && (h is Some <==> old(stream).next_is(TokenKind::LeftBrace)) && (h matches Some(x) ==> x.wf()),
        follows(r is Ok, *old(stream), *final(stream), if old(stream).next_is(TokenKind::LeftBrace) {
            hook_list_end(old(stream).tokens@, old(stream).position as int)
        } else {
            Some(old(stream).position as int)
        }),
{
    let ghost s0 = *stream;
    if stream.is_next(TokenKind::LeftBrace) {
        let h = parse_property_hook_list(stream)?;
        proof {
            lemma_parsed_single(h.span(), s0, *stream);
        }
        Ok(Some(h))
    } else {
        proof {
            lemma_parsed_empty(s0);
        }
        Ok(None)
    }
}

#[verifier::spinoff_prover]
#[verifier::rlimit(100)]
/// Parses a parameter: attributes, modifiers, a hint, `&`, `...`, the variable,
/// a default value and hooks, each but the variable optional.
pub fn parse_function_like_parameter(stream: &mut TokenStream) -> (r: Result<FunctionLikeParameter, ParseError>)
    requires
        old(stream).wf(),
    ensures
        final(stream).wf(),
        final(stream).advanced_from(old(stream)),
        r matches Ok(p) ==> p.wf() && final(stream).consumed(old(stream), p.span()),
        follows(r is Ok, *old(stream), *final(stream), parameter_end(old(stream).tokens@, old(stream).position as int)),
{
    let ghost s0 = *stream;
    let attribute_lists = parse_attribute_lists(stream)?;
    let ghost s1 = *stream;
    let modifiers = parse_modifiers(stream);
    let ghost s2 = *stream;
    let hint = parse_optional_parameter_hint(stream);
    let ghost s3 = *stream;
    let ampersand = parse_optional_span(stream, TokenKind::Ampersand);
    let ghost s4 = *stream;
    let ellipsis = parse_optional_span(stream, TokenKind::Ellipsis);
    let ghost s5 = *stream;
    let variable_token = stream.expect(TokenKind::Variable)?;
    let variable = DirectVariable { span: variable_token.span, name: variable_token.value };
    let ghost s6 = *stream;
    let default_value = parse_optional_default_value(stream)?;
    let ghost s7 = *stream;
    let hooks = parse_optional_property_hook_list(stream)?;
    let p = FunctionLikeParameter {
        attribute_lists: Sequence::new(attribute_lists),
        modifiers: Sequence::new(modifiers),
        hint,
        ampersand,
        ellipsis,
        variable,
        default_value,
        hooks,
    };
    proof {
        assert(p.wf() && stream.consumed(&s0, p.span())) by {
            let a = attribute_list_spans(attribute_lists@);
            let m = modifier_spans(modifiers@);
            let h = hint_spans(hint);
            let amp = crate::ast::declaration::optional_span(ampersand);
            let e = crate::ast::declaration::optional_span(ellipsis);
            let v = seq![variable.span];
            let d = crate::ast::declaration::default_value_spans(default_value);
            let k = crate::ast::declaration::hooks_spans(hooks);
            lemma_parsed_single(variable.span, s5, s6);
            lemma_parsed_eight(a, m, h, amp, e, v, d, k, s0, s1, s2, s3, s4, s5, s6, s7, *stream);
            assert(a + m + h + amp + e + v + d + k =~= p.child_spans());
            p.lemma_span_is_outer();
            lemma_parsed_outer(p.child_spans(), s0, *stream);
        }
    }
    Ok(p)
}

#[verifier::spinoff_prover]
#[verifier::rlimit(100)]
/// Parses `(parameter, ... [,])`.
pub fn parse_function_like_parameter_list(stream: &mut TokenStream) -> (r: Result<FunctionLikeParameterList, ParseError>)
    requires
        old(stream).wf(),
    ensures
        final(stream).wf(),
        final(stream).advanced_from(old(stream)),
        r matches Ok(l) ==> l.wf() && final(stream).consumed(old(stream), l.span()),
        !old(stream).next_is(TokenKind::LeftParenthesis) ==> r is Err,
        follows(r is Ok, *old(stream), *final(stream), parameter_list_end(old(stream).tokens@, old(stream).position as int)),
{
    let ghost s0 = *stream;
    let left_parenthesis = expect_span(stream, TokenKind::LeftParenthesis)?;
    let ghost p = seq![left_parenthesis];
    proof {
        lemma_parsed_single(left_parenthesis, s0, *stream);
        assert(p + interleave(Seq::<Span>::empty(), Seq::<Span>::empty()) =~= p);
    }
    let mut parameters: Vec<FunctionLikeParameter> = Vec::new();
    let mut commas: Vec<Span> = Vec::new();
    proof {
        assert(parameter_spans(parameters@) =~= Seq::<Span>::empty());
    }
    let mut done = false;
    while !done && !stream.is_next(TokenKind::RightParenthesis)
        invariant
            s0 == *old(stream),
            s0.wf(),
            stream.wf(),
            stream.advanced_from(&s0),
            done ==> commas.len() + 1 == parameters.len(),
            !done ==> commas.len() == parameters.len(),
            parsed_spans(s0, *stream, p + interleave(parameter_spans(parameters@), commas@)),
            forall|k: int| 0 <= k < parameters.len() ==> (#[trigger] parameters@[k]).wf(),
            stream.position > s0.position,
            !done ==> parameters_end(s0.tokens@, s0.position + 1) == parameters_end(s0.tokens@, stream.position as int),
            done ==> parameters_end(s0.tokens@, s0.position + 1) == (if kind_is(s0.tokens@, stream.position as int, TokenKind::RightParenthesis) {
                Some(stream.position + 1)
            } else {
                None
            }),
        decreases stream.remaining(),
    {
        let ghost before = *stream;
        let parameter = parse_function_like_parameter(stream)?;
        let ghost mid = *stream;
        proof {
            let a = parameter_spans(parameters@);
            lemma_parsed_push(p + interleave(a, commas@), parameter.span(), s0, before, mid);
            lemma_interleave_push_item(a, commas@, parameter.span());
            assert((p + interleave(a, commas@)).push(parameter.span()) =~= p + interleave(
                a.push(parameter.span()),
                commas@,
            ));
            assert(parameter_spans(parameters@.push(parameter)) =~= a.push(parameter.span()));
        }
        parameters.push(parameter);
        match stream.maybe_expect(TokenKind::Comma) {
            Some(comma) => {
                proof {
                    let a = parameter_spans(parameters@);
                    lemma_parsed_push(p + interleave(a, commas@), comma.span, s0, mid, *stream);
                    lemma_interleave_push_separator(a, commas@, comma.span);
                    assert((p + interleave(a, commas@)).push(comma.span) =~= p + interleave(a, commas@.push(comma.span)));
                }
                commas.push(comma.span);
            },
            None => {
                done = true;
            },
        }
    }
    let ghost s1 = *stream;
    let right_parenthesis = expect_span(stream, TokenKind::RightParenthesis)?;
    let l = FunctionLikeParameterList {
        left_parenthesis,
        parameters: TokenSeparatedSequence::new(parameters, commas),
        right_parenthesis,
    };
    proof {
        let body = p + interleave(parameter_spans(parameters@), commas@);
        lemma_parsed_push(body, right_parenthesis, s0, s1, *stream);
        assert(body.push(right_parenthesis) =~= l.child_spans());
        lemma_parsed_outer(l.child_spans(), s0, *stream);
    }
    Ok(l)
}

#[verifier::spinoff_prover]
#[verifier::rlimit(100)]
/// Parses `function name(parameters) { body }`.
pub fn parse_function(stream: &mut TokenStream) -> (r: Result<Function, ParseError>)
    requires
        old(stream).wf(),
    ensures
        final(stream).wf(),
        final(stream).advanced_from(old(stream)),
        r matches Ok(f) ==> Statement::Function(f).wf() && final(stream).consumed(old(stream), f.span()),
        !old(stream).next_is(TokenKind::Function) ==> r is Err,
        follows(r is Ok, *old(stream), *final(stream), function_end(old(stream).tokens@, old(stream).position as int)),
    decreases old(stream).remaining(), 0nat,
{
    let ghost s0 = *stream;
    let function_keyword = expect_keyword(stream, TokenKind::Function)?;
    let ghost s1 = *stream;
    let name = parse_local_identifier(stream)?;
    let ghost s2 = *stream;
    let parameter_list = parse_function_like_parameter_list(stream)?;
    let ghost s3 = *stream;
    let body = parse_block(stream)?;
    let f = Function { function_keyword, name, parameter_list, body };
    proof {
        let p = seq![function_keyword.span, name.span, parameter_list.span()];
        lemma_parsed_single(function_keyword.span, s0, s1);
        lemma_parsed_push(seq![function_keyword.span], name.span, s0, s1, s2);
        lemma_parsed_push(seq![function_keyword.span].push(name.span), parameter_list.span(), s0, s2, s3);
        assert(seq![function_keyword.span].push(name.span).push(parameter_list.span()) =~= p);
        lemma_parsed_outer(body.child_spans(), s3, *stream);
        crate::ast::node::lemma_parsed_concat(p, body.child_spans(), s0, s3, *stream);
        lemma_parsed_outer(f.child_spans(), s0, *stream);
    }
    Ok(f)
}

} // verus!
