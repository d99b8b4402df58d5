use mago_core::ast::declaration::FunctionLikeParameter;
use mago_core::ast::expression::{Argument, Expression};
use mago_core::ast::imports::{UseItems, UseType};
use mago_core::ast::statement::{IfBody, Statement};
use mago_core::error::ParseError;
use mago_core::interner::Interner;
use mago_core::lexer::{tokenize, LexError};
use mago_core::parser::imports::parse_use_items;
use mago_core::parser::statement::{parse_program, Program};
use mago_core::span::Span;
use mago_core::stream::TokenStream;
use mago_core::token::TokenKind;

fn parse(source: &str) -> (Program, Interner) {
    let mut interner = Interner::new();
    let mut stream = tokenize(source, &mut interner).expect("lexes");
    let program = parse_program(&mut stream).expect("parses");
    (program, interner)
}

fn parse_error(source: &str) -> ParseError {
    let mut interner = Interner::new();
    let mut stream = tokenize(source, &mut interner).expect("lexes");
    parse_program(&mut stream).expect_err("fails")
}

fn text(interner: &Interner, id: mago_core::token::SymbolId) -> String {
    interner.lookup(id).to_string()
}

fn second(program: &Program) -> &Statement {
    assert!(matches!(program.statements.nodes[0], Statement::OpeningTag(_)));
    &program.statements.nodes[1]
}

#[test]
fn mixed_use_list_with_typed_items_and_alias() {
    let (program, interner) = parse("<?php use Foo\\{const A, function b, C as D};");
    assert_eq!(program.statements.nodes.len(), 2);
    let Statement::Use(u) = second(&program) else { panic!("not a use") };
    let UseItems::MixedList(list) = &u.items else { panic!("not a mixed list") };
    assert_eq!(text(&interner, list.namespace.value), "Foo");
    let items = &list.items.nodes;
    assert_eq!(items.len(), 3);
    assert!(matches!(items[0].use_type, Some(UseType::Const(_))));
    assert!(matches!(items[1].use_type, Some(UseType::Function(_))));
    assert!(items[2].use_type.is_none());
    assert_eq!(text(&interner, items[0].item.name.value), "A");
    assert_eq!(text(&interner, items[1].item.name.value), "b");
    assert_eq!(text(&interner, items[2].item.name.value), "C");
    assert!(items[0].item.alias.is_none());
    let alias = items[2].item.alias.expect("alias");
    assert_eq!(text(&interner, alias.identifier.value), "D");
    assert_eq!(list.items.tokens.len(), 2);
}

#[test]
fn colon_delimited_if_with_elseif_and_else() {
    let source = "<?php if ($x): echo 1; elseif ($y): echo 2; else: echo 3; endif;";
    let (program, _) = parse(source);
    let Statement::If(i) = second(&program) else { panic!("not an if") };
    let IfBody::ColonDelimited(body) = &i.body else { panic!("not colon-delimited") };
    assert_eq!(body.statements.nodes.len(), 1);
    assert_eq!(body.else_if_clauses.nodes.len(), 1);
    assert_eq!(body.else_if_clauses.nodes[0].statements.nodes.len(), 1);
    let else_clause = body.else_clause.as_ref().expect("else");
    assert_eq!(else_clause.statements.nodes.len(), 1);
    assert_eq!(i.if_keyword.span.start, 6);
    let end = body.terminator.span();
    assert_eq!(end, Span::new(source.len() as u32 - 1, source.len() as u32));
}

#[test]
fn function_parameters_with_hint_variadic_reference_and_default() {
    let (program, interner) = parse("<?php function f(int $a, string ...$b, bool &$c = true) {}");
    let Statement::Function(f) = second(&program) else { panic!("not a function") };
    let params: &Vec<FunctionLikeParameter> = &f.parameter_list.parameters.nodes;
    assert_eq!(params.len(), 3);
    assert_eq!(f.parameter_list.parameters.tokens.len(), 2);

    assert_eq!(text(&interner, params[0].hint.expect("hint").name.value), "int");
    assert_eq!(text(&interner, params[0].variable.name), "$a");
    assert!(!params[0].is_variadic() && !params[0].is_reference());
    assert!(params[0].default_value.is_none());

    assert_eq!(text(&interner, params[1].hint.expect("hint").name.value), "string");
    assert!(params[1].is_variadic() && !params[1].is_reference());
    assert_eq!(text(&interner, params[1].variable.name), "$b");

    assert_eq!(text(&interner, params[2].hint.expect("hint").name.value), "bool");
    assert!(params[2].is_reference() && !params[2].is_variadic());
    assert_eq!(text(&interner, params[2].variable.name), "$c");
    let default = params[2].default_value.as_ref().expect("default");
    let Expression::ConstantAccess(value) = &default.value else { panic!("not a constant") };
    assert_eq!(text(&interner, value.value), "true");
    assert!(!params[2].is_promoted_property());
}

#[test]
fn parameter_span_runs_from_leftmost_part_to_rightmost() {
    let source = "<?php function f(#[A] public int &...$a = 1 {get;}) {}";
    let (program, _) = parse(source);
    let Statement::Function(f) = second(&program) else { panic!("not a function") };
    let p = &f.parameter_list.parameters.nodes[0];
    assert!(p.is_promoted_property());
    assert_eq!(p.attribute_lists.nodes.len(), 1);
    assert_eq!(p.hooks.as_ref().expect("hooks").hooks.nodes.len(), 1);
    let span = p.span();
    assert_eq!(span.start, source.find("#[").unwrap() as u32);
    assert_eq!(span.end, (source.find("})").unwrap() + 1) as u32);

    let (program, _) = parse("<?php function g(&...$b) {}");
    let Statement::Function(g) = second(&program) else { panic!("not a function") };
    let q = &g.parameter_list.parameters.nodes[0];
    assert_eq!(q.span(), Span::new(17, 23));
}

#[test]
fn statement_if_with_elseif_and_else() {
    let (program, _) = parse("<?php if ($a) echo 1; elseif ($b) { echo 2; } else echo 3;");
    let Statement::If(i) = second(&program) else { panic!("not an if") };
    let IfBody::Statement(body) = &i.body else { panic!("not a statement body") };
    assert_eq!(body.else_if_clauses.nodes.len(), 1);
    assert!(body.else_clause.is_some());
}

#[test]
fn spans_nest_and_follow_source_order() {
    let (program, _) = parse("<?php if ($x): echo 1, 2; endif; goto a; a: ;");
    let mut previous_end = 0;
    for statement in &program.statements.nodes {
        let span = statement_span(statement);
        assert!(span.start <= span.end);
        assert!(previous_end <= span.start);
        previous_end = span.end;
    }
    let Statement::If(i) = second(&program) else { panic!("not an if") };
    let IfBody::ColonDelimited(body) = &i.body else { panic!("not colon-delimited") };
    let Statement::Echo(echo) = &body.statements.nodes[0] else { panic!("not an echo") };
    assert!(i.if_keyword.span.end <= i.left_parenthesis.start);
    assert!(i.right_parenthesis.end <= body.colon.start);
    assert!(body.colon.end <= echo.echo.span.start);
    assert!(echo.terminator.span().end <= body.endif.span.start);
    assert_eq!(echo.values.nodes.len(), 2);
    assert_eq!(echo.values.tokens.len(), 1);
}

fn statement_span(s: &Statement) -> Span {
    match s {
        Statement::OpeningTag(span) | Statement::Noop(span) => *span,
        Statement::If(i) => {
            let end = match &i.body {
                IfBody::ColonDelimited(b) => b.terminator.span(),
                IfBody::Statement(_) => panic!("unexpected body"),
            };
            Span::between(i.if_keyword.span, end)
        }
        Statement::Goto(g) => Span::between(g.goto.span, g.terminator.span()),
        Statement::Label(l) => Span::between(l.name.span, l.colon),
        _ => panic!("unexpected statement"),
    }
}

fn use_items_of(source: &str) -> UseItems {
    let mut interner = Interner::new();
    let mut stream: TokenStream = tokenize(source, &mut interner).expect("lexes");
    parse_use_items(&mut stream).expect("parses")
}

#[test]
fn use_shapes_are_told_apart_by_lookahead() {
    assert!(matches!(use_items_of("Foo\\Bar, Baz as B"), UseItems::Sequence(_)));
    assert!(matches!(use_items_of("function foo, bar"), UseItems::TypedSequence(_)));
    assert!(matches!(use_items_of("const Foo\\{A, B,}"), UseItems::TypedList(_)));
    assert!(matches!(use_items_of("Foo\\{A}"), UseItems::MixedList(_)));
}

#[test]
fn typed_list_allows_a_trailing_comma() {
    let UseItems::TypedList(list) = use_items_of("function Foo\\{a, b,}") else { panic!("not a typed list") };
    assert_eq!(list.items.nodes.len(), 2);
    assert_eq!(list.items.tokens.len(), 2);
    assert!(list.items.has_trailing_token());
    let UseItems::Sequence(seq) = use_items_of("A, B, C") else { panic!("not a sequence") };
    assert_eq!(seq.items.nodes.len(), 3);
    assert_eq!(seq.items.tokens.len(), 2);
}

#[test]
fn empty_source_gives_empty_program() {
    let (program, _) = parse("");
    assert!(program.statements.is_empty());
}

#[test]
fn unexpected_end_is_reported() {
    let error = parse_error("<?php if ($x");
    match error {
        ParseError::UnexpectedEnd { expected, span } => {
            assert_eq!(expected, vec![TokenKind::RightParenthesis]);
            assert_eq!(span, Span::new(12, 12));
        }
        other => panic!("unexpected {other:?}"),
    }
}

#[test]
fn unexpected_token_is_reported() {
    let error = parse_error("<?php use const ;");
    match error {
        ParseError::UnexpectedToken { expected, actual, span } => {
            assert_eq!(expected, vec![TokenKind::Identifier]);
            assert_eq!(actual, TokenKind::Semicolon);
            assert_eq!(span, Span::new(16, 17));
        }
        other => panic!("unexpected {other:?}"),
    }
}

#[test]
fn lexer_errors() {
    let mut interner = Interner::new();
    assert_eq!(tokenize("<?php $é;", &mut interner).unwrap_err(), LexError::NotAscii);
    assert_eq!(tokenize("<?php @", &mut interner).unwrap_err(), LexError::UnexpectedCharacter(6));
    assert_eq!(tokenize("<?php 'abc", &mut interner).unwrap_err(), LexError::Unterminated(6));
    assert_eq!(tokenize("<?php /* x", &mut interner).unwrap_err(), LexError::Unterminated(6));
}

#[test]
fn comments_and_whitespace_are_skipped() {
    let (program, _) = parse("<?php // note\n# other\n/* block */ ;");
    assert_eq!(program.statements.nodes.len(), 2);
    assert!(matches!(program.statements.nodes[1], Statement::Noop(_)));
}

#[test]
fn interner_gives_one_id_per_text() {
    let mut interner = Interner::new();
    let a = interner.intern("alpha").unwrap();
    let b = interner.intern("beta").unwrap();
    let again = interner.intern("alpha").unwrap();
    assert_eq!(a, again);
    assert_ne!(a, b);
    assert_eq!(interner.lookup(b), "beta");
    assert_eq!(interner.strings.len(), 2);
}

#[test]
fn span_join_and_between() {
    let a = Span::new(3, 5);
    let b = Span::new(1, 4);
    assert_eq!(a.join(b), Span::new(1, 5));
    assert_eq!(b.join(a), Span::new(1, 5));
    assert_eq!(Span::between(b, a), Span::new(1, 5));
    assert_eq!(Span::between(a, Span::new(7, 9)), Span::new(3, 9));
    assert!(Span::zero_at(4).is_zero_width());
    assert_eq!(a.length(), 2);
}

#[test]
fn call_arguments_are_named_or_positional() {
    let source = "<?php foo($a, ...$b, name: 1, bar(2),);";
    let (program, interner) = parse(source);
    let Statement::Expression(statement) = second(&program) else { panic!("not an expression") };
    let Expression::Call(call) = &statement.expression else { panic!("not a call") };
    assert_eq!(text(&interner, call.function.value), "foo");
    let list = &call.argument_list;
    let args = &list.arguments.nodes;
    assert_eq!(args.len(), 4);
    assert_eq!(list.arguments.tokens.len(), 4);
    assert!(args[0].is_positional() && !args[0].is_unpacked());
    assert!(args[1].is_positional() && args[1].is_unpacked());
    assert!(!args[2].is_positional() && !args[2].is_unpacked());
    let Argument::Named(named) = &args[2] else { panic!("not named") };
    assert_eq!(text(&interner, named.name.value), "name");
    assert!(matches!(args[3].value(), Expression::Call(_)));
    assert_eq!(args[1].span(), Span::new(14, 19));
    assert_eq!(args[2].span(), Span::new(21, 28));
    assert_eq!(list.span(), Span::new(9, 38));
    assert_eq!(statement.expression.span(), Span::new(6, 38));
}

#[test]
fn a_name_without_colon_is_a_positional_argument() {
    let (program, _) = parse("<?php f(x);");
    let Statement::Expression(statement) = second(&program) else { panic!("not an expression") };
    let Expression::Call(call) = &statement.expression else { panic!("not a call") };
    assert!(matches!(call.argument_list.arguments.nodes[0].value(), Expression::ConstantAccess(_)));
    assert!(call.argument_list.arguments.nodes[0].is_positional());
}
