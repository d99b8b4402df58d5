use mago_core::interner::Interner;
use mago_core::lexer::tokenize_type;
use mago_core::type_syntax::{format_type, parse_type, CallableTypeKind, Type};

fn parse(source: &str) -> Type {
    let mut interner = Interner::new();
    let mut stream = tokenize_type(source, &mut interner).expect("lexes");
    parse_type(&mut stream, &interner).expect("parses")
}

#[test]
fn closure_type_with_optional_and_variadic_parameters() {
    let source = "Closure(int, string=, float...): void";
    let t = parse(source);
    let Type::Callable(c) = &t else { panic!("not callable") };
    assert_eq!(c.kind, CallableTypeKind::Closure);
    assert_eq!(c.keyword.value, "Closure");
    let spec = c.specification.as_ref().expect("specification");
    let entries = &spec.parameters.entries;
    assert_eq!(entries.len(), 3);
    assert!(!entries[0].is_optional() && !entries[0].is_variadic());
    assert!(entries[1].is_optional() && !entries[1].is_variadic());
    assert!(entries[2].is_variadic() && !entries[2].is_optional());
    let Type::Named(ret) = &*spec.return_type.as_ref().expect("return type").return_type else { panic!("not named") };
    assert_eq!(ret.value, "void");
    assert_eq!(format_type(&t), source);
}

#[test]
fn formatting_and_parsing_round_trip() {
    for source in [
        "callable",
        "pure-callable(int): string",
        "pure-Closure(callable(int...): bool, Foo\\Bar=)",
        "Closure(): void",
    ] {
        let t = parse(source);
        let text = format_type(&t);
        assert_eq!(text, source);
        let again = parse(&text);
        assert_eq!(format_type(&again), text);
    }
    let t = parse("Closure( int ,string= , )");
    assert_eq!(format_type(&t), "Closure(int, string=)");
    assert_eq!(format_type(&parse(&format_type(&t))), "Closure(int, string=)");
}

#[test]
fn callable_kinds() {
    assert!(CallableTypeKind::PureCallable.is_pure() && !CallableTypeKind::PureCallable.is_closure());
    assert!(CallableTypeKind::PureClosure.is_pure() && CallableTypeKind::PureClosure.is_closure());
    assert!(!CallableTypeKind::Closure.is_pure() && CallableTypeKind::Closure.is_closure());
    assert!(!CallableTypeKind::Callable.is_pure() && !CallableTypeKind::Callable.is_closure());
    let Type::Callable(c) = parse("pure-callable") else { panic!("not callable") };
    assert_eq!(c.kind, CallableTypeKind::PureCallable);
    assert!(c.specification.is_none());
}

#[test]
fn type_spans_join_their_parts() {
    let source = "Closure(int, string=, float...): void";
    let t = parse(source);
    assert_eq!(t.span().start, 0);
    assert_eq!(t.span().end, source.len() as u32);
    let Type::Callable(c) = &t else { panic!("not callable") };
    assert_eq!(c.span(), t.span());
    let spec = c.specification.as_ref().unwrap();
    assert_eq!(spec.parameters.span().start, 7);
    assert_eq!(spec.parameters.span().end, 31);
    let entries = &spec.parameters.entries;
    assert_eq!(entries[0].span().start, 8);
    assert_eq!(entries[0].span().end, 12);
    assert_eq!(entries[1].span().start, 13);
    assert_eq!(entries[1].span().end, 21);
    assert_eq!(entries[2].span().start, 22);
    assert_eq!(entries[2].span().end, 30);
    let ret = spec.return_type.as_ref().unwrap();
    assert_eq!(ret.span().start, 31);
    assert_eq!(ret.span().end, source.len() as u32);
    assert_eq!(spec.span(), mago_core::span::Span::new(7, source.len() as u32));
}
