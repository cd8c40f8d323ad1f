use proc_macro2::{Span, TokenStream};
use variant_enumerator::{
    codegen, decimal, generate_source, generate_variant_iter, Fields, parse, Body, Declaration, ParseError, VariantDecl,
    VariantMetadata, Variants,
};

fn variant(name: &str, fields: usize) -> VariantDecl {
    let fields = if fields == 0 { Fields::Unit } else { Fields::Unnamed(fields) };
    VariantDecl { span: Span::call_site(), ident: name.to_string(), fields }
}

fn named_variant(name: &str, fields: usize) -> VariantDecl {
    VariantDecl { span: Span::call_site(), ident: name.to_string(), fields: Fields::Named(fields) }
}

fn enum_decl(name: &str, variants: Vec<VariantDecl>) -> Declaration {
    Declaration { span: Span::call_site(), ident: name.to_string(), body: Body::Enum(variants) }
}

fn names(v: &Variants) -> Vec<String> {
    v.variant_metadata.iter().map(|m| m.ident.clone()).collect()
}

fn tokens(src: &str) -> String {
    src.parse::<TokenStream>().unwrap().to_string()
}

#[test]
fn grammar_elements_in_declaration_order() {
    let d = enum_decl(
        "GrammarElements",
        vec![variant("Expr", 0), variant("Factor", 0), variant("Term", 0)],
    );
    let v = parse(d).unwrap();
    assert_eq!(v.enum_ident, "GrammarElements");
    assert_eq!(names(&v), vec!["Expr", "Factor", "Term"]);
    assert_eq!(
        v.source_text(),
        "impl GrammarElements { pub fn enumerate_variants() -> \
         std::array::IntoIter<GrammarElements, 3usize> { [GrammarElements::Expr, \
         GrammarElements::Factor, GrammarElements::Term].into_iter() } }"
    );
}

#[test]
fn grammar_elements_tokens() {
    let d = enum_decl(
        "GrammarElements",
        vec![variant("Expr", 0), variant("Factor", 0), variant("Term", 0)],
    );
    let out = generate_variant_iter(d).unwrap();
    assert_eq!(
        out.to_string(),
        tokens(
            "impl GrammarElements { pub fn enumerate_variants() -> \
             std::array::IntoIter<GrammarElements, 3usize> { [GrammarElements::Expr, \
             GrammarElements::Factor, GrammarElements::Term].into_iter() } }"
        )
    );
}

#[test]
fn empty_enum_yields_empty_array() {
    let v = parse(enum_decl("Never", vec![])).unwrap();
    assert!(v.variant_metadata.is_empty());
    assert_eq!(
        v.source_text(),
        "impl Never { pub fn enumerate_variants() -> std::array::IntoIter<Never, 0usize> \
         { [].into_iter() } }"
    );
    assert!(generate_variant_iter(enum_decl("Never", vec![])).is_ok());
}

#[test]
fn single_variant() {
    let v = parse(enum_decl("One", vec![variant("Only", 0)])).unwrap();
    assert_eq!(
        v.source_text(),
        "impl One { pub fn enumerate_variants() -> std::array::IntoIter<One, 1usize> \
         { [One::Only].into_iter() } }"
    );
}

#[test]
fn positional_field_is_refused() {
    let d = enum_decl("Bad", vec![variant("A", 1)]);
    match parse(d) {
        Err(ParseError::VariantHasFields { name, count, .. }) => {
            assert_eq!(name, "A");
            assert_eq!(count, 1);
        }
        other => panic!("unexpected result: {:?}", other),
    }
}

#[test]
fn positional_field_message() {
    let e = parse(enum_decl("Bad", vec![variant("A", 1)])).unwrap_err();
    assert_eq!(e.message(), "variant(A) expects exactly 0 fields, got 1");
    let err = generate_variant_iter(enum_decl("Bad", vec![variant("A", 1)])).unwrap_err();
    assert!(err.to_string().contains("variant(A) expects exactly 0 fields, got 1"));
}

#[test]
fn named_fields_report_their_count() {
    let d = enum_decl(
        "Shape",
        vec![variant("Dot", 0), named_variant("Rect", 2), variant("Line", 0)],
    );
    let e = parse(d).unwrap_err();
    assert_eq!(e.message(), "variant(Rect) expects exactly 0 fields, got 2");
}

#[test]
fn first_variant_with_fields_is_reported() {
    let d = enum_decl("Mixed", vec![variant("A", 0), variant("B", 12), variant("C", 3)]);
    match parse(d) {
        Err(ParseError::VariantHasFields { name, count, .. }) => {
            assert_eq!(name, "B");
            assert_eq!(count, 12);
        }
        other => panic!("unexpected result: {:?}", other),
    }
}

#[test]
fn struct_is_not_an_enum() {
    let d = Declaration { span: Span::call_site(), ident: "Point".to_string(), body: Body::Struct };
    let e = parse(d).unwrap_err();
    assert!(matches!(e, ParseError::NotAnEnum { .. }));
    assert_eq!(e.message(), "derive macro only works on enums");
}

#[test]
fn union_is_not_an_enum() {
    let d = Declaration { span: Span::call_site(), ident: "Bits".to_string(), body: Body::Union };
    let err = generate_variant_iter(d).unwrap_err();
    assert_eq!(err.to_string(), "derive macro only works on enums");
}

#[test]
fn generation_is_repeatable() {
    let make = || enum_decl("Dir", vec![variant("North", 0), variant("South", 0)]);
    let a = parse(make()).unwrap().source_text();
    let b = parse(make()).unwrap().source_text();
    assert_eq!(a, b);
    let ta = generate_variant_iter(make()).unwrap().to_string();
    let tb = generate_variant_iter(make()).unwrap().to_string();
    assert_eq!(ta, tb);
}

#[test]
fn codegen_lexes_the_source() {
    let v = Variants::new(
        Span::call_site(),
        "Dir".to_string(),
        vec![VariantMetadata::new(Span::call_site(), "Up".to_string())],
    );
    let text = v.source_text();
    let out = codegen(v).unwrap();
    assert!(!out.is_empty());
    assert_eq!(out.to_string(), tokens(&text));
}

#[test]
fn codegen_reports_text_that_does_not_lex() {
    let v = Variants::new(Span::call_site(), "\"".to_string(), vec![]);
    assert!(codegen(v).is_err());
}

#[test]
fn decimal_values() {
    assert_eq!(decimal(0), "0");
    assert_eq!(decimal(7), "7");
    assert_eq!(decimal(10), "10");
    assert_eq!(decimal(1234), "1234");
    assert_eq!(decimal(usize::MAX), usize::MAX.to_string());
}

#[test]
fn large_field_count_message() {
    let e = ParseError::VariantHasFields {
        span: Span::call_site(),
        name: "Wide".to_string(),
        count: 305,
    };
    assert_eq!(e.message(), "variant(Wide) expects exactly 0 fields, got 305");
}

#[test]
fn empty_tuple_variant_is_refused() {
    let e = parse(enum_decl("E", vec![variant("A", 0), empty_tuple_variant("B")]))
        .unwrap_err();
    assert_eq!(e.message(), "variant(B) expects exactly 0 fields, got 0");
}

fn empty_tuple_variant(name: &str) -> VariantDecl {
    VariantDecl { span: Span::call_site(), ident: name.to_string(), fields: Fields::Unnamed(0) }
}

#[test]
fn empty_braced_variant_is_refused() {
    let err = generate_variant_iter(enum_decl("E", vec![named_variant("A", 0)])).unwrap_err();
    assert_eq!(err.to_string(), "variant(A) expects exactly 0 fields, got 0");
}

#[test]
fn generate_source_matches_source_text() {
    let src = generate_source(enum_decl("Dir", vec![variant("Up", 0), variant("Down", 0)]))
        .unwrap();
    assert_eq!(
        src,
        "impl Dir { pub fn enumerate_variants() -> std::array::IntoIter<Dir, 2usize> \
         { [Dir::Up, Dir::Down].into_iter() } }"
    );
    let e = generate_source(enum_decl("Bad", vec![variant("A", 1)])).unwrap_err();
    assert_eq!(e.message(), "variant(A) expects exactly 0 fields, got 1");
}

#[test]
fn bad_enum_error_is_the_only_message() {
    let err = generate_variant_iter(enum_decl("Bad", vec![variant("A", 1)])).unwrap_err();
    assert_eq!(err.into_iter().count(), 1);
    let err = generate_variant_iter(enum_decl("Bad", vec![variant("A", 1)])).unwrap_err();
    assert_eq!(err.to_string(), "variant(A) expects exactly 0 fields, got 1");
}

#[test]
fn field_list_lengths() {
    assert_eq!(Fields::Unit.len(), 0);
    assert_eq!(Fields::Unnamed(3).len(), 3);
    assert_eq!(Fields::Named(0).len(), 0);
}
