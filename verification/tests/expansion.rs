use lazing::expand::expand;
use lazing::parse::{parse, LazyStatic};
use lazing::token::{Delim, Tok};
use lazing::{lazy, LazyError};

fn id(s: &str) -> Tok {
    Tok::Ident(s.to_string())
}

fn pa(c: char) -> Tok {
    Tok::Punct(c, false)
}

fn lit(s: &str) -> Tok {
    Tok::Lit(s.to_string())
}

fn decl(vis: Vec<Tok>) -> Vec<Tok> {
    let mut item = vis;
    item.extend(vec![
        id("static"),
        id("N"),
        pa(':'),
        id("u8"),
        pa('='),
        lit("7"),
        pa(';'),
    ]);
    item
}

#[test]
fn visibility_is_spliced_after_the_attribute() {
    // the fixed attribute takes the first seven tokens; the visibility,
    // the `struct` keyword and the name follow
    let out = expand(&parse(&decl(vec![id("pub")])).unwrap());
    assert_eq!(out[6], Tok::Close(Delim::Bracket));
    assert_eq!(out[7], id("pub"));
    assert_eq!(out[8], id("struct"));
    assert_eq!(out[9], id("N"));
}

#[test]
fn type_is_spliced_six_times_and_initializer_once() {
    let out = expand(&parse(&decl(Vec::new())).unwrap());
    let tys = out.iter().filter(|t| **t == id("u8")).count();
    assert_eq!(tys, 6);
    let inits = out.iter().filter(|t| **t == lit("7")).count();
    assert_eq!(inits, 1);
}

#[test]
fn expansion_of_a_handmade_declaration() {
    let d = LazyStatic {
        visibility: Vec::new(),
        name: "K".to_string(),
        ty: vec![id("u8")],
        init: vec![lit("1")],
    };
    let out = expand(&d);
    assert_eq!(out[8], id("K"));
    assert!(out.contains(&id("_AssertSync")));
    assert!(out.contains(&id("_AssertSized")));
    assert!(out.contains(&id("call_once")));
}

#[test]
fn attribute_arguments_are_refused() {
    let attr = vec![id("unexpected")];
    let r = lazy(&attr, &decl(Vec::new()));
    assert_eq!(r, Err(LazyError::AttrNotEmpty));
    assert_eq!(
        LazyError::AttrNotEmpty.message(),
        "no parameter should be at here."
    );
}

#[test]
fn parse_errors_pass_through_lazy() {
    let attr: Vec<Tok> = Vec::new();
    let item = vec![id("fn"), id("main")];
    let r = lazy(&attr, &item);
    let e = r.unwrap_err();
    assert!(matches!(e, LazyError::Parse(_)));
    assert_eq!(e.message(), "expected `static`");
}

#[test]
fn expansion_does_not_parse_again() {
    // the replacement begins with the attribute's `#`, not with `static`
    let attr: Vec<Tok> = Vec::new();
    let out = lazy(&attr, &decl(Vec::new())).unwrap();
    let r = parse(&out);
    assert!(r.is_err());
}
