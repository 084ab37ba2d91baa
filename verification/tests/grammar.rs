use lazing::parse::{parse, ParseError};
use lazing::token::{Delim, Tok};

fn id(s: &str) -> Tok {
    Tok::Ident(s.to_string())
}

fn pa(c: char) -> Tok {
    Tok::Punct(c, false)
}

fn pj(c: char) -> Tok {
    Tok::Punct(c, true)
}

fn lit(s: &str) -> Tok {
    Tok::Lit(s.to_string())
}

fn open(d: Delim) -> Tok {
    Tok::Open(d)
}

fn close(d: Delim) -> Tok {
    Tok::Close(d)
}

#[test]
fn plain_declaration() {
    // static FOO: u32 = 1;
    let item = vec![
        id("static"),
        id("FOO"),
        pa(':'),
        id("u32"),
        pa('='),
        lit("1"),
        pa(';'),
    ];
    let d = parse(&item).unwrap();
    assert!(d.visibility.is_empty());
    assert_eq!(d.name, "FOO");
    assert_eq!(d.ty, vec![id("u32")]);
    assert_eq!(d.init, vec![lit("1")]);
}

#[test]
fn pub_visibility() {
    // pub static A: B = c;
    let item = vec![
        id("pub"),
        id("static"),
        id("A"),
        pa(':'),
        id("B"),
        pa('='),
        id("c"),
        pa(';'),
    ];
    let d = parse(&item).unwrap();
    assert_eq!(d.visibility, vec![id("pub")]);
    assert_eq!(d.name, "A");
}

#[test]
fn pub_crate_visibility() {
    // pub(crate) static A: B = c;
    let item = vec![
        id("pub"),
        open(Delim::Paren),
        id("crate"),
        close(Delim::Paren),
        id("static"),
        id("A"),
        pa(':'),
        id("B"),
        pa('='),
        id("c"),
        pa(';'),
    ];
    let d = parse(&item).unwrap();
    assert_eq!(
        d.visibility,
        vec![id("pub"), open(Delim::Paren), id("crate"), close(Delim::Paren)]
    );
}

#[test]
fn generic_type_with_binding() {
    // static X: Box<dyn Producer<Item = u32>> = f();
    // the `=` inside the angle brackets does not end the type
    let item = vec![
        id("static"),
        id("X"),
        pa(':'),
        id("Box"),
        pa('<'),
        id("dyn"),
        id("Producer"),
        pa('<'),
        id("Item"),
        pa('='),
        id("u32"),
        pj('>'),
        pa('>'),
        pa('='),
        id("f"),
        open(Delim::Paren),
        close(Delim::Paren),
        pa(';'),
    ];
    let d = parse(&item).unwrap();
    assert_eq!(d.ty.len(), 10);
    assert_eq!(d.init, vec![id("f"), open(Delim::Paren), close(Delim::Paren)]);
}

#[test]
fn function_pointer_type() {
    // static F: fn() -> u32 = g;
    // the `>` of the arrow closes no angle bracket
    let item = vec![
        id("static"),
        id("F"),
        pa(':'),
        id("fn"),
        open(Delim::Paren),
        close(Delim::Paren),
        pj('-'),
        pa('>'),
        id("u32"),
        pa('='),
        id("g"),
        pa(';'),
    ];
    let d = parse(&item).unwrap();
    assert_eq!(d.ty.len(), 6);
    assert_eq!(d.init, vec![id("g")]);
}

#[test]
fn block_initializer_keeps_inner_semicolon() {
    // static I: u32 = { let a = 1; a };
    let item = vec![
        id("static"),
        id("I"),
        pa(':'),
        id("u32"),
        pa('='),
        open(Delim::Brace),
        id("let"),
        id("a"),
        pa('='),
        lit("1"),
        pa(';'),
        id("a"),
        close(Delim::Brace),
        pa(';'),
    ];
    let d = parse(&item).unwrap();
    assert_eq!(d.init.len(), 8);
}

#[test]
fn parsed_parts_reassemble_to_the_input() {
    // pub(crate) static P: Vec<u8> = Vec::new();
    let item = vec![
        id("pub"),
        open(Delim::Paren),
        id("crate"),
        close(Delim::Paren),
        id("static"),
        id("P"),
        pa(':'),
        id("Vec"),
        pa('<'),
        id("u8"),
        pa('>'),
        pa('='),
        id("Vec"),
        pj(':'),
        pa(':'),
        id("new"),
        open(Delim::Paren),
        close(Delim::Paren),
        pa(';'),
    ];
    let d = parse(&item).unwrap();
    let mut re = d.visibility.clone();
    re.push(id("static"));
    re.push(Tok::Ident(d.name.clone()));
    re.push(pa(':'));
    re.extend(d.ty.clone());
    re.push(pa('='));
    re.extend(d.init.clone());
    re.push(pa(';'));
    assert_eq!(re, item);
}

#[test]
fn rejects_missing_static() {
    let item = vec![id("fn"), id("main")];
    assert_eq!(parse(&item), Err(ParseError::ExpectedStatic));
}

#[test]
fn rejects_missing_name() {
    let item = vec![id("static"), pa(':')];
    assert_eq!(parse(&item), Err(ParseError::ExpectedName));
}

#[test]
fn rejects_missing_colon() {
    let item = vec![id("static"), id("I"), pa('=')];
    assert_eq!(parse(&item), Err(ParseError::ExpectedColon));
}

#[test]
fn rejects_joint_colon() {
    // static I:: u32 ... — the first colon of a `::` is no separator
    let item = vec![
        id("static"),
        id("I"),
        pj(':'),
        pa(':'),
        id("u32"),
        pa('='),
        lit("1"),
        pa(';'),
    ];
    assert_eq!(parse(&item), Err(ParseError::ExpectedColon));
}

#[test]
fn rejects_empty_type() {
    let item = vec![id("static"), id("I"), pa(':'), pa('='), lit("1"), pa(';')];
    assert_eq!(parse(&item), Err(ParseError::ExpectedType));
}

#[test]
fn rejects_unterminated_type() {
    let item = vec![id("static"), id("I"), pa(':'), id("u32")];
    assert_eq!(parse(&item), Err(ParseError::ExpectedEq));
}

#[test]
fn rejects_empty_initializer() {
    let item = vec![id("static"), id("I"), pa(':'), id("u32"), pa('='), pa(';')];
    assert_eq!(parse(&item), Err(ParseError::ExpectedExpr));
}

#[test]
fn rejects_unterminated_initializer() {
    let item = vec![id("static"), id("I"), pa(':'), id("u32"), pa('='), lit("1")];
    assert_eq!(parse(&item), Err(ParseError::ExpectedSemi));
}

#[test]
fn rejects_trailing_tokens() {
    let item = vec![
        id("static"),
        id("I"),
        pa(':'),
        id("u32"),
        pa('='),
        lit("1"),
        pa(';'),
        id("extra"),
    ];
    assert_eq!(parse(&item), Err(ParseError::TrailingTokens));
}

#[test]
fn rejects_stray_close_in_type() {
    let item = vec![
        id("static"),
        id("I"),
        pa(':'),
        close(Delim::Paren),
        pa('='),
        lit("1"),
        pa(';'),
    ];
    assert_eq!(parse(&item), Err(ParseError::Unbalanced));
}

#[test]
fn rejects_unclosed_visibility_group() {
    let item = vec![id("pub"), open(Delim::Paren), id("crate")];
    assert_eq!(parse(&item), Err(ParseError::Unbalanced));
}

#[test]
fn rejects_stray_angle_close() {
    let item = vec![
        id("static"),
        id("I"),
        pa(':'),
        pa('>'),
        pa('='),
        lit("1"),
        pa(';'),
    ];
    assert_eq!(parse(&item), Err(ParseError::Unbalanced));
}
