use lazing::lazy;
use lazing::token::{Delim, Tok};

fn id(s: &str) -> Tok {
    Tok::Ident(s.to_string())
}

fn pa(c: char) -> Tok {
    Tok::Punct(c, false)
}

fn pj(c: char) -> Tok {
    Tok::Punct(c, true)
}

fn lit(s: &str) -> Tok {
    Tok::Lit(s.to_string())
}

fn open(d: Delim) -> Tok {
    Tok::Open(d)
}

fn close(d: Delim) -> Tok {
    Tok::Close(d)
}

/// `std::A::B` as flat tokens.
fn path2(a: &str, b: &str) -> Vec<Tok> {
    vec![id("std"), pj(':'), pa(':'), id(a), pj(':'), pa(':'), id(b)]
}

/// The tokens of `static I: String = "123".to_owned();`
fn decl_i() -> Vec<Tok> {
    vec![
        id("static"),
        id("I"),
        pa(':'),
        id("String"),
        pa('='),
        lit("\"123\""),
        pa('.'),
        id("to_owned"),
        open(Delim::Paren),
        close(Delim::Paren),
        pa(';'),
    ]
}

/// The full replacement stream expected for `decl_i`.
fn expected_i() -> Vec<Tok> {
    let ty = vec![id("String")];
    let init = vec![
        lit("\"123\""),
        pa('.'),
        id("to_owned"),
        open(Delim::Paren),
        close(Delim::Paren),
    ];
    let mut out = vec![
        pa('#'),
        open(Delim::Bracket),
        id("allow"),
        open(Delim::Paren),
        id("non_camel_case_types"),
        close(Delim::Paren),
        close(Delim::Bracket),
    ];
    // no visibility
    out.extend(vec![id("struct"), id("I"), pa(';'), id("impl")]);
    out.extend(path2("ops", "Deref"));
    out.extend(vec![
        id("for"),
        id("I"),
        open(Delim::Brace),
        id("type"),
        id("Target"),
        pa('='),
    ]);
    out.extend(ty.clone());
    out.extend(vec![
        pa(';'),
        id("fn"),
        id("deref"),
        open(Delim::Paren),
        pa('&'),
        id("self"),
        close(Delim::Paren),
        pj('-'),
        pa('>'),
        pa('&'),
    ]);
    out.extend(ty.clone());
    out.extend(vec![
        open(Delim::Brace),
        id("struct"),
        id("_AssertSync"),
        id("where"),
    ]);
    out.extend(ty.clone());
    out.push(pa(':'));
    out.extend(path2("marker", "Sync"));
    out.extend(vec![pa(';'), id("struct"), id("_AssertSized"), id("where")]);
    out.extend(ty.clone());
    out.push(pa(':'));
    out.extend(path2("marker", "Sized"));
    out.extend(vec![pa(';'), id("static"), id("ONCE"), pa(':')]);
    out.extend(path2("sync", "Once"));
    out.push(pa('='));
    out.extend(path2("sync", "Once"));
    out.extend(vec![
        pj(':'),
        pa(':'),
        id("new"),
        open(Delim::Paren),
        close(Delim::Paren),
        pa(';'),
    ]);
    out.extend(vec![
        id("static"),
        id("mut"),
        id("VALUE"),
        pa(':'),
        pa('*'),
        id("mut"),
    ]);
    out.extend(ty.clone());
    out.extend(vec![pa('='), lit("0"), id("as"), pa('*'), id("mut")]);
    out.extend(ty.clone());
    out.extend(vec![
        pa(';'),
        id("unsafe"),
        open(Delim::Brace),
        id("ONCE"),
        pa('.'),
        id("call_once"),
        open(Delim::Paren),
        pj('|'),
        pa('|'),
        id("VALUE"),
        pa('='),
        id("Box"),
        pj(':'),
        pa(':'),
        id("into_raw"),
        open(Delim::Paren),
        id("Box"),
        pj(':'),
        pa(':'),
        id("new"),
        open(Delim::Paren),
    ]);
    out.extend(init);
    out.extend(vec![
        close(Delim::Paren),
        close(Delim::Paren),
        close(Delim::Paren),
        pa(';'),
        pa('&'),
        pa('*'),
        id("VALUE"),
        close(Delim::Brace),
        close(Delim::Brace),
        close(Delim::Brace),
    ]);
    out
}

#[test]
fn it_works() {
    let attr: Vec<Tok> = Vec::new();
    let out = lazy(&attr, &decl_i()).unwrap();
    assert_eq!(out, expected_i());
    let parsed = lazing::parse::parse(&decl_i()).unwrap();
    assert_eq!(parsed.name, "I");
}
