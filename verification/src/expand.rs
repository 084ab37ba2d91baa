//! Synthesis of the replacement declaration.
//!
//! A parsed declaration `$vis static $NAME: $Ty = $init;` is replaced by
//!
//! ```text
//! #[allow(non_camel_case_types)]
//! $vis struct $NAME;
//!
//! impl std::ops::Deref for $NAME {
//!     type Target = $Ty;
//!     fn deref(&self) -> &$Ty {
//!         struct _AssertSync where $Ty: std::marker::Sync;
//!         struct _AssertSized where $Ty: std::marker::Sized;
//!         static ONCE: std::sync::Once = std::sync::Once::new();
//!         static mut VALUE: *mut $Ty = 0 as *mut $Ty;
//!         unsafe {
//!             ONCE.call_once(|| VALUE = Box::into_raw(Box::new($init)));
//!             &*VALUE
//!         }
//!     }
//! }
//! ```
//!
//! so that the first dereference, and only the first, computes the
//! initializer, and every dereference returns the one stored value. The two
//! helper structs make the compiler report a type that cannot be shared
//! across threads, or has no statically known size, at the declaration
//! itself. [`spec_expansion`] states that token stream exactly;
//! [`expand`] produces it.

use vstd::prelude::*;

use crate::parse::{DeclView, LazyStatic};
use crate::token::{append_copy, idv, pa, pj, toks_view, Delim, Tok, TokView};

verus! {

broadcast use crate::token::lemma_toks_view_len, crate::token::lemma_toks_view_index, crate::token::lemma_toks_view_push, crate::token::lemma_toks_view_append;

/// `#[allow(non_camel_case_types)]`
pub open spec fn seg_attr() -> Seq<TokView> {
    seq![
        pa('#'),
        TokView::Open(Delim::Bracket),
        idv("allow"),
        TokView::Open(Delim::Paren),
        idv("non_camel_case_types"),
        TokView::Close(Delim::Paren),
        TokView::Close(Delim::Bracket),
    ]
}

/// `struct $NAME; impl std::ops::Deref for $NAME { type Target =`
pub open spec fn seg_struct_impl(name: Seq<char>) -> Seq<TokView> {
    seq![
        idv("struct"),
        TokView::Ident(name),
        pa(';'),
        idv("impl"),
        idv("std"),
        pj(':'),
        pa(':'),
        idv("ops"),
        pj(':'),
        pa(':'),
        idv("Deref"),
        idv("for"),
        TokView::Ident(name),
        TokView::Open(Delim::Brace),
        idv("type"),
        idv("Target"),
        pa('='),
    ]
}

/// `; fn deref(&self) -> &`
pub open spec fn seg_deref_sig() -> Seq<TokView> {
    seq![
        pa(';'),
        idv("fn"),
        idv("deref"),
        TokView::Open(Delim::Paren),
        pa('&'),
        idv("self"),
        TokView::Close(Delim::Paren),
        pj('-'),
        pa('>'),
        pa('&'),
    ]
}

/// `{ struct _AssertSync where`
pub open spec fn seg_sync_head() -> Seq<TokView> {
    seq![TokView::Open(Delim::Brace), idv("struct"), idv("_AssertSync"), idv("where")]
}

/// `: std::marker::Sync; struct _AssertSized where`
pub open spec fn seg_sync_sized() -> Seq<TokView> {
    seq![
        pa(':'),
        idv("std"),
        pj(':'),
        pa(':'),
        idv("marker"),
        pj(':'),
        pa(':'),
        idv("Sync"),
        pa(';'),
        idv("struct"),
        idv("_AssertSized"),
        idv("where"),
    ]
}

/// `: std::marker::Sized;`
pub open spec fn seg_sized_tail() -> Seq<TokView> {
    seq![
        pa(':'),
        idv("std"),
        pj(':'),
        pa(':'),
        idv("marker"),
        pj(':'),
        pa(':'),
        idv("Sized"),
        pa(';'),
    ]
}

/// `static ONCE: std::sync::Once = std::sync::Once::new();`
pub open spec fn seg_once() -> Seq<TokView> {
    seq![
        idv("static"),
        idv("ONCE"),
        pa(':'),
        idv("std"),
        pj(':'),
        pa(':'),
        idv("sync"),
        pj(':'),
        pa(':'),
        idv("Once"),
        pa('='),
        idv("std"),
        pj(':'),
        pa(':'),
        idv("sync"),
        pj(':'),
        pa(':'),
        idv("Once"),
        pj(':'),
        pa(':'),
        idv("new"),
        TokView::Open(Delim::Paren),
        TokView::Close(Delim::Paren),
        pa(';'),
    ]
}

/// `static mut VALUE: *mut`
pub open spec fn seg_value_head() -> Seq<TokView> {
    seq![idv("static"), idv("mut"), idv("VALUE"), pa(':'), pa('*'), idv("mut")]
}

/// `= 0 as *mut`
pub open spec fn seg_value_mid() -> Seq<TokView> {
    seq![pa('='), TokView::Lit("0"@), idv("as"), pa('*'), idv("mut")]
}

/// `; unsafe { ONCE.call_once(|| VALUE = Box::into_raw(Box::new(`
pub open spec fn seg_call_head() -> Seq<TokView> {
    seq![
        pa(';'),
        idv("unsafe"),
        TokView::Open(Delim::Brace),
        idv("ONCE"),
        pa('.'),
        idv("call_once"),
        TokView::Open(Delim::Paren),
        pj('|'),
        pa('|'),
        idv("VALUE"),
        pa('='),
        idv("Box"),
        pj(':'),
        pa(':'),
        idv("into_raw"),
        TokView::Open(Delim::Paren),
        idv("Box"),
        pj(':'),
        pa(':'),
        idv("new"),
        TokView::Open(Delim::Paren),
    ]
}

/// `))); &*VALUE } } }`
pub open spec fn seg_tail() -> Seq<TokView> {
    seq![
        TokView::Close(Delim::Paren),
        TokView::Close(Delim::Paren),
        TokView::Close(Delim::Paren),
        pa(';'),
        pa('&'),
        pa('*'),
        idv("VALUE"),
        TokView::Close(Delim::Brace),
        TokView::Close(Delim::Brace),
        TokView::Close(Delim::Brace),
    ]
}

/// The whole replacement stream for the parsed declaration `d`: the fixed
/// template with the visibility spliced once, the name twice, the type six
/// times and the initializer once.
pub open spec fn spec_expansion(d: DeclView) -> Seq<TokView> {
    seg_attr() + d.vis + seg_struct_impl(d.name) + d.ty + seg_deref_sig() + d.ty + seg_sync_head()
        + d.ty + seg_sync_sized() + d.ty + seg_sized_tail() + seg_once() + seg_value_head() + d.ty
        + seg_value_mid() + d.ty + seg_call_head() + d.init + seg_tail()
}

fn push_id(out: &mut Vec<Tok>, s: &str)
    ensures
        toks_view(final(out)@) == toks_view(old(out)@).push(TokView::Ident(s@)),
{
    out.push(Tok::Ident(s.to_owned()));
}

fn push_name(out: &mut Vec<Tok>, name: &String)
    ensures
        toks_view(final(out)@) == toks_view(old(out)@).push(TokView::Ident(name@)),
{
    out.push(Tok::Ident(name.clone()));
}

fn push_pa(out: &mut Vec<Tok>, c: char)
    ensures
        toks_view(final(out)@) == toks_view(old(out)@).push(pa(c)),
{
    out.push(Tok::Punct(c, false));
}

fn push_pj(out: &mut Vec<Tok>, c: char)
    ensures
        toks_view(final(out)@) == toks_view(old(out)@).push(pj(c)),
{
    out.push(Tok::Punct(c, true));
}

fn push_open(out: &mut Vec<Tok>, d: Delim)
    ensures
        toks_view(final(out)@) == toks_view(old(out)@).push(TokView::Open(d)),
{
    out.push(Tok::Open(d));
}

fn push_close(out: &mut Vec<Tok>, d: Delim)
    ensures
        toks_view(final(out)@) == toks_view(old(out)@).push(TokView::Close(d)),
{
    out.push(Tok::Close(d));
}

fn push_path2(out: &mut Vec<Tok>, a: &str, b: &str)
    ensures
        toks_view(final(out)@) == toks_view(old(out)@).push(idv("std")).push(pj(':')).push(
            pa(':'),
        ).push(TokView::Ident(a@)).push(pj(':')).push(pa(':')).push(TokView::Ident(b@)),
{
    push_id(out, "std");
    push_pj(out, ':');
    push_pa(out, ':');
    push_id(out, a);
    push_pj(out, ':');
    push_pa(out, ':');
    push_id(out, b);
}

fn emit_attr(out: &mut Vec<Tok>)
    ensures
        toks_view(final(out)@) == toks_view(old(out)@) + seg_attr(),
{
    push_pa(out, '#');
    push_open(out, Delim::Bracket);
    push_id(out, "allow");
    push_open(out, Delim::Paren);
    push_id(out, "non_camel_case_types");
    push_close(out, Delim::Paren);
    push_close(out, Delim::Bracket);
    proof {
        assert(toks_view(out@) =~= toks_view(old(out)@) + seg_attr());
    }
}

fn emit_struct_impl(out: &mut Vec<Tok>, name: &String)
    ensures
        toks_view(final(out)@) == toks_view(old(out)@) + seg_struct_impl(name@),
{
    push_id(out, "struct");
    push_name(out, name);
    push_pa(out, ';');
    push_id(out, "impl");
    push_path2(out, "ops", "Deref");
    push_id(out, "for");
    push_name(out, name);
    push_open(out, Delim::Brace);
    push_id(out, "type");
    push_id(out, "Target");
    push_pa(out, '=');
    proof {
        assert(toks_view(out@) =~= toks_view(old(out)@) + seg_struct_impl(name@));
    }
}

fn emit_deref_sig(out: &mut Vec<Tok>)
    ensures
        toks_view(final(out)@) == toks_view(old(out)@) + seg_deref_sig(),
{
    push_pa(out, ';');
    push_id(out, "fn");
    push_id(out, "deref");
    push_open(out, Delim::Paren);
    push_pa(out, '&');
    push_id(out, "self");
    push_close(out, Delim::Paren);
    push_pj(out, '-');
    push_pa(out, '>');
    push_pa(out, '&');
    proof {
        assert(toks_view(out@) =~= toks_view(old(out)@) + seg_deref_sig());
    }
}

fn emit_sync_head(out: &mut Vec<Tok>)
    ensures
        toks_view(final(out)@) == toks_view(old(out)@) + seg_sync_head(),
{
    push_open(out, Delim::Brace);
    push_id(out, "struct");
    push_id(out, "_AssertSync");
    push_id(out, "where");
    proof {
        assert(toks_view(out@) =~= toks_view(old(out)@) + seg_sync_head());
    }
}

fn emit_sync_sized(out: &mut Vec<Tok>)
    ensures
        toks_view(final(out)@) == toks_view(old(out)@) + seg_sync_sized(),
{
    push_pa(out, ':');
    push_path2(out, "marker", "Sync");
    push_pa(out, ';');
    push_id(out, "struct");
    push_id(out, "_AssertSized");
    push_id(out, "where");
    proof {
        assert(toks_view(out@) =~= toks_view(old(out)@) + seg_sync_sized());
    }
}

fn emit_sized_tail(out: &mut Vec<Tok>)
    ensures
        toks_view(final(out)@) == toks_view(old(out)@) + seg_sized_tail(),
{
    push_pa(out, ':');
    push_path2(out, "marker", "Sized");
    push_pa(out, ';');
    proof {
        assert(toks_view(out@) =~= toks_view(old(out)@) + seg_sized_tail());
    }
}

fn emit_once(out: &mut Vec<Tok>)
    ensures
        toks_view(final(out)@) == toks_view(old(out)@) + seg_once(),
{
    push_id(out, "static");
    push_id(out, "ONCE");
    push_pa(out, ':');
    push_path2(out, "sync", "Once");
    push_pa(out, '=');
    push_path2(out, "sync", "Once");
    push_pj(out, ':');
    push_pa(out, ':');
    push_id(out, "new");
    push_open(out, Delim::Paren);
    push_close(out, Delim::Paren);
    push_pa(out, ';');
    proof {
        assert(toks_view(out@) =~= toks_view(old(out)@) + seg_once());
    }
}

fn emit_value_head(out: &mut Vec<Tok>)
    ensures
        toks_view(final(out)@) == toks_view(old(out)@) + seg_value_head(),
{
    push_id(out, "static");
    push_id(out, "mut");
    push_id(out, "VALUE");
    push_pa(out, ':');
    push_pa(out, '*');
    push_id(out, "mut");
    proof {
        assert(toks_view(out@) =~= toks_view(old(out)@) + seg_value_head());
    }
}

fn emit_value_mid(out: &mut Vec<Tok>)
    ensures
        toks_view(final(out)@) == toks_view(old(out)@) + seg_value_mid(),
{
    push_pa(out, '=');
    out.push(Tok::Lit("0".to_owned()));
    push_id(out, "as");
    push_pa(out, '*');
    push_id(out, "mut");
    proof {
        assert(toks_view(out@) =~= toks_view(old(out)@) + seg_value_mid());
    }
}

fn emit_call_head(out: &mut Vec<Tok>)
    ensures
        toks_view(final(out)@) == toks_view(old(out)@) + seg_call_head(),
{
    push_pa(out, ';');
    push_id(out, "unsafe");
    push_open(out, Delim::Brace);
    push_id(out, "ONCE");
    push_pa(out, '.');
    push_id(out, "call_once");
    push_open(out, Delim::Paren);
    push_pj(out, '|');
    push_pa(out, '|');
    push_id(out, "VALUE");
    push_pa(out, '=');
    push_id(out, "Box");
    push_pj(out, ':');
    push_pa(out, ':');
    push_id(out, "into_raw");
    push_open(out, Delim::Paren);
    push_id(out, "Box");
    push_pj(out, ':');
    push_pa(out, ':');
    push_id(out, "new");
    push_open(out, Delim::Paren);
    proof {
        assert(toks_view(out@) =~= toks_view(old(out)@) + seg_call_head());
    }
}

fn emit_tail(out: &mut Vec<Tok>)
    ensures
        toks_view(final(out)@) == toks_view(old(out)@) + seg_tail(),
{
    push_close(out, Delim::Paren);
    push_close(out, Delim::Paren);
    push_close(out, Delim::Paren);
    push_pa(out, ';');
    push_pa(out, '&');
    push_pa(out, '*');
    push_id(out, "VALUE");
    push_close(out, Delim::Brace);
    push_close(out, Delim::Brace);
    push_close(out, Delim::Brace);
    proof {
        assert(toks_view(out@) =~= toks_view(old(out)@) + seg_tail());
    }
}

/// Builds the replacement stream for the parsed declaration: exactly
/// [`spec_expansion`] of its value.
pub fn expand(d: &LazyStatic) -> (out: Vec<Tok>)
    ensures
        toks_view(out@) == spec_expansion(d@),
{
    let mut out: Vec<Tok> = Vec::new();
    emit_attr(&mut out);
    append_copy(&mut out, &d.visibility);
    emit_struct_impl(&mut out, &d.name);
    append_copy(&mut out, &d.ty);
    emit_deref_sig(&mut out);
    append_copy(&mut out, &d.ty);
    emit_sync_head(&mut out);
    append_copy(&mut out, &d.ty);
    emit_sync_sized(&mut out);
    append_copy(&mut out, &d.ty);
    emit_sized_tail(&mut out);
    emit_once(&mut out);
    emit_value_head(&mut out);
    append_copy(&mut out, &d.ty);
    emit_value_mid(&mut out);
    append_copy(&mut out, &d.ty);
    emit_call_head(&mut out);
    append_copy(&mut out, &d.init);
    emit_tail(&mut out);
    proof {
        assert(toks_view(out@) =~= spec_expansion(d@));
    }
    out
}

} // verus!
