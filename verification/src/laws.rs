//! Relations between parsing and the token streams it reads.

use vstd::prelude::*;

use crate::parse::{
    group_close, init_end, is_gt, lemma_group_close_range, lemma_init_end_props,
    lemma_ty_end_props, spec_parse, ty_end, vis_end, DeclView, ParseError,
};
use crate::token::{idv, pa, Delim, TokView};

verus! {

/// The declaration written back out from its parsed parts, with the fixed
/// separators standing alone.
pub open spec fn decl_tokens(d: DeclView) -> Seq<TokView> {
    d.vis + seq![idv("static"), TokView::Ident(d.name), pa(':')] + d.ty + seq![pa('=')] + d.init
        + seq![pa(';')]
}

/// Law: parsing loses nothing. A stream that parses is exactly its parsed
/// parts written back out in declaration order.
pub proof fn lemma_parse_faithful(ts: Seq<TokView>)
    requires
        spec_parse(ts) matches Ok(_),
    ensures
        decl_tokens(spec_parse(ts)->Ok_0) == ts,
{
    if ts.len() >= 1 && ts[0] == idv("pub") {
        if ts.len() >= 2 && (ts[1] matches TokView::Open(Delim::Paren)) {
            lemma_group_close_range(ts, 2, 0);
        }
    }
    let v = vis_end(ts)->Ok_0;
    assert(0 <= v < ts.len());
    lemma_ty_end_props(ts, v + 3, 0, 0);
    let te = ty_end(ts, v + 3, 0, 0)->Ok_0;
    lemma_init_end_props(ts, te + 1, 0);
    assert(decl_tokens(spec_parse(ts)->Ok_0) =~= ts);
}

/// Law: writing a parsed declaration back out and parsing it again changes
/// nothing.
pub proof fn lemma_print_parse_stable(ts: Seq<TokView>)
    requires
        spec_parse(ts) matches Ok(_),
    ensures
        spec_parse(decl_tokens(spec_parse(ts)->Ok_0)) == spec_parse(ts),
{
    lemma_parse_faithful(ts);
}

/// Law: a replacement stream is no declaration. Feeding the rewrite its own
/// output is rejected at the first token, which is the `#` of the generated
/// attribute.
pub proof fn lemma_expansion_not_declaration(d: DeclView)
    ensures
        spec_parse(crate::expand::spec_expansion(d)) == Err::<DeclView, _>(
            crate::parse::ParseError::ExpectedStatic,
        ),
{
    let ts = crate::expand::spec_expansion(d);
    assert(ts[0] == pa('#'));
}

/// Law: parsing tells streams apart. Two streams that parse to the same
/// declaration are the same stream.
pub proof fn lemma_parse_injective(a: Seq<TokView>, b: Seq<TokView>)
    requires
        spec_parse(a) matches Ok(_),
        spec_parse(a) == spec_parse(b),
    ensures
        a == b,
{
    lemma_parse_faithful(a);
    lemma_parse_faithful(b);
}

/// The tokens nest: no group is closed that was not opened since position
/// `i`, beyond the `depth` already open, and every opened one is closed.
pub open spec fn group_passes(t: Seq<TokView>, i: int, depth: int) -> bool
    decreases t.len() - i,
{
    if i >= t.len() {
        depth == 0
    } else {
        match t[i] {
            TokView::Open(_) => group_passes(t, i + 1, depth + 1),
            TokView::Close(_) => depth > 0 && group_passes(t, i + 1, depth - 1),
            _ => group_passes(t, i + 1, depth),
        }
    }
}

/// The type scanner passes through the whole of `t` from state
/// (`gdepth` groups, `angle` angles) without stopping, and leaves both at
/// zero: no stray close, no standalone `=` outside all brackets, and no
/// trailing joint `-`.
pub open spec fn ty_passes(t: Seq<TokView>, i: int, gdepth: int, angle: int) -> bool
    decreases t.len() - i,
{
    if i >= t.len() {
        gdepth == 0 && angle == 0
    } else {
        match t[i] {
            TokView::Open(_) => ty_passes(t, i + 1, gdepth + 1, angle),
            TokView::Close(_) => gdepth > 0 && ty_passes(t, i + 1, gdepth - 1, angle),
            TokView::Punct(c, j) => if gdepth == 0 && angle == 0 && c == '=' && !j {
                false
            } else if c == '-' && j && i + 1 < t.len() && is_gt(t[i + 1]) {
                ty_passes(t, i + 2, gdepth, angle)
            } else if c == '-' && j && i + 1 == t.len() {
                false
            } else if gdepth == 0 && c == '<' {
                ty_passes(t, i + 1, gdepth, angle + 1)
            } else if gdepth == 0 && c == '>' {
                angle > 0 && ty_passes(t, i + 1, gdepth, angle - 1)
            } else {
                ty_passes(t, i + 1, gdepth, angle)
            },
            _ => ty_passes(t, i + 1, gdepth, angle),
        }
    }
}

/// The initializer scanner passes through the whole of `t` from `gdepth`
/// open groups without stopping, and closes them all: no stray close and no
/// standalone `;` outside all groups.
pub open spec fn init_passes(t: Seq<TokView>, i: int, gdepth: int) -> bool
    decreases t.len() - i,
{
    if i >= t.len() {
        gdepth == 0
    } else {
        match t[i] {
            TokView::Open(_) => init_passes(t, i + 1, gdepth + 1),
            TokView::Close(_) => gdepth > 0 && init_passes(t, i + 1, gdepth - 1),
            TokView::Punct(c, j) => if gdepth == 0 && c == ';' && !j {
                false
            } else {
                init_passes(t, i + 1, gdepth)
            },
            _ => init_passes(t, i + 1, gdepth),
        }
    }
}

/// A well-formed visibility: nothing, a lone `pub`, or `pub` followed by one
/// properly nested parenthesized group.
pub open spec fn vis_wf(vis: Seq<TokView>) -> bool {
    ||| vis.len() == 0
    ||| vis == seq![idv("pub")]
    ||| {
        &&& vis.len() >= 3
        &&& vis[0] == idv("pub")
        &&& vis[1] == TokView::Open(Delim::Paren)
        &&& (vis.last() matches TokView::Close(_))
        &&& group_passes(vis.subrange(2, vis.len() - 1), 0, 0)
    }
}

/// A declaration whose written-out form parses back: well-formed
/// visibility, and nonempty type and initializer that their scanners pass
/// through whole.
pub open spec fn decl_wf(d: DeclView) -> bool {
    &&& vis_wf(d.vis)
    &&& d.ty.len() > 0
    &&& ty_passes(d.ty, 0, 0, 0)
    &&& d.init.len() > 0
    &&& init_passes(d.init, 0, 0)
}

proof fn lemma_group_scan(ts: Seq<TokView>, base: int, t: Seq<TokView>, i: int, depth: int)
    requires
        0 <= base,
        0 <= i <= t.len(),
        base + t.len() < ts.len(),
        ts.subrange(base, base + t.len()) == t,
        ts[base + t.len()] matches TokView::Close(_),
        group_passes(t, i, depth),
    ensures
        group_close(ts, base + i, depth) == Ok::<int, ParseError>(base + t.len()),
    decreases t.len() - i,
{
    if i < t.len() {
        assert(ts[base + i] == ts.subrange(base, base + t.len())[i]);
        match t[i] {
            TokView::Open(_) => lemma_group_scan(ts, base, t, i + 1, depth + 1),
            TokView::Close(_) => lemma_group_scan(ts, base, t, i + 1, depth - 1),
            _ => lemma_group_scan(ts, base, t, i + 1, depth),
        }
    }
}

proof fn lemma_ty_scan(ts: Seq<TokView>, base: int, t: Seq<TokView>, i: int, gdepth: int, angle: int)
    requires
        0 <= base,
        0 <= i <= t.len(),
        base + t.len() < ts.len(),
        ts.subrange(base, base + t.len()) == t,
        ts[base + t.len()] == pa('='),
        ty_passes(t, i, gdepth, angle),
    ensures
        ty_end(ts, base + i, gdepth, angle) == Ok::<int, ParseError>(base + t.len()),
    decreases t.len() - i,
{
    if i < t.len() {
        assert(ts[base + i] == ts.subrange(base, base + t.len())[i]);
        if i + 1 < t.len() {
            assert(ts[base + i + 1] == ts.subrange(base, base + t.len())[i + 1]);
        }
        match t[i] {
            TokView::Open(_) => lemma_ty_scan(ts, base, t, i + 1, gdepth + 1, angle),
            TokView::Close(_) => lemma_ty_scan(ts, base, t, i + 1, gdepth - 1, angle),
            TokView::Punct(c, j) => if c == '-' && j && i + 1 < t.len() && is_gt(t[i + 1]) {
                lemma_ty_scan(ts, base, t, i + 2, gdepth, angle);
            } else if gdepth == 0 && c == '<' {
                lemma_ty_scan(ts, base, t, i + 1, gdepth, angle + 1);
            } else if gdepth == 0 && c == '>' {
                lemma_ty_scan(ts, base, t, i + 1, gdepth, angle - 1);
            } else {
                lemma_ty_scan(ts, base, t, i + 1, gdepth, angle);
            },
            _ => lemma_ty_scan(ts, base, t, i + 1, gdepth, angle),
        }
    }
}

proof fn lemma_init_scan(ts: Seq<TokView>, base: int, t: Seq<TokView>, i: int, gdepth: int)
    requires
        0 <= base,
        0 <= i <= t.len(),
        base + t.len() < ts.len(),
        ts.subrange(base, base + t.len()) == t,
        ts[base + t.len()] == pa(';'),
        init_passes(t, i, gdepth),
    ensures
        init_end(ts, base + i, gdepth) == Ok::<int, ParseError>(base + t.len()),
    decreases t.len() - i,
{
    if i < t.len() {
        assert(ts[base + i] == ts.subrange(base, base + t.len())[i]);
        match t[i] {
            TokView::Open(_) => lemma_init_scan(ts, base, t, i + 1, gdepth + 1),
            TokView::Close(_) => lemma_init_scan(ts, base, t, i + 1, gdepth - 1),
            _ => lemma_init_scan(ts, base, t, i + 1, gdepth),
        }
    }
}

/// Law: parsing misses nothing. Every well-formed declaration, written out,
/// parses back to exactly itself.
pub proof fn lemma_parse_complete(d: DeclView)
    requires
        decl_wf(d),
    ensures
        spec_parse(decl_tokens(d)) == Ok::<DeclView, ParseError>(d),
{
    reveal_strlit("pub");
    reveal_strlit("static");
    assert("static"@.len() == 6);
    assert("pub"@.len() == 3);
    let ts = decl_tokens(d);
    let v = d.vis.len() as int;
    assert(ts.len() == v + 3 + d.ty.len() + 1 + d.init.len() + 1);
    assert(ts.subrange(0, v) =~= d.vis);
    assert(ts[v] == idv("static"));
    assert(ts[v + 1] == TokView::Ident(d.name));
    assert(ts[v + 2] == pa(':'));
    // the visibility is read whole
    if d.vis.len() == 0 {
        assert(ts[0] != idv("pub"));
        assert(vis_end(ts) == Ok::<int, ParseError>(0));
    } else if d.vis == seq![idv("pub")] {
        assert(ts[0] == idv("pub"));
        assert(ts[1] == idv("static"));
        assert(vis_end(ts) == Ok::<int, ParseError>(1));
    } else {
        assert(ts[0] == idv("pub"));
        assert(ts[1] == TokView::Open(Delim::Paren));
        let inner = d.vis.subrange(2, v - 1);
        assert(ts.subrange(2, 2 + inner.len() as int) =~= inner);
        assert(ts[2 + inner.len() as int] == d.vis[v - 1]);
        lemma_group_scan(ts, 2, inner, 0, 0);
        assert(vis_end(ts) == Ok::<int, ParseError>(v));
    }
    // the type is read whole, up to the `=` that follows it
    let t0 = v + 3;
    assert(ts.subrange(t0, t0 + d.ty.len()) =~= d.ty);
    assert(ts[t0 + d.ty.len()] == pa('='));
    lemma_ty_scan(ts, t0, d.ty, 0, 0, 0);
    let te = t0 + d.ty.len();
    // the initializer is read whole, up to the `;` that follows it
    assert(ts.subrange(te + 1, te + 1 + d.init.len()) =~= d.init);
    assert(ts[te + 1 + d.init.len()] == pa(';'));
    lemma_init_scan(ts, te + 1, d.init, 0, 0);
    let se = te + 1 + d.init.len();
    assert(se + 1 == ts.len());
    assert(spec_parse(ts) matches Ok(r) && r =~= d);
}

} // verus!
