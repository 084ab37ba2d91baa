//! Parsing of the annotated declaration.
//!
//! The accepted grammar, over the flat token stream of [`crate::token`], is
//!
//! ```text
//! [ `pub` [ ( ... ) ] ] `static` NAME `:` TYPE `=` EXPR `;`
//! ```
//!
//! where NAME is one identifier, TYPE is a nonempty run of tokens ending at
//! the first `=` that stands at group depth zero and outside every `<`..`>`
//! pair (a `>` glued to a preceding joint `-` is an arrow and closes no
//! angle), and EXPR is a nonempty run of tokens ending at the first `;` at
//! group depth zero. The separators `:`, `=` and `;` count only when they do
//! not join the following punctuation character. Nothing may follow the
//! closing `;`.

use vstd::prelude::*;

use crate::token::{idv, is_ident_text, pa, toks_view, Delim, Tok, TokView};

verus! {

broadcast use crate::token::lemma_toks_view_len, crate::token::lemma_toks_view_index, crate::token::lemma_toks_view_subrange;

/// Why a declaration was rejected.
#[derive(Clone, Copy, PartialEq, Eq, Structural, Debug)]
pub enum ParseError {
    /// The tokens after the visibility do not begin with `static`.
    ExpectedStatic,
    /// No identifier follows `static`.
    ExpectedName,
    /// No standalone `:` follows the name.
    ExpectedColon,
    /// The `=` comes directly after the `:`: the type is empty.
    ExpectedType,
    /// The tokens end before a terminating `=` is found.
    ExpectedEq,
    /// The `;` comes directly after the `=`: the initializer is empty.
    ExpectedExpr,
    /// The tokens end before a terminating `;` is found.
    ExpectedSemi,
    /// A group or an angle-bracket pair is closed that was never opened,
    /// or a visibility group is never closed.
    Unbalanced,
    /// Tokens remain after the closing `;`.
    TrailingTokens,
}

/// The parsed declaration, as mathematical values.
#[verifier::ext_equal]
pub struct DeclView {
    pub vis: Seq<TokView>,
    pub name: Seq<char>,
    pub ty: Seq<TokView>,
    pub init: Seq<TokView>,
}

/// The parsed declaration: its visibility tokens, its name, its type tokens
/// and its initializer tokens.
#[derive(PartialEq, Eq, Debug)]
pub struct LazyStatic {
    pub visibility: Vec<Tok>,
    pub name: String,
    pub ty: Vec<Tok>,
    pub init: Vec<Tok>,
}

impl View for LazyStatic {
    type V = DeclView;

    open spec fn view(&self) -> DeclView {
        DeclView {
            vis: toks_view(self.visibility@),
            name: self.name@,
            ty: toks_view(self.ty@),
            init: toks_view(self.init@),
        }
    }
}

/// The index of the `Close` token that ends the group opened just before
/// position `i`, with `depth` groups opened since then and still open.
pub open spec fn group_close(ts: Seq<TokView>, i: int, depth: int) -> Result<int, ParseError>
    decreases ts.len() - i,
{
    if i >= ts.len() {
        Err(ParseError::Unbalanced)
    } else {
        match ts[i] {
            TokView::Open(_) => group_close(ts, i + 1, depth + 1),
            TokView::Close(_) => if depth == 0 {
                Ok(i)
            } else {
                group_close(ts, i + 1, depth - 1)
            },
            _ => group_close(ts, i + 1, depth),
        }
    }
}

/// The number of leading tokens that form the visibility: none, a lone
/// `pub`, or `pub` followed by one parenthesized group.
pub open spec fn vis_end(ts: Seq<TokView>) -> Result<int, ParseError> {
    if ts.len() >= 1 && ts[0] == idv("pub") {
        if ts.len() >= 2 && (ts[1] matches TokView::Open(Delim::Paren)) {
            match group_close(ts, 2, 0) {
                Ok(j) => Ok(j + 1),
                Err(e) => Err(e),
            }
        } else {
            Ok(1)
        }
    } else {
        Ok(0)
    }
}

/// True when the token is a `>` punctuation character, whatever its spacing.
pub open spec fn is_gt(t: TokView) -> bool {
    t matches TokView::Punct('>', _)
}

/// The index of the `=` that ends the type read from position `i` on, with
/// `gdepth` open groups and, at group depth zero, `angle` open `<`.
pub open spec fn ty_end(ts: Seq<TokView>, i: int, gdepth: int, angle: int) -> Result<
    int,
    ParseError,
>
    decreases ts.len() - i,
{
    if i >= ts.len() {
        Err(ParseError::ExpectedEq)
    } else {
        match ts[i] {
            TokView::Open(_) => ty_end(ts, i + 1, gdepth + 1, angle),
            TokView::Close(_) => if gdepth > 0 {
                ty_end(ts, i + 1, gdepth - 1, angle)
            } else {
                Err(ParseError::Unbalanced)
            },
            TokView::Punct(c, j) => if gdepth == 0 && angle == 0 && c == '=' && !j {
                Ok(i)
            } else if c == '-' && j && i + 1 < ts.len() && is_gt(ts[i + 1]) {
                ty_end(ts, i + 2, gdepth, angle)
            } else if gdepth == 0 && c == '<' {
                ty_end(ts, i + 1, gdepth, angle + 1)
            } else if gdepth == 0 && c == '>' {
                if angle > 0 {
                    ty_end(ts, i + 1, gdepth, angle - 1)
                } else {
                    Err(ParseError::Unbalanced)
                }
            } else {
                ty_end(ts, i + 1, gdepth, angle)
            },
            _ => ty_end(ts, i + 1, gdepth, angle),
        }
    }
}

/// The index of the `;` that ends the initializer read from position `i` on,
/// with `gdepth` open groups.
pub open spec fn init_end(ts: Seq<TokView>, i: int, gdepth: int) -> Result<int, ParseError>
    decreases ts.len() - i,
{
    if i >= ts.len() {
        Err(ParseError::ExpectedSemi)
    } else {
        match ts[i] {
            TokView::Open(_) => init_end(ts, i + 1, gdepth + 1),
            TokView::Close(_) => if gdepth > 0 {
                init_end(ts, i + 1, gdepth - 1)
            } else {
                Err(ParseError::Unbalanced)
            },
            TokView::Punct(c, j) => if gdepth == 0 && c == ';' && !j {
                Ok(i)
            } else {
                init_end(ts, i + 1, gdepth)
            },
            _ => init_end(ts, i + 1, gdepth),
        }
    }
}

/// What parsing a whole token stream yields: the declaration, or the first
/// error in reading order.
pub open spec fn spec_parse(ts: Seq<TokView>) -> Result<DeclView, ParseError> {
    match vis_end(ts) {
        Err(e) => Err(e),
        Ok(v) => if !(v < ts.len() && ts[v] == idv("static")) {
            Err(ParseError::ExpectedStatic)
        } else if !(v + 1 < ts.len() && (ts[v + 1] matches TokView::Ident(_))) {
            Err(ParseError::ExpectedName)
        } else if !(v + 2 < ts.len() && ts[v + 2] == pa(':')) {
            Err(ParseError::ExpectedColon)
        } else {
            match ty_end(ts, v + 3, 0, 0) {
                Err(e) => Err(e),
                Ok(te) => if te == v + 3 {
                    Err(ParseError::ExpectedType)
                } else {
                    match init_end(ts, te + 1, 0) {
                        Err(e) => Err(e),
                        Ok(se) => if se == te + 1 {
                            Err(ParseError::ExpectedExpr)
                        } else if se + 1 != ts.len() {
                            Err(ParseError::TrailingTokens)
                        } else {
                            Ok(
                                DeclView {
                                    vis: ts.subrange(0, v),
                                    name: ts[v + 1]->Ident_0,
                                    ty: ts.subrange(v + 3, te),
                                    init: ts.subrange(te + 1, se),
                                },
                            )
                        },
                    }
                },
            }
        },
    }
}

pub open spec fn idx_view(r: Result<usize, ParseError>) -> Result<int, ParseError> {
    match r {
        Ok(i) => Ok(i as int),
        Err(e) => Err(e),
    }
}

pub open spec fn parse_view(r: Result<LazyStatic, ParseError>) -> Result<DeclView, ParseError> {
    match r {
        Ok(d) => Ok(d@),
        Err(e) => Err(e),
    }
}

pub proof fn lemma_group_close_range(ts: Seq<TokView>, i: int, depth: int)
    requires
        0 <= i,
    ensures
        group_close(ts, i, depth) matches Ok(j) ==> i <= j < ts.len() && (ts[j] matches TokView::Close(_)),
    decreases ts.len() - i,
{
    if i < ts.len() {
        match ts[i] {
            TokView::Open(_) => lemma_group_close_range(ts, i + 1, depth + 1),
            TokView::Close(_) => if depth != 0 {
                lemma_group_close_range(ts, i + 1, depth - 1);
            },
            _ => lemma_group_close_range(ts, i + 1, depth),
        }
    }
}

pub proof fn lemma_ty_end_props(ts: Seq<TokView>, i: int, gdepth: int, angle: int)
    requires
        0 <= i,
    ensures
        ty_end(ts, i, gdepth, angle) matches Ok(j) ==> i <= j < ts.len() && ts[j] == pa('='),
    decreases ts.len() - i,
{
    if i < ts.len() {
        match ts[i] {
            TokView::Open(_) => lemma_ty_end_props(ts, i + 1, gdepth + 1, angle),
            TokView::Close(_) => if gdepth > 0 {
                lemma_ty_end_props(ts, i + 1, gdepth - 1, angle);
            },
            TokView::Punct(c, j) => if gdepth == 0 && angle == 0 && c == '=' && !j {
            } else if c == '-' && j && i + 1 < ts.len() && is_gt(ts[i + 1]) {
                lemma_ty_end_props(ts, i + 2, gdepth, angle);
            } else if gdepth == 0 && c == '<' {
                lemma_ty_end_props(ts, i + 1, gdepth, angle + 1);
            } else if gdepth == 0 && c == '>' {
                if angle > 0 {
                    lemma_ty_end_props(ts, i + 1, gdepth, angle - 1);
                }
            } else {
                lemma_ty_end_props(ts, i + 1, gdepth, angle);
            },
            _ => lemma_ty_end_props(ts, i + 1, gdepth, angle),
        }
    }
}

pub proof fn lemma_init_end_props(ts: Seq<TokView>, i: int, gdepth: int)
    requires
        0 <= i,
    ensures
        init_end(ts, i, gdepth) matches Ok(j) ==> i <= j < ts.len() && ts[j] == pa(';'),
    decreases ts.len() - i,
{
    if i < ts.len() {
        match ts[i] {
            TokView::Open(_) => lemma_init_end_props(ts, i + 1, gdepth + 1),
            TokView::Close(_) => if gdepth > 0 {
                lemma_init_end_props(ts, i + 1, gdepth - 1);
            },
            TokView::Punct(c, j) => if gdepth == 0 && c == ';' && !j {
            } else {
                lemma_init_end_props(ts, i + 1, gdepth);
            },
            _ => lemma_init_end_props(ts, i + 1, gdepth),
        }
    }
}

fn group_close_x(ts: &Vec<Tok>, i: usize, depth: usize) -> (r: Result<usize, ParseError>)
    requires
        i <= ts@.len(),
        depth <= i,
    ensures
        idx_view(r) == group_close(toks_view(ts@), i as int, depth as int),
    decreases ts@.len() - i,
{
    if i >= ts.len() {
        return Err(ParseError::Unbalanced);
    }
    match &ts[i] {
        Tok::Open(_) => group_close_x(ts, i + 1, depth + 1),
        Tok::Close(_) => if depth == 0 {
            Ok(i)
        } else {
            group_close_x(ts, i + 1, depth - 1)
        },
        _ => group_close_x(ts, i + 1, depth),
    }
}

fn is_gt_x(t: &Tok) -> (r: bool)
    ensures
        r == is_gt(t@),
{
    match t {
        Tok::Punct(c, _) => *c == '>',
        _ => false,
    }
}

fn is_ident_x(t: &Tok) -> (r: bool)
    ensures
        r == (t@ matches TokView::Ident(_)),
{
    match t {
        Tok::Ident(_) => true,
        _ => false,
    }
}

fn is_open_paren_x(t: &Tok) -> (r: bool)
    ensures
        r == (t@ matches TokView::Open(Delim::Paren)),
{
    match t {
        Tok::Open(d) => *d == Delim::Paren,
        _ => false,
    }
}

fn is_alone_punct_x(t: &Tok, ch: char) -> (r: bool)
    ensures
        r == (t@ == TokView::Punct(ch, false)),
{
    match t {
        Tok::Punct(c, j) => *c == ch && !*j,
        _ => false,
    }
}

fn ident_text_x(t: &Tok) -> (r: String)
    requires
        t@ matches TokView::Ident(_),
    ensures
        t@ == TokView::Ident(r@),
{
    match t {
        Tok::Ident(s) => s.clone(),
        _ => vstd::pervasive::unreached(),
    }
}

fn ty_end_x(ts: &Vec<Tok>, i: usize, gdepth: usize, angle: usize) -> (r: Result<usize, ParseError>)
    requires
        i <= ts@.len(),
        gdepth <= i,
        angle <= i,
    ensures
        idx_view(r) == ty_end(toks_view(ts@), i as int, gdepth as int, angle as int),
    decreases ts@.len() - i,
{
    if i >= ts.len() {
        return Err(ParseError::ExpectedEq);
    }
    match &ts[i] {
        Tok::Open(_) => ty_end_x(ts, i + 1, gdepth + 1, angle),
        Tok::Close(_) => if gdepth > 0 {
            ty_end_x(ts, i + 1, gdepth - 1, angle)
        } else {
            Err(ParseError::Unbalanced)
        },
        Tok::Punct(c, j) => if gdepth == 0 && angle == 0 && *c == '=' && !*j {
            Ok(i)
        } else if *c == '-' && *j && i + 1 < ts.len() && is_gt_x(&ts[i + 1]) {
            ty_end_x(ts, i + 2, gdepth, angle)
        } else if gdepth == 0 && *c == '<' {
            ty_end_x(ts, i + 1, gdepth, angle + 1)
        } else if gdepth == 0 && *c == '>' {
            if angle > 0 {
                ty_end_x(ts, i + 1, gdepth, angle - 1)
            } else {
                Err(ParseError::Unbalanced)
            }
        } else {
            ty_end_x(ts, i + 1, gdepth, angle)
        },
        _ => ty_end_x(ts, i + 1, gdepth, angle),
    }
}

fn init_end_x(ts: &Vec<Tok>, i: usize, gdepth: usize) -> (r: Result<usize, ParseError>)
    requires
        i <= ts@.len(),
        gdepth <= i,
    ensures
        idx_view(r) == init_end(toks_view(ts@), i as int, gdepth as int),
    decreases ts@.len() - i,
{
    if i >= ts.len() {
        return Err(ParseError::ExpectedSemi);
    }
    match &ts[i] {
        Tok::Open(_) => init_end_x(ts, i + 1, gdepth + 1),
        Tok::Close(_) => if gdepth > 0 {
            init_end_x(ts, i + 1, gdepth - 1)
        } else {
            Err(ParseError::Unbalanced)
        },
        Tok::Punct(c, j) => if gdepth == 0 && *c == ';' && !*j {
            Ok(i)
        } else {
            init_end_x(ts, i + 1, gdepth)
        },
        _ => init_end_x(ts, i + 1, gdepth),
    }
}

/// Reads one declaration `[pub [(..)]] static NAME: TYPE = EXPR;` from the
/// token stream, or reports the first offence in reading order.
pub fn parse(input: &Vec<Tok>) -> (r: Result<LazyStatic, ParseError>)
    ensures
        parse_view(r) == spec_parse(toks_view(input@)),
{
    let n = input.len();
    let vend: usize;
    if n >= 1 && is_ident_text(&input[0], "pub") {
        if n >= 2 && is_open_paren_x(&input[1]) {
            match group_close_x(input, 2, 0) {
                Ok(j) => {
                    proof {
                        lemma_group_close_range(toks_view(input@), 2, 0);
                    }
                    vend = j + 1;
                },
                Err(e) => {
                    return Err(e);
                },
            }
        } else {
            vend = 1;
        }
    } else {
        vend = 0;
    }
    if !(vend < n && is_ident_text(&input[vend], "static")) {
        return Err(ParseError::ExpectedStatic);
    }
    if !(vend + 1 < n && is_ident_x(&input[vend + 1])) {
        return Err(ParseError::ExpectedName);
    }
    if !(vend + 2 < n && is_alone_punct_x(&input[vend + 2], ':')) {
        return Err(ParseError::ExpectedColon);
    }
    let t0 = vend + 3;
    match ty_end_x(input, t0, 0, 0) {
        Err(e) => Err(e),
        Ok(te) => {
            proof {
                lemma_ty_end_props(toks_view(input@), t0 as int, 0, 0);
            }
            if te == t0 {
                return Err(ParseError::ExpectedType);
            }
            let i0 = te + 1;
            match init_end_x(input, i0, 0) {
                Err(e) => Err(e),
                Ok(se) => {
                    proof {
                        lemma_init_end_props(toks_view(input@), i0 as int, 0);
                    }
                    if se == i0 {
                        return Err(ParseError::ExpectedExpr);
                    }
                    if se + 1 != n {
                        return Err(ParseError::TrailingTokens);
                    }
                    let visibility = crate::token::copy_range(input, 0, vend);
                    let name = ident_text_x(&input[vend + 1]);
                    let ty = crate::token::copy_range(input, t0, te);
                    let init = crate::token::copy_range(input, i0, se);
                    let d = LazyStatic { visibility, name, ty, init };
                    proof {
                        assert(d@ =~= spec_parse(toks_view(input@))->Ok_0);
                    }
                    Ok(d)
                },
            }
        },
    }
}

} // verus!
