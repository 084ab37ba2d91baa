//! A flat model of a token stream.
//!
//! A stream is a sequence of simple tokens: identifiers (keywords included),
//! punctuation characters, literals, and explicit open/close markers for
//! delimited groups. A punctuation token carries a `joint` flag: `true` means
//! the character is glued to the punctuation character that follows it, as in
//! the first colon of `::` or the dash of `->`.

use vstd::prelude::*;

verus! {

/// The delimiter of a group: parentheses, square brackets, curly braces, or
/// the invisible delimiter that macro expansion can introduce.
#[derive(Clone, Copy, PartialEq, Eq, Structural, Debug)]
pub enum Delim {
    Paren,
    Bracket,
    Brace,
    Invisible,
}

/// One token of the flat stream.
#[derive(Clone, PartialEq, Eq, Debug)]
pub enum Tok {
    /// An identifier or keyword, by its text.
    Ident(String),
    /// A punctuation character; the flag is `true` when it is glued to a
    /// following punctuation character.
    Punct(char, bool),
    /// A literal, by its text.
    Lit(String),
    /// The opening of a delimited group.
    Open(Delim),
    /// The closing of a delimited group.
    Close(Delim),
}

/// The mathematical value of one token: identifier and literal text as
/// character sequences.
#[verifier::ext_equal]
pub enum TokView {
    Ident(Seq<char>),
    Punct(char, bool),
    Lit(Seq<char>),
    Open(Delim),
    Close(Delim),
}

impl View for Tok {
    type V = TokView;

    open spec fn view(&self) -> TokView {
        match self {
            Tok::Ident(s) => TokView::Ident(s@),
            Tok::Punct(c, j) => TokView::Punct(*c, *j),
            Tok::Lit(s) => TokView::Lit(s@),
            Tok::Open(d) => TokView::Open(*d),
            Tok::Close(d) => TokView::Close(*d),
        }
    }
}

/// The value of a whole stream: each token replaced by its value.
pub open spec fn toks_view(s: Seq<Tok>) -> Seq<TokView> {
    s.map_values(|t: Tok| t@)
}

/// An identifier token value with the given text.
pub open spec fn idv(s: &str) -> TokView {
    TokView::Ident(s@)
}

/// A punctuation token value that stands alone.
pub open spec fn pa(c: char) -> TokView {
    TokView::Punct(c, false)
}

/// A punctuation token value glued to the next punctuation character.
pub open spec fn pj(c: char) -> TokView {
    TokView::Punct(c, true)
}

pub broadcast proof fn lemma_toks_view_len(s: Seq<Tok>)
    ensures
        #[trigger] toks_view(s).len() == s.len(),
{
}

pub broadcast proof fn lemma_toks_view_index(s: Seq<Tok>, i: int)
    requires
        0 <= i < s.len(),
    ensures
        #[trigger] toks_view(s)[i] == s[i]@,
{
}

pub broadcast proof fn lemma_toks_view_push(s: Seq<Tok>, t: Tok)
    ensures
        #[trigger] toks_view(s.push(t)) == toks_view(s).push(t@),
{
    assert(toks_view(s.push(t)) =~= toks_view(s).push(t@));
}

pub broadcast proof fn lemma_toks_view_append(a: Seq<Tok>, b: Seq<Tok>)
    ensures
        #[trigger] toks_view(a + b) == toks_view(a) + toks_view(b),
{
    assert(toks_view(a + b) =~= toks_view(a) + toks_view(b));
}

pub broadcast proof fn lemma_toks_view_subrange(s: Seq<Tok>, a: int, b: int)
    requires
        0 <= a <= b <= s.len(),
    ensures
        #[trigger] toks_view(s.subrange(a, b)) == toks_view(s).subrange(a, b),
{
    assert(toks_view(s.subrange(a, b)) =~= toks_view(s).subrange(a, b));
}

/// An exact copy of one token.
pub fn dup(t: &Tok) -> (r: Tok)
    ensures
        r == *t,
{
    match t {
        Tok::Ident(s) => Tok::Ident(s.clone()),
        Tok::Punct(c, j) => Tok::Punct(*c, *j),
        Tok::Lit(s) => Tok::Lit(s.clone()),
        Tok::Open(d) => Tok::Open(*d),
        Tok::Close(d) => Tok::Close(*d),
    }
}

/// Copies the tokens of `ts` with indices in `a..b` into a fresh stream.
pub fn copy_range(ts: &Vec<Tok>, a: usize, b: usize) -> (r: Vec<Tok>)
    requires
        a <= b <= ts@.len(),
    ensures
        r@ == ts@.subrange(a as int, b as int),
{
    let mut r: Vec<Tok> = Vec::new();
    let mut i: usize = a;
    while i < b
        invariant
            a <= i <= b <= ts@.len(),
            r@ == ts@.subrange(a as int, i as int),
        decreases b - i,
    {
        r.push(dup(&ts[i]));
        proof {
            assert(r@ =~= ts@.subrange(a as int, (i + 1) as int));
        }
        i = i + 1;
    }
    r
}

/// Appends a copy of every token of `src` to `out`.
pub fn append_copy(out: &mut Vec<Tok>, src: &Vec<Tok>)
    ensures
        final(out)@ == old(out)@ + src@,
{
    let mut i: usize = 0;
    while i < src.len()
        invariant
            i <= src@.len(),
            out@ == old(out)@ + src@.subrange(0, i as int),
        decreases src@.len() - i,
    {
        out.push(dup(&src[i]));
        proof {
            assert(out@ =~= old(out)@ + src@.subrange(0, (i + 1) as int));
        }
        i = i + 1;
    }
    proof {
        assert(out@ =~= old(out)@ + src@);
    }
}

/// True when the token is the identifier or keyword written `kw`.
pub fn is_ident_text(t: &Tok, kw: &str) -> (r: bool)
    ensures
        r == (t@ == TokView::Ident(kw@)),
{
    match t {
        Tok::Ident(s) => {
            let k: String = kw.to_owned();
            *s == k
        },
        _ => false,
    }
}

} // verus!
