//! Rewrites a static-variable declaration into a lazily initialized,
//! thread-safe global singleton accessed through dereference syntax.
//!
//! The declaration `$vis static $NAME: $Ty = $init;` is parsed from a flat
//! token stream ([`token`], [`parse`]) and replaced by a marker type named
//! `$NAME` together with a `Deref` implementation whose accessor computes
//! `$init` at most once, behind a one-time-initialization primitive
//! ([`expand`]). The entry point [`lazy`] takes the attribute's own
//! arguments, which must be absent, and the annotated declaration, and
//! returns the replacement stream or the first error.

use vstd::prelude::*;

pub mod expand;
pub mod laws;
pub mod parse;
pub mod token;

use crate::parse::ParseError;
use crate::token::{toks_view, Tok, TokView};

verus! {

broadcast use crate::token::lemma_toks_view_len;

/// Why the rewrite was refused.
#[derive(Clone, Copy, PartialEq, Eq, Structural, Debug)]
pub enum LazyError {
    /// The attribute itself was given arguments.
    AttrNotEmpty,
    /// The annotated declaration is not of the accepted shape.
    Parse(ParseError),
}

/// The diagnostic text for each refusal.
pub open spec fn spec_message(e: LazyError) -> Seq<char> {
    match e {
        LazyError::AttrNotEmpty => "no parameter should be at here."@,
        LazyError::Parse(ParseError::ExpectedStatic) => "expected `static`"@,
        LazyError::Parse(ParseError::ExpectedName) => "expected identifier"@,
        LazyError::Parse(ParseError::ExpectedColon) => "expected `:`"@,
        LazyError::Parse(ParseError::ExpectedType) => "expected a type"@,
        LazyError::Parse(ParseError::ExpectedEq) => "expected `=`"@,
        LazyError::Parse(ParseError::ExpectedExpr) => "expected an expression"@,
        LazyError::Parse(ParseError::ExpectedSemi) => "expected `;`"@,
        LazyError::Parse(ParseError::Unbalanced) => "unbalanced delimiters"@,
        LazyError::Parse(ParseError::TrailingTokens) => "unexpected tokens after `;`"@,
    }
}

impl LazyError {
    /// The diagnostic text to report for this refusal.
    pub fn message(&self) -> (m: &'static str)
        ensures
            m@ == spec_message(*self),
    {
        match self {
            LazyError::AttrNotEmpty => "no parameter should be at here.",
            LazyError::Parse(ParseError::ExpectedStatic) => "expected `static`",
            LazyError::Parse(ParseError::ExpectedName) => "expected identifier",
            LazyError::Parse(ParseError::ExpectedColon) => "expected `:`",
            LazyError::Parse(ParseError::ExpectedType) => "expected a type",
            LazyError::Parse(ParseError::ExpectedEq) => "expected `=`",
            LazyError::Parse(ParseError::ExpectedExpr) => "expected an expression",
            LazyError::Parse(ParseError::ExpectedSemi) => "expected `;`",
            LazyError::Parse(ParseError::Unbalanced) => "unbalanced delimiters",
            LazyError::Parse(ParseError::TrailingTokens) => "unexpected tokens after `;`",
        }
    }
}

/// What the rewrite yields: the replacement stream of the parsed
/// declaration, or the first error; any attribute argument is refused
/// before the declaration is read.
pub open spec fn spec_lazy(attr: Seq<TokView>, item: Seq<TokView>) -> Result<
    Seq<TokView>,
    LazyError,
> {
    if attr.len() != 0 {
        Err(LazyError::AttrNotEmpty)
    } else {
        match parse::spec_parse(item) {
            Ok(d) => Ok(expand::spec_expansion(d)),
            Err(e) => Err(LazyError::Parse(e)),
        }
    }
}

/// Rewrites the annotated declaration `item` under an attribute whose own
/// arguments are `attr`: exactly [`spec_lazy`] of the two streams.
pub fn lazy(attr: &Vec<Tok>, item: &Vec<Tok>) -> (r: Result<Vec<Tok>, LazyError>)
    ensures
        match r {
            Ok(out) => spec_lazy(toks_view(attr@), toks_view(item@)) == Ok::<_, LazyError>(
                toks_view(out@),
            ),
            Err(e) => spec_lazy(toks_view(attr@), toks_view(item@)) == Err::<Seq<TokView>, _>(e),
        },
{
    if attr.len() != 0 {
        return Err(LazyError::AttrNotEmpty);
    }
    match parse::parse(item) {
        Ok(d) => Ok(expand::expand(&d)),
        Err(e) => Err(LazyError::Parse(e)),
    }
}

} // verus!
