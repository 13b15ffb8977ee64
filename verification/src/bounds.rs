//! The attribute parser: the macro's argument text as an ordered list of
//! trait-bound texts.
//!
//! What counts as a trait bound is the host grammar's business, so the
//! parse itself is delegated to the host-grammar library and only named
//! here; everything downstream of the parse is verified against that
//! name.

use vstd::prelude::*;
use crate::model::ExpandError;

verus! {

/// What the host grammar makes of an attribute text: `Some` of the bound
/// texts, in input order, where the text is a comma-separated list of
/// trait bounds (a trailing comma allowed, the empty text giving the
/// empty list); `None` where some element cannot be parsed as a trait
/// bound.
pub uninterp spec fn parsed_bounds(s: Seq<char>) -> Option<Seq<Seq<char>>>;

/// Relies on syn's `Punctuated::<TraitBound, Comma>::parse_terminated`,
/// run over the text through `syn::parse::Parser::parse_str`, to parse
/// the attribute text as a comma-separated trait-bound list with optional
/// trailing comma, and on `quote::ToTokens::to_token_stream` to give each
/// parsed bound back as its own token text. The outcome is a function of
/// the text alone; per the parser's contract, the empty text parses as
/// zero occurrences.
#[verifier::external_body]
fn parse_bound_list(attr: &str) -> (r: Result<Vec<String>, ExpandError>)
    ensures
        r is Ok <==> parsed_bounds(attr@) is Some,
        r matches Ok(bounds) ==> bounds.deep_view() == parsed_bounds(attr@).unwrap(),
        r matches Err(e) ==> e is MalformedBounds && attr@.len() != 0,
        r matches Ok(bounds) ==> (attr@.len() == 0 ==> bounds@.len() == 0),
{
    let parser = syn::punctuated::Punctuated::<syn::TraitBound, syn::token::Comma>::parse_terminated;
    match syn::parse::Parser::parse_str(parser, attr) {
        Ok(list) => Ok(list
            .into_iter()
            .map(|b| quote::ToTokens::to_token_stream(&b).to_string())
            .collect()),
        Err(e) => Err(ExpandError::MalformedBounds { message: e.to_string() }),
    }
}

/// Parses the attribute text into the ordered bound list.
///
/// Succeeds exactly when the text is a valid comma-separated trait-bound
/// list, preserving input order; the empty text yields the empty list; on
/// failure the error is the malformed-bounds diagnostic. No semantic
/// validation of the bounds happens here or anywhere else: duplicates and
/// contradictions pass through for the host compiler to judge.
pub fn parse_bounds(attr: &str) -> (r: Result<Vec<String>, ExpandError>)
    ensures
        r is Ok <==> parsed_bounds(attr@) is Some,
        r matches Ok(bounds) ==> bounds.deep_view() == parsed_bounds(attr@).unwrap(),
        r matches Err(e) ==> e is MalformedBounds,
        attr@.len() == 0 ==> (r matches Ok(bounds) && bounds@.len() == 0),
{
    parse_bound_list(attr)
}

} // verus!
