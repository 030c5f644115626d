//! The syntax check that a feed URL has to pass.

use vstd::prelude::*;

verus! {

/// Whether `http::Uri` takes a text for a URI: whether parsing it succeeds.
pub uninterp spec fn is_uri(text: Seq<char>) -> bool;

/// Parses `text` with `<http::Uri as FromStr>::from_str`, the parser that
/// `axum` hands on as `axum::http::Uri`, and says whether that succeeded.
/// Trusted: the outcome is only given the name `is_uri`; that it depends on
/// the text alone is what the contract claims.
#[verifier::external_body]
pub(crate) fn parses_as_uri(text: &str) -> (r: bool)
    ensures
        r == is_uri(text@),
{
    text.parse::<http::Uri>().is_ok()
}

} // verus!
