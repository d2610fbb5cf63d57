//! The URLs that requests are sent to, kept by the `url` crate.
//!
//! Resolving a path against a base URL is the work of that crate's parser.
//! Nothing in this module is proved: it declares the crate's types, gives
//! names to what its functions return, and states of each function that it
//! returns what its name says.

use url::{ParseError, Url};
use vstd::prelude::*;

verus! {

/// `url::Url`, a parsed URL. Nothing is known of what is inside one.
#[verifier::external_type_specification]
#[verifier::external_body]
pub struct ExUrl(url::Url);

/// `url::ParseError`, the reason why a text is no URL. Nothing is known of
/// what is inside one.
#[verifier::external_type_specification]
#[verifier::external_body]
pub struct ExParseError(url::ParseError);

/// The serialisation of a URL: the text that `Url::as_str` returns. A URL
/// is the parse of its serialisation, so two URLs with the same
/// serialisation are the same URL.
pub uninterp spec fn url_text(url: Url) -> Seq<char>;

/// What `Url::join` makes of a reference resolved against the base URL with
/// the given serialisation: the serialisation of the resulting URL, or the
/// parser's error where the reference cannot be resolved.
pub uninterp spec fn joined(base: Seq<char>, reference: Seq<char>) -> Result<
    Seq<char>,
    ParseError,
>;

/// `Url::as_str`: returns the serialisation of the URL, which is what
/// `url_text` names.
#[verifier::external_body]
pub(crate) fn as_str(url: &Url) -> (text: &str)
    ensures
        text@ == url_text(*url),
{
    url.as_str()
}

/// `Url::join`: parses `reference` with `base` as the base URL. The
/// contract says nothing of how the parser resolves a reference, only that
/// the outcome is the one that `joined` names: the same base and the same
/// reference always give the same URL or the same error.
#[verifier::external_body]
pub(crate) fn join(base: &Url, reference: &str) -> (r: Result<Url, ParseError>)
    ensures
        joined(url_text(*base), reference@) == match r {
            Ok(url) => Ok::<Seq<char>, ParseError>(url_text(url)),
            Err(cause) => Err(cause),
        },
{
    base.join(reference)
}

} // verus!
