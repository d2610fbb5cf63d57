//! A request that is ready to be sent: verb, target and body.

use crate::endpoint::{as_str, joined, url_text};
use crate::error::{outcome, Error, ErrorView};
use crate::json::{Json, JsonView};
use crate::types::RequestType;
use url::{ParseError, Url};
use vstd::prelude::*;

verus! {

/// The mathematical value of a [`Request`].
pub struct RequestView {
    pub rtype: RequestType,
    /// The serialisation of the target URL.
    pub url: Seq<char>,
    pub body: Option<JsonView>,
}

/// An HTTP request of the API.
#[derive(Debug, PartialEq, Eq)]
pub struct Request {
    /// The verb.
    pub rtype: RequestType,
    /// The absolute URL that the request goes to.
    pub url: Url,
    /// The JSON document that is sent along, if any.
    pub body: Option<Json>,
}

/// The value of a body that may be absent.
pub open spec fn body_view(body: Option<Json>) -> Option<JsonView> {
    match body {
        Some(document) => Some(document@),
        None => None,
    }
}

impl View for Request {
    type V = RequestView;

    open spec fn view(&self) -> RequestView {
        RequestView { rtype: self.rtype, url: url_text(self.url), body: body_view(self.body) }
    }
}

/// The request for `path` below the base URL with serialisation `base`: it
/// goes to the URL that the path resolves to, and there is none where the
/// path does not resolve.
pub open spec fn prepared(
    base: Seq<char>,
    rtype: RequestType,
    path: Seq<char>,
    body: Option<JsonView>,
) -> Result<RequestView, ErrorView> {
    match joined(base, path) {
        Ok(target) => Ok(RequestView { rtype, url: target, body }),
        Err(cause) => Err(ErrorView::Url(cause)),
    }
}

impl Request {
    /// Makes the request out of its parts, once the target has been
    /// resolved: a target that could not be resolved is the error.
    pub fn assemble(rtype: RequestType, target: Result<Url, ParseError>, body: Option<Json>) -> (r:
        Result<Request, Error>)
        ensures
            outcome(r) == match target {
                Ok(url) => Ok(RequestView { rtype, url: url_text(url), body: body_view(body) }),
                Err(cause) => Err::<RequestView, ErrorView>(ErrorView::Url(cause)),
            },
    {
        match target {
            Ok(url) => Ok(Request { rtype, url, body }),
            Err(cause) => Err(Error::Url(cause)),
        }
    }

    /// The serialisation of the target URL.
    pub fn target(&self) -> (text: &str)
        ensures
            text@ == self@.url,
    {
        as_str(&self.url)
    }
}

} // verus!
