//! A download request: the target as it was given, the URL it parses to, and
//! the verbosity.

use vstd::prelude::*;
use vstd::string::StringExecFns;

use crate::error::DownloadError;
use crate::verbosity::Verbosity;

verus! {

/// The serialization of the absolute URL that `target` parses to, or nothing
/// when `target` is not a well-formed absolute URL.
pub uninterp spec fn parsed_url(target: Seq<char>) -> Option<Seq<char>>;

/// `reqwest::Url::parse`, with the parsed URL handed back as its
/// serialization and the parse error dropped. The result is the URL that the
/// target parses to, which depends on the target alone.
#[verifier::external_body]
fn parse_url(target: &str) -> (url: Option<String>)
    ensures
        url.deep_view() == parsed_url(target@),
{
    match reqwest::Url::parse(target) {
        Ok(url) => Some(String::from(url)),
        Err(_) => None,
    }
}

/// A request as contracts see it.
pub struct RequestView {
    /// The target as it was given.
    pub target: Seq<char>,
    /// The serialization of the URL the target parses to.
    pub url: Seq<char>,
    /// How much is said while the download runs.
    pub verbosity: Verbosity,
}

/// A validated download request. It does not change once made.
#[derive(Clone, Debug, PartialEq, Eq)]
pub struct Request {
    target: String,
    url: String,
    verbosity: Verbosity,
}

impl View for Request {
    type V = RequestView;

    closed spec fn view(&self) -> RequestView {
        RequestView { target: self.target@, url: self.url@, verbosity: self.verbosity }
    }
}

/// The request made from a target and the outcome of parsing it: a request
/// for the parsed URL, or a URL parse error when the target did not parse.
pub open spec fn spec_request(
    target: Seq<char>,
    parsed: Option<Seq<char>>,
    verbosity: Verbosity,
) -> Result<RequestView, DownloadError> {
    match parsed {
        Some(url) => Ok(RequestView { target, url, verbosity }),
        None => Err(DownloadError::UrlParse),
    }
}

/// The view of a request that was made, or the error.
pub open spec fn request_view(request: Result<Request, DownloadError>) -> Result<
    RequestView,
    DownloadError,
> {
    match request {
        Ok(r) => Ok(r@),
        Err(e) => Err(e),
    }
}

impl Request {
    /// Makes the request for a target, given what the target parsed to.
    pub fn from_parsed(target: &str, parsed: Option<String>, verbosity: Verbosity) -> (request:
        Result<Request, DownloadError>)
        ensures
            request_view(request) == spec_request(target@, parsed.deep_view(), verbosity),
    {
        match parsed {
            Some(url) => Ok(Request { target: String::from_str(target), url, verbosity }),
            None => Err(DownloadError::UrlParse),
        }
    }

    /// Validates the target and makes the request for it. A target that is
    /// not a well-formed absolute URL is refused with a URL parse error.
    pub fn new(target: &str, verbosity: Verbosity) -> (request: Result<Request, DownloadError>)
        ensures
            request_view(request) == spec_request(target@, parsed_url(target@), verbosity),
    {
        Request::from_parsed(target, parse_url(target), verbosity)
    }

    /// The target as it was given.
    pub fn target(&self) -> (target: &str)
        ensures
            target@ == self@.target,
    {
        self.target.as_str()
    }

    /// The URL to send the request to.
    pub fn url(&self) -> (url: &str)
        ensures
            url@ == self@.url,
    {
        self.url.as_str()
    }

    /// How much is said while the download runs.
    pub fn verbosity(&self) -> (verbosity: Verbosity)
        ensures
            verbosity == self@.verbosity,
    {
        self.verbosity
    }
}

} // verus!
