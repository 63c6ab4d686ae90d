//! Admitting an authorization address.
//!
//! A flow sends the user's credentials to whatever address it is given, so
//! the address is checked before anything else happens: it must be a
//! well-formed absolute URL, and it must use `https`, or `http` to the host
//! `localhost` (an allowance for development).

use vstd::prelude::*;
use crate::outcome::{Failure, FlowError};
use crate::text::same_text;

verus! {

/// The parts of a parsed URL that the admission rule reads.
#[derive(Debug, PartialEq, Eq)]
pub struct UrlParts {
    /// The scheme, without the `:` that follows it.
    pub scheme: String,
    /// The host, where the URL has one.
    pub host: Option<String>,
}

/// [`UrlParts`] as a mathematical value.
pub struct UrlPartsView {
    pub scheme: Seq<char>,
    pub host: Option<Seq<char>>,
}

impl View for UrlParts {
    type V = UrlPartsView;

    open spec fn view(&self) -> UrlPartsView {
        UrlPartsView {
            scheme: self.scheme@,
            host: match self.host {
                Some(host) => Some(host@),
                None => None,
            },
        }
    }
}

/// The result of parsing a text as a URL, as a mathematical value.
pub open spec fn parse_view(parsed: Result<UrlParts, String>) -> Result<UrlPartsView, Seq<char>> {
    match parsed {
        Ok(parts) => Ok(parts@),
        Err(detail) => Err(detail@),
    }
}

/// What the `url` crate makes of `text`: the scheme and host of the URL that
/// `url::Url::parse` reads from it, or the text of the parse error.
pub uninterp spec fn parsed_url(text: Seq<char>) -> Result<UrlPartsView, Seq<char>>;

/// Parses `text` with `url::Url::parse`.
///
/// Trusted: on success the result holds what `Url::scheme` and
/// `Url::host_str` return for the parsed URL, on failure what the
/// `url::ParseError` displays as. The parser reads nothing but `text`, so the
/// result is the value that [`parsed_url`] names.
#[verifier::external_body]
fn parse_url(text: &str) -> (parsed: Result<UrlParts, String>)
    ensures
        parse_view(parsed) == parsed_url(text@),
{
    url::Url::parse(text)
        .map(|url| UrlParts { scheme: url.scheme().to_owned(), host: url.host_str().map(str::to_owned) })
        .map_err(|error| error.to_string())
}

/// The admission rule: `https` to any host, or `http` to `localhost`.
pub open spec fn transport_allowed(parts: UrlPartsView) -> bool {
    ||| parts.scheme == "https"@
    ||| (parts.scheme == "http"@ && parts.host == Some("localhost"@))
}

/// The verdict on an address, given what parsing it produced.
pub open spec fn verdict(parsed: Result<UrlPartsView, Seq<char>>) -> Result<(), Failure> {
    match parsed {
        Err(detail) => Err(Failure::InvalidUrl(detail)),
        Ok(parts) => if transport_allowed(parts) {
            Ok(())
        } else {
            Err(Failure::InsecureScheme)
        },
    }
}

/// Whether `text` may be used as an authorization address.
pub open spec fn admissible(text: Seq<char>) -> bool {
    verdict(parsed_url(text)) is Ok
}

/// A verdict as a mathematical value.
pub open spec fn verdict_view(outcome: Result<(), FlowError>) -> Result<(), Failure> {
    match outcome {
        Ok(()) => Ok(()),
        Err(error) => Err(error@),
    }
}

/// Whether the scheme and host in `parts` satisfy the admission rule.
pub fn check_transport(parts: &UrlParts) -> (allowed: bool)
    ensures
        allowed == transport_allowed(parts@),
{
    if same_text(parts.scheme.as_str(), "https") {
        true
    } else if same_text(parts.scheme.as_str(), "http") {
        match &parts.host {
            Some(host) => same_text(host.as_str(), "localhost"),
            None => false,
        }
    } else {
        false
    }
}

/// Judges an address from the result of parsing it: a parse failure is an
/// invalid URL, a parsed URL is admitted exactly if [`check_transport`]
/// allows it.
pub fn judge(parsed: Result<UrlParts, String>) -> (outcome: Result<(), FlowError>)
    ensures
        verdict_view(outcome) == verdict(parse_view(parsed)),
{
    match parsed {
        Err(detail) => Err(FlowError::InvalidUrl(detail)),
        Ok(parts) => if check_transport(&parts) {
            Ok(())
        } else {
            Err(FlowError::InsecureScheme)
        },
    }
}

/// An authorization address that has been admitted.
///
/// The only way to obtain one is [`OAuthFlowRequest::new`], and the address
/// cannot be changed afterwards.
#[derive(Debug)]
pub struct OAuthFlowRequest {
    url: String,
}

impl View for OAuthFlowRequest {
    type V = Seq<char>;

    closed spec fn view(&self) -> Seq<char> {
        self.url@
    }
}

/// A request or the reason there is none, as a mathematical value.
pub open spec fn request_view(outcome: Result<OAuthFlowRequest, FlowError>) -> Result<Seq<char>, Failure> {
    match outcome {
        Ok(request) => Ok(request@),
        Err(error) => Err(error@),
    }
}

/// What [`OAuthFlowRequest::new`] returns for `text`.
pub open spec fn admission(text: Seq<char>) -> Result<Seq<char>, Failure> {
    match verdict(parsed_url(text)) {
        Ok(()) => Ok(text),
        Err(failure) => Err(failure),
    }
}

impl OAuthFlowRequest {
    #[verifier::type_invariant]
    spec fn admitted(self) -> bool {
        admissible(self.url@)
    }

    /// Admits `url` as an authorization address, or says why it is refused:
    /// [`FlowError::InvalidUrl`] when it does not parse,
    /// [`FlowError::InsecureScheme`] when it parses but the admission rule
    /// does not allow its scheme and host.
    pub fn new(url: &str) -> (outcome: Result<OAuthFlowRequest, FlowError>)
        ensures
            request_view(outcome) == admission(url@),
    {
        match judge(parse_url(url)) {
            Ok(()) => Ok(OAuthFlowRequest { url: url.to_owned() }),
            Err(error) => Err(error),
        }
    }

    /// The admitted address, exactly as it was given.
    pub fn authorization_url(&self) -> (url: &str)
        ensures
            url@ == self@,
            admissible(url@),
    {
        proof {
            use_type_invariant(self);
        }
        self.url.as_str()
    }
}

/// An address that does not parse, or whose scheme is neither `https` nor
/// `http`, is never admitted: the first is refused as invalid, the second as
/// insecure.
pub proof fn lemma_other_schemes_are_refused(text: Seq<char>)
    requires
        parsed_url(text) matches Ok(parts) ==> parts.scheme != "https"@ && parts.scheme != "http"@,
    ensures
        !admissible(text),
        admission(text) == (match parsed_url(text) {
            Err(detail) => Err::<Seq<char>, Failure>(Failure::InvalidUrl(detail)),
            Ok(_) => Err::<Seq<char>, Failure>(Failure::InsecureScheme),
        }),
{
}

/// An `http` address to any host but `localhost`, or to no host at all, is
/// refused as insecure.
pub proof fn lemma_plain_http_needs_localhost(text: Seq<char>, parts: UrlPartsView)
    requires
        parsed_url(text) == Ok::<UrlPartsView, Seq<char>>(parts),
        parts.scheme == "http"@,
        parts.host != Some("localhost"@),
    ensures
        admission(text) == Err::<Seq<char>, Failure>(Failure::InsecureScheme),
{
    reveal_strlit("http");
    reveal_strlit("https");
    assert("http"@.len() != "https"@.len());
}

/// Every `https` address that parses is admitted, whatever its host.
pub proof fn lemma_https_is_admitted(text: Seq<char>, parts: UrlPartsView)
    requires
        parsed_url(text) == Ok::<UrlPartsView, Seq<char>>(parts),
        parts.scheme == "https"@,
    ensures
        admission(text) == Ok::<Seq<char>, Failure>(text),
{
}

} // verus!
