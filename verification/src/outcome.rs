//! How an authorization flow can end, and how it can fail to start.

use vstd::prelude::*;
use vstd::string::StringExecFns;

verus! {

/// The outcome of one authorization flow.
#[derive(Debug, PartialEq, Eq)]
pub enum OAuthFlowResult {
    /// The identity provider redirected to the callback address. Holds that
    /// address in full, query string included, exactly as it was delivered.
    Success(String),
    /// The window was closed before any redirect was seen.
    Cancelled,
    /// The flow's deadline passed without a redirect or a close.
    TimedOut,
}

/// An [`OAuthFlowResult`] as a mathematical value.
pub enum Resolution {
    Success(Seq<char>),
    Cancelled,
    TimedOut,
}

impl View for OAuthFlowResult {
    type V = Resolution;

    open spec fn view(&self) -> Resolution {
        match self {
            OAuthFlowResult::Success(callback_url) => Resolution::Success(callback_url@),
            OAuthFlowResult::Cancelled => Resolution::Cancelled,
            OAuthFlowResult::TimedOut => Resolution::TimedOut,
        }
    }
}

impl Clone for OAuthFlowResult {
    fn clone(&self) -> (copy: Self)
        ensures
            copy@ == self@,
    {
        match self {
            OAuthFlowResult::Success(callback_url) => OAuthFlowResult::Success(callback_url.clone()),
            OAuthFlowResult::Cancelled => OAuthFlowResult::Cancelled,
            OAuthFlowResult::TimedOut => OAuthFlowResult::TimedOut,
        }
    }
}

/// Why a flow did not start.
#[derive(Debug, PartialEq, Eq)]
pub enum FlowError {
    /// The authorization address is not a well-formed absolute URL. Holds the
    /// parser's description of what is wrong with it.
    InvalidUrl(String),
    /// The address is well-formed but would carry credentials over a
    /// transport that is not allowed.
    InsecureScheme,
    /// The host could not create the sign-in window. Holds the host's
    /// description of the failure.
    WindowCreationFailed(String),
}

/// A [`FlowError`] as a mathematical value.
pub enum Failure {
    InvalidUrl(Seq<char>),
    InsecureScheme,
    WindowCreationFailed(Seq<char>),
}

impl View for FlowError {
    type V = Failure;

    open spec fn view(&self) -> Failure {
        match self {
            FlowError::InvalidUrl(detail) => Failure::InvalidUrl(detail@),
            FlowError::InsecureScheme => Failure::InsecureScheme,
            FlowError::WindowCreationFailed(detail) => Failure::WindowCreationFailed(detail@),
        }
    }
}

/// The text a caller receives for `failure`.
pub open spec fn failure_message(failure: Failure) -> Seq<char> {
    match failure {
        Failure::InvalidUrl(detail) => "Invalid URL: "@ + detail,
        Failure::InsecureScheme => "OAuth URL must use HTTPS"@,
        Failure::WindowCreationFailed(detail) => "Failed to create OAuth window: "@ + detail,
    }
}

/// What a caller receives for `resolution`: the callback address, or one of
/// the two error codes.
pub open spec fn reply_for(resolution: Resolution) -> Result<Seq<char>, Seq<char>> {
    match resolution {
        Resolution::Success(callback_url) => Ok(callback_url),
        Resolution::Cancelled => Err("OAUTH_CANCELLED"@),
        Resolution::TimedOut => Err("OAUTH_TIMEOUT"@),
    }
}

/// A reply to the caller as a mathematical value.
pub open spec fn reply_view(reply: Result<String, String>) -> Result<Seq<char>, Seq<char>> {
    match reply {
        Ok(callback_url) => Ok(callback_url@),
        Err(code) => Err(code@),
    }
}

impl FlowError {
    /// The text handed to the caller for this failure.
    pub fn message(&self) -> (text: String)
        ensures
            text@ == failure_message(self@),
    {
        match self {
            FlowError::InvalidUrl(detail) => {
                "Invalid URL: ".to_owned().concat(detail.as_str())
            },
            FlowError::InsecureScheme => "OAuth URL must use HTTPS".to_owned(),
            FlowError::WindowCreationFailed(detail) => {
                "Failed to create OAuth window: ".to_owned().concat(detail.as_str())
            },
        }
    }

    /// The reply for a flow that failed to start: always an error, carrying
    /// [`FlowError::message`].
    pub fn into_reply(self) -> (reply: Result<String, String>)
        ensures
            reply_view(reply) == Err::<Seq<char>, Seq<char>>(failure_message(self@)),
    {
        Err(self.message())
    }
}

impl OAuthFlowResult {
    /// The reply for a flow that ended this way: the callback address on
    /// success, `OAUTH_CANCELLED` or `OAUTH_TIMEOUT` otherwise.
    pub fn into_reply(self) -> (reply: Result<String, String>)
        ensures
            reply_view(reply) == reply_for(self@),
    {
        match self {
            OAuthFlowResult::Success(callback_url) => Ok(callback_url),
            OAuthFlowResult::Cancelled => Err("OAUTH_CANCELLED".to_owned()),
            OAuthFlowResult::TimedOut => Err("OAUTH_TIMEOUT".to_owned()),
        }
    }
}

/// The two error codes of a resolved flow differ from each other and from
/// every message of a flow that failed to start, whatever detail that message
/// carries: a caller can tell each kind of reply from the text alone.
pub proof fn lemma_codes_are_distinct(failure: Failure)
    ensures
        reply_for(Resolution::Cancelled) != reply_for(Resolution::TimedOut),
        failure_message(failure) != "OAUTH_CANCELLED"@,
        failure_message(failure) != "OAUTH_TIMEOUT"@,
{
    reveal_strlit("OAUTH_CANCELLED");
    reveal_strlit("OAUTH_TIMEOUT");
    reveal_strlit("Invalid URL: ");
    reveal_strlit("OAuth URL must use HTTPS");
    reveal_strlit("Failed to create OAuth window: ");
    assert("OAUTH_CANCELLED"@.len() != "OAUTH_TIMEOUT"@.len());
    let message = failure_message(failure);
    match failure {
        Failure::InvalidUrl(detail) => {
            assert(message[0] == 'I');
        },
        Failure::InsecureScheme => {
            assert(message[2] == 'u');
        },
        Failure::WindowCreationFailed(detail) => {
            assert(message[0] == 'F');
        },
    }
    assert("OAUTH_CANCELLED"@[0] == 'O' && "OAUTH_CANCELLED"@[2] == 'U');
    assert("OAUTH_TIMEOUT"@[0] == 'O' && "OAUTH_TIMEOUT"@[2] == 'U');
}

/// Failures with the same message are the same failure: the message keeps
/// the kind of the failure and its detail.
pub proof fn lemma_message_identifies_failure(left: Failure, right: Failure)
    requires
        failure_message(left) == failure_message(right),
    ensures
        left == right,
{
    reveal_strlit("Invalid URL: ");
    reveal_strlit("OAuth URL must use HTTPS");
    reveal_strlit("Failed to create OAuth window: ");
    let invalid = "Invalid URL: "@;
    let window = "Failed to create OAuth window: "@;
    assert(failure_message(left)[0] == match left {
        Failure::InvalidUrl(_) => 'I',
        Failure::InsecureScheme => 'O',
        Failure::WindowCreationFailed(_) => 'F',
    });
    assert(failure_message(right)[0] == match right {
        Failure::InvalidUrl(_) => 'I',
        Failure::InsecureScheme => 'O',
        Failure::WindowCreationFailed(_) => 'F',
    });
    match (left, right) {
        (Failure::InvalidUrl(a), Failure::InvalidUrl(b)) => {
            assert((invalid + a).skip(invalid.len() as int) =~= a);
            assert((invalid + b).skip(invalid.len() as int) =~= b);
        },
        (Failure::WindowCreationFailed(a), Failure::WindowCreationFailed(b)) => {
            assert((window + a).skip(window.len() as int) =~= a);
            assert((window + b).skip(window.len() as int) =~= b);
        },
        _ => {},
    }
}

} // verus!
