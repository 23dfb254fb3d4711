//! What the answers of the player mean.
//!
//! The player is reached over HTTP on the loopback interface. Talking to it
//! is not done here; here is what the session makes of its answers.

use crate::session::types::{CoreError, CoreErrorView};
use crate::text::{decimal, push_decimal};
use vstd::prelude::*;
use vstd::string::StringExecFns;

verus! {

/// The port on which the player listens unless told otherwise.
pub const DEFAULT_PORT: u16 = 10767;

/// The player has this many milliseconds to accept a connection.
pub const CONNECTION_TIMEOUT_MS: u64 = 1000;

/// The player has this many milliseconds to answer a request.
pub const REQUEST_TIMEOUT_MS: u64 = 2000;

/// What can go wrong with the player.
#[derive(Debug, PartialEq, Eq)]
pub enum CiderError {
    /// The request failed on the way.
    Http(String),
    NotReachable,
    /// The player does not take the token.
    Unauthorized,
    NothingPlaying,
    /// The player answered with an error.
    Api(String),
}

/// A [`CiderError`] as mathematics.
pub enum CiderErrorView {
    Http(Seq<char>),
    NotReachable,
    Unauthorized,
    NothingPlaying,
    Api(Seq<char>),
}

impl View for CiderError {
    type V = CiderErrorView;

    open spec fn view(&self) -> CiderErrorView {
        match *self {
            CiderError::Http(reason) => CiderErrorView::Http(reason@),
            CiderError::NotReachable => CiderErrorView::NotReachable,
            CiderError::Unauthorized => CiderErrorView::Unauthorized,
            CiderError::NothingPlaying => CiderErrorView::NothingPlaying,
            CiderError::Api(reason) => CiderErrorView::Api(reason@),
        }
    }
}

/// How a request failed on the way.
#[derive(Debug, PartialEq, Eq)]
pub enum RequestFailure {
    /// No connection was made.
    Connect(String),
    /// The time ran out.
    Timeout,
    /// Something else.
    Other(String),
}

/// A [`RequestFailure`] as mathematics.
pub enum RequestFailureView {
    Connect(Seq<char>),
    Timeout,
    Other(Seq<char>),
}

impl View for RequestFailure {
    type V = RequestFailureView;

    open spec fn view(&self) -> RequestFailureView {
        match *self {
            RequestFailure::Connect(reason) => RequestFailureView::Connect(reason@),
            RequestFailure::Timeout => RequestFailureView::Timeout,
            RequestFailure::Other(reason) => RequestFailureView::Other(reason@),
        }
    }
}

impl CiderErrorView {
    /// The error in words.
    pub open spec fn message(self) -> Seq<char> {
        match self {
            CiderErrorView::Http(reason) => "HTTP request failed: "@ + reason,
            CiderErrorView::NotReachable => "Cider is not running or not reachable"@,
            CiderErrorView::Unauthorized => "Invalid API token"@,
            CiderErrorView::NothingPlaying => "No track currently playing"@,
            CiderErrorView::Api(reason) => "API error: "@ + reason,
        }
    }

    /// What the user is told when the check of the connection fails.
    pub open spec fn connection_error(self) -> CoreErrorView {
        match self {
            CiderErrorView::Unauthorized => CoreErrorView::CiderApiError("Invalid API token"@),
            CiderErrorView::Api(reason) => CoreErrorView::CiderApiError(reason),
            CiderErrorView::Http(reason) => CoreErrorView::NetworkError(reason),
            _ => CoreErrorView::CiderApiError(self.message()),
        }
    }

    /// What the user is told when a question to the player fails.
    pub open spec fn query_error(self) -> CoreErrorView {
        match self {
            CiderErrorView::NotReachable => CoreErrorView::CiderNotReachable,
            _ => CoreErrorView::CiderApiError(self.message()),
        }
    }
}

/// What the answer to the question whether the player is there means, by
/// its HTTP status: 200 and 204 that it is, 401 and 403 that it does not
/// take the token, anything else an error of the player.
pub open spec fn status_meaning(status: u16) -> Result<(), CiderErrorView> {
    if status == 200 || status == 204 {
        Ok(())
    } else if status == 401 || status == 403 {
        Err(CiderErrorView::Unauthorized)
    } else {
        Err(CiderErrorView::Api("Unexpected response (HTTP "@ + decimal(status as nat) + ")"@))
    }
}

/// What a request that failed while checking for the player means.
pub open spec fn failure_meaning(failure: RequestFailureView) -> CiderErrorView {
    match failure {
        RequestFailureView::Connect(reason) => CiderErrorView::Api(
            "Connection refused ("@ + reason + ")"@,
        ),
        RequestFailureView::Timeout => CiderErrorView::Api("Connection timed out"@),
        RequestFailureView::Other(reason) => CiderErrorView::Api(
            "Network error ("@ + reason + ")"@,
        ),
    }
}

/// Whether the answer to the question what is playing says that nothing
/// is: the status is 404 or 204.
pub open spec fn says_nothing_playing(status: u16) -> bool {
    status == 404 || status == 204
}

/// The address of the player on the port `port`.
pub open spec fn base_url_spec(port: u16) -> Seq<char> {
    "http://127.0.0.1:"@ + decimal(port as nat)
}

/// The address of the endpoint `path` of the player at `base_url`.
pub open spec fn endpoint_spec(base_url: Seq<char>, path: Seq<char>) -> Seq<char> {
    base_url + "/api/v1/playback"@ + path
}

impl CiderError {
    /// The error in words.
    pub fn message(&self) -> (message: String)
        ensures
            message@ == self@.message(),
    {
        match self {
            CiderError::Http(reason) => String::from_str("HTTP request failed: ").concat(
                reason.as_str(),
            ),
            CiderError::NotReachable => String::from_str("Cider is not running or not reachable"),
            CiderError::Unauthorized => String::from_str("Invalid API token"),
            CiderError::NothingPlaying => String::from_str("No track currently playing"),
            CiderError::Api(reason) => String::from_str("API error: ").concat(reason.as_str()),
        }
    }

    /// What the user is told when the check of the connection fails.
    pub fn into_connection_error(self) -> (error: CoreError)
        ensures
            error@ == self@.connection_error(),
    {
        match self {
            CiderError::Unauthorized => CoreError::CiderApiError(
                String::from_str("Invalid API token"),
            ),
            CiderError::Api(reason) => CoreError::CiderApiError(reason),
            CiderError::Http(reason) => CoreError::NetworkError(reason),
            other => CoreError::CiderApiError(other.message()),
        }
    }

    /// What the user is told when a question to the player fails.
    pub fn into_query_error(self) -> (error: CoreError)
        ensures
            error@ == self@.query_error(),
    {
        match self {
            CiderError::NotReachable => CoreError::CiderNotReachable,
            other => CoreError::CiderApiError(other.message()),
        }
    }
}

/// What the answer to the question whether the player is there means.
pub fn check_status(status: u16) -> (meaning: Result<(), CiderError>)
    ensures
        meaning is Ok <==> status_meaning(status) is Ok,
        meaning matches Err(error) ==> status_meaning(status) == Err::<(), CiderErrorView>(error@),
{
    if status == 200 || status == 204 {
        Ok(())
    } else if status == 401 || status == 403 {
        Err(CiderError::Unauthorized)
    } else {
        let mut reason = String::from_str("Unexpected response (HTTP ");
        push_decimal(&mut reason, status as u64);
        reason.append(")");
        Err(CiderError::Api(reason))
    }
}

/// What a request that failed while checking for the player means.
pub fn check_failure(failure: RequestFailure) -> (error: CiderError)
    ensures
        error@ == failure_meaning(failure@),
{
    match failure {
        RequestFailure::Connect(reason) => CiderError::Api(
            String::from_str("Connection refused (").concat(reason.as_str()).concat(")"),
        ),
        RequestFailure::Timeout => CiderError::Api(String::from_str("Connection timed out")),
        RequestFailure::Other(reason) => CiderError::Api(
            String::from_str("Network error (").concat(reason.as_str()).concat(")"),
        ),
    }
}

/// Whether the answer to the question what is playing says that nothing
/// is.
pub fn nothing_playing(status: u16) -> (nothing: bool)
    ensures
        nothing == says_nothing_playing(status),
{
    status == 404 || status == 204
}

/// The address of the player on the port `port`.
pub fn base_url(port: u16) -> (url: String)
    ensures
        url@ == base_url_spec(port),
{
    let mut url = String::from_str("http://127.0.0.1:");
    push_decimal(&mut url, port as u64);
    url
}

/// The address of the endpoint `path` of the player at `base_url`.
pub fn endpoint(base_url: &str, path: &str) -> (url: String)
    ensures
        url@ == endpoint_spec(base_url@, path@),
{
    String::from_str(base_url).concat("/api/v1/playback").concat(path)
}

} // verus!
