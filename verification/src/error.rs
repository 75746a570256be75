//! The two ways in which building a source can fail.

use vstd::prelude::*;

verus! {

/// The text carried by every connectivity failure.
pub open spec fn connect_failure_text() -> Seq<char> {
    "could not connect to provider"@
}

/// The text shown when no endpoint can be determined.
pub open spec fn missing_endpoint_text() -> Seq<char> {
    "must provide --rpc or set ETH_RPC_URL"@
}

/// Why a source could not be built.
#[derive(Debug)]
pub enum ParseError {
    /// A recoverable failure, with its message.
    ParseError(String),
    /// Neither an explicit endpoint nor a fallback was given. This is a
    /// misconfiguration that a program is expected to stop on.
    MissingEndpoint,
}

impl ParseError {
    /// The message of this error, as a sequence of characters.
    pub open spec fn text(self) -> Seq<char> {
        match self {
            ParseError::ParseError(message) => message@,
            ParseError::MissingEndpoint => missing_endpoint_text(),
        }
    }

    /// Whether this error is the connectivity failure.
    pub open spec fn is_connect_failure(self) -> bool {
        self matches ParseError::ParseError(message) && message@ == connect_failure_text()
    }

    /// The one error that stands for every connectivity failure, whatever
    /// its cause.
    pub fn could_not_connect() -> (error: ParseError)
        ensures
            error.is_connect_failure(),
    {
        ParseError::ParseError("could not connect to provider".to_owned())
    }

    /// True for the misconfiguration that leaves no endpoint to connect to.
    pub fn is_fatal(&self) -> (fatal: bool)
        ensures
            fatal == (*self is MissingEndpoint),
    {
        match self {
            ParseError::ParseError(_) => false,
            ParseError::MissingEndpoint => true,
        }
    }

    /// The message of this error.
    pub fn message(&self) -> (message: String)
        ensures
            message@ == self.text(),
    {
        match self {
            ParseError::ParseError(message) => message.clone(),
            ParseError::MissingEndpoint => "must provide --rpc or set ETH_RPC_URL".to_owned(),
        }
    }
}

/// Connectivity failures are not told apart: each carries the one fixed
/// message, and none of them is the misconfiguration.
pub proof fn lemma_connect_failures_agree(first: ParseError, second: ParseError)
    requires
        first.is_connect_failure(),
        second.is_connect_failure(),
    ensures
        first.text() == connect_failure_text(),
        first.text() == second.text(),
        !(first is MissingEndpoint),
{
}

} // verus!
