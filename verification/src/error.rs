//! What can go wrong, and what is worth another try.

use crate::codec::{serde_error_message, serde_error_text};
use crate::http::{HttpError, HttpErrorView};
use crate::text::{is_digit, occurs_in, stands_at, without_digits};
use vstd::prelude::*;

verus! {

/// Why an operation of the client failed.
#[derive(Debug)]
pub enum McpError {
    /// A request got no reply, or a reply no body.
    Http(HttpError),
    /// A text is no JSON document.
    Serialization(serde_json::Error),
    /// The server cannot be reached.
    Connection(String),
    /// The server answered in a way that the client cannot use.
    Protocol(String),
    /// The session could not be set up.
    Initialization(String),
    /// Anything else.
    Other(String),
}

/// What an `McpError` says.
pub enum McpErrorView {
    Http(HttpErrorView),
    Serialization(serde_json::Error),
    Connection(Seq<char>),
    Protocol(Seq<char>),
    Initialization(Seq<char>),
    Other(Seq<char>),
}

impl View for McpError {
    type V = McpErrorView;

    open spec fn view(&self) -> McpErrorView {
        match *self {
            McpError::Http(e) => McpErrorView::Http(e@),
            McpError::Serialization(e) => McpErrorView::Serialization(e),
            McpError::Connection(text) => McpErrorView::Connection(text@),
            McpError::Protocol(text) => McpErrorView::Protocol(text@),
            McpError::Initialization(text) => McpErrorView::Initialization(text@),
            McpError::Other(text) => McpErrorView::Other(text@),
        }
    }
}

/// A status that passes: the server is away for a moment, or does not know the session.
pub open spec fn passing_status(status: u16) -> bool {
    status == 404 || status == 500 || status == 502 || status == 503
}

/// The text names one of the statuses that pass.
pub open spec fn names_passing_status(text: Seq<char>) -> bool {
    ||| occurs_in("404"@, text)
    ||| occurs_in("503"@, text)
    ||| occurs_in("502"@, text)
    ||| occurs_in("500"@, text)
}

/// A text without digits names none of the statuses that pass.
pub proof fn lemma_names_nothing(text: Seq<char>)
    requires
        without_digits(text),
    ensures
        !names_passing_status(text),
{
    reveal_strlit("404");
    reveal_strlit("503");
    reveal_strlit("502");
    reveal_strlit("500");
    assert forall|number: Seq<char>| number.len() == 3 && is_digit(number[0]) implies !occurs_in(
        number,
        text,
    ) by {
        assert forall|at: int| !stands_at(text, number, at) by {
            if stands_at(text, number, at) {
                assert(text.subrange(at, at + 3)[0] == text[at]);
            }
        }
    }
    assert(is_digit("404"@[0]) && is_digit("503"@[0]) && is_digit("502"@[0]) && is_digit(
        "500"@[0],
    ));
}

impl McpErrorView {
    /// The error in words.
    pub open spec fn message(self) -> Seq<char> {
        match self {
            McpErrorView::Http(e) => "HTTP request error: "@ + e.message,
            McpErrorView::Serialization(e) => "Serialization error: "@ + serde_error_text(e),
            McpErrorView::Connection(text) => "Connection failed: "@ + text,
            McpErrorView::Protocol(text) => "Protocol error: "@ + text,
            McpErrorView::Initialization(text) => "Initialization failed: "@ + text,
            McpErrorView::Other(text) => "Other error: "@ + text,
        }
    }

    /// The operation may succeed when it is tried again: the connection failed, or the server
    /// named one of the statuses that pass.
    pub open spec fn retryable(self) -> bool {
        match self {
            McpErrorView::Http(e) => e.connect || e.timeout || e.request,
            McpErrorView::Connection(_) => true,
            McpErrorView::Protocol(text) => names_passing_status(text),
            _ => false,
        }
    }
}

impl McpError {
    /// The error in words.
    pub fn message(&self) -> (text: String)
        ensures
            text@ == self@.message(),
    {
        match self {
            McpError::Http(e) => "HTTP request error: ".to_string().concat(e.message.as_str()),
            McpError::Serialization(e) => {
                let detail = serde_error_message(e);
                "Serialization error: ".to_string().concat(detail.as_str())
            },
            McpError::Connection(text) => "Connection failed: ".to_string().concat(text.as_str()),
            McpError::Protocol(text) => "Protocol error: ".to_string().concat(text.as_str()),
            McpError::Initialization(text) => "Initialization failed: ".to_string().concat(
                text.as_str(),
            ),
            McpError::Other(text) => "Other error: ".to_string().concat(text.as_str()),
        }
    }
}

impl From<HttpError> for McpError {
    fn from(error: HttpError) -> (wrapped: McpError) {
        McpError::Http(error)
    }
}

impl vstd::std_specs::convert::FromSpecImpl<HttpError> for McpError {
    open spec fn obeys_from_spec() -> bool {
        true
    }

    open spec fn from_spec(error: HttpError) -> McpError {
        McpError::Http(error)
    }
}

impl From<serde_json::Error> for McpError {
    fn from(error: serde_json::Error) -> (wrapped: McpError) {
        McpError::Serialization(error)
    }
}

impl vstd::std_specs::convert::FromSpecImpl<serde_json::Error> for McpError {
    open spec fn obeys_from_spec() -> bool {
        true
    }

    open spec fn from_spec(error: serde_json::Error) -> McpError {
        McpError::Serialization(error)
    }
}

} // verus!
