//! The failures of a transfer.

use vstd::prelude::*;
use vstd::string::StringExecFns;
use attohttpc::StatusCode;
use crate::text::{decimal, push_decimal};

verus! {

/// How the program is called; part of every usage message.
pub const USAGE: &'static str = "vnr <url> <output directory>";

/// Why a transfer, or one step of it, did not succeed.
#[derive(Debug, Clone, PartialEq, Eq)]
pub enum Error {
    /// The arguments cannot be used.
    Usage { message: String },
    /// The request did not reach the server or the answer did not arrive.
    Network { message: String },
    /// The server answered with a status outside 200..=299.
    Http { status: u16 },
    /// A header that the transfer relies on was not in the response.
    MissingHeader { name: String },
    /// Reading or writing on this machine failed.
    Io { message: String },
    /// A ranged response announced another length than the one asked for.
    UnexpectedContentLength(u64),
}

/// An [`Error`] with its texts as sequences of characters.
pub enum ErrorView {
    Usage { message: Seq<char> },
    Network { message: Seq<char> },
    Http { status: u16 },
    MissingHeader { name: Seq<char> },
    Io { message: Seq<char> },
    UnexpectedContentLength(u64),
}

impl View for Error {
    type V = ErrorView;

    open spec fn view(&self) -> ErrorView {
        match *self {
            Error::Usage { message } => ErrorView::Usage { message: message@ },
            Error::Network { message } => ErrorView::Network { message: message@ },
            Error::Http { status } => ErrorView::Http { status },
            Error::MissingHeader { name } => ErrorView::MissingHeader { name: name@ },
            Error::Io { message } => ErrorView::Io { message: message@ },
            Error::UnexpectedContentLength(length) => ErrorView::UnexpectedContentLength(length),
        }
    }
}

/// How `http::StatusCode` displays the status code `status`: the number and
/// the reason phrase that belongs to it.
pub uninterp spec fn status_display(status: u16) -> Seq<char>;

/// Whether a number can be the status code of a response.
pub open spec fn is_status_code(status: u16) -> bool {
    100 <= status <= 999
}

/// Formats a status code with the `Display` of `http::StatusCode`, the type
/// that `attohttpc` hands out as `StatusCode`. `StatusCode::from_u16` takes
/// the numbers from 100 to 999 and no others.
#[verifier::external_body]
fn status_text(status: u16) -> (text: String)
    requires
        is_status_code(status),
    ensures
        text@ == status_display(status),
{
    match StatusCode::from_u16(status) {
        Ok(code) => code.to_string(),
        Err(_) => String::new(),
    }
}

/// The one line that an error is shown as.
pub open spec fn message_of(e: ErrorView) -> Seq<char> {
    match e {
        ErrorView::Usage { message } => message + "\nUsage: "@ + USAGE@,
        ErrorView::Network { message } => "Network error: "@ + message,
        ErrorView::Http { status } => "HTTP error: "@ + if is_status_code(status) {
            status_display(status)
        } else {
            decimal(status as nat)
        },
        ErrorView::MissingHeader { name } => "Missing header: "@ + name,
        ErrorView::Io { message } => message,
        ErrorView::UnexpectedContentLength(length) => "Unexpected content length: "@ + decimal(
            length as nat,
        ),
    }
}

impl Error {
    /// The text that the error is shown as: its message and, for a usage
    /// error, how the program is called.
    pub fn message(&self) -> (text: String)
        ensures
            text@ == message_of(self@),
    {
        let mut text = String::new();
        match self {
            Error::Usage { message } => {
                text.append(message.as_str());
                text.append("\nUsage: ");
                text.append(USAGE);
                assert(text@ =~= message@ + "\nUsage: "@ + USAGE@);
            },
            Error::Network { message } => {
                text.append("Network error: ");
                text.append(message.as_str());
                assert(text@ =~= "Network error: "@ + message@);
            },
            Error::Http { status } => {
                text.append("HTTP error: ");
                if 100 <= *status && *status <= 999 {
                    let shown = status_text(*status);
                    text.append(shown.as_str());
                    assert(text@ =~= "HTTP error: "@ + status_display(*status));
                } else {
                    push_decimal(&mut text, *status as u64);
                    assert(text@ =~= "HTTP error: "@ + decimal(*status as nat));
                }
            },
            Error::MissingHeader { name } => {
                text.append("Missing header: ");
                text.append(name.as_str());
                assert(text@ =~= "Missing header: "@ + name@);
            },
            Error::Io { message } => {
                text.append(message.as_str());
                assert(text@ =~= message@);
            },
            Error::UnexpectedContentLength(length) => {
                text.append("Unexpected content length: ");
                push_decimal(&mut text, *length);
                assert(text@ =~= "Unexpected content length: "@ + decimal(*length as nat));
            },
        }
        text
    }
}

} // verus!
