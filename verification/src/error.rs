//! The failures that an operation can end in.

use vstd::prelude::*;
use crate::text::{join, decimal, decimal_string};

verus! {

/// Why an operation failed. Each variant is a separate outcome that a caller
/// can tell from the others without reading the message.
#[derive(Debug, PartialEq, Eq)]
pub enum Error {
    /// The network failed before a complete response arrived.
    Transport(String),
    /// The catalog refused the request because too many were made; the
    /// status it answered with is kept.
    RateLimited(u16),
    /// The server answered with a status that is neither success nor a
    /// rate limit.
    Http(u16),
    /// A successful response whose body is not a release listing.
    Parse(String),
    /// Nothing matches: no compatible asset, no such USB device, no such disk.
    NotFound(String),
    /// A local file could not be created, read or written.
    IO(String),
    /// The firmware file holds more bytes than one DFU transfer can address.
    TooLarge(u64),
    /// The USB link itself failed.
    Usb(String),
    /// A step of an operation was refused by the device, or was reported
    /// out of turn by the caller that drives the operation.
    Protocol(String),
    /// The device type has no release channel or no install strategy.
    Unsupported(String),
}

/// An [`Error`] with its text as a sequence of characters.
pub enum ErrorView {
    Transport(Seq<char>),
    RateLimited(u16),
    Http(u16),
    Parse(Seq<char>),
    NotFound(Seq<char>),
    IO(Seq<char>),
    TooLarge(u64),
    Usb(Seq<char>),
    Protocol(Seq<char>),
    Unsupported(Seq<char>),
}

impl View for Error {
    type V = ErrorView;

    open spec fn view(&self) -> ErrorView {
        match self {
            Error::Transport(m) => ErrorView::Transport(m@),
            Error::RateLimited(s) => ErrorView::RateLimited(*s),
            Error::Http(s) => ErrorView::Http(*s),
            Error::Parse(m) => ErrorView::Parse(m@),
            Error::NotFound(m) => ErrorView::NotFound(m@),
            Error::IO(m) => ErrorView::IO(m@),
            Error::TooLarge(n) => ErrorView::TooLarge(*n),
            Error::Usb(m) => ErrorView::Usb(m@),
            Error::Protocol(m) => ErrorView::Protocol(m@),
            Error::Unsupported(m) => ErrorView::Unsupported(m@),
        }
    }
}

impl ErrorView {
    /// The text shown for this failure.
    pub open spec fn message(self) -> Seq<char> {
        match self {
            ErrorView::Transport(m) => m,
            ErrorView::RateLimited(_) => RATE_LIMIT_MESSAGE@,
            ErrorView::Http(s) => HTTP_STATUS_PREFIX@ + decimal(s as nat),
            ErrorView::Parse(m) => m,
            ErrorView::NotFound(m) => m,
            ErrorView::IO(m) => m,
            ErrorView::TooLarge(n) => TOO_LARGE_PREFIX@ + decimal(n as nat),
            ErrorView::Usb(m) => m,
            ErrorView::Protocol(m) => m,
            ErrorView::Unsupported(m) => m,
        }
    }
}

/// The text shown when the catalog's rate limit was hit.
pub const RATE_LIMIT_MESSAGE: &'static str = "release catalog rate limit hit";

/// What the text for an unexpected status starts with; the status follows.
pub const HTTP_STATUS_PREFIX: &'static str = "received an unsupported http status code: ";

/// What the text for a file that is too large starts with; the size in
/// bytes follows.
pub const TOO_LARGE_PREFIX: &'static str = "firmware file is too large: ";

/// The text of the failure that ends an operation whose caller reports
/// something the operation did not ask for.
pub const OUT_OF_TURN: &'static str = "event reported out of turn";

impl Error {
    /// The failure that ends an operation whose caller reports something
    /// the operation did not ask for.
    pub fn out_of_turn() -> (e: Error)
        ensures
            e@ == ErrorView::Protocol(OUT_OF_TURN@),
    {
        Error::Protocol(String::from_str(OUT_OF_TURN))
    }

    /// The text shown for this failure.
    pub fn message(&self) -> (text: String)
        ensures
            text@ == self@.message(),
    {
        match self {
            Error::Transport(m) => m.clone(),
            Error::RateLimited(_) => String::from_str(RATE_LIMIT_MESSAGE),
            Error::Http(s) => {
                let code = decimal_string(*s as u128);
                join(HTTP_STATUS_PREFIX, code.as_str())
            },
            Error::Parse(m) => m.clone(),
            Error::NotFound(m) => m.clone(),
            Error::IO(m) => m.clone(),
            Error::TooLarge(n) => {
                let size = decimal_string(*n as u128);
                join(TOO_LARGE_PREFIX, size.as_str())
            },
            Error::Usb(m) => m.clone(),
            Error::Protocol(m) => m.clone(),
            Error::Unsupported(m) => m.clone(),
        }
    }
}

} // verus!
