//! The failures that a handler can report.

use vstd::prelude::*;
use vstd::string::*;
use crate::text::concat;

verus! {

/// The detail of the internal failure that answers an event for which the
/// state of a handler has no use.
pub const OUT_OF_ORDER: &'static str = "event out of order";

/// A failure of the bridge, with the detail that accompanies it.
#[derive(Debug, Clone, PartialEq, Eq)]
pub enum AppError {
    /// The upstream provider could not be reached, answered with a status
    /// other than 200, or sent a body that could not be decoded.
    DiscordApi(String),
    /// The token could not be signed.
    Jwt(String),
    /// The caller's input was malformed or did not match the configuration.
    Validation(String),
    /// The signing key could not be generated, encoded or decoded.
    Keygen(String),
    /// An internal failure, such as one of durable storage.
    Unexpected(String),
}

/// An [`AppError`] with its detail as a sequence of characters.
pub enum AppErrorView {
    DiscordApi(Seq<char>),
    Jwt(Seq<char>),
    Validation(Seq<char>),
    Keygen(Seq<char>),
    Unexpected(Seq<char>),
}

impl View for AppError {
    type V = AppErrorView;

    open spec fn view(&self) -> AppErrorView {
        match self {
            AppError::DiscordApi(detail) => AppErrorView::DiscordApi(detail@),
            AppError::Jwt(detail) => AppErrorView::Jwt(detail@),
            AppError::Validation(detail) => AppErrorView::Validation(detail@),
            AppError::Keygen(detail) => AppErrorView::Keygen(detail@),
            AppError::Unexpected(detail) => AppErrorView::Unexpected(detail@),
        }
    }
}

impl AppErrorView {
    /// The text by which the failure is reported: a prefix that names the
    /// kind of failure, then the detail.
    pub open spec fn message(self) -> Seq<char> {
        match self {
            AppErrorView::DiscordApi(detail) => "Discord API error: "@ + detail,
            AppErrorView::Jwt(detail) => "JWT error: "@ + detail,
            AppErrorView::Validation(detail) => "Validation error: "@ + detail,
            AppErrorView::Keygen(detail) => "Key generation error: "@ + detail,
            AppErrorView::Unexpected(detail) => "Unexpected error: "@ + detail,
        }
    }
}

impl AppError {
    /// The text by which the failure is reported.
    pub fn to_string(&self) -> (text: String)
        ensures
            text@ == self@.message(),
    {
        match self {
            AppError::DiscordApi(detail) => concat("Discord API error: ", detail.as_str()),
            AppError::Jwt(detail) => concat("JWT error: ", detail.as_str()),
            AppError::Validation(detail) => concat("Validation error: ", detail.as_str()),
            AppError::Keygen(detail) => concat("Key generation error: ", detail.as_str()),
            AppError::Unexpected(detail) => concat("Unexpected error: ", detail.as_str()),
        }
    }
}

} // verus!
