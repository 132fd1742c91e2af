//! Requests and responses as plain values.
//!
//! The bridge neither sends nor receives anything. It describes the requests
//! that it wants made and judges the responses that it is handed.

use vstd::prelude::*;
use crate::error::{AppError, AppErrorView};
use crate::routes::jwks::{JwkSet, JwkSetView};
use crate::routes::token::{TokenReply, TokenReplyView};
use crate::text::opt_text;

verus! {

/// The method of a request to the upstream provider.
#[derive(Debug, Clone, Copy, PartialEq, Eq, Structural)]
pub enum Method {
    Get,
    Post,
}

/// A request that the bridge wants made to the upstream provider.
#[derive(Debug, Clone, PartialEq, Eq)]
pub struct UpstreamRequest {
    pub method: Method,
    pub url: String,
    /// Header names with their values, in the order in which they are set.
    pub headers: Vec<(String, String)>,
    pub body: Option<String>,
}

/// An [`UpstreamRequest`] with its texts as sequences of characters.
pub struct UpstreamRequestView {
    pub method: Method,
    pub url: Seq<char>,
    pub headers: Seq<(Seq<char>, Seq<char>)>,
    pub body: Option<Seq<char>>,
}

impl View for UpstreamRequest {
    type V = UpstreamRequestView;

    open spec fn view(&self) -> UpstreamRequestView {
        UpstreamRequestView {
            method: self.method,
            url: self.url@,
            headers: self.headers.deep_view(),
            body: opt_text(self.body),
        }
    }
}

/// A response of the upstream provider: its status, and its body as the
/// outcome of decoding it, where a failure carries the decoder's message.
#[derive(Debug, PartialEq, Eq)]
pub struct Fetched<T> {
    pub status: u16,
    pub body: Result<T, String>,
}

/// A response as [`Fetched`] holds it, with the decoder's message as a
/// sequence of characters and the decoded value as `V`.
pub struct FetchedView<V> {
    pub status: u16,
    pub body: Result<V, Seq<char>>,
}

/// The outcome of a request with its messages as sequences of characters
/// and the decoded value as it is.
pub open spec fn sent_plain<T>(sent: Result<Fetched<T>, String>) -> Result<FetchedView<T>, Seq<char>> {
    match sent {
        Err(detail) => Err(detail@),
        Ok(response) => Ok(
            FetchedView {
                status: response.status,
                body: match response.body {
                    Ok(value) => Ok(value),
                    Err(detail) => Err(detail@),
                },
            },
        ),
    }
}

/// The outcome of a request with its messages as sequences of characters
/// and the decoded value by its view.
pub open spec fn sent_view<T: View>(sent: Result<Fetched<T>, String>) -> Result<
    FetchedView<T::V>,
    Seq<char>,
> {
    match sent {
        Err(detail) => Err(detail@),
        Ok(response) => Ok(
            FetchedView {
                status: response.status,
                body: match response.body {
                    Ok(value) => Ok(value@),
                    Err(detail) => Err(detail@),
                },
            },
        ),
    }
}

/// One entry of a submitted form.
#[derive(Debug, Clone, PartialEq, Eq)]
pub enum FormEntry {
    /// A text field with its value.
    Field(String),
    /// An uploaded file. Its content plays no part here.
    File,
}

/// A [`FormEntry`] with its text as a sequence of characters.
pub enum FormEntryView {
    Field(Seq<char>),
    File,
}

impl DeepView for FormEntry {
    type V = FormEntryView;

    open spec fn deep_view(&self) -> FormEntryView {
        match self {
            FormEntry::Field(value) => FormEntryView::Field(value@),
            FormEntry::File => FormEntryView::File,
        }
    }
}

/// The value of a form entry if there is one and it is a text field.
pub open spec fn field_text(entry: Option<FormEntryView>) -> Option<Seq<char>> {
    match entry {
        Some(FormEntryView::Field(value)) => Some(value),
        _ => None,
    }
}

/// What `serde_urlencoded::to_string` makes of a list of pairs of names and
/// values: the text of a form in the `application/x-www-form-urlencoded`
/// format.
pub uninterp spec fn form_urlencoded_text(pairs: Seq<(Seq<char>, Seq<char>)>) -> Seq<char>;

/// Calls `serde_urlencoded::to_string` on a list of pairs of strings.
/// Trusted: the call succeeds, and the text is the one that bears the name
/// [`form_urlencoded_text`], a function of the pairs alone. The crate's
/// serializer fails on a top-level value that is no list of pairs and on a
/// key or a value of a kind that it does not support, and it supports a
/// string as either.
#[verifier::external_body]
pub(crate) fn form_urlencode(pairs: &Vec<(String, String)>) -> (encoded: Result<String, String>)
    ensures
        encoded is Ok,
        encoded->Ok_0@ == form_urlencoded_text(pairs.deep_view()),
{
    serde_urlencoded::to_string(pairs).map_err(|e| e.to_string())
}

/// What a handler answers.
#[derive(Debug, Clone, PartialEq, Eq)]
pub enum Reply {
    /// Status 302, with this address as the location.
    Redirect(String),
    /// Status 400, with this text as the body.
    BadRequest(String),
    /// Status 200, with the key set as the body.
    Jwks(JwkSet),
    /// Status 200, with the token response as the body.
    Token(TokenReply),
}

/// A [`Reply`] with its texts as sequences of characters.
pub enum ReplyView {
    Redirect(Seq<char>),
    BadRequest(Seq<char>),
    Jwks(JwkSetView),
    Token(TokenReplyView),
}

impl View for Reply {
    type V = ReplyView;

    open spec fn view(&self) -> ReplyView {
        match self {
            Reply::Redirect(location) => ReplyView::Redirect(location@),
            Reply::BadRequest(message) => ReplyView::BadRequest(message@),
            Reply::Jwks(keys) => ReplyView::Jwks(keys@),
            Reply::Token(body) => ReplyView::Token(body@),
        }
    }
}

impl ReplyView {
    /// The status of the reply.
    pub open spec fn status(self) -> u16 {
        match self {
            ReplyView::Redirect(_) => 302,
            ReplyView::BadRequest(_) => 400,
            ReplyView::Jwks(_) => 200,
            ReplyView::Token(_) => 200,
        }
    }

    /// Whether the reply turns the caller away.
    pub open spec fn is_rejection(self) -> bool {
        self is BadRequest
    }
}

impl Reply {
    /// The status of the reply.
    pub fn status(&self) -> (status: u16)
        ensures
            status == self@.status(),
    {
        match self {
            Reply::Redirect(_) => 302,
            Reply::BadRequest(_) => 400,
            Reply::Jwks(_) => 200,
            Reply::Token(_) => 200,
        }
    }
}

/// Whether `result` is the outcome `expected`, with replies and failures
/// compared by their views.
pub open spec fn is_reply(result: Result<Reply, AppError>, expected: Result<ReplyView, AppErrorView>) -> bool {
    match expected {
        Ok(reply) => result matches Ok(r) && r@ == reply,
        Err(failure) => result matches Err(e) && e@ == failure,
    }
}

} // verus!
