//! Judging an answer of the upstream provider.

use vstd::prelude::*;
use vstd::string::*;
use crate::error::{AppError, AppErrorView};
use crate::http::{sent_plain, Fetched, FetchedView};
use crate::text::{concat, decimal, decimal_text};

verus! {

/// What the bridge makes of the outcome of one request to the upstream
/// provider, where `sent` is the response, or the transport's message if no
/// response came.
///
/// Only a response with status 200 whose body could be decoded yields the
/// decoded value. Every other outcome is a failure of the upstream API: the
/// transport's message, the status that came instead of 200 in decimal
/// notation, or the decoder's message.
pub open spec fn fetch_outcome<V>(sent: Result<FetchedView<V>, Seq<char>>) -> Result<V, AppErrorView> {
    match sent {
        Err(detail) => Err(AppErrorView::DiscordApi(detail)),
        Ok(response) => if response.status != 200 {
            Err(
                AppErrorView::DiscordApi(
                    "Discord API error: status "@ + decimal_text(response.status as nat),
                ),
            )
        } else {
            match response.body {
                Ok(value) => Ok(value),
                Err(detail) => Err(AppErrorView::DiscordApi("Invalid JSON: "@ + detail)),
            }
        },
    }
}

/// Whether `result` is the outcome `expected`, with failures compared by
/// their views.
pub open spec fn is_outcome<T>(result: Result<T, AppError>, expected: Result<T, AppErrorView>) -> bool {
    match expected {
        Ok(value) => result == Ok::<T, AppError>(value),
        Err(failure) => result matches Err(e) && e@ == failure,
    }
}

/// Judges the outcome of one request to the upstream provider, as
/// [`fetch_outcome`] says.
pub fn fetch_discord_data<T>(sent: Result<Fetched<T>, String>) -> (data: Result<T, AppError>)
    ensures
        is_outcome(data, fetch_outcome(sent_plain(sent))),
{
    match sent {
        Err(detail) => Err(AppError::DiscordApi(detail)),
        Ok(response) => {
            if response.status != 200 {
                let status = decimal(response.status);
                Err(AppError::DiscordApi(concat("Discord API error: status ", status.as_str())))
            } else {
                match response.body {
                    Ok(value) => Ok(value),
                    Err(detail) => Err(AppError::DiscordApi(concat("Invalid JSON: ", detail.as_str()))),
                }
            }
        },
    }
}

} // verus!
