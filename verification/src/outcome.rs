//! The decisions the front end makes when a channel settles.
//!
//! Each submitted unit of work, and each close request, has a private
//! one-shot completion channel. The sender side can vanish without sending:
//! the worker stopped before reaching the message, or the message was still
//! queued when a successful close dropped it. A vanished sender therefore
//! means the connection is closed; it is never a fatal condition here.

use vstd::prelude::*;

use crate::error::Error;

verus! {

/// Settle a `call`: `received` is what the completion channel delivered,
/// `None` when its sender vanished (the work queue rejected the message, or
/// the worker dropped it). A vanished sender is reported as
/// `ConnectionClosed`; anything delivered passes through untouched.
pub fn settle_call<R, H, E, O>(received: Option<Result<R, Error<H, E, O>>>) -> (out: Result<
    R,
    Error<H, E, O>,
>)
    ensures
        received is None ==> (out matches Err(e) && e is ConnectionClosed),
        received matches Some(r) ==> out == r,
{
    match received {
        None => Err(Error::ConnectionClosed),
        Some(r) => r,
    }
}

/// Settle a `close`: `outcome` is what the close request's completion channel
/// delivered, `None` when the request could not be sent or its sender
/// vanished — the worker is already gone, so the close trivially succeeded.
/// A delivered failure wraps the handle, for retry, with the cause.
pub fn settle_close<H, E, O>(handle: H, outcome: Option<Result<(), E>>) -> (out: Result<
    (),
    Error<H, E, O>,
>)
    ensures
        outcome is None ==> out is Ok,
        outcome matches Some(Ok(())) ==> out is Ok,
        outcome matches Some(Err(e)) ==> out == Err::<(), Error<H, E, O>>(
            Error::Close((handle, e)),
        ),
{
    match outcome {
        None => Ok(()),
        Some(Ok(())) => Ok(()),
        Some(Err(e)) => Err(Error::Close((handle, e))),
    }
}

} // verus!
