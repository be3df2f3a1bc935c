//! The typed failures an asynchronous operation can report.

use vstd::prelude::*;

verus! {

/// Why an asynchronous operation against the shared resource failed.
///
/// `H` is the front-end handle type given back for a close retry, `E` the
/// underlying resource error, and `O` an application-defined cause carried
/// through opaquely.
#[derive(Debug)]
pub enum Error<H, E, O> {
    /// The connection has been closed: the worker is gone, so neither the
    /// work queue nor a completion channel can deliver anything any more.
    ConnectionClosed,
    /// Closing the resource failed. Carries the handle, usable to retry the
    /// close, together with the underlying cause.
    Close((H, E)),
    /// The resource-level operation itself failed; carries the native cause.
    Rusqlite(E),
    /// An application-defined failure surfaced through a unit of work.
    Other(O),
}

/// The variant's name, as spoken of in contracts.
pub open spec fn label_of<H, E, O>(e: &Error<H, E, O>) -> Seq<char> {
    match e {
        Error::ConnectionClosed => "ConnectionClosed"@,
        Error::Close(_) => "Close"@,
        Error::Rusqlite(_) => "Rusqlite"@,
        Error::Other(_) => "Other"@,
    }
}

impl<H, E, O> Error<H, E, O> {
    /// The variant's name. Rendering the underlying cause needs that cause's
    /// own formatting and is left to the embedding front end.
    pub fn label(&self) -> (r: &'static str)
        ensures
            r@ == label_of(self),
    {
        match self {
            Error::ConnectionClosed => "ConnectionClosed",
            Error::Close(_) => "Close",
            Error::Rusqlite(_) => "Rusqlite",
            Error::Other(_) => "Other",
        }
    }
}

impl<H, E, O> From<E> for Error<H, E, O> {
    /// A bare resource error is an `Error::Rusqlite`.
    fn from(e: E) -> (r: Self) {
        Error::Rusqlite(e)
    }
}

impl<H, E, O> vstd::std_specs::convert::FromSpecImpl<E> for Error<H, E, O> {
    open spec fn obeys_from_spec() -> bool {
        true
    }

    open spec fn from_spec(e: E) -> Self {
        Error::Rusqlite(e)
    }
}

} // verus!
