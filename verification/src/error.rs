//! The failure type shared by the store, the resolver and the pipeline.

use vstd::prelude::*;
use vstd::std_specs::convert::FromSpecImpl;

verus! {

/// What went wrong, independently of the text shown to the user.
#[derive(Clone, Copy, Debug, PartialEq, Eq, Structural)]
pub enum ErrorKind {
    /// No metadata row matches the key, or the content stayed unreachable
    /// after the one permitted path repair.
    NotFound,
    /// The messaging platform could not supply a download path.
    PathUnavailable,
    /// The backing table does not exist.
    SchemaMissing,
    /// Network or protocol failure while talking to the platform or to the
    /// download location.
    UpstreamTransport,
    /// The downloaded body cannot be consumed as a stream.
    StreamCastFailure,
    /// Any other failure reported by the metadata store.
    Store,
    /// An inbound update that carries no message.
    Unsupported,
    /// An event that does not answer the request that is pending.
    Protocol,
    /// A failure known only by its text.
    Other,
}

/// A failure: its kind and the text that is reported for it.
#[derive(Debug, PartialEq, Eq)]
pub struct Error {
    pub kind: ErrorKind,
    pub message: String,
}

/// Mathematical view of an [`Error`].
pub struct ErrorView {
    pub kind: ErrorKind,
    pub message: Seq<char>,
}

impl View for Error {
    type V = ErrorView;

    open spec fn view(&self) -> ErrorView {
        ErrorView { kind: self.kind, message: self.message@ }
    }
}

impl Clone for Error {
    fn clone(&self) -> (res: Self)
        ensures
            res == *self,
    {
        Error { kind: self.kind, message: self.message.clone() }
    }
}

impl Error {
    /// The failure of the given kind with the given text.
    pub fn new(kind: ErrorKind, message: &str) -> (e: Error)
        ensures
            e@ == (ErrorView { kind, message: message@ }),
    {
        Error { kind, message: message.to_owned() }
    }

    /// The failure that answers an event which the pending request did not
    /// ask for.
    pub fn unexpected() -> (e: Error)
        ensures
            e@ == unexpected_event(),
    {
        Error::new(ErrorKind::Protocol, "unexpected event")
    }

    /// A failure of the network or of the protocol on the way to the
    /// platform or to a download location, with the text `message`.
    pub fn upstream(message: &str) -> (e: Error)
        ensures
            e@ == (ErrorView { kind: ErrorKind::UpstreamTransport, message: message@ }),
    {
        Error::new(ErrorKind::UpstreamTransport, message)
    }

    /// The failure to take or to split a body as a stream, with the text
    /// `message`.
    pub fn stream_cast(message: &str) -> (e: Error)
        ensures
            e@ == (ErrorView { kind: ErrorKind::StreamCastFailure, message: message@ }),
    {
        Error::new(ErrorKind::StreamCastFailure, message)
    }

    /// The text of the failure, as it is reported to the user.
    pub fn to_text(&self) -> (s: String)
        ensures
            s@ == self.message@,
    {
        self.message.clone()
    }

    /// The HTTP status under which the failure is answered: 404 when neither
    /// the content nor a path to it exists, 500 otherwise.
    pub fn status_code(&self) -> (code: u16)
        ensures
            code == status_of(self.kind),
    {
        match self.kind {
            ErrorKind::NotFound => 404,
            ErrorKind::PathUnavailable => 404,
            _ => 500,
        }
    }
}

/// The failure that answers an event which the pending request did not ask for.
pub open spec fn unexpected_event() -> ErrorView {
    ErrorView { kind: ErrorKind::Protocol, message: "unexpected event"@ }
}

/// The HTTP status that answers a failure of kind `kind`.
pub open spec fn status_of(kind: ErrorKind) -> u16 {
    if kind == ErrorKind::NotFound || kind == ErrorKind::PathUnavailable {
        404
    } else {
        500
    }
}

impl From<String> for Error {
    fn from(err: String) -> (e: Error) {
        Error { kind: ErrorKind::Other, message: err }
    }
}

impl FromSpecImpl<String> for Error {
    open spec fn obeys_from_spec() -> bool {
        true
    }

    open spec fn from_spec(err: String) -> Error {
        Error { kind: ErrorKind::Other, message: err }
    }
}

} // verus!
