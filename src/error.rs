//! How a failed operation is classified.
use vstd::prelude::*;
use crate::http::Failure;
use crate::text::join;

verus! {

/// A successful reply whose shape the client cannot use.
#[derive(Clone, Copy, Debug, PartialEq, Eq, Structural)]
pub enum Malformed {
    /// The body is not valid text.
    BadEncoding,
    /// The reply names no known content type.
    NoContentType,
    /// No identifier could be found in the body.
    NoId,
}

/// The terminal failure of an operation.
pub enum ErrorKind {
    /// The request could not complete; the transport's description.
    Transport(String),
    /// The server answered with a non-success status; its body, or a generic message.
    ServerStatus(String),
    /// A reply succeeded but broke the expected shape.
    ServerError(Malformed),
    /// Writing pulled bytes to their destination failed; the error's description.
    LocalIoError(String),
    /// A push created the file under this identifier, but sending its payload failed.
    /// The file exists on the server; the upload may be retried.
    UploadFailed(String, Box<ErrorKind>),
}

/// An `ErrorKind` as mathematical values.
pub enum ErrorView {
    Transport(Seq<char>),
    ServerStatus(Seq<char>),
    ServerError(Malformed),
    LocalIoError(Seq<char>),
    UploadFailed(Seq<char>, Box<ErrorView>),
}

/// An `ErrorKind` as mathematical values.
pub open spec fn error_view(e: &ErrorKind) -> ErrorView
    decreases e,
{
    match e {
        ErrorKind::Transport(s) => ErrorView::Transport(s@),
        ErrorKind::ServerStatus(s) => ErrorView::ServerStatus(s@),
        ErrorKind::ServerError(m) => ErrorView::ServerError(*m),
        ErrorKind::LocalIoError(s) => ErrorView::LocalIoError(s@),
        ErrorKind::UploadFailed(id, cause) => ErrorView::UploadFailed(id@, Box::new(error_view(&**cause))),
    }
}

impl View for ErrorKind {
    type V = ErrorView;

    open spec fn view(&self) -> ErrorView {
        error_view(self)
    }
}

/// Message of a status failure whose body was not text.
pub open spec fn generic_status_message() -> Seq<char> {
    "malformed response body"@
}

/// The error that a failed request is classified as.
pub open spec fn failure_error(f: Failure) -> ErrorView {
    match f {
        Failure::Status(Some(body)) => ErrorView::ServerStatus(body@),
        Failure::Status(None) => ErrorView::ServerStatus(generic_status_message()),
        Failure::Transport(d) => ErrorView::Transport(d@),
    }
}

/// Classifies a failed request.
pub fn classify(f: Failure) -> (r: ErrorKind)
    ensures
        r@ == failure_error(f),
{
    match f {
        Failure::Status(Some(body)) => ErrorKind::ServerStatus(body),
        Failure::Status(None) => ErrorKind::ServerStatus(String::from_str("malformed response body")),
        Failure::Transport(d) => ErrorKind::Transport(d),
    }
}

/// The text shown for a shape violation.
pub open spec fn malformed_message(m: Malformed) -> Seq<char> {
    match m {
        Malformed::BadEncoding => "malformed resp from server: bad encoding"@,
        Malformed::NoContentType => "malformed resp from server: no content_type"@,
        Malformed::NoId => "malformed resp from server: no id"@,
    }
}

/// The text shown for an error.
pub open spec fn error_message(e: ErrorView) -> Seq<char>
    decreases e,
{
    match e {
        ErrorView::Transport(d) => "unexpected request error "@ + d,
        ErrorView::ServerStatus(s) => s,
        ErrorView::ServerError(m) => malformed_message(m),
        ErrorView::LocalIoError(d) => "local io error: "@ + d,
        ErrorView::UploadFailed(id, cause) =>
            "file "@ + id + " was created but its upload failed: "@ + error_message(*cause),
    }
}

impl Malformed {
    pub fn message(&self) -> (r: &'static str)
        ensures
            r@ == malformed_message(*self),
    {
        match self {
            Malformed::BadEncoding => "malformed resp from server: bad encoding",
            Malformed::NoContentType => "malformed resp from server: no content_type",
            Malformed::NoId => "malformed resp from server: no id",
        }
    }
}

impl ErrorKind {
    /// The text shown to a user for this error.
    pub fn message(&self) -> (r: String)
        ensures
            r@ == error_message(self@),
        decreases self,
    {
        match self {
            ErrorKind::Transport(d) => join("unexpected request error ", d.as_str()),
            ErrorKind::ServerStatus(s) => s.clone(),
            ErrorKind::ServerError(m) => String::from_str(m.message()),
            ErrorKind::LocalIoError(d) => join("local io error: ", d.as_str()),
            ErrorKind::UploadFailed(id, cause) => {
                let mut r = join("file ", id.as_str());
                r.append(" was created but its upload failed: ");
                let c = cause.message();
                r.append(c.as_str());
                r
            },
        }
    }
}

} // verus!
