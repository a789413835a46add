//! The errors that a call can end in.
use vstd::prelude::*;

verus! {

/// A local failure: the request could not be built, signed or read back.
#[derive(Debug, Clone)]
pub enum OtherError {
    /// A credential value is absent; holds the name of the missing value.
    MissingCredential(String),
    /// A header that signing reads is absent; holds its name.
    MissingHeader(String),
    /// A header that signing reads holds bytes that are not visible ASCII.
    UnreadableHeader(String),
    /// A header value cannot be stored; holds the header's name.
    InvalidHeaderValue(String),
    /// The request has no body to hash.
    MissingBody,
    /// A payload could not be encoded or a response could not be decoded.
    Json(String),
    /// The transport could not turn the request into one it can send.
    InvalidRequest(String),
}

/// The model of an [`OtherError`], with texts as character sequences.
pub enum OtherErrorView {
    MissingCredential(Seq<char>),
    MissingHeader(Seq<char>),
    UnreadableHeader(Seq<char>),
    InvalidHeaderValue(Seq<char>),
    MissingBody,
    Json(Seq<char>),
    InvalidRequest(Seq<char>),
}

impl View for OtherError {
    type V = OtherErrorView;

    open spec fn view(&self) -> OtherErrorView {
        match self {
            OtherError::MissingCredential(s) => OtherErrorView::MissingCredential(s@),
            OtherError::MissingHeader(s) => OtherErrorView::MissingHeader(s@),
            OtherError::UnreadableHeader(s) => OtherErrorView::UnreadableHeader(s@),
            OtherError::InvalidHeaderValue(s) => OtherErrorView::InvalidHeaderValue(s@),
            OtherError::MissingBody => OtherErrorView::MissingBody,
            OtherError::Json(s) => OtherErrorView::Json(s@),
            OtherError::InvalidRequest(s) => OtherErrorView::InvalidRequest(s@),
        }
    }
}

/// How a call failed: the remote said no, the remote could not be reached,
/// or the request could not even be built.
#[derive(Debug, Clone)]
pub enum Error {
    /// The remote answered with a status outside the success class.
    APIError { request_id: String, http_status: u16, code: String, message: String },
    /// The transport failed; holds the transport's description of the failure.
    NetworkError(String),
    /// A local failure.
    OtherErrors(OtherError),
}

} // verus!
