//! What can go wrong while a session is served.

use vstd::prelude::*;

verus! {

/// A failure while serving one session, with a detail for the human reader.
#[derive(Debug, PartialEq, Eq)]
pub enum ServerError {
    /// An envelope that the handshake does not allow.
    Protocol(String),
    /// The authentication provider turned the token down.
    Auth(String),
    /// The request names something that does not exist.
    NotFound(String),
    /// The request is not the requester's to make.
    Unauthorized(String),
    /// A socket or a process failed.
    Io(String),
    /// The store failed, or something unexpected happened.
    Internal(String),
}

/// What a [`ServerError`] holds.
pub enum ServerErrorView {
    Protocol(Seq<char>),
    Auth(Seq<char>),
    NotFound(Seq<char>),
    Unauthorized(Seq<char>),
    Io(Seq<char>),
    Internal(Seq<char>),
}

impl View for ServerError {
    type V = ServerErrorView;

    open spec fn view(&self) -> ServerErrorView {
        match self {
            ServerError::Protocol(s) => ServerErrorView::Protocol(s@),
            ServerError::Auth(s) => ServerErrorView::Auth(s@),
            ServerError::NotFound(s) => ServerErrorView::NotFound(s@),
            ServerError::Unauthorized(s) => ServerErrorView::Unauthorized(s@),
            ServerError::Io(s) => ServerErrorView::Io(s@),
            ServerError::Internal(s) => ServerErrorView::Internal(s@),
        }
    }
}

/// The detail that the error carries.
pub open spec fn spec_message(e: ServerErrorView) -> Seq<char> {
    match e {
        ServerErrorView::Protocol(s) => s,
        ServerErrorView::Auth(s) => s,
        ServerErrorView::NotFound(s) => s,
        ServerErrorView::Unauthorized(s) => s,
        ServerErrorView::Io(s) => s,
        ServerErrorView::Internal(s) => s,
    }
}

impl Clone for ServerError {
    fn clone(&self) -> (r: Self)
        ensures
            r == *self,
    {
        match self {
            ServerError::Protocol(s) => ServerError::Protocol(s.clone()),
            ServerError::Auth(s) => ServerError::Auth(s.clone()),
            ServerError::NotFound(s) => ServerError::NotFound(s.clone()),
            ServerError::Unauthorized(s) => ServerError::Unauthorized(s.clone()),
            ServerError::Io(s) => ServerError::Io(s.clone()),
            ServerError::Internal(s) => ServerError::Internal(s.clone()),
        }
    }
}

impl ServerError {
    /// The detail for the human reader.
    pub fn message(&self) -> (r: String)
        ensures
            r@ == spec_message(self@),
    {
        match self {
            ServerError::Protocol(s) => s.clone(),
            ServerError::Auth(s) => s.clone(),
            ServerError::NotFound(s) => s.clone(),
            ServerError::Unauthorized(s) => s.clone(),
            ServerError::Io(s) => s.clone(),
            ServerError::Internal(s) => s.clone(),
        }
    }
}

} // verus!
