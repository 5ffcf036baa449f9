//! One connection to a client, from accept to close.

use vstd::prelude::*;

use crate::error::ServerError;

verus! {

/// Where a connection stands.
#[derive(Debug, Clone, Copy, PartialEq, Eq, Structural)]
pub enum SessionState {
    /// Accepted; nothing sent yet.
    Connected,
    /// The server's details are out; the client's are awaited.
    AwaitingHandshake,
    /// The client's token is with the authentication provider.
    Authenticating,
    /// The session is bound to a user and serves requests.
    Authenticated,
    /// Over.  Nothing follows.
    Closed,
}

/// One connection.  Sessions are told apart by `id`, never by user: one
/// user may have several.
#[derive(Debug, PartialEq, Eq)]
pub struct Client {
    /// Handle of the connection, unique among the live ones.
    pub id: u64,
    /// The user that the session is bound to, once authenticated.
    pub uuid: Option<String>,
    pub state: SessionState,
}

/// What a [`Client`] holds.
pub struct ClientView {
    pub id: u64,
    pub uuid: Option<Seq<char>>,
    pub state: SessionState,
}

impl View for Client {
    type V = ClientView;

    open spec fn view(&self) -> ClientView {
        ClientView {
            id: self.id,
            uuid: match self.uuid {
                Some(u) => Some(u@),
                None => None,
            },
            state: self.state,
        }
    }
}

impl Clone for Client {
    fn clone(&self) -> (r: Self)
        ensures
            r == *self,
    {
        Client {
            id: self.id,
            uuid: match &self.uuid {
                Some(u) => Some(u.clone()),
                None => None,
            },
            state: self.state,
        }
    }
}

impl Client {
    /// A connection that was just accepted.
    pub fn new(id: u64) -> (r: Self)
        ensures
            r@ == (ClientView { id, uuid: None, state: SessionState::Connected }),
    {
        Client { id, uuid: None, state: SessionState::Connected }
    }

    /// The user that the session is bound to; an error while it is bound
    /// to none.
    pub fn get_uuid(&self) -> (r: Result<String, ServerError>)
        ensures
            match r {
                Ok(u) => self@.uuid == Some(u@),
                Err(e) => self@.uuid is None && e@ == crate::error::ServerErrorView::Internal(
                    "Client is not authenticated"@,
                ),
            },
    {
        match &self.uuid {
            Some(u) => Ok(u.clone()),
            None => Err(ServerError::Internal("Client is not authenticated".to_owned())),
        }
    }

    /// Binds the session to a user.
    pub fn set_uuid(&mut self, uuid: &str)
        ensures
            final(self)@ == (ClientView { uuid: Some(uuid@), ..old(self)@ }),
    {
        self.uuid = Some(uuid.to_owned());
    }
}

} // verus!
