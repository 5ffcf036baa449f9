//! What the two sides say to each other before a session starts.

use vstd::prelude::*;

use crate::types::data::{clone_channels, Channel, ChannelView};
use crate::types::views;

verus! {

/// The first thing a new connection is sent.
#[derive(Debug, PartialEq, Eq)]
pub struct ServerDetails {
    pub version: String,
    pub name: String,
    pub id: String,
    pub channels: Vec<Channel>,
}

/// What a [`ServerDetails`] holds.
pub struct ServerDetailsView {
    pub version: Seq<char>,
    pub name: Seq<char>,
    pub id: Seq<char>,
    pub channels: Seq<ChannelView>,
}

impl View for ServerDetails {
    type V = ServerDetailsView;

    open spec fn view(&self) -> ServerDetailsView {
        ServerDetailsView {
            version: self.version@,
            name: self.name@,
            id: self.id@,
            channels: views(self.channels@),
        }
    }
}

impl Clone for ServerDetails {
    fn clone(&self) -> (r: Self)
        ensures
            r@ == self@,
    {
        ServerDetails {
            version: self.version.clone(),
            name: self.name.clone(),
            id: self.id.clone(),
            channels: clone_channels(&self.channels),
        }
    }
}

/// The client's answer: who it claims to be.
#[derive(Debug, PartialEq, Eq)]
pub struct ClientDetails {
    pub version: String,
    /// Handed to the authentication provider as it is.
    pub auth_token: String,
}

/// What a [`ClientDetails`] holds.
pub struct ClientDetailsView {
    pub version: Seq<char>,
    pub auth_token: Seq<char>,
}

impl View for ClientDetails {
    type V = ClientDetailsView;

    open spec fn view(&self) -> ClientDetailsView {
        ClientDetailsView { version: self.version@, auth_token: self.auth_token@ }
    }
}

impl Clone for ClientDetails {
    fn clone(&self) -> (r: Self)
        ensures
            r == *self,
    {
        ClientDetails { version: self.version.clone(), auth_token: self.auth_token.clone() }
    }
}

} // verus!
