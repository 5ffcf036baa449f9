//! The handshake: from an accepted connection to a registered session.
//!
//! `Connected`, `AwaitingHandshake`, `Authenticating`, `Authenticated`,
//! with `Closed` reachable from each of them and left by none.  An
//! authenticated session is welcomed first and registered once the
//! welcome is written.

use vstd::prelude::*;

use crate::action::{Action, ActionView, Outbound, OutboundView};
use crate::error::{ServerError, ServerErrorView};
use crate::requests::indicator::IndicatorContext;
use crate::server::{spec_wrap_err, without_client, Server, ServerConfigView, ServerView};
use crate::types::data::clone_channels;
use crate::types::handshake::{
    ClientDetails, ClientDetailsView, ServerDetails, ServerDetailsView,
};
use crate::types::message::{
    ResponseError, ResponseErrorView, ServerMessage, ServerMessageView, WsMessage, WsMessageView,
};
use crate::types::views;
use crate::utils::client::{Client, ClientView, SessionState};
use crate::utils::voice::is_snapshot;

verus! {

/// What happened on a connection that has not finished its handshake.
#[derive(Debug, PartialEq, Eq)]
pub enum HandshakeEvent {
    /// The connection was accepted.
    Opened,
    /// The client sent this envelope.
    Envelope(WsMessage<ClientDetails>),
    /// The authentication provider vouches for the token: this is the user.
    Accepted(String),
    /// The authentication provider turned the token down, for this reason.
    Rejected(String),
    /// The welcome was written to the session.
    Welcomed,
    /// Reading or writing failed, for this reason.
    Failed(String),
}

/// What a [`HandshakeEvent`] holds.
pub enum HandshakeEventView {
    Opened,
    Envelope(WsMessageView<ClientDetailsView>),
    Accepted(Seq<char>),
    Rejected(Seq<char>),
    Welcomed,
    Failed(Seq<char>),
}

impl View for HandshakeEvent {
    type V = HandshakeEventView;

    open spec fn view(&self) -> HandshakeEventView {
        match self {
            HandshakeEvent::Opened => HandshakeEventView::Opened,
            HandshakeEvent::Envelope(e) => HandshakeEventView::Envelope(e@),
            HandshakeEvent::Accepted(u) => HandshakeEventView::Accepted(u@),
            HandshakeEvent::Rejected(r) => HandshakeEventView::Rejected(r@),
            HandshakeEvent::Welcomed => HandshakeEventView::Welcomed,
            HandshakeEvent::Failed(r) => HandshakeEventView::Failed(r@),
        }
    }
}

/// What one event of the handshake asks for.
#[derive(Debug, PartialEq, Eq)]
pub struct HandshakeStep {
    /// To be performed now, in this order.
    pub actions: Vec<Action>,
    /// The token to hand to the authentication provider, where the
    /// handshake has come that far.
    pub authenticate: Option<String>,
}

/// What a [`HandshakeStep`] holds.
pub struct HandshakeStepView {
    pub actions: Seq<ActionView>,
    pub authenticate: Option<Seq<char>>,
}

impl View for HandshakeStep {
    type V = HandshakeStepView;

    open spec fn view(&self) -> HandshakeStepView {
        HandshakeStepView {
            actions: views(self.actions@),
            authenticate: match self.authenticate {
                Some(t) => Some(t@),
                None => None,
            },
        }
    }
}

/// What the server says of itself to a new connection.
pub open spec fn spec_details(config: ServerConfigView) -> ServerDetailsView {
    ServerDetailsView {
        version: "0.0.1"@,
        name: config.server_name,
        id: config.server_id,
        channels: config.channels,
    }
}

/// Whether `actions` welcome the session `id` as `uuid`: one message, to
/// that session, with no indicators and everyone who is in a voice
/// channel of the server `s`.
pub open spec fn spec_welcome(s: ServerView, id: u64, uuid: Seq<char>, actions: Seq<ActionView>) -> bool {
    &&& actions.len() == 1
    &&& actions[0] matches ActionView::Send {
        client,
        payload: OutboundView::Message(
            ServerMessageView::Authenticated { uuid: named, indicators, voice_chat },
        ),
    }
    &&& client == id
    &&& named == uuid
    &&& indicators.len() == 0
    &&& is_snapshot(voice_chat, s.voice)
}

/// What becomes of a connection on which something happened that the
/// handshake does not allow: the peer is told of an invalid handshake, the
/// socket is closed, and the session is in the registry no more.
pub open spec fn spec_invalid_handshake(s: ServerView, c: ClientView) -> (
    ServerView,
    ClientView,
    Seq<ActionView>,
) {
    (
        ServerView { clients: without_client(s.clients, c.id), ..s },
        ClientView { state: SessionState::Closed, ..c },
        seq![
            ActionView::Send {
                client: c.id,
                payload: OutboundView::Error(ResponseErrorView::InvalidHandshake("Invalid handshake"@)),
            },
            ActionView::Close { client: c.id },
        ],
    )
}

/// Whether `after`, `c_after` and `step` are what becomes of the event `e`
/// on the connection `c`.  A closed connection stays closed.  A failure
/// closes the connection from any state, and so does a token that the
/// provider turns down.  Else each state accepts one kind of event and
/// leads to the next state; any other event is an invalid handshake, which
/// closes the connection.  A session for which the provider has vouched is
/// bound to its user and welcomed; it enters the registry when, and only
/// when, the welcome has been written.
pub open spec fn spec_init_client(
    s: ServerView,
    c: ClientView,
    e: HandshakeEventView,
    after: ServerView,
    c_after: ClientView,
    step: HandshakeStepView,
) -> bool {
    if c.state == SessionState::Closed {
        after == s && c_after == c && step == (HandshakeStepView {
            actions: Seq::empty(),
            authenticate: None,
        })
    } else if e is Failed {
        (after, c_after, step.actions) == spec_wrap_err(s, c, ServerErrorView::Io(e->Failed_0))
            && step.authenticate is None
    } else if c.state == SessionState::Connected && e is Opened {
        after == s && c_after == (ClientView { state: SessionState::AwaitingHandshake, ..c })
            && step == (HandshakeStepView {
            actions: seq![
                ActionView::Send { client: c.id, payload: OutboundView::Details(spec_details(s.config)) },
            ],
            authenticate: None,
        })
    } else if c.state == SessionState::AwaitingHandshake && e is Envelope && e->Envelope_0 is Message {
        after == s && c_after == (ClientView { state: SessionState::Authenticating, ..c }) && step
            == (HandshakeStepView {
            actions: Seq::empty(),
            authenticate: Some(e->Envelope_0->Message_0.auth_token),
        })
    } else if c.state == SessionState::Authenticating && e is Accepted {
        after == s && c_after == (ClientView {
            uuid: Some(e->Accepted_0),
            state: SessionState::Authenticated,
            ..c
        }) && spec_welcome(s, c.id, e->Accepted_0, step.actions) && step.authenticate is None
    } else if c.state == SessionState::Authenticating && e is Rejected {
        (after, c_after, step.actions) == spec_wrap_err(s, c, ServerErrorView::Auth(e->Rejected_0))
            && step.authenticate is None
    } else if c.state == SessionState::Authenticated && c.uuid is Some && e is Welcomed {
        after == (ServerView { clients: without_client(s.clients, c.id).push(c), ..s }) && c_after
            == c && step == (HandshakeStepView { actions: Seq::empty(), authenticate: None })
    } else {
        (after, c_after, step.actions) == spec_invalid_handshake(s, c) && step.authenticate is None
    }
}

impl Server {
    /// What the server says of itself to a new connection.
    pub fn details(&self) -> (r: ServerDetails)
        ensures
            r@ == spec_details(self@.config),
    {
        ServerDetails {
            name: self.config.server_name.clone(),
            id: self.config.server_id.clone(),
            version: "0.0.1".to_owned(),
            channels: clone_channels(&self.config.channels),
        }
    }

    /// Closes a connection on which something happened that the handshake
    /// does not allow.
    fn invalid_handshake(&mut self, client: &mut Client) -> (r: HandshakeStep)
        requires
            old(self).wf(),
        ensures
            final(self).wf(),
            (final(self)@, final(client)@, r@.actions) == spec_invalid_handshake(
                old(self)@,
                old(client)@,
            ),
            r@.authenticate is None,
    {
        self.remove(client.id);
        client.state = SessionState::Closed;
        let mut actions: Vec<Action> = Vec::new();
        actions.push(
            Action::Send {
                client: client.id,
                payload: Outbound::Error(
                    ResponseError::InvalidHandshake("Invalid handshake".to_owned()),
                ),
            },
        );
        actions.push(Action::Close { client: client.id });
        HandshakeStep { actions, authenticate: None }
    }

    /// Closes a connection on which `e` occurred during the handshake.
    fn refuse(&mut self, client: &mut Client, e: ServerError) -> (r: HandshakeStep)
        requires
            old(self).wf(),
        ensures
            final(self).wf(),
            (final(self)@, final(client)@, r@.actions) == spec_wrap_err(old(self)@, old(client)@, e@),
            r@.authenticate is None,
    {
        let (_, actions) = self.wrap_err::<()>(client, Err(e));
        HandshakeStep { actions, authenticate: None }
    }

    /// Takes a new connection one event further through the handshake.
    pub fn init_client(&mut self, client: &mut Client, event: HandshakeEvent) -> (r: HandshakeStep)
        requires
            old(self).wf(),
        ensures
            final(self).wf(),
            spec_init_client(old(self)@, old(client)@, event@, final(self)@, final(client)@, r@),
    {
        if client.state == SessionState::Closed {
            let actions: Vec<Action> = Vec::new();
            assert(views(actions@) =~= Seq::<ActionView>::empty());
            return HandshakeStep { actions, authenticate: None };
        }
        match event {
            HandshakeEvent::Failed(reason) => self.refuse(client, ServerError::Io(reason)),
            HandshakeEvent::Opened => {
                if client.state == SessionState::Connected {
                    // Initialize handshake
                    let mut actions: Vec<Action> = Vec::new();
                    actions.push(
                        Action::Send { client: client.id, payload: Outbound::Details(self.details()) },
                    );
                    client.state = SessionState::AwaitingHandshake;
                    assert(views(actions@) =~= seq![actions@[0]@]);
                    HandshakeStep { actions, authenticate: None }
                } else {
                    self.invalid_handshake(client)
                }
            },
            HandshakeEvent::Envelope(envelope) => {
                if client.state == SessionState::AwaitingHandshake {
                    match envelope {
                        WsMessage::Message(details) => {
                            let actions: Vec<Action> = Vec::new();
                            assert(views(actions@) =~= Seq::<ActionView>::empty());
                            client.state = SessionState::Authenticating;
                            HandshakeStep { actions, authenticate: Some(details.auth_token) }
                        },
                        _ => self.invalid_handshake(client),
                    }
                } else {
                    self.invalid_handshake(client)
                }
            },
            HandshakeEvent::Accepted(uuid) => {
                if client.state == SessionState::Authenticating {
                    let indicators: Vec<IndicatorContext> = Vec::new();
                    let voice_chat = self.voice.list();
                    let mut actions: Vec<Action> = Vec::new();
                    actions.push(
                        Action::Send {
                            client: client.id,
                            payload: Outbound::Message(
                                ServerMessage::Authenticated {
                                    uuid: uuid.clone(),
                                    indicators,
                                    voice_chat,
                                },
                            ),
                        },
                    );
                    client.uuid = Some(uuid);
                    client.state = SessionState::Authenticated;
                    HandshakeStep { actions, authenticate: None }
                } else {
                    self.invalid_handshake(client)
                }
            },
            HandshakeEvent::Rejected(reason) => {
                if client.state == SessionState::Authenticating {
                    self.refuse(client, ServerError::Auth(reason))
                } else {
                    self.invalid_handshake(client)
                }
            },
            HandshakeEvent::Welcomed => {
                if client.state == SessionState::Authenticated && client.uuid.is_some() {
                    // Insert to the set of all connected clients
                    self.register(client);
                    let actions: Vec<Action> = Vec::new();
                    assert(views(actions@) =~= Seq::<ActionView>::empty());
                    HandshakeStep { actions, authenticate: None }
                } else {
                    self.invalid_handshake(client)
                }
            },
        }
    }
}

} // verus!
