//! What the server asks the surrounding program to do: the library decides,
//! the program performs.

use vstd::prelude::*;

use crate::plugin::types::{LoaderMessage, LoaderMessageView};
use crate::types::handshake::{ServerDetails, ServerDetailsView};
use crate::types::message::{ResponseError, ResponseErrorView, ServerMessage, ServerMessageView};
use crate::types::clone_bytes;

verus! {

/// Something written to a client's socket.
#[derive(Debug, PartialEq, Eq)]
pub enum Outbound {
    /// The server's side of the handshake.
    Details(ServerDetails),
    /// A structured message.
    Message(ServerMessage),
    /// A refusal.
    Error(ResponseError),
    /// A raw frame: voice audio behind its relay identifier.
    Binary(Vec<u8>),
}

/// What an [`Outbound`] holds.
pub enum OutboundView {
    Details(ServerDetailsView),
    Message(ServerMessageView),
    Error(ResponseErrorView),
    Binary(Seq<u8>),
}

impl View for Outbound {
    type V = OutboundView;

    open spec fn view(&self) -> OutboundView {
        match self {
            Outbound::Details(d) => OutboundView::Details(d@),
            Outbound::Message(m) => OutboundView::Message(m@),
            Outbound::Error(e) => OutboundView::Error(e@),
            Outbound::Binary(b) => OutboundView::Binary(b@),
        }
    }
}

impl Clone for Outbound {
    fn clone(&self) -> (r: Self)
        ensures
            r@ == self@,
    {
        match self {
            Outbound::Details(d) => Outbound::Details(d.clone()),
            Outbound::Message(m) => Outbound::Message(m.clone()),
            Outbound::Error(e) => Outbound::Error(e.clone()),
            Outbound::Binary(b) => Outbound::Binary(clone_bytes(b)),
        }
    }
}

/// One step of stopping or feeding a plugin.
#[derive(Debug, PartialEq, Eq)]
pub enum PluginStep {
    /// Write the record to the control connection.
    Send(LoaderMessage),
    /// Close the control connection.
    CloseStream,
    /// Terminate the plugin's process.
    Kill,
}

/// What a [`PluginStep`] holds.
pub enum PluginStepView {
    Send(LoaderMessageView),
    CloseStream,
    Kill,
}

impl View for PluginStep {
    type V = PluginStepView;

    open spec fn view(&self) -> PluginStepView {
        match self {
            PluginStep::Send(m) => PluginStepView::Send(m@),
            PluginStep::CloseStream => PluginStepView::CloseStream,
            PluginStep::Kill => PluginStepView::Kill,
        }
    }
}

/// One thing for the surrounding program to do.
#[derive(Debug, PartialEq, Eq)]
pub enum Action {
    /// Write to the socket of the session `client`.
    Send { client: u64, payload: Outbound },
    /// Close the socket of the session `client`.
    Close { client: u64 },
    /// Do `step` to the plugin `plugin`.
    Plugin { plugin: String, step: PluginStep },
    /// Start the installed plugin `plugin` and hand it over once its
    /// control connection has arrived.
    LoadPlugin { plugin: String },
    /// Start every installed plugin.
    LoadAllPlugins,
    /// End the process.
    Exit,
}

/// What an [`Action`] holds.
pub enum ActionView {
    Send { client: u64, payload: OutboundView },
    Close { client: u64 },
    Plugin { plugin: Seq<char>, step: PluginStepView },
    LoadPlugin { plugin: Seq<char> },
    LoadAllPlugins,
    Exit,
}

impl View for Action {
    type V = ActionView;

    open spec fn view(&self) -> ActionView {
        match self {
            Action::Send { client, payload } => ActionView::Send {
                client: *client,
                payload: payload@,
            },
            Action::Close { client } => ActionView::Close { client: *client },
            Action::Plugin { plugin, step } => ActionView::Plugin { plugin: plugin@, step: step@ },
            Action::LoadPlugin { plugin } => ActionView::LoadPlugin { plugin: plugin@ },
            Action::LoadAllPlugins => ActionView::LoadAllPlugins,
            Action::Exit => ActionView::Exit,
        }
    }
}

/// The session that an action writes to, if it is a write to a session.
pub open spec fn recipient(a: ActionView) -> Option<u64> {
    match a {
        ActionView::Send { client, .. } => Some(client),
        _ => None,
    }
}

/// Appends `more` to `actions`.
pub fn append_actions(actions: &mut Vec<Action>, more: Vec<Action>)
    ensures
        final(actions)@ == old(actions)@ + more@,
{
    let mut more = more;
    actions.append(&mut more);
}

} // verus!
