//! Plugins: processes of their own that watch what happens on the server
//! and may post messages, over a control connection of newline-delimited
//! records.

use vstd::prelude::*;

use crate::action::{Action, ActionView, OutboundView, PluginStep, PluginStepView};
use crate::plugin::types::{LoaderMessage, LoaderMessageView, PluginMessage, PluginMessageView};
use crate::server::{spec_broadcast, Server};
use crate::types::data::Message;
use crate::types::message::{ServerMessage, ServerMessageView};
use crate::types::views;
use crate::utils::clock::now_timestamp;
use crate::utils::database::{StoreRequest, StoreRequestView};

pub mod loader;
pub mod types;

verus! {

/// Where a plugin stands in its life.
#[derive(Debug, Clone, Copy, PartialEq, Eq, Structural)]
pub enum PluginState {
    /// The process was started; its control connection has not arrived.
    Spawned,
    /// The control connection is attached.
    Handshaken,
    /// The relay loop is reading the plugin's records.
    Running,
    /// Told to shut down, disconnected and killed.
    Stopped,
}

/// One plugin process.
#[derive(Debug, PartialEq, Eq)]
pub struct Plugin {
    pub id: String,
    /// Handle of the control connection, once it has arrived.
    pub conn: Option<u64>,
    pub state: PluginState,
}

/// What a [`Plugin`] holds.
pub struct PluginView {
    pub id: Seq<char>,
    pub conn: Option<u64>,
    pub state: PluginState,
}

impl View for Plugin {
    type V = PluginView;

    open spec fn view(&self) -> PluginView {
        PluginView { id: self.id@, conn: self.conn, state: self.state }
    }
}

impl Clone for Plugin {
    fn clone(&self) -> (r: Self)
        ensures
            r == *self,
    {
        Plugin { id: self.id.clone(), conn: self.conn, state: self.state }
    }
}

/// A request to the store, if there is one, as plain values.
pub open spec fn request_view(r: Option<StoreRequest>) -> Option<StoreRequestView> {
    match r {
        Some(r) => Some(r@),
        None => None,
    }
}

/// Whether records can be written to a plugin in this state.
pub open spec fn listens(state: PluginState) -> bool {
    state == PluginState::Handshaken || state == PluginState::Running
}

/// What stopping a plugin takes: the shutdown record, the end of the
/// control connection, the end of the process.  Nothing for a plugin that
/// is stopped already.
pub open spec fn stop_steps(p: PluginView) -> Seq<ActionView> {
    if p.state == PluginState::Stopped {
        Seq::empty()
    } else {
        seq![
            ActionView::Plugin { plugin: p.id, step: PluginStepView::Send(LoaderMessageView::Shutdown) },
            ActionView::Plugin { plugin: p.id, step: PluginStepView::CloseStream },
            ActionView::Plugin { plugin: p.id, step: PluginStepView::Kill },
        ]
    }
}

/// What becomes of a record `msg` that the plugin `p` sent, at the time
/// `timestamp`: the message is handed to the store with the plugin as its
/// author, as a user's message would be, and the plugin counts as running.
/// The record of a plugin without a control connection is ignored.
pub open spec fn spec_run(p: PluginView, msg: PluginMessageView, timestamp: i64) -> (
    PluginView,
    Option<StoreRequestView>,
) {
    if listens(p.state) {
        match msg {
            PluginMessageView::SendMessage { channel_id, contents } => (
                PluginView { state: PluginState::Running, ..p },
                Some(
                    StoreRequestView::InsertMessage { channel_id, user_id: p.id, contents, timestamp },
                ),
            ),
        }
    } else {
        (p, None)
    }
}

impl Plugin {
    /// Handles one record that the plugin sent, at the clock's time.  The
    /// clock is read only for a record that goes to the store.
    pub fn run(&mut self, msg: PluginMessage) -> (r: Option<StoreRequest>)
        ensures
            exists|timestamp: i64|
                (final(self)@, request_view(r)) == #[trigger] spec_run(old(self)@, msg@, timestamp),
    {
        match self.state {
            PluginState::Handshaken | PluginState::Running => {
                let timestamp = now_timestamp();
                self.run_at(msg, timestamp)
            },
            _ => self.run_at(msg, 0),
        }
    }

    /// Handles one record that the plugin sent at the time `timestamp`.
    pub fn run_at(&mut self, msg: PluginMessage, timestamp: i64) -> (r: Option<StoreRequest>)
        ensures
            (final(self)@, request_view(r)) == spec_run(old(self)@, msg@, timestamp),
    {
        match self.state {
            PluginState::Handshaken | PluginState::Running => {},
            _ => {
                return None;
            },
        }
        match msg {
            PluginMessage::SendMessage { channel_id, contents } => {
                self.state = PluginState::Running;
                Some(
                    StoreRequest::InsertMessage {
                        channel_id,
                        user_id: self.id.clone(),
                        contents,
                        timestamp,
                    },
                )
            },
        }
    }

    /// Announces a plugin's message that the store has taken: every
    /// registered session is sent it.
    pub fn stored(server: &Server, msg: &Message) -> (r: Vec<Action>)
        ensures
            views(r@) == spec_broadcast(
                server@.clients,
                OutboundView::Message(ServerMessageView::MessageCreate(msg@)),
            ),
    {
        server.broadcast(ServerMessage::MessageCreate(msg.clone()))
    }

    /// A plugin whose process was just started.
    pub fn spawned(id: String) -> (r: Self)
        ensures
            r@ == (PluginView { id: id@, conn: None, state: PluginState::Spawned }),
    {
        Plugin { id, conn: None, state: PluginState::Spawned }
    }

    /// Attaches the control connection to a plugin that waits for it.
    /// Returns whether it did; a plugin in any other state is left as it
    /// is.
    pub fn attach(&mut self, conn: u64) -> (r: bool)
        ensures
            r == (old(self).state == PluginState::Spawned),
            final(self)@ == if r {
                PluginView { conn: Some(conn), state: PluginState::Handshaken, ..old(self)@ }
            } else {
                old(self)@
            },
    {
        match self.state {
            PluginState::Spawned => {
                self.conn = Some(conn);
                self.state = PluginState::Handshaken;
                true
            },
            _ => false,
        }
    }

    /// The write of `m` to the plugin's control connection; none for a
    /// plugin that cannot be written to.
    pub fn send(&self, m: &LoaderMessage) -> (r: Option<Action>)
        ensures
            match r {
                Some(a) => listens(self.state) && a@ == (ActionView::Plugin {
                    plugin: self.id@,
                    step: PluginStepView::Send(m@),
                }),
                None => !listens(self.state),
            },
    {
        match self.state {
            PluginState::Handshaken | PluginState::Running => Some(
                Action::Plugin { plugin: self.id.clone(), step: PluginStep::Send(m.clone()) },
            ),
            _ => None,
        }
    }

    /// Stops the plugin: it is told to shut down, its control connection is
    /// closed, its process is killed, in this order.  A plugin that is
    /// stopped already is left alone.
    pub fn stop(&mut self) -> (r: Vec<Action>)
        ensures
            views(r@) == stop_steps(old(self)@),
            final(self)@ == (PluginView { state: PluginState::Stopped, ..old(self)@ }),
    {
        let mut r: Vec<Action> = Vec::new();
        match self.state {
            PluginState::Stopped => {},
            _ => {
                r.push(
                    Action::Plugin {
                        plugin: self.id.clone(),
                        step: PluginStep::Send(LoaderMessage::Shutdown),
                    },
                );
                r.push(Action::Plugin { plugin: self.id.clone(), step: PluginStep::CloseStream });
                r.push(Action::Plugin { plugin: self.id.clone(), step: PluginStep::Kill });
                self.state = PluginState::Stopped;
            },
        }
        r
    }

    /// The name under which the plugin announced itself.
    pub fn get_id(&self) -> (r: String)
        ensures
            r@ == self.id@,
    {
        self.id.clone()
    }
}

} // verus!
