//! Handling of what an authenticated client sends.
//!
//! A request is handled in steps.  Each step yields the actions to perform
//! now and, where the message store has to be asked first, the request to
//! the store together with what is pending on its answer.

use vstd::prelude::*;

use crate::action::{Action, ActionView};
use crate::error::{ServerError, ServerErrorView};
use crate::requests::chunk::{spec_chunk_loaded, spec_load_chunk};
use crate::requests::indicator::spec_start_typing;
use crate::requests::message::{
    spec_delete, spec_delete_found, spec_edit, spec_edit_found, spec_send, spec_sent,
};
use crate::requests::voice::{spec_join, spec_leave, spec_voice};
use crate::server::{Server, ServerView};
use crate::types::message::{ClientMessage, ClientMessageView, WsMessage, WsMessageView};
use crate::types::views;
use crate::utils::client::{Client, ClientView};
use crate::utils::database::{StoreAnswer, StoreAnswerView, StoreRequest, StoreRequestView};

pub mod chunk;
pub mod indicator;
pub mod message;
pub mod voice;

verus! {

/// What waits for the store's answer.
#[derive(Debug, PartialEq, Eq)]
pub enum Pending {
    /// A new message was handed to the store: announce it as it was stored.
    Created,
    /// The message to edit was looked up: check it, then edit it.
    Edit { message_id: i64, new_contents: String },
    /// The message to delete was looked up: check it, then delete it.
    Delete { message_id: i64 },
    /// An edit or a deletion was handed to the store: nothing follows.
    Written,
    /// A page of `channel_id` was asked for: hand it to the requester.
    Chunk { channel_id: String },
}

/// What a [`Pending`] holds.
pub enum PendingView {
    Created,
    Edit { message_id: i64, new_contents: Seq<char> },
    Delete { message_id: i64 },
    Written,
    Chunk { channel_id: Seq<char> },
}

impl View for Pending {
    type V = PendingView;

    open spec fn view(&self) -> PendingView {
        match self {
            Pending::Created => PendingView::Created,
            Pending::Edit { message_id, new_contents } => PendingView::Edit {
                message_id: *message_id,
                new_contents: new_contents@,
            },
            Pending::Delete { message_id } => PendingView::Delete { message_id: *message_id },
            Pending::Written => PendingView::Written,
            Pending::Chunk { channel_id } => PendingView::Chunk { channel_id: channel_id@ },
        }
    }
}

/// One step of handling a request.
#[derive(Debug, PartialEq, Eq)]
pub struct Step {
    /// To be performed now, in this order.
    pub actions: Vec<Action>,
    /// To be asked of the store after that, with what is pending on the
    /// answer; none where the request is done.
    pub store: Option<(StoreRequest, Pending)>,
}

/// What a [`Step`] holds.
pub struct StepView {
    pub actions: Seq<ActionView>,
    pub store: Option<(StoreRequestView, PendingView)>,
}

impl View for Step {
    type V = StepView;

    open spec fn view(&self) -> StepView {
        StepView {
            actions: views(self.actions@),
            store: match self.store {
                Some((r, p)) => Some((r@, p@)),
                None => None,
            },
        }
    }
}

/// The step that does `actions` and asks nothing of the store.
pub open spec fn spec_done(actions: Seq<ActionView>) -> StepView {
    StepView { actions, store: None }
}

/// The step that does nothing but ask the store.
pub open spec fn spec_ask(request: StoreRequestView, pending: PendingView) -> StepView {
    StepView { actions: Seq::empty(), store: Some((request, pending)) }
}

/// What a handler returned, as plain values.
pub open spec fn outcome(r: Result<Step, ServerError>) -> Result<StepView, ServerErrorView> {
    match r {
        Ok(step) => Ok(step@),
        Err(e) => Err(e@),
    }
}

/// What a handler that asks nothing of the store returned, as plain values.
pub open spec fn outcome_actions(r: Result<Vec<Action>, ServerError>) -> Result<
    Seq<ActionView>,
    ServerErrorView,
> {
    match r {
        Ok(actions) => Ok(views(actions@)),
        Err(e) => Err(e@),
    }
}

impl Step {
    /// The step that does `actions` and asks nothing of the store.
    pub fn done(actions: Vec<Action>) -> (r: Step)
        ensures
            r@ == spec_done(views(actions@)),
    {
        Step { actions, store: None }
    }

    /// The step that does nothing but ask the store.
    pub fn ask(request: StoreRequest, pending: Pending) -> (r: Step)
        ensures
            r@ == spec_ask(request@, pending@),
    {
        let r = Step { actions: Vec::new(), store: Some((request, pending)) };
        assert(views(r.actions@) =~= Seq::<ActionView>::empty());
        r
    }
}

/// A handler's actions as a step that asks nothing of the store.
pub open spec fn as_step(out: Result<Seq<ActionView>, ServerErrorView>) -> Result<
    StepView,
    ServerErrorView,
> {
    match out {
        Ok(actions) => Ok(spec_done(actions)),
        Err(e) => Err(e),
    }
}

/// The actions of a step, or the error in their place.
pub open spec fn actions_of(out: Result<StepView, ServerErrorView>) -> Result<
    Seq<ActionView>,
    ServerErrorView,
> {
    match out {
        Ok(step) => Ok(step.actions),
        Err(e) => Err(e),
    }
}

/// Whether the server `after` and the result `out` are what becomes of the
/// envelope `req` from the session `c` on the server `s`.  A binary
/// envelope is an audio frame and goes to the voice relay; free text is
/// ignored; a structured message goes to the handler of its kind.  Only
/// joining and leaving a voice channel change the server.
pub open spec fn spec_call_request(
    s: ServerView,
    c: ClientView,
    req: WsMessageView<ClientMessageView>,
    after: ServerView,
    out: Result<StepView, ServerErrorView>,
) -> bool {
    match req {
        WsMessageView::Message(ClientMessageView::SendMessage { channel_id, contents }) => after
            == s && exists|timestamp: i64| out == #[trigger] spec_send(c, channel_id, contents, timestamp),
        WsMessageView::Message(ClientMessageView::EditMessage { message_id, new_contents }) => after
            == s && out == spec_edit(message_id, new_contents),
        WsMessageView::Message(ClientMessageView::DeleteMessage { message_id }) => after == s && out
            == spec_delete(message_id),
        WsMessageView::Message(ClientMessageView::LoadChunk { channel_id, chunk_id }) => after == s
            && out == spec_load_chunk(c, channel_id, chunk_id),
        WsMessageView::Message(ClientMessageView::Typing { channel_id }) => after == s && out
            == as_step(spec_start_typing(s, c, channel_id)),
        WsMessageView::Message(ClientMessageView::JoinVoice { channel_id }) => exists|voice_id: u16|
            after == (#[trigger] spec_join(s, c, channel_id, voice_id)).0 && out == as_step(
                spec_join(s, c, channel_id, voice_id).1,
            ),
        WsMessageView::Message(ClientMessageView::LeaveVoice { channel_id }) => after == spec_leave(
            s,
            c,
            channel_id,
        ).0 && out == as_step(spec_leave(s, c, channel_id).1),
        WsMessageView::Binary(data) => after == s && spec_voice(s, c, data, actions_of(out))
            && out == as_step(actions_of(out)),
        WsMessageView::String(_) => after == s && out == Ok::<StepView, ServerErrorView>(
            spec_done(Seq::empty()),
        ),
    }
}

/// What follows once the store answered: a stored message is announced, a
/// message that was looked up is checked and then changed, a page is
/// handed to the requester.  An answer that does not fit what was pending
/// is an error.
pub open spec fn spec_resume(
    s: ServerView,
    c: ClientView,
    pending: PendingView,
    answer: StoreAnswerView,
) -> Result<StepView, ServerErrorView> {
    match (pending, answer) {
        (PendingView::Created, StoreAnswerView::Inserted(msg)) => Ok(spec_done(spec_sent(s, c, msg))),
        (PendingView::Edit { message_id, new_contents }, StoreAnswerView::Found(found)) => {
            spec_edit_found(c, message_id, new_contents, found)
        },
        (PendingView::Delete { message_id }, StoreAnswerView::Found(found)) => spec_delete_found(
            c,
            message_id,
            found,
        ),
        (PendingView::Written, StoreAnswerView::Done) => Ok(spec_done(Seq::empty())),
        (PendingView::Chunk { channel_id }, StoreAnswerView::Rows(rows)) => Ok(
            spec_done(spec_chunk_loaded(c, channel_id, rows)),
        ),
        _ => Err(ServerErrorView::Internal("Unexpected answer from the message store"@)),
    }
}

/// A handler's actions as a step that asks nothing of the store.
pub fn into_step(out: Result<Vec<Action>, ServerError>) -> (r: Result<Step, ServerError>)
    ensures
        outcome(r) == as_step(outcome_actions(out)),
{
    match out {
        Ok(actions) => Ok(Step::done(actions)),
        Err(e) => Err(e),
    }
}

impl Server {
    /// Routes an envelope from an authenticated session to its handler.
    pub fn call_request(&mut self, req: &WsMessage<ClientMessage>, client: &Client) -> (r: Result<
        Step,
        ServerError,
    >)
        requires
            old(self).wf(),
        ensures
            final(self).wf(),
            spec_call_request(old(self)@, client@, req@, final(self)@, outcome(r)),
    {
        match req {
            WsMessage::Message(message) => match message {
                ClientMessage::SendMessage { channel_id, contents } => {
                    message::send(self, client, channel_id.as_str(), contents.as_str())
                },
                ClientMessage::EditMessage { message_id, new_contents } => {
                    message::edit(self, client, *message_id, new_contents.as_str())
                },
                ClientMessage::DeleteMessage { message_id } => {
                    message::delete(self, client, *message_id)
                },
                ClientMessage::LoadChunk { chunk_id, channel_id } => {
                    chunk::load_chunk(self, client, channel_id.as_str(), *chunk_id)
                },
                ClientMessage::Typing { channel_id } => {
                    into_step(indicator::start_typing(self, client, channel_id.as_str()))
                },
                ClientMessage::JoinVoice { channel_id } => {
                    into_step(voice::join(self, client, channel_id.as_str()))
                },
                ClientMessage::LeaveVoice { channel_id } => {
                    into_step(voice::leave(self, client, channel_id.as_str()))
                },
            },
            WsMessage::Binary(data) => into_step(voice::voice(self, client, data.as_slice())),
            WsMessage::String(_) => {
                let none: Vec<Action> = Vec::new();
                assert(views(none@) =~= Seq::<ActionView>::empty());
                Ok(Step::done(none))
            },
        }
    }

    /// Goes on with a request once the store answered.
    pub fn resume(&self, client: &Client, pending: Pending, answer: StoreAnswer) -> (r: Result<
        Step,
        ServerError,
    >)
        ensures
            outcome(r) == spec_resume(self@, client@, pending@, answer@),
    {
        match (pending, answer) {
            (Pending::Created, StoreAnswer::Inserted(msg)) => Ok(
                Step::done(message::sent(self, client, &msg)),
            ),
            (Pending::Edit { message_id, new_contents }, StoreAnswer::Found(found)) => {
                message::edit_found(self, client, message_id, new_contents.as_str(), &found)
            },
            (Pending::Delete { message_id }, StoreAnswer::Found(found)) => message::delete_found(
                self,
                client,
                message_id,
                &found,
            ),
            (Pending::Written, StoreAnswer::Done) => {
                let none: Vec<Action> = Vec::new();
                assert(views(none@) =~= Seq::<ActionView>::empty());
                Ok(Step::done(none))
            },
            (Pending::Chunk { channel_id }, StoreAnswer::Rows(rows)) => Ok(
                Step::done(chunk::chunk_loaded(client, channel_id.as_str(), rows)),
            ),
            _ => Err(ServerError::Internal("Unexpected answer from the message store".to_owned())),
        }
    }
}

} // verus!
