//! Sending, editing and deleting chat messages.

use vstd::prelude::*;

use crate::action::{append_actions, recipient, Action, ActionView, Outbound, OutboundView};
use crate::error::{ServerError, ServerErrorView};
use crate::plugin::types::{LoaderMessage, LoaderMessageView};
use crate::requests::{outcome, spec_ask, spec_done, Pending, PendingView, Step, StepView};
use crate::server::{spec_broadcast, spec_mirror, Server, ServerView};
use crate::types::data::{Message, MessageView};
use crate::types::message::{ResponseError, ResponseErrorView, ServerMessage, ServerMessageView};
use crate::types::views;
use crate::utils::client::{Client, ClientView};
use crate::utils::clock::now_timestamp;
use crate::utils::database::{StoreRequest, StoreRequestView};

verus! {

/// The user that a session is bound to, or the refusal to serve a session
/// that is bound to none.
pub open spec fn spec_uuid(c: ClientView) -> Result<Seq<char>, ServerErrorView> {
    match c.uuid {
        Some(u) => Ok(u),
        None => Err(ServerErrorView::Internal("Client is not authenticated"@)),
    }
}

/// What becomes of a request to send `contents` to `channel_id` at the
/// time `timestamp`: an empty message is refused towards the sender and
/// nothing else happens; any other is handed to the store under the
/// sender's name.
pub open spec fn spec_send(
    c: ClientView,
    channel_id: Seq<char>,
    contents: Seq<char>,
    timestamp: i64,
) -> Result<StepView, ServerErrorView> {
    if contents.len() == 0 {
        Ok(
            spec_done(
                seq![
                    ActionView::Send {
                        client: c.id,
                        payload: OutboundView::Error(
                            ResponseErrorView::InvalidRequest("Invalid message: empty message"@),
                        ),
                    },
                ],
            ),
        )
    } else {
        match spec_uuid(c) {
            Err(e) => Err(e),
            Ok(user_id) => Ok(
                spec_ask(
                    StoreRequestView::InsertMessage { channel_id, user_id, contents, timestamp },
                    PendingView::Created,
                ),
            ),
        }
    }
}

/// What follows once the store has taken `msg`: every registered session
/// is sent it, then every plugin is told.
pub open spec fn spec_sent(s: ServerView, c: ClientView, msg: MessageView) -> Seq<ActionView> {
    spec_broadcast(s.clients, OutboundView::Message(ServerMessageView::MessageCreate(msg)))
        + spec_mirror(
        s.plugins,
        LoaderMessageView::MessageSent {
            user_id: match c.uuid {
                Some(u) => u,
                None => Seq::empty(),
            },
            msg,
        },
    )
}

/// Whether `c` may change the message that was found under the id it gave:
/// the message has to exist and to be the requester's own.
pub open spec fn spec_may_change(c: ClientView, found: Option<MessageView>) -> Result<
    (),
    ServerErrorView,
> {
    match found {
        None => Err(ServerErrorView::NotFound("Message does not exist"@)),
        Some(m) => match spec_uuid(c) {
            Err(e) => Err(e),
            Ok(user_id) => if m.from == user_id {
                Ok(())
            } else {
                Err(ServerErrorView::Unauthorized("You are not the author of this message"@))
            },
        },
    }
}

/// What becomes of an edit once the message was looked up: the store is
/// asked to change it if the requester may; else nothing is asked of the
/// store.
pub open spec fn spec_edit_found(
    c: ClientView,
    message_id: i64,
    new_contents: Seq<char>,
    found: Option<MessageView>,
) -> Result<StepView, ServerErrorView> {
    match spec_may_change(c, found) {
        Err(e) => Err(e),
        Ok(_) => Ok(
            spec_ask(
                StoreRequestView::EditMessage { message_id, contents: new_contents },
                PendingView::Written,
            ),
        ),
    }
}

/// What becomes of a deletion once the message was looked up.
pub open spec fn spec_delete_found(
    c: ClientView,
    message_id: i64,
    found: Option<MessageView>,
) -> Result<StepView, ServerErrorView> {
    match spec_may_change(c, found) {
        Err(e) => Err(e),
        Ok(_) => Ok(spec_ask(StoreRequestView::DeleteMessage { message_id }, PendingView::Written)),
    }
}

/// Every action of a notice to the plugins is a write to a plugin.
pub proof fn lemma_mirror_is_for_plugins(plugins: Seq<crate::plugin::PluginView>, msg: LoaderMessageView)
    ensures
        forall|k: int|
            0 <= k < spec_mirror(plugins, msg).len() ==> (#[trigger] spec_mirror(plugins, msg)[k])
                is Plugin,
    decreases plugins.len(),
{
    if plugins.len() > 0 {
        lemma_mirror_is_for_plugins(plugins.drop_last(), msg);
    }
}

/// A message that the store has taken reaches every registered session
/// exactly once: the announcement starts with one write of the message to
/// each session of the registry, in the registry's order, what follows
/// goes to plugins, and no two writes go to the same session.
pub proof fn law_message_reaches_every_session_once(s: ServerView, c: ClientView, msg: MessageView)
    requires
        crate::server::spec_wf(s),
    ensures
        spec_sent(s, c, msg).len() >= s.clients.len(),
        forall|i: int|
            0 <= i < s.clients.len() ==> (#[trigger] spec_sent(s, c, msg)[i]) == (ActionView::Send {
                client: s.clients[i].id,
                payload: OutboundView::Message(ServerMessageView::MessageCreate(msg)),
            }),
        forall|k: int|
            s.clients.len() <= k < spec_sent(s, c, msg).len() ==> (#[trigger] spec_sent(s, c, msg)[k])
                is Plugin,
        forall|i: int, j: int|
            0 <= i < spec_sent(s, c, msg).len() && 0 <= j < spec_sent(s, c, msg).len() && recipient(
                #[trigger] spec_sent(s, c, msg)[i],
            ) is Some && recipient(spec_sent(s, c, msg)[i]) == recipient(
                #[trigger] spec_sent(s, c, msg)[j],
            ) ==> i == j,
{
    let sent = spec_sent(s, c, msg);
    let n = s.clients.len() as int;
    let to_clients = spec_broadcast(
        s.clients,
        OutboundView::Message(ServerMessageView::MessageCreate(msg)),
    );
    let user_id = match c.uuid {
        Some(u) => u,
        None => Seq::empty(),
    };
    let to_plugins = spec_mirror(s.plugins, LoaderMessageView::MessageSent { user_id, msg });
    lemma_mirror_is_for_plugins(s.plugins, LoaderMessageView::MessageSent { user_id, msg });
    assert(sent == to_clients + to_plugins);
    assert forall|i: int| 0 <= i < n implies (#[trigger] sent[i]) == (ActionView::Send {
        client: s.clients[i].id,
        payload: OutboundView::Message(ServerMessageView::MessageCreate(msg)),
    }) by {
        assert(sent[i] == to_clients[i]);
    }
    assert forall|k: int| n <= k < sent.len() implies (#[trigger] sent[k]) is Plugin by {
        assert(sent[k] == to_plugins[k - n]);
    }
    assert forall|i: int, j: int|
        0 <= i < sent.len() && 0 <= j < sent.len() && recipient(#[trigger] sent[i]) is Some
            && recipient(sent[i]) == recipient(#[trigger] sent[j]) implies i == j by {
        if i >= n {
            assert(sent[i] is Plugin);
        }
        if j >= n {
            assert(sent[j] is Plugin);
        }
        let ids = crate::server::client_ids(s.clients);
        assert(ids[i] == s.clients[i].id);
        assert(ids[j] == s.clients[j].id);
    }
}

/// An empty message is never stored and never broadcast: nothing is asked
/// of the store, and the one action that results tells the sender, and
/// nobody else, that the request is invalid.
pub proof fn law_empty_message_is_refused(c: ClientView, channel_id: Seq<char>, timestamp: i64)
    ensures
        spec_send(c, channel_id, Seq::empty(), timestamp) matches Ok(step) && step.store is None
            && step.actions == seq![
            ActionView::Send {
                client: c.id,
                payload: OutboundView::Error(
                    ResponseErrorView::InvalidRequest("Invalid message: empty message"@),
                ),
            },
        ],
{}

/// A message that is not empty, from a session that is bound to a user,
/// is handed to the store once, under that user's name, and nothing else
/// happens until the store has taken it.
pub proof fn law_message_is_stored_once(
    c: ClientView,
    channel_id: Seq<char>,
    contents: Seq<char>,
    timestamp: i64,
)
    requires
        contents.len() > 0,
        c.uuid is Some,
    ensures
        spec_send(c, channel_id, contents, timestamp) matches Ok(step) && step.actions.len() == 0
            && step.store == Some(
            (
                StoreRequestView::InsertMessage {
                    channel_id,
                    user_id: c.uuid->0,
                    contents,
                    timestamp,
                },
                PendingView::Created,
            ),
        ),
{}

/// Only its author changes a message: where the message that was looked
/// up is another user's, an edit and a deletion both fail as
/// unauthorized, and nothing is asked of the store.
pub proof fn law_only_the_author_changes_a_message(
    c: ClientView,
    message_id: i64,
    new_contents: Seq<char>,
    found: MessageView,
)
    requires
        c.uuid is Some,
        found.from != c.uuid->0,
    ensures
        spec_edit_found(c, message_id, new_contents, Some(found)) == Err::<
            StepView,
            ServerErrorView,
        >(ServerErrorView::Unauthorized("You are not the author of this message"@)),
        spec_delete_found(c, message_id, Some(found)) == Err::<StepView, ServerErrorView>(
            ServerErrorView::Unauthorized("You are not the author of this message"@),
        ),
{}

/// Handles a request to send a message, at the clock's time.  The clock
/// is read only for a message that goes to the store.
pub fn send(server: &Server, client: &Client, channel_id: &str, contents: &str) -> (r: Result<
    Step,
    ServerError,
>)
    ensures
        exists|timestamp: i64| outcome(r) == spec_send(client@, channel_id@, contents@, timestamp),
{
    if contents.is_empty() || client.uuid.is_none() {
        return send_at(server, client, channel_id, contents, 0);
    }
    let timestamp = now_timestamp();
    send_at(server, client, channel_id, contents, timestamp)
}

/// Handles a request to send a message at the time `timestamp`.
pub fn send_at(
    server: &Server,
    client: &Client,
    channel_id: &str,
    contents: &str,
    timestamp: i64,
) -> (r: Result<Step, ServerError>)
    ensures
        outcome(r) == spec_send(client@, channel_id@, contents@, timestamp),
{
    if contents.is_empty() {
        let mut actions: Vec<Action> = Vec::new();
        actions.push(
            Action::Send {
                client: client.id,
                payload: Outbound::Error(
                    ResponseError::InvalidRequest("Invalid message: empty message".to_owned()),
                ),
            },
        );
        let step = Step::done(actions);
        assert(step@.actions =~= spec_send(client@, channel_id@, contents@, timestamp)->Ok_0.actions);
        return Ok(step);
    }
    let user_id = match client.get_uuid() {
        Ok(u) => u,
        Err(e) => {
            return Err(e);
        },
    };
    Ok(
        Step::ask(
            StoreRequest::InsertMessage {
                channel_id: channel_id.to_owned(),
                user_id,
                contents: contents.to_owned(),
                timestamp,
            },
            Pending::Created,
        ),
    )
}

/// Announces a message that the store has taken.
pub fn sent(server: &Server, client: &Client, msg: &Message) -> (r: Vec<Action>)
    ensures
        views(r@) == spec_sent(server@, client@, msg@),
{
    let mut actions = server.broadcast(ServerMessage::MessageCreate(msg.clone()));
    let user_id = match &client.uuid {
        Some(u) => u.clone(),
        None => String::new(),
    };
    let mirror = server.send_plugin_message(&LoaderMessage::MessageSent { user_id, msg: msg.clone() });
    append_actions(&mut actions, mirror);
    actions
}

/// Whether `client` may change the message that was found.
pub fn may_change(client: &Client, found: &Option<Message>) -> (r: Result<(), ServerError>)
    ensures
        match r {
            Ok(_) => spec_may_change(client@, option_view(*found)) is Ok,
            Err(e) => spec_may_change(client@, option_view(*found)) == Err::<(), ServerErrorView>(
                e@,
            ),
        },
{
    let msg = match found {
        Some(m) => m,
        None => {
            return Err(ServerError::NotFound("Message does not exist".to_owned()));
        },
    };
    let user_id = match client.get_uuid() {
        Ok(u) => u,
        Err(e) => {
            return Err(e);
        },
    };
    if msg.from != user_id {
        return Err(ServerError::Unauthorized("You are not the author of this message".to_owned()));
    }
    Ok(())
}

/// The message that was found, as plain values.
pub open spec fn option_view(found: Option<Message>) -> Option<MessageView> {
    match found {
        Some(m) => Some(m@),
        None => None,
    }
}

/// What becomes of a request to edit a message: the message is looked up
/// first.
pub open spec fn spec_edit(message_id: i64, new_contents: Seq<char>) -> Result<
    StepView,
    ServerErrorView,
> {
    Ok(
        spec_ask(
            StoreRequestView::GetMessageById { message_id },
            PendingView::Edit { message_id, new_contents },
        ),
    )
}

/// What becomes of a request to delete a message: the message is looked
/// up first.
pub open spec fn spec_delete(message_id: i64) -> Result<StepView, ServerErrorView> {
    Ok(spec_ask(StoreRequestView::GetMessageById { message_id }, PendingView::Delete { message_id }))
}

/// Handles a request to edit a message: the message is looked up first.
pub fn edit(server: &Server, client: &Client, message_id: i64, new_contents: &str) -> (r: Result<
    Step,
    ServerError,
>)
    ensures
        outcome(r) == spec_edit(message_id, new_contents@),
{
    Ok(
        Step::ask(
            StoreRequest::GetMessageById { message_id },
            Pending::Edit { message_id, new_contents: new_contents.to_owned() },
        ),
    )
}

/// Goes on with an edit once the message was looked up.
pub fn edit_found(
    server: &Server,
    client: &Client,
    message_id: i64,
    new_contents: &str,
    found: &Option<Message>,
) -> (r: Result<Step, ServerError>)
    ensures
        outcome(r) == spec_edit_found(client@, message_id, new_contents@, option_view(*found)),
{
    match may_change(client, found) {
        Err(e) => Err(e),
        Ok(_) => Ok(
            Step::ask(
                StoreRequest::EditMessage { message_id, contents: new_contents.to_owned() },
                Pending::Written,
            ),
        ),
    }
}

/// Handles a request to delete a message: the message is looked up first.
pub fn delete(server: &Server, client: &Client, message_id: i64) -> (r: Result<Step, ServerError>)
    ensures
        outcome(r) == spec_delete(message_id),
{
    Ok(Step::ask(StoreRequest::GetMessageById { message_id }, Pending::Delete { message_id }))
}

/// Goes on with a deletion once the message was looked up.
pub fn delete_found(server: &Server, client: &Client, message_id: i64, found: &Option<Message>) -> (r:
    Result<Step, ServerError>)
    ensures
        outcome(r) == spec_delete_found(client@, message_id, option_view(*found)),
{
    match may_change(client, found) {
        Err(e) => Err(e),
        Ok(_) => Ok(Step::ask(StoreRequest::DeleteMessage { message_id }, Pending::Written)),
    }
}

} // verus!
