//! What a session can and cannot bring about: statements about whole
//! steps of the request loop and of the handshake.

use vstd::prelude::*;

use crate::action::{recipient, ActionView, OutboundView};
use crate::error::ServerErrorView;
use crate::requests::message::{
    law_empty_message_is_refused, law_only_the_author_changes_a_message, lemma_mirror_is_for_plugins,
    spec_send,
};
use crate::requests::{spec_call_request, spec_done, PendingView, StepView};
use crate::plugin::types::LoaderMessageView;
use crate::server::handshake::{
    spec_init_client, spec_welcome, HandshakeEventView, HandshakeStepView,
};
use crate::server::{
    client_ids, is_registered, spec_handle_client, spec_request_mirror, spec_resume_client,
    spec_wf, without_client, ServerView,
};
use crate::types::data::MessageView;
use crate::types::message::{ClientMessageView, ResponseErrorView, WsMessageView};
use crate::utils::client::{ClientView, SessionState};
use crate::utils::database::StoreAnswerView;

verus! {

/// Taking a session out of the registry puts no session in.
pub proof fn lemma_without_client_adds_nobody(clients: Seq<ClientView>, id: u64, other: u64)
    ensures
        client_ids(without_client(clients, id)).contains(other) ==> client_ids(clients).contains(
            other,
        ),
{
    let ids = client_ids(clients);
    if ids.contains(id) {
        let i = ids.index_of(id);
        let rest = client_ids(clients.remove(i));
        if rest.contains(other) {
            let k = choose|k: int| 0 <= k < rest.len() && rest[k] == other;
            assert(ids[if k < i { k } else { k + 1 }] == other);
        }
    }
}

/// While the server runs, a request to send an empty message changes
/// nothing, asks nothing of the store, and writes to no session but the
/// sender's: apart from what the plugins are shown, the one action that
/// results is the refusal towards the sender.
pub proof fn law_empty_message_reaches_only_the_sender(
    s: ServerView,
    c: ClientView,
    channel_id: Seq<char>,
    after: ServerView,
    c_after: ClientView,
    step: StepView,
)
    requires
        !s.shutting_down,
        spec_handle_client(
            s,
            c,
            WsMessageView::Message(ClientMessageView::SendMessage { channel_id, contents: Seq::empty() }),
            after,
            c_after,
            step,
        ),
    ensures
        after == s,
        c_after == c,
        step.store is None,
        step.actions.len() >= 1,
        step.actions.last() == (ActionView::Send {
            client: c.id,
            payload: OutboundView::Error(
                ResponseErrorView::InvalidRequest("Invalid message: empty message"@),
            ),
        }),
        forall|k: int|
            0 <= k < step.actions.len() - 1 ==> recipient(#[trigger] step.actions[k]) is None,
{
    let req = WsMessageView::Message(
        ClientMessageView::SendMessage { channel_id, contents: Seq::<char>::empty() },
    );
    let (mid, out) = choose|mid: ServerView, out: Result<StepView, ServerErrorView>| #[trigger]
        spec_call_request(s, c, req, mid, out) && (after, c_after, step) == crate::server::spec_settle(
            mid,
            c,
            spec_request_mirror(s, c, req),
            out,
        );
    let timestamp = choose|timestamp: i64|
        out == #[trigger] spec_send(c, channel_id, Seq::empty(), timestamp);
    law_empty_message_is_refused(c, channel_id, timestamp);
    let shown = spec_request_mirror(s, c, req);
    let user_id = match c.uuid {
        Some(u) => u,
        None => Seq::empty(),
    };
    lemma_mirror_is_for_plugins(s.plugins, LoaderMessageView::Request { user_id, msg: req });
    assert(step.actions == shown + out->Ok_0.actions);
    assert forall|k: int| 0 <= k < step.actions.len() - 1 implies recipient(
        #[trigger] step.actions[k],
    ) is None by {
        assert(step.actions[k] == shown[k]);
        assert(shown[k] is Plugin);
    }
}

/// An edit or a deletion by someone who is not the author changes nothing
/// in the store: nothing is asked of the store.  As every failed request
/// it is the session's last: the session leaves the registry, the
/// requester alone is told, with the reason, and the socket is closed.
pub proof fn law_a_stranger_changes_nothing(
    s: ServerView,
    c: ClientView,
    message_id: i64,
    new_contents: Seq<char>,
    found: MessageView,
)
    requires
        c.uuid is Some,
        found.from != c.uuid->0,
    ensures
        spec_resume_client(
            s,
            c,
            PendingView::Edit { message_id, new_contents },
            Ok(StoreAnswerView::Found(Some(found))),
        ) == spec_turned_away(s, c),
        spec_resume_client(
            s,
            c,
            PendingView::Delete { message_id },
            Ok(StoreAnswerView::Found(Some(found))),
        ) == spec_turned_away(s, c),
{
    law_only_the_author_changes_a_message(c, message_id, new_contents, found);
    let told = spec_turned_away(s, c).2.actions;
    assert(Seq::<ActionView>::empty() + told =~= told);
}

/// What becomes of a session whose user asked to change a message of
/// someone else.
pub open spec fn spec_turned_away(s: ServerView, c: ClientView) -> (ServerView, ClientView, StepView) {
    (
        ServerView { clients: without_client(s.clients, c.id), ..s },
        ClientView { state: SessionState::Closed, ..c },
        spec_done(
            seq![
                ActionView::Send {
                    client: c.id,
                    payload: OutboundView::Error(
                        ResponseErrorView::InternalError("You are not the author of this message"@),
                    ),
                },
                ActionView::Close { client: c.id },
            ],
        ),
    )
}

/// A closed connection stays closed: whatever happens on it, nothing
/// changes and nothing is done.
pub proof fn law_closed_is_final(
    s: ServerView,
    c: ClientView,
    e: HandshakeEventView,
    after: ServerView,
    c_after: ClientView,
    step: HandshakeStepView,
)
    requires
        c.state == SessionState::Closed,
        spec_init_client(s, c, e, after, c_after, step),
    ensures
        after == s,
        c_after == c,
        step.actions.len() == 0,
        step.authenticate is None,
{}

/// A session becomes authenticated only when the provider vouches for
/// it: it is then bound to the user that the provider named and is asked
/// to be welcomed, and it is not in the registry yet.
pub proof fn law_authenticated_only_by_the_provider(
    s: ServerView,
    c: ClientView,
    e: HandshakeEventView,
    after: ServerView,
    c_after: ClientView,
    step: HandshakeStepView,
)
    requires
        c.state != SessionState::Authenticated,
        spec_init_client(s, c, e, after, c_after, step),
        c_after.state == SessionState::Authenticated,
    ensures
        c.state == SessionState::Authenticating,
        e is Accepted,
        c_after.uuid == Some(e->Accepted_0),
        after == s,
        spec_welcome(s, c.id, e->Accepted_0, step.actions),
{
}

/// A session enters the registry only when its handshake has succeeded
/// and its welcome is written: if an event of the handshake leaves the
/// session registered that was not registered before, then the session
/// was authenticated and bound to a user, and the event is the news that
/// the welcome was written.  Nothing is asked for in that step.
pub proof fn law_registered_only_after_the_welcome(
    s: ServerView,
    c: ClientView,
    e: HandshakeEventView,
    after: ServerView,
    c_after: ClientView,
    step: HandshakeStepView,
)
    requires
        spec_wf(s),
        !is_registered(s, c.id),
        spec_init_client(s, c, e, after, c_after, step),
        is_registered(after, c.id),
    ensures
        c.state == SessionState::Authenticated,
        c.uuid is Some,
        e is Welcomed,
        c_after == c,
        step.actions.len() == 0,
{
    lemma_without_client_adds_nobody(s.clients, c.id, c.id);
}

} // verus!
