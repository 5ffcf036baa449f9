//! Voice channels: joining, leaving, and relaying audio frames.

use vstd::prelude::*;

use crate::action::{append_actions, recipient, Action, ActionView, OutboundView};
use crate::error::{ServerError, ServerErrorView};
use crate::requests::message::spec_uuid;
use crate::requests::outcome_actions;
use crate::server::{spec_broadcast, spec_broadcast_to, Server, ServerView};
use crate::types::data::{VoiceParticipant, VoiceParticipantView};
use crate::types::message::{ServerMessage, ServerMessageView};
use crate::types::views;
use crate::utils::client::{Client, ClientView};
use crate::utils::voice::{
    in_channel, is_trail, participants, spec_remove, spec_set, user_left,
};

verus! {

/// What becomes of `c` joining `channel_id` under the relay identifier
/// `voice_id`: the registry takes the user in, and every session is told.
pub open spec fn spec_join(s: ServerView, c: ClientView, channel_id: Seq<char>, voice_id: u16) -> (
    ServerView,
    Result<Seq<ActionView>, ServerErrorView>,
) {
    match spec_uuid(c) {
        Err(e) => (s, Err(e)),
        Ok(user_id) => (
            ServerView { voice: spec_set(s.voice, user_id, channel_id, voice_id), ..s },
            Ok(
                spec_broadcast(
                    s.clients,
                    OutboundView::Message(
                        ServerMessageView::VoiceJoin { user_id, channel_id, voice_id },
                    ),
                ),
            ),
        ),
    }
}

/// What becomes of `c` leaving `channel_id`: nothing where the user was
/// not in it; else the registry lets the user go, and every session is
/// told.
pub open spec fn spec_leave(s: ServerView, c: ClientView, channel_id: Seq<char>) -> (
    ServerView,
    Result<Seq<ActionView>, ServerErrorView>,
) {
    match spec_uuid(c) {
        Err(e) => (s, Err(e)),
        Ok(user_id) => if in_channel(s.voice, channel_id, user_id) {
            (
                ServerView { voice: spec_remove(s.voice, channel_id, user_id), ..s },
                Ok(
                    spec_broadcast(
                        s.clients,
                        OutboundView::Message(
                            ServerMessageView::VoiceLeave {
                                user_id,
                                channel_id,
                                voice_id: s.voice[channel_id][user_id],
                            },
                        ),
                    ),
                ),
            )
        } else {
            (s, Ok(Seq::empty()))
        },
    }
}

/// An audio frame behind the sender's relay identifier, low byte first.
pub open spec fn relay_frame(voice_id: u16, data: Seq<u8>) -> Seq<u8> {
    seq![(voice_id % 256) as u8, (voice_id / 256) as u8] + data
}

/// The relay of `data` from `user_id` in `channel_id`: the framed payload
/// goes to the sessions of every other participant of the channel.
pub open spec fn spec_relay(s: ServerView, user_id: Seq<char>, channel_id: Seq<char>, data: Seq<u8>) -> Seq<
    ActionView,
> {
    spec_broadcast_to(
        s.clients,
        participants(s.voice, channel_id).dom().remove(user_id),
        OutboundView::Binary(relay_frame(s.voice[channel_id][user_id], data)),
    )
}

/// The news, to every session, that a user left the channels of `trail`.
pub open spec fn spec_farewells(s: ServerView, trail: Seq<VoiceParticipantView>) -> Seq<ActionView>
    decreases trail.len(),
{
    if trail.len() == 0 {
        Seq::empty()
    } else {
        spec_farewells(s, trail.drop_last()) + spec_broadcast(
            s.clients,
            OutboundView::Message(
                ServerMessageView::VoiceLeave {
                    user_id: trail.last().user_id,
                    channel_id: trail.last().channel_id,
                    voice_id: trail.last().voice_id,
                },
            ),
        )
    }
}

/// Whether `after` and `actions` are what becomes of the user of the
/// session `c` being taken out of voice chat altogether: the user is in
/// no channel any more, everyone else is where they were, and every
/// session is told, once for each channel that the user was in.
pub open spec fn spec_leave_all(
    s: ServerView,
    c: ClientView,
    after: ServerView,
    actions: Seq<ActionView>,
) -> bool {
    match c.uuid {
        None => after == s && actions == Seq::<ActionView>::empty(),
        Some(user_id) => after == (ServerView { voice: after.voice, ..s }) && user_left(
            s.voice,
            after.voice,
            user_id,
        ) && told_everywhere(s, user_id, actions),
    }
}

/// Whether `actions` are the news that `user_id` left, once for each
/// channel that the user was in.
pub open spec fn told_everywhere(s: ServerView, user_id: Seq<char>, actions: Seq<ActionView>) -> bool {
    exists|trail: Seq<VoiceParticipantView>| #[trigger]
        is_trail(trail, s.voice, user_id) && actions == spec_farewells(s, trail)
}

/// Takes the user of a session out of voice chat altogether.  This is
/// what follows when a session has failed and not even the notice of the
/// failure could be delivered: the user is not left behind in a voice
/// channel.
pub fn leave_all(server: &mut Server, client: &Client) -> (r: Vec<Action>)
    requires
        old(server).wf(),
    ensures
        final(server).wf(),
        spec_leave_all(old(server)@, client@, final(server)@, views(r@)),
{
    let mut actions: Vec<Action> = Vec::new();
    assert(views(actions@) =~= Seq::<ActionView>::empty());
    let user_id = match &client.uuid {
        Some(u) => u,
        None => {
            return actions;
        },
    };
    let trail = server.voice.remove_user(user_id.as_str());
    let ghost all = views(trail@);
    let ghost mid = server@;
    let mut i: usize = 0;
    while i < trail.len()
        invariant
            i <= trail.len(),
            server.wf(),
            server@ == mid,
            mid == (ServerView { voice: mid.voice, ..old(server)@ }),
            user_left(old(server)@.voice, mid.voice, user_id@),
            is_trail(all, old(server)@.voice, user_id@),
            client@.uuid == Some(user_id@),
            all == views(trail@),
            views(actions@) == spec_farewells(server@, all.take(i as int)),
        decreases trail.len() - i,
    {
        proof {
            let next = all.take(i as int + 1);
            assert(next.drop_last() =~= all.take(i as int));
        }
        let news = server.broadcast(
            ServerMessage::VoiceLeave {
                user_id: trail[i].user_id.clone(),
                channel_id: trail[i].channel_id.clone(),
                voice_id: trail[i].voice_id,
            },
        );
        append_actions(&mut actions, news);
        i = i + 1;
    }
    proof {
        assert(all.take(trail.len() as int) =~= all);
        lemma_farewells_need_the_registry_only(server@, old(server)@, all);
        assert(is_trail(all, old(server)@.voice, user_id@) && views(actions@) == spec_farewells(
            old(server)@,
            all,
        ));
    }
    actions
}

/// The news of a leave depend on the registry of sessions alone.
pub proof fn lemma_farewells_need_the_registry_only(
    a: ServerView,
    b: ServerView,
    trail: Seq<VoiceParticipantView>,
)
    requires
        a.clients == b.clients,
    ensures
        spec_farewells(a, trail) == spec_farewells(b, trail),
    decreases trail.len(),
{
    if trail.len() > 0 {
        lemma_farewells_need_the_registry_only(a, b, trail.drop_last());
    }
}

/// Handles a request to join a voice channel, under a relay identifier
/// drawn at random.
pub fn join(server: &mut Server, client: &Client, channel_id: &str) -> (r: Result<
    Vec<Action>,
    ServerError,
>)
    requires
        old(server).wf(),
    ensures
        final(server).wf(),
        exists|voice_id: u16|
            (final(server)@, outcome_actions(r)) == spec_join(
                old(server)@,
                client@,
                channel_id@,
                voice_id,
            ),
{
    let user_id = match client.get_uuid() {
        Ok(u) => u,
        Err(e) => {
            assert((server@, outcome_actions(Err(e))) == spec_join(old(server)@, client@, channel_id@, 0));
            return Err(e);
        },
    };
    let voice_id = server.voice.set(user_id.clone(), channel_id.to_owned());
    let r = Ok(
        server.broadcast(
            ServerMessage::VoiceJoin { user_id, channel_id: channel_id.to_owned(), voice_id },
        ),
    );
    assert((server@, outcome_actions(r)) == spec_join(old(server)@, client@, channel_id@, voice_id));
    r
}

/// Handles a request to leave a voice channel.
pub fn leave(server: &mut Server, client: &Client, channel_id: &str) -> (r: Result<
    Vec<Action>,
    ServerError,
>)
    requires
        old(server).wf(),
    ensures
        final(server).wf(),
        (final(server)@, outcome_actions(r)) == spec_leave(old(server)@, client@, channel_id@),
{
    let user_id = match client.get_uuid() {
        Ok(u) => u,
        Err(e) => {
            return Err(e);
        },
    };
    let voice_id = match server.voice.remove(channel_id, user_id.as_str()) {
        Some(v) => v,
        None => {
            let none: Vec<Action> = Vec::new();
            assert(views(none@) =~= Seq::<ActionView>::empty());
            return Ok(none);
        },
    };
    Ok(
        server.broadcast(
            ServerMessage::VoiceLeave { user_id, channel_id: channel_id.to_owned(), voice_id },
        ),
    )
}

/// An audio frame reaches the other participants of the channel and
/// nobody else: every action of the relay writes the framed payload to a
/// registered session whose user is in the channel and is not the sender,
/// and no session is written to twice.
pub proof fn law_relay_reaches_other_participants_only(
    s: ServerView,
    user_id: Seq<char>,
    channel_id: Seq<char>,
    data: Seq<u8>,
)
    requires
        crate::server::spec_wf(s),
    ensures
        forall|k: int|
            0 <= k < spec_relay(s, user_id, channel_id, data).len() ==> exists|i: int|
                0 <= i < s.clients.len() && (#[trigger] s.clients[i]).uuid is Some
                    && s.clients[i].uuid->0 != user_id && in_channel(
                    s.voice,
                    channel_id,
                    s.clients[i].uuid->0,
                ) && (#[trigger] spec_relay(s, user_id, channel_id, data)[k]) == (ActionView::Send {
                    client: s.clients[i].id,
                    payload: OutboundView::Binary(
                        relay_frame(s.voice[channel_id][user_id], data),
                    ),
                }),
        forall|k1: int, k2: int|
            0 <= k1 < k2 < spec_relay(s, user_id, channel_id, data).len() ==> recipient(
                #[trigger] spec_relay(s, user_id, channel_id, data)[k1],
            ) != recipient(#[trigger] spec_relay(s, user_id, channel_id, data)[k2]),
{
    let targets = participants(s.voice, channel_id).dom().remove(user_id);
    let payload = OutboundView::Binary(relay_frame(s.voice[channel_id][user_id], data));
    crate::server::law_broadcast_to_reaches_the_targets_once(s.clients, targets, payload);
    let relay = spec_relay(s, user_id, channel_id, data);
    assert forall|k: int| 0 <= k < relay.len() implies exists|i: int|
        0 <= i < s.clients.len() && (#[trigger] s.clients[i]).uuid is Some && s.clients[i].uuid->0
            != user_id && in_channel(s.voice, channel_id, s.clients[i].uuid->0) && (
        #[trigger] relay[k]) == (ActionView::Send { client: s.clients[i].id, payload }) by {
        let i = choose|i: int|
            0 <= i < s.clients.len() && (#[trigger] s.clients[i]).uuid is Some && targets.contains(
                s.clients[i].uuid->0,
            ) && relay[k] == (ActionView::Send { client: s.clients[i].id, payload });
        assert(targets.contains(s.clients[i].uuid->0));
    }
}

/// Whether `user_id` is in a voice channel.
pub open spec fn in_voice_chat(s: ServerView, user_id: Seq<char>) -> bool {
    exists|ch: Seq<char>| #[trigger] in_channel(s.voice, ch, user_id)
}

/// Whether `out` is the relay of `data` in a channel that `user_id` is in.
pub open spec fn relayed_somewhere(
    s: ServerView,
    user_id: Seq<char>,
    data: Seq<u8>,
    out: Result<Seq<ActionView>, ServerErrorView>,
) -> bool {
    exists|ch: Seq<char>|
        #[trigger] in_channel(s.voice, ch, user_id) && out == Ok::<Seq<ActionView>, ServerErrorView>(
            spec_relay(s, user_id, ch, data),
        )
}

/// Whether `out` is what becomes of an audio frame `data` from `c`: the
/// frame of a user who is in no voice channel is dropped; else it is
/// relayed in a channel that the user is in.
pub open spec fn spec_voice(
    s: ServerView,
    c: ClientView,
    data: Seq<u8>,
    out: Result<Seq<ActionView>, ServerErrorView>,
) -> bool {
    match spec_uuid(c) {
        Err(e) => out == Err::<Seq<ActionView>, ServerErrorView>(e),
        Ok(user_id) => if in_voice_chat(s, user_id) {
            relayed_somewhere(s, user_id, data, out)
        } else {
            out == Ok::<Seq<ActionView>, ServerErrorView>(Seq::empty())
        },
    }
}

/// The members other than `user_id`.
fn others<'a>(members: &Vec<&'a String>, user_id: &String) -> (r: Vec<&'a String>)
    ensures
        views(r@).to_set() == views(members@).to_set().remove(user_id@),
{
    let mut targets: Vec<&String> = Vec::new();
    let mut i: usize = 0;
    while i < members.len()
        invariant
            i <= members.len(),
            views(targets@).to_set() =~= views(members@).take(i as int).to_set().remove(user_id@),
        decreases members.len() - i,
    {
        let ghost before = views(targets@);
        let ghost m = members@[i as int]@;
        proof {
            let next = views(members@).take(i as int + 1);
            assert(next =~= views(members@).take(i as int) + seq![m]);
            vstd::seq_lib::seq_to_set_distributes_over_add(views(members@).take(i as int), seq![m]);
            assert(seq![m].to_set() =~= set![m]) by {
                assert(seq![m][0] == m);
            }
        }
        if *members[i] != *user_id {
            targets.push(members[i]);
            proof {
                assert(views(targets@) =~= before + seq![m]);
                vstd::seq_lib::seq_to_set_distributes_over_add(before, seq![m]);
            }
        }
        i = i + 1;
    }
    assert(views(members@).take(members.len() as int) =~= views(members@));
    targets
}

/// An audio frame behind the sender's relay identifier.
pub fn frame(voice_id: u16, data: &[u8]) -> (r: Vec<u8>)
    ensures
        r@ == relay_frame(voice_id, data@),
{
    let mut payload: Vec<u8> = Vec::new();
    payload.push((voice_id % 256) as u8);
    payload.push((voice_id / 256) as u8);
    let mut k: usize = 0;
    while k < data.len()
        invariant
            k <= data.len(),
            payload@ =~= relay_frame(voice_id, data@.take(k as int)),
        decreases data.len() - k,
    {
        payload.push(data[k]);
        k = k + 1;
    }
    payload
}

/// Relays an audio frame: it goes, behind the sender's relay identifier,
/// to every other participant of the sender's voice channel.  The frame
/// of a user who is in no voice channel is dropped.
pub fn voice(server: &Server, client: &Client, data: &[u8]) -> (r: Result<Vec<Action>, ServerError>)
    requires
        server.wf(),
    ensures
        spec_voice(server@, client@, data@, outcome_actions(r)),
{
    let user_id = match client.get_uuid() {
        Ok(u) => u,
        Err(e) => {
            return Err(e);
        },
    };
    let (channel_id, voice_id) = match server.voice.find_user(user_id.as_str()) {
        Some(found) => found,
        None => {
            let none: Vec<Action> = Vec::new();
            assert(views(none@) =~= Seq::<ActionView>::empty());
            return Ok(none);
        },
    };
    let members = server.voice.get(channel_id.as_str());
    let targets = others(&members, &user_id);
    let payload = frame(voice_id, data);
    let r = Ok(server.broadcast_bin_to(targets.as_slice(), payload));
    proof {
        let ch = channel_id@;
        assert(outcome_actions(r) == Ok::<Seq<ActionView>, ServerErrorView>(
            spec_relay(server@, user_id@, ch, data@),
        ));
    }
    r
}

} // verus!
