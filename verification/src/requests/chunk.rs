//! Paging through a channel's history.

use vstd::prelude::*;

use crate::action::{Action, ActionView, Outbound, OutboundView};
use crate::error::{ServerError, ServerErrorView};
use crate::requests::message::spec_uuid;
use crate::requests::{outcome, spec_ask, Pending, PendingView, Step, StepView};
use crate::server::Server;
use crate::types::data::{Message, MessageView};
use crate::types::message::{ServerMessage, ServerMessageView};
use crate::types::views;
use crate::utils::client::{Client, ClientView};
use crate::utils::database::{StoreRequest, StoreRequestView};

verus! {

/// Messages on one page of history.
pub const CHUNK_SIZE: i64 = 50;

/// How many newer messages of the channel come before the page
/// `chunk_id`: page 0 holds the newest messages, each page holds
/// [`CHUNK_SIZE`] of them.  A page so far back that its offset is beyond
/// what the store can count starts at the largest offset there is.
pub open spec fn spec_offset(chunk_id: usize) -> i64 {
    if chunk_id * CHUNK_SIZE > i64::MAX {
        i64::MAX
    } else {
        (chunk_id * CHUNK_SIZE) as i64
    }
}

/// The window of the page `chunk_id`: how many messages it holds at most,
/// and how many newer ones come before it.
pub fn window(chunk_id: usize) -> (r: (i64, i64))
    ensures
        r == (CHUNK_SIZE, spec_offset(chunk_id)),
{
    let wide: u128 = (chunk_id as u128) * (CHUNK_SIZE as u128);
    let offset: i64 = if wide > 9223372036854775807u128 {
        i64::MAX
    } else {
        wide as i64
    };
    (CHUNK_SIZE, offset)
}

/// The page that is handed out for `rows`: the rows of `channel`, last row
/// first.  A row of another channel is never handed out, whatever the
/// store returned.
pub open spec fn spec_chunk(rows: Seq<MessageView>, channel: Seq<char>) -> Seq<MessageView>
    decreases rows.len(),
{
    if rows.len() == 0 {
        Seq::empty()
    } else {
        let older = spec_chunk(rows.drop_last(), channel);
        if rows.last().channel_id == channel {
            seq![rows.last()] + older
        } else {
            older
        }
    }
}

/// Whether the ids of `rows` grow from each row to the next.
pub open spec fn ascending(rows: Seq<MessageView>) -> bool {
    forall|i: int, j: int| 0 <= i < j < rows.len() ==> rows[i].id < rows[j].id
}

/// Whether the ids of `rows` fall from each row to the next.
pub open spec fn descending(rows: Seq<MessageView>) -> bool {
    forall|i: int, j: int| 0 <= i < j < rows.len() ==> rows[i].id > rows[j].id
}

/// A message is on a page exactly if it is a row of the page's channel.
pub proof fn lemma_chunk_member(rows: Seq<MessageView>, channel: Seq<char>, m: MessageView)
    ensures
        spec_chunk(rows, channel).contains(m) <==> rows.contains(m) && m.channel_id == channel,
    decreases rows.len(),
{
    let chunk = spec_chunk(rows, channel);
    if rows.len() > 0 {
        let before = rows.drop_last();
        let older = spec_chunk(before, channel);
        lemma_chunk_member(before, channel, m);
        if chunk.contains(m) {
            let i = choose|i: int| 0 <= i < chunk.len() && chunk[i] == m;
            if rows.last().channel_id == channel && i == 0 {
                assert(rows[rows.len() - 1] == m);
            } else {
                let k = if rows.last().channel_id == channel {
                    i - 1
                } else {
                    i
                };
                assert(older[k] == m);
                assert(older.contains(m));
                let j = choose|j: int| 0 <= j < before.len() && before[j] == m;
                assert(rows[j] == m);
            }
        }
        if rows.contains(m) && m.channel_id == channel {
            let j = choose|j: int| 0 <= j < rows.len() && rows[j] == m;
            if j == rows.len() - 1 {
                assert(chunk[0] == m);
            } else {
                assert(before[j] == m);
                assert(before.contains(m));
                let k = choose|k: int| 0 <= k < older.len() && older[k] == m;
                if rows.last().channel_id == channel {
                    assert(chunk[k + 1] == m);
                } else {
                    assert(chunk[k] == m);
                }
            }
        }
    }
}

/// Whether the ids of the rows of `channel` grow from each of them to the
/// next.  The rows of other channels do not matter.
pub open spec fn ascending_in(rows: Seq<MessageView>, channel: Seq<char>) -> bool {
    forall|i: int, j: int|
        0 <= i < j < rows.len() && rows[i].channel_id == channel && rows[j].channel_id == channel
            ==> rows[i].id < rows[j].id
}

/// A page of history holds no message of another channel, whatever the
/// store returned.  It runs from the newest message to the oldest, its ids
/// falling from each message to the next, exactly if the store returned
/// the rows of the channel oldest first; so it does where the store
/// returned all its rows in the order of their ids, as it orders them.
pub proof fn law_chunk_newest_first(rows: Seq<MessageView>, channel: Seq<char>)
    ensures
        forall|i: int|
            0 <= i < spec_chunk(rows, channel).len() ==> (#[trigger] spec_chunk(
                rows,
                channel,
            )[i]).channel_id == channel,
        descending(spec_chunk(rows, channel)) <==> ascending_in(rows, channel),
        ascending(rows) ==> descending(spec_chunk(rows, channel)),
    decreases rows.len(),
{
    let chunk = spec_chunk(rows, channel);
    assert forall|i: int| 0 <= i < chunk.len() implies (#[trigger] chunk[i]).channel_id
        == channel by {
        assert(chunk.contains(chunk[i]));
        lemma_chunk_member(rows, channel, chunk[i]);
    }
    if rows.len() > 0 {
        let n = rows.len() as int;
        let before = rows.drop_last();
        let older = spec_chunk(before, channel);
        law_chunk_newest_first(before, channel);
        if rows.last().channel_id == channel {
            if ascending_in(rows, channel) {
                assert(ascending_in(before, channel)) by {
                    assert forall|i: int, j: int|
                        0 <= i < j < before.len() && before[i].channel_id == channel
                            && before[j].channel_id == channel implies before[i].id
                        < before[j].id by {
                        assert(before[i] == rows[i] && before[j] == rows[j]);
                    }
                }
                assert forall|i: int, j: int| 0 <= i < j < chunk.len() implies chunk[i].id
                    > chunk[j].id by {
                    assert(chunk[j] == older[j - 1]);
                    if i == 0 {
                        assert(older.contains(older[j - 1]));
                        lemma_chunk_member(before, channel, older[j - 1]);
                        let k = choose|k: int| 0 <= k < before.len() && before[k] == older[j - 1];
                        assert(rows[k] == older[j - 1]);
                        assert(rows[k].id < rows[n - 1].id);
                    } else {
                        assert(chunk[i] == older[i - 1]);
                    }
                }
            }
            if descending(chunk) {
                assert(descending(older)) by {
                    assert forall|i: int, j: int| 0 <= i < j < older.len() implies older[i].id
                        > older[j].id by {
                        assert(chunk[i + 1] == older[i] && chunk[j + 1] == older[j]);
                    }
                }
                assert forall|i: int, j: int|
                    0 <= i < j < rows.len() && rows[i].channel_id == channel && rows[j].channel_id
                        == channel implies rows[i].id < rows[j].id by {
                    assert(before[i] == rows[i]);
                    if j < n - 1 {
                        assert(before[j] == rows[j]);
                    } else {
                        assert(before.contains(rows[i]));
                        lemma_chunk_member(before, channel, rows[i]);
                        let k = choose|k: int| 0 <= k < older.len() && older[k] == rows[i];
                        assert(chunk[k + 1] == rows[i]);
                        assert(chunk[0] == rows[n - 1]);
                    }
                }
            }
        } else {
            if ascending_in(rows, channel) {
                assert forall|i: int, j: int|
                    0 <= i < j < before.len() && before[i].channel_id == channel
                        && before[j].channel_id == channel implies before[i].id < before[j].id by {
                    assert(before[i] == rows[i] && before[j] == rows[j]);
                }
            }
            if ascending_in(before, channel) {
                assert forall|i: int, j: int|
                    0 <= i < j < rows.len() && rows[i].channel_id == channel && rows[j].channel_id
                        == channel implies rows[i].id < rows[j].id by {
                    assert(j < n - 1);
                    assert(before[i] == rows[i] && before[j] == rows[j]);
                }
            }
        }
    }
}

/// What becomes of a request for the page `chunk_id` of `channel_id`: the
/// store is asked for it, on behalf of the requester.
pub open spec fn spec_load_chunk(c: ClientView, channel_id: Seq<char>, chunk_id: usize) -> Result<
    StepView,
    ServerErrorView,
> {
    match spec_uuid(c) {
        Err(e) => Err(e),
        Ok(user_id) => Ok(
            spec_ask(
                StoreRequestView::GetChunk {
                    user_id,
                    channel_id,
                    limit: CHUNK_SIZE,
                    offset: spec_offset(chunk_id),
                },
                PendingView::Chunk { channel_id },
            ),
        ),
    }
}

/// What follows once the store returned `rows`: the requester, and nobody
/// else, is sent the page.
pub open spec fn spec_chunk_loaded(c: ClientView, channel_id: Seq<char>, rows: Seq<MessageView>) -> Seq<
    ActionView,
> {
    seq![
        ActionView::Send {
            client: c.id,
            payload: OutboundView::Message(ServerMessageView::Chunk(spec_chunk(rows, channel_id))),
        },
    ]
}

/// Handles a request for a page of history: the store is asked for it.
pub fn load_chunk(server: &Server, client: &Client, channel_id: &str, chunk_id: usize) -> (r: Result<
    Step,
    ServerError,
>)
    ensures
        outcome(r) == spec_load_chunk(client@, channel_id@, chunk_id),
{
    let user_id = match client.get_uuid() {
        Ok(u) => u,
        Err(e) => {
            return Err(e);
        },
    };
    let (limit, offset) = window(chunk_id);
    Ok(
        Step::ask(
            StoreRequest::GetChunk { user_id, channel_id: channel_id.to_owned(), limit, offset },
            Pending::Chunk { channel_id: channel_id.to_owned() },
        ),
    )
}

/// Hands the page that the store returned to the requester, and to nobody
/// else: the rows of the channel, last row first.
pub fn chunk_loaded(client: &Client, channel_id: &str, rows: Vec<Message>) -> (r: Vec<Action>)
    ensures
        views(r@) == spec_chunk_loaded(client@, channel_id@, views(rows@)),
{
    let mut rows = rows;
    let mut chunk: Vec<Message> = Vec::new();
    let ghost all = views(rows@);
    while rows.len() > 0
        invariant
            views(chunk@) + spec_chunk(views(rows@), channel_id@) == spec_chunk(all, channel_id@),
        decreases rows.len(),
    {
        let ghost before = views(rows@);
        let ghost done = views(chunk@);
        let m = rows.pop().unwrap();
        proof {
            assert(views(rows@) =~= before.drop_last());
        }
        if *m.channel_id.as_str() == *channel_id {
            chunk.push(m);
            assert(done.push(m@) + spec_chunk(views(rows@), channel_id@) =~= done + (seq![m@]
                + spec_chunk(views(rows@), channel_id@)));
        }
    }
    let mut r: Vec<Action> = Vec::new();
    r.push(Action::Send { client: client.id, payload: Outbound::Message(ServerMessage::Chunk(chunk)) });
    r
}

} // verus!
