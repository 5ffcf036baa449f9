//! The message store as the server sees it: what is asked of it and what
//! it answers.  The store itself lives outside this library.

use vstd::prelude::*;

use crate::types::data::{Message, MessageView};
use crate::types::views;

verus! {

/// One request to the message store.
#[derive(Debug, PartialEq, Eq)]
pub enum StoreRequest {
    /// Store a new message; the store assigns its id.
    InsertMessage { channel_id: String, user_id: String, contents: String, timestamp: i64 },
    /// Delete a message.
    DeleteMessage { message_id: i64 },
    /// Replace a message's contents.
    EditMessage { message_id: i64, contents: String },
    /// Read one message.
    GetMessageById { message_id: i64 },
    /// Read one page of a channel's history on behalf of a user: the
    /// `limit` messages of the channel that follow its `offset` newest
    /// ones, oldest message first.
    GetChunk { user_id: String, channel_id: String, limit: i64, offset: i64 },
}

/// What a [`StoreRequest`] holds.
pub enum StoreRequestView {
    InsertMessage { channel_id: Seq<char>, user_id: Seq<char>, contents: Seq<char>, timestamp: i64 },
    DeleteMessage { message_id: i64 },
    EditMessage { message_id: i64, contents: Seq<char> },
    GetMessageById { message_id: i64 },
    GetChunk { user_id: Seq<char>, channel_id: Seq<char>, limit: i64, offset: i64 },
}

impl View for StoreRequest {
    type V = StoreRequestView;

    open spec fn view(&self) -> StoreRequestView {
        match self {
            StoreRequest::InsertMessage { channel_id, user_id, contents, timestamp } => {
                StoreRequestView::InsertMessage {
                    channel_id: channel_id@,
                    user_id: user_id@,
                    contents: contents@,
                    timestamp: *timestamp,
                }
            },
            StoreRequest::DeleteMessage { message_id } => StoreRequestView::DeleteMessage {
                message_id: *message_id,
            },
            StoreRequest::EditMessage { message_id, contents } => StoreRequestView::EditMessage {
                message_id: *message_id,
                contents: contents@,
            },
            StoreRequest::GetMessageById { message_id } => StoreRequestView::GetMessageById {
                message_id: *message_id,
            },
            StoreRequest::GetChunk { user_id, channel_id, limit, offset } => {
                StoreRequestView::GetChunk {
                    user_id: user_id@,
                    channel_id: channel_id@,
                    limit: *limit,
                    offset: *offset,
                }
            },
        }
    }
}

/// What the store answered.
#[derive(Debug, PartialEq, Eq)]
pub enum StoreAnswer {
    /// The message as it was stored, with the id that it was given.
    Inserted(Message),
    /// The edit or the deletion was carried out.
    Done,
    /// The message asked for, if there is one.
    Found(Option<Message>),
    /// The page asked for.
    Rows(Vec<Message>),
}

/// What a [`StoreAnswer`] holds.
pub enum StoreAnswerView {
    Inserted(MessageView),
    Done,
    Found(Option<MessageView>),
    Rows(Seq<MessageView>),
}

impl View for StoreAnswer {
    type V = StoreAnswerView;

    open spec fn view(&self) -> StoreAnswerView {
        match self {
            StoreAnswer::Inserted(m) => StoreAnswerView::Inserted(m@),
            StoreAnswer::Done => StoreAnswerView::Done,
            StoreAnswer::Found(m) => StoreAnswerView::Found(
                match m {
                    Some(m) => Some(m@),
                    None => None,
                },
            ),
            StoreAnswer::Rows(ms) => StoreAnswerView::Rows(views(ms@)),
        }
    }
}

} // verus!
