//! The envelopes of a running session.

use vstd::prelude::*;

use crate::requests::indicator::{clone_indicators, IndicatorContext, IndicatorContextView};
use crate::types::data::{
    clone_messages, clone_participants, Message, MessageView, VoiceParticipant,
    VoiceParticipantView,
};
use crate::types::{clone_bytes, views, Author};

verus! {

/// Messages sent from the client to the server.
#[derive(Debug, PartialEq, Eq)]
pub enum ClientMessage {
    /// Send a message to a channel.
    SendMessage { channel_id: String, contents: String },
    /// Replace the contents of one's own message.
    EditMessage { message_id: i64, new_contents: String },
    /// Delete one's own message.
    DeleteMessage { message_id: i64 },
    /// Ask for one page of a channel's history.
    LoadChunk { channel_id: String, chunk_id: usize },
    /// Tell the others that the user is typing.
    Typing { channel_id: String },
    /// Enter a voice channel.
    JoinVoice { channel_id: String },
    /// Leave a voice channel.
    LeaveVoice { channel_id: String },
}

/// What a [`ClientMessage`] holds.
pub enum ClientMessageView {
    SendMessage { channel_id: Seq<char>, contents: Seq<char> },
    EditMessage { message_id: i64, new_contents: Seq<char> },
    DeleteMessage { message_id: i64 },
    LoadChunk { channel_id: Seq<char>, chunk_id: usize },
    Typing { channel_id: Seq<char> },
    JoinVoice { channel_id: Seq<char> },
    LeaveVoice { channel_id: Seq<char> },
}

impl View for ClientMessage {
    type V = ClientMessageView;

    open spec fn view(&self) -> ClientMessageView {
        match self {
            ClientMessage::SendMessage { channel_id, contents } => ClientMessageView::SendMessage {
                channel_id: channel_id@,
                contents: contents@,
            },
            ClientMessage::EditMessage { message_id, new_contents } => {
                ClientMessageView::EditMessage {
                    message_id: *message_id,
                    new_contents: new_contents@,
                }
            },
            ClientMessage::DeleteMessage { message_id } => ClientMessageView::DeleteMessage {
                message_id: *message_id,
            },
            ClientMessage::LoadChunk { channel_id, chunk_id } => ClientMessageView::LoadChunk {
                channel_id: channel_id@,
                chunk_id: *chunk_id,
            },
            ClientMessage::Typing { channel_id } => ClientMessageView::Typing {
                channel_id: channel_id@,
            },
            ClientMessage::JoinVoice { channel_id } => ClientMessageView::JoinVoice {
                channel_id: channel_id@,
            },
            ClientMessage::LeaveVoice { channel_id } => ClientMessageView::LeaveVoice {
                channel_id: channel_id@,
            },
        }
    }
}

impl Clone for ClientMessage {
    fn clone(&self) -> (r: Self)
        ensures
            r == *self,
    {
        match self {
            ClientMessage::SendMessage { channel_id, contents } => ClientMessage::SendMessage {
                channel_id: channel_id.clone(),
                contents: contents.clone(),
            },
            ClientMessage::EditMessage { message_id, new_contents } => ClientMessage::EditMessage {
                message_id: *message_id,
                new_contents: new_contents.clone(),
            },
            ClientMessage::DeleteMessage { message_id } => ClientMessage::DeleteMessage {
                message_id: *message_id,
            },
            ClientMessage::LoadChunk { channel_id, chunk_id } => ClientMessage::LoadChunk {
                channel_id: channel_id.clone(),
                chunk_id: *chunk_id,
            },
            ClientMessage::Typing { channel_id } => ClientMessage::Typing {
                channel_id: channel_id.clone(),
            },
            ClientMessage::JoinVoice { channel_id } => ClientMessage::JoinVoice {
                channel_id: channel_id.clone(),
            },
            ClientMessage::LeaveVoice { channel_id } => ClientMessage::LeaveVoice {
                channel_id: channel_id.clone(),
            },
        }
    }
}

/// Messages sent from the server to a client.
#[derive(Debug, PartialEq, Eq)]
pub enum ServerMessage {
    /// The handshake succeeded; with what is going on right now.
    Authenticated { uuid: Author, indicators: Vec<IndicatorContext>, voice_chat: Vec<VoiceParticipant> },
    /// A new message in a channel.
    MessageCreate(Message),
    /// A message was edited.
    MessageUpdate(Message),
    /// A message was deleted.
    MessageDelete { channel_id: String, message_id: i64 },
    /// One page of history.
    Chunk(Vec<Message>),
    /// An activity indicator.
    Indicator(IndicatorContext),
    /// A user's presence changed.
    PresenceUpdate { user_id: Author, status: String },
    /// A user entered a voice channel.
    VoiceJoin { user_id: Author, channel_id: String, voice_id: u16 },
    /// A user left a voice channel.
    VoiceLeave { user_id: Author, channel_id: String, voice_id: u16 },
    /// The server is going down.
    Shutdown { message: String },
}

/// What a [`ServerMessage`] holds.
pub enum ServerMessageView {
    Authenticated {
        uuid: Seq<char>,
        indicators: Seq<IndicatorContextView>,
        voice_chat: Seq<VoiceParticipantView>,
    },
    MessageCreate(MessageView),
    MessageUpdate(MessageView),
    MessageDelete { channel_id: Seq<char>, message_id: i64 },
    Chunk(Seq<MessageView>),
    Indicator(IndicatorContextView),
    PresenceUpdate { user_id: Seq<char>, status: Seq<char> },
    VoiceJoin { user_id: Seq<char>, channel_id: Seq<char>, voice_id: u16 },
    VoiceLeave { user_id: Seq<char>, channel_id: Seq<char>, voice_id: u16 },
    Shutdown { message: Seq<char> },
}

impl View for ServerMessage {
    type V = ServerMessageView;

    open spec fn view(&self) -> ServerMessageView {
        match self {
            ServerMessage::Authenticated { uuid, indicators, voice_chat } => {
                ServerMessageView::Authenticated {
                    uuid: uuid@,
                    indicators: views(indicators@),
                    voice_chat: views(voice_chat@),
                }
            },
            ServerMessage::MessageCreate(m) => ServerMessageView::MessageCreate(m@),
            ServerMessage::MessageUpdate(m) => ServerMessageView::MessageUpdate(m@),
            ServerMessage::MessageDelete { channel_id, message_id } => {
                ServerMessageView::MessageDelete {
                    channel_id: channel_id@,
                    message_id: *message_id,
                }
            },
            ServerMessage::Chunk(ms) => ServerMessageView::Chunk(views(ms@)),
            ServerMessage::Indicator(i) => ServerMessageView::Indicator(i@),
            ServerMessage::PresenceUpdate { user_id, status } => ServerMessageView::PresenceUpdate {
                user_id: user_id@,
                status: status@,
            },
            ServerMessage::VoiceJoin { user_id, channel_id, voice_id } => {
                ServerMessageView::VoiceJoin {
                    user_id: user_id@,
                    channel_id: channel_id@,
                    voice_id: *voice_id,
                }
            },
            ServerMessage::VoiceLeave { user_id, channel_id, voice_id } => {
                ServerMessageView::VoiceLeave {
                    user_id: user_id@,
                    channel_id: channel_id@,
                    voice_id: *voice_id,
                }
            },
            ServerMessage::Shutdown { message } => ServerMessageView::Shutdown {
                message: message@,
            },
        }
    }
}

impl Clone for ServerMessage {
    fn clone(&self) -> (r: Self)
        ensures
            r@ == self@,
    {
        match self {
            ServerMessage::Authenticated { uuid, indicators, voice_chat } => {
                ServerMessage::Authenticated {
                    uuid: uuid.clone(),
                    indicators: clone_indicators(indicators),
                    voice_chat: clone_participants(voice_chat),
                }
            },
            ServerMessage::MessageCreate(m) => ServerMessage::MessageCreate(m.clone()),
            ServerMessage::MessageUpdate(m) => ServerMessage::MessageUpdate(m.clone()),
            ServerMessage::MessageDelete { channel_id, message_id } => {
                ServerMessage::MessageDelete {
                    channel_id: channel_id.clone(),
                    message_id: *message_id,
                }
            },
            ServerMessage::Chunk(ms) => ServerMessage::Chunk(clone_messages(ms)),
            ServerMessage::Indicator(i) => ServerMessage::Indicator(i.clone()),
            ServerMessage::PresenceUpdate { user_id, status } => ServerMessage::PresenceUpdate {
                user_id: user_id.clone(),
                status: status.clone(),
            },
            ServerMessage::VoiceJoin { user_id, channel_id, voice_id } => ServerMessage::VoiceJoin {
                user_id: user_id.clone(),
                channel_id: channel_id.clone(),
                voice_id: *voice_id,
            },
            ServerMessage::VoiceLeave { user_id, channel_id, voice_id } => {
                ServerMessage::VoiceLeave {
                    user_id: user_id.clone(),
                    channel_id: channel_id.clone(),
                    voice_id: *voice_id,
                }
            },
            ServerMessage::Shutdown { message } => ServerMessage::Shutdown {
                message: message.clone(),
            },
        }
    }
}

/// Why a request was not carried out, with a detail for the human reader.
#[derive(Debug, PartialEq, Eq)]
pub enum ResponseError {
    InvalidRequest(String),
    InvalidHandshake(String),
    Unauthorized(String),
    NotFound(String),
    InternalError(String),
}

/// What a [`ResponseError`] holds.
pub enum ResponseErrorView {
    InvalidRequest(Seq<char>),
    InvalidHandshake(Seq<char>),
    Unauthorized(Seq<char>),
    NotFound(Seq<char>),
    InternalError(Seq<char>),
}

impl View for ResponseError {
    type V = ResponseErrorView;

    open spec fn view(&self) -> ResponseErrorView {
        match self {
            ResponseError::InvalidRequest(s) => ResponseErrorView::InvalidRequest(s@),
            ResponseError::InvalidHandshake(s) => ResponseErrorView::InvalidHandshake(s@),
            ResponseError::Unauthorized(s) => ResponseErrorView::Unauthorized(s@),
            ResponseError::NotFound(s) => ResponseErrorView::NotFound(s@),
            ResponseError::InternalError(s) => ResponseErrorView::InternalError(s@),
        }
    }
}

impl Clone for ResponseError {
    fn clone(&self) -> (r: Self)
        ensures
            r == *self,
    {
        match self {
            ResponseError::InvalidRequest(s) => ResponseError::InvalidRequest(s.clone()),
            ResponseError::InvalidHandshake(s) => ResponseError::InvalidHandshake(s.clone()),
            ResponseError::Unauthorized(s) => ResponseError::Unauthorized(s.clone()),
            ResponseError::NotFound(s) => ResponseError::NotFound(s.clone()),
            ResponseError::InternalError(s) => ResponseError::InternalError(s.clone()),
        }
    }
}

/// The transport-level wrapper: one channel carries structured messages,
/// raw binary (voice audio) and free text.
#[derive(Debug, PartialEq, Eq)]
pub enum WsMessage<T> {
    Message(T),
    Binary(Vec<u8>),
    String(String),
}

/// What a [`WsMessage`] holds.
pub enum WsMessageView<V> {
    Message(V),
    Binary(Seq<u8>),
    String(Seq<char>),
}

impl<T: View> View for WsMessage<T> {
    type V = WsMessageView<T::V>;

    open spec fn view(&self) -> WsMessageView<T::V> {
        match self {
            WsMessage::Message(m) => WsMessageView::Message(m@),
            WsMessage::Binary(b) => WsMessageView::Binary(b@),
            WsMessage::String(s) => WsMessageView::String(s@),
        }
    }
}

/// A copy of a client's envelope.
pub fn clone_request(req: &WsMessage<ClientMessage>) -> (r: WsMessage<ClientMessage>)
    ensures
        r@ == req@,
{
    match req {
        WsMessage::Message(m) => WsMessage::Message(m.clone()),
        WsMessage::Binary(b) => WsMessage::Binary(clone_bytes(b)),
        WsMessage::String(s) => WsMessage::String(s.clone()),
    }
}

} // verus!
