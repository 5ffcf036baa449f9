//! Shared data structures.

use vstd::prelude::*;

use crate::types::Author;

verus! {

/// A chat message as the message store keeps it.
#[derive(Debug, PartialEq, Eq)]
pub struct Message {
    /// Assigned by the store, increasing with every insert.
    pub id: i64,
    pub channel_id: String,
    pub from: Author,
    pub contents: String,
    /// Seconds since the Unix epoch at which the message was accepted.
    pub timestamp: i64,
}

/// What a [`Message`] holds.
pub struct MessageView {
    pub id: i64,
    pub channel_id: Seq<char>,
    pub from: Seq<char>,
    pub contents: Seq<char>,
    pub timestamp: i64,
}

impl View for Message {
    type V = MessageView;

    open spec fn view(&self) -> MessageView {
        MessageView {
            id: self.id,
            channel_id: self.channel_id@,
            from: self.from@,
            contents: self.contents@,
            timestamp: self.timestamp,
        }
    }
}

impl Clone for Message {
    fn clone(&self) -> (r: Self)
        ensures
            r == *self,
    {
        Message {
            id: self.id,
            channel_id: self.channel_id.clone(),
            from: self.from.clone(),
            contents: self.contents.clone(),
            timestamp: self.timestamp,
        }
    }
}

/// A copy of a list of messages.
pub fn clone_messages(v: &Vec<Message>) -> (r: Vec<Message>)
    ensures
        r@ == v@,
{
    let mut r: Vec<Message> = Vec::new();
    let mut i: usize = 0;
    while i < v.len()
        invariant
            i <= v.len(),
            r@ == v@.take(i as int),
        decreases v.len() - i,
    {
        r.push(v[i].clone());
        i = i + 1;
    }
    r
}

/// What a channel carries.
#[derive(Debug, PartialEq, Eq)]
pub enum ChannelKind {
    Text,
    Voice,
    /// An embedded page, with its address.
    IFrame(String),
}

/// What a [`ChannelKind`] holds.
pub enum ChannelKindView {
    Text,
    Voice,
    IFrame(Seq<char>),
}

impl View for ChannelKind {
    type V = ChannelKindView;

    open spec fn view(&self) -> ChannelKindView {
        match self {
            ChannelKind::Text => ChannelKindView::Text,
            ChannelKind::Voice => ChannelKindView::Voice,
            ChannelKind::IFrame(url) => ChannelKindView::IFrame(url@),
        }
    }
}

impl Clone for ChannelKind {
    fn clone(&self) -> (r: Self)
        ensures
            r == *self,
    {
        match self {
            ChannelKind::Text => ChannelKind::Text,
            ChannelKind::Voice => ChannelKind::Voice,
            ChannelKind::IFrame(url) => ChannelKind::IFrame(url.clone()),
        }
    }
}

/// A channel of the server: fixed by the configuration, never changed while
/// the server runs.
#[derive(Debug, PartialEq, Eq)]
pub struct Channel {
    pub id: String,
    pub name: String,
    pub kind: ChannelKind,
}

/// What a [`Channel`] holds.
pub struct ChannelView {
    pub id: Seq<char>,
    pub name: Seq<char>,
    pub kind: ChannelKindView,
}

impl View for Channel {
    type V = ChannelView;

    open spec fn view(&self) -> ChannelView {
        ChannelView { id: self.id@, name: self.name@, kind: self.kind@ }
    }
}

impl Clone for Channel {
    fn clone(&self) -> (r: Self)
        ensures
            r == *self,
    {
        Channel { id: self.id.clone(), name: self.name.clone(), kind: self.kind.clone() }
    }
}

/// A copy of a list of channels.
pub fn clone_channels(v: &Vec<Channel>) -> (r: Vec<Channel>)
    ensures
        r@ == v@,
{
    let mut r: Vec<Channel> = Vec::new();
    let mut i: usize = 0;
    while i < v.len()
        invariant
            i <= v.len(),
            r@ == v@.take(i as int),
        decreases v.len() - i,
    {
        r.push(v[i].clone());
        i = i + 1;
    }
    r
}

/// One participant of a voice channel.
#[derive(Debug, PartialEq, Eq)]
pub struct VoiceParticipant {
    pub channel_id: String,
    pub user_id: Author,
    /// The relay identifier that prefixes this participant's audio frames.
    pub voice_id: u16,
}

/// What a [`VoiceParticipant`] holds.
pub struct VoiceParticipantView {
    pub channel_id: Seq<char>,
    pub user_id: Seq<char>,
    pub voice_id: u16,
}

impl View for VoiceParticipant {
    type V = VoiceParticipantView;

    open spec fn view(&self) -> VoiceParticipantView {
        VoiceParticipantView {
            channel_id: self.channel_id@,
            user_id: self.user_id@,
            voice_id: self.voice_id,
        }
    }
}

impl Clone for VoiceParticipant {
    fn clone(&self) -> (r: Self)
        ensures
            r == *self,
    {
        VoiceParticipant {
            channel_id: self.channel_id.clone(),
            user_id: self.user_id.clone(),
            voice_id: self.voice_id,
        }
    }
}

/// A copy of a list of voice participants.
pub fn clone_participants(v: &Vec<VoiceParticipant>) -> (r: Vec<VoiceParticipant>)
    ensures
        r@ == v@,
{
    let mut r: Vec<VoiceParticipant> = Vec::new();
    let mut i: usize = 0;
    while i < v.len()
        invariant
            i <= v.len(),
            r@ == v@.take(i as int),
        decreases v.len() - i,
    {
        r.push(v[i].clone());
        i = i + 1;
    }
    r
}

} // verus!
