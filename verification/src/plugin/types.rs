//! What a plugin declares about itself and what travels over its control
//! connection.

use vstd::prelude::*;

use crate::types::data::{Message, MessageView};
use crate::types::message::{clone_request, ClientMessage, ClientMessageView, WsMessage, WsMessageView};
use crate::types::{clone_strings, views};

verus! {

/// The manifest in a plugin's install directory.
#[derive(Debug, PartialEq, Eq)]
pub struct PluginJson {
    pub id: String,
    pub version: String,
    pub supported_versions: Vec<String>,
    /// The executable, started inside the plugin's directory.
    pub file: String,
    pub args: Vec<String>,
}

/// What a [`PluginJson`] holds.
pub struct PluginJsonView {
    pub id: Seq<char>,
    pub version: Seq<char>,
    pub supported_versions: Seq<Seq<char>>,
    pub file: Seq<char>,
    pub args: Seq<Seq<char>>,
}

impl View for PluginJson {
    type V = PluginJsonView;

    open spec fn view(&self) -> PluginJsonView {
        PluginJsonView {
            id: self.id@,
            version: self.version@,
            supported_versions: views(self.supported_versions@),
            file: self.file@,
            args: views(self.args@),
        }
    }
}

impl Clone for PluginJson {
    fn clone(&self) -> (r: Self)
        ensures
            r@ == self@,
    {
        PluginJson {
            id: self.id.clone(),
            version: self.version.clone(),
            supported_versions: clone_strings(&self.supported_versions),
            file: self.file.clone(),
            args: clone_strings(&self.args),
        }
    }
}

/// The first record on a new control connection: which plugin is calling.
#[derive(Debug, PartialEq, Eq)]
pub struct PluginHandshake {
    pub id: String,
}

impl View for PluginHandshake {
    type V = Seq<char>;

    open spec fn view(&self) -> Seq<char> {
        self.id@
    }
}

/// Records from the server to a plugin.
#[derive(Debug, PartialEq, Eq)]
#[allow(inconsistent_fields)]
pub enum LoaderMessage {
    /// A client sent this envelope.
    Request { user_id: String, msg: WsMessage<ClientMessage> },
    /// This message was stored and broadcast.
    MessageSent { user_id: String, msg: Message },
    /// The plugin is being stopped.
    Shutdown,
}

/// What a [`LoaderMessage`] holds.
#[allow(inconsistent_fields)]
pub enum LoaderMessageView {
    Request { user_id: Seq<char>, msg: WsMessageView<ClientMessageView> },
    MessageSent { user_id: Seq<char>, msg: MessageView },
    Shutdown,
}

impl View for LoaderMessage {
    type V = LoaderMessageView;

    open spec fn view(&self) -> LoaderMessageView {
        match self {
            LoaderMessage::Request { user_id, msg } => LoaderMessageView::Request {
                user_id: user_id@,
                msg: msg@,
            },
            LoaderMessage::MessageSent { user_id, msg } => LoaderMessageView::MessageSent {
                user_id: user_id@,
                msg: msg@,
            },
            LoaderMessage::Shutdown => LoaderMessageView::Shutdown,
        }
    }
}

impl Clone for LoaderMessage {
    fn clone(&self) -> (r: Self)
        ensures
            r@ == self@,
    {
        match self {
            LoaderMessage::Request { user_id, msg } => LoaderMessage::Request {
                user_id: user_id.clone(),
                msg: clone_request(msg),
            },
            LoaderMessage::MessageSent { user_id, msg } => LoaderMessage::MessageSent {
                user_id: user_id.clone(),
                msg: msg.clone(),
            },
            LoaderMessage::Shutdown => LoaderMessage::Shutdown,
        }
    }
}

/// Records from a plugin to the server.
#[derive(Debug, PartialEq, Eq)]
pub enum PluginMessage {
    /// Post a message to a channel, with the plugin as its author.
    SendMessage { channel_id: String, contents: String },
}

/// What a [`PluginMessage`] holds.
pub enum PluginMessageView {
    SendMessage { channel_id: Seq<char>, contents: Seq<char> },
}

impl View for PluginMessage {
    type V = PluginMessageView;

    open spec fn view(&self) -> PluginMessageView {
        match self {
            PluginMessage::SendMessage { channel_id, contents } => PluginMessageView::SendMessage {
                channel_id: channel_id@,
                contents: contents@,
            },
        }
    }
}

impl Clone for PluginMessage {
    fn clone(&self) -> (r: Self)
        ensures
            r == *self,
    {
        match self {
            PluginMessage::SendMessage { channel_id, contents } => PluginMessage::SendMessage {
                channel_id: channel_id.clone(),
                contents: contents.clone(),
            },
        }
    }
}

} // verus!
