//! Short-lived activity indicators.

use vstd::prelude::*;

use crate::action::{Action, ActionView, OutboundView};
use crate::error::{ServerError, ServerErrorView};
use crate::requests::message::spec_uuid;
use crate::requests::outcome_actions;
use crate::server::{spec_broadcast_to, Server, ServerView};
use crate::types::message::{ServerMessage, ServerMessageView};
use crate::types::views;
use crate::utils::client::{Client, ClientView};

verus! {

/// Something a user is doing right now.
#[derive(Debug, PartialEq, Eq)]
pub enum Indicator {
    Typing { user_id: String, channel_id: String },
}

/// What an [`Indicator`] holds.
pub enum IndicatorView {
    Typing { user_id: Seq<char>, channel_id: Seq<char> },
}

impl View for Indicator {
    type V = IndicatorView;

    open spec fn view(&self) -> IndicatorView {
        match self {
            Indicator::Typing { user_id, channel_id } => IndicatorView::Typing {
                user_id: user_id@,
                channel_id: channel_id@,
            },
        }
    }
}

impl Clone for Indicator {
    fn clone(&self) -> (r: Self)
        ensures
            r == *self,
    {
        match self {
            Indicator::Typing { user_id, channel_id } => Indicator::Typing {
                user_id: user_id.clone(),
                channel_id: channel_id.clone(),
            },
        }
    }
}

/// An indicator with the number of seconds after which a client drops it.
#[derive(Debug, PartialEq, Eq)]
pub struct IndicatorContext {
    pub indicator: Indicator,
    pub expires: u16,
}

/// What an [`IndicatorContext`] holds.
pub struct IndicatorContextView {
    pub indicator: IndicatorView,
    pub expires: u16,
}

impl View for IndicatorContext {
    type V = IndicatorContextView;

    open spec fn view(&self) -> IndicatorContextView {
        IndicatorContextView { indicator: self.indicator@, expires: self.expires }
    }
}

impl Clone for IndicatorContext {
    fn clone(&self) -> (r: Self)
        ensures
            r == *self,
    {
        IndicatorContext { indicator: self.indicator.clone(), expires: self.expires }
    }
}

/// A copy of a list of indicators.
pub fn clone_indicators(v: &Vec<IndicatorContext>) -> (r: Vec<IndicatorContext>)
    ensures
        r@ == v@,
{
    let mut r: Vec<IndicatorContext> = Vec::new();
    let mut i: usize = 0;
    while i < v.len()
        invariant
            i <= v.len(),
            r@ == v@.take(i as int),
        decreases v.len() - i,
    {
        r.push(v[i].clone());
        i = i + 1;
    }
    r
}

/// Seconds after which a typing indicator expires.
pub const TYPING_EXPIRES: u16 = 2;

/// What becomes of the notice that `c` is typing in `channel_id`: the
/// sessions in the scope of the user and of the channel are sent a typing
/// indicator that expires shortly.  Nothing is kept.
pub open spec fn spec_start_typing(s: ServerView, c: ClientView, channel_id: Seq<char>) -> Result<
    Seq<ActionView>,
    ServerErrorView,
> {
    match spec_uuid(c) {
        Err(e) => Err(e),
        Ok(user_id) => Ok(
            spec_broadcast_to(
                s.clients,
                set![user_id, channel_id],
                OutboundView::Message(
                    ServerMessageView::Indicator(
                        IndicatorContextView {
                            indicator: IndicatorView::Typing { user_id, channel_id },
                            expires: TYPING_EXPIRES,
                        },
                    ),
                ),
            ),
        ),
    }
}

/// Handles the notice that a user is typing.
pub fn start_typing(server: &Server, client: &Client, channel_id: &str) -> (r: Result<
    Vec<Action>,
    ServerError,
>)
    ensures
        outcome_actions(r) == spec_start_typing(server@, client@, channel_id@),
{
    let user_id = match client.get_uuid() {
        Ok(u) => u,
        Err(e) => {
            return Err(e);
        },
    };
    let channel = channel_id.to_owned();
    let mut targets: Vec<&String> = Vec::new();
    targets.push(&user_id);
    targets.push(&channel);
    assert(views(targets@).to_set() =~= set![user_id@, channel_id@]) by {
        assert(views(targets@)[0] == user_id@);
        assert(views(targets@)[1] == channel_id@);
    }
    Ok(
        server.broadcast_to(
            targets.as_slice(),
            ServerMessage::Indicator(
                IndicatorContext {
                    indicator: Indicator::Typing {
                        user_id: user_id.clone(),
                        channel_id: channel_id.to_owned(),
                    },
                    expires: TYPING_EXPIRES,
                },
            ),
        ),
    )
}

} // verus!
