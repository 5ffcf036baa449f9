//! The server's shared state: its configuration, the registry of live
//! sessions, the active plugins, the voice registry and the shutdown flag.

use vstd::prelude::*;

use crate::action::{
    append_actions, recipient, Action, ActionView, Outbound, OutboundView, PluginStepView,
};
use crate::error::{spec_message, ServerError, ServerErrorView};
use crate::plugin::types::{LoaderMessage, LoaderMessageView};
use crate::plugin::{listens, stop_steps, Plugin, PluginState, PluginView};
use crate::requests::voice::{leave_all, spec_leave_all};
use crate::requests::{
    outcome, spec_call_request, spec_done, spec_resume, Pending, PendingView, Step, StepView,
};
use crate::types::data::{clone_channels, Channel, ChannelView};
use crate::types::message::{
    clone_request, ClientMessage, ClientMessageView, ResponseError, ResponseErrorView, ServerMessage,
    ServerMessageView, WsMessage, WsMessageView,
};
use crate::types::views;
use crate::utils::database::{StoreAnswer, StoreAnswerView};
use crate::utils::client::{Client, ClientView, SessionState};
use crate::utils::voice::{Voice, VoiceMap};

pub mod guarantees;
pub mod handshake;
pub mod plugins;
pub mod shutdown;

verus! {

/// What an operator configures.
#[derive(Debug, PartialEq, Eq)]
pub struct ServerConfig {
    pub server_name: String,
    pub server_id: String,
    /// The server's secret towards the authentication provider.
    pub server_key: String,
    pub port: u16,
    pub channels: Vec<Channel>,
}

/// What a [`ServerConfig`] holds.
pub struct ServerConfigView {
    pub server_name: Seq<char>,
    pub server_id: Seq<char>,
    pub server_key: Seq<char>,
    pub port: u16,
    pub channels: Seq<ChannelView>,
}

impl View for ServerConfig {
    type V = ServerConfigView;

    open spec fn view(&self) -> ServerConfigView {
        ServerConfigView {
            server_name: self.server_name@,
            server_id: self.server_id@,
            server_key: self.server_key@,
            port: self.port,
            channels: views(self.channels@),
        }
    }
}

impl Clone for ServerConfig {
    fn clone(&self) -> (r: Self)
        ensures
            r@ == self@,
    {
        ServerConfig {
            server_name: self.server_name.clone(),
            server_id: self.server_id.clone(),
            server_key: self.server_key.clone(),
            port: self.port,
            channels: clone_channels(&self.channels),
        }
    }
}

impl Default for ServerConfig {
    fn default() -> (r: Self)
        ensures
            r@ == (ServerConfigView {
                server_name: "Server Name"@,
                server_id: "important"@,
                server_key: "important"@,
                port: 7080,
                channels: Seq::empty(),
            }),
    {
        let r = ServerConfig {
            port: 7080,
            server_name: "Server Name".to_owned(),
            server_id: "important".to_owned(),
            server_key: "important".to_owned(),
            channels: Vec::new(),
        };
        assert(views(r.channels@) =~= Seq::<ChannelView>::empty());
        r
    }
}

impl ServerConfig {
    /// A server with this configuration and nobody connected.
    pub fn build(self) -> (r: Server)
        ensures
            r.wf(),
            r@ == spec_new_server(self@),
    {
        Server::new_config(self)
    }
}

/// The server's shared state.
pub struct Server {
    pub config: ServerConfig,
    /// The registry: the sessions that finished their handshake and are
    /// still open, in the order in which they registered.
    pub clients: Vec<Client>,
    /// The active plugins.
    pub plugins: Vec<Plugin>,
    pub voice: Voice,
    /// Set once, by the shutdown; never cleared.
    pub shutting_down: bool,
}

/// What a [`Server`] holds.
pub struct ServerView {
    pub config: ServerConfigView,
    pub clients: Seq<ClientView>,
    pub plugins: Seq<PluginView>,
    pub voice: VoiceMap,
    pub shutting_down: bool,
}

impl View for Server {
    type V = ServerView;

    open spec fn view(&self) -> ServerView {
        ServerView {
            config: self.config@,
            clients: views(self.clients@),
            plugins: views(self.plugins@),
            voice: self.voice@,
            shutting_down: self.shutting_down,
        }
    }
}

/// The identifiers of the sessions, in order.
pub open spec fn client_ids(clients: Seq<ClientView>) -> Seq<u64> {
    Seq::new(clients.len(), |i: int| clients[i].id)
}

/// The identifiers of the plugins, in order.
pub open spec fn plugin_ids(plugins: Seq<PluginView>) -> Seq<Seq<char>> {
    Seq::new(plugins.len(), |i: int| plugins[i].id)
}

/// Whether a session with this identifier is registered.
pub open spec fn is_registered(s: ServerView, id: u64) -> bool {
    client_ids(s.clients).contains(id)
}

/// What holds of the registries at all times: no session and no plugin
/// occurs twice, and every registered session has finished its handshake
/// and is bound to a user.
pub open spec fn spec_wf(s: ServerView) -> bool {
    &&& client_ids(s.clients).no_duplicates()
    &&& plugin_ids(s.plugins).no_duplicates()
    &&& forall|i: int|
        0 <= i < s.clients.len() ==> {
            &&& (#[trigger] s.clients[i]).state == SessionState::Authenticated
            &&& s.clients[i].uuid is Some
        }
}

/// A server with nobody connected.
pub open spec fn spec_new_server(config: ServerConfigView) -> ServerView {
    ServerView {
        config,
        clients: Seq::empty(),
        plugins: Seq::empty(),
        voice: Map::empty(),
        shutting_down: false,
    }
}

/// The sessions without the one called `id`.
pub open spec fn without_client(clients: Seq<ClientView>, id: u64) -> Seq<ClientView> {
    let ids = client_ids(clients);
    if ids.contains(id) {
        clients.remove(ids.index_of(id))
    } else {
        clients
    }
}

/// One write of `payload` to every session, in their order.
pub open spec fn spec_broadcast(clients: Seq<ClientView>, payload: OutboundView) -> Seq<ActionView> {
    Seq::new(clients.len(), |i: int| ActionView::Send { client: clients[i].id, payload })
}

/// One write of `payload` to every session whose user is among `targets`.
pub open spec fn spec_broadcast_to(
    clients: Seq<ClientView>,
    targets: Set<Seq<char>>,
    payload: OutboundView,
) -> Seq<ActionView>
    decreases clients.len(),
{
    if clients.len() == 0 {
        Seq::empty()
    } else {
        let before = spec_broadcast_to(clients.drop_last(), targets, payload);
        let c = clients.last();
        if c.uuid is Some && targets.contains(c.uuid->0) {
            before.push(ActionView::Send { client: c.id, payload })
        } else {
            before
        }
    }
}

/// One write of `msg` to every plugin that can be written to.
pub open spec fn spec_mirror(plugins: Seq<PluginView>, msg: LoaderMessageView) -> Seq<ActionView>
    decreases plugins.len(),
{
    if plugins.len() == 0 {
        Seq::empty()
    } else {
        let before = spec_mirror(plugins.drop_last(), msg);
        let p = plugins.last();
        if listens(p.state) {
            before.push(
                ActionView::Plugin { plugin: p.id, step: PluginStepView::Send(msg) },
            )
        } else {
            before
        }
    }
}

/// What becomes of a session on which `e` occurred: every error is the
/// session's last.  The session leaves the registry, the peer is told of
/// an internal error with the error's text, and the socket is closed.
pub open spec fn spec_wrap_err(s: ServerView, c: ClientView, e: ServerErrorView) -> (
    ServerView,
    ClientView,
    Seq<ActionView>,
) {
    (
        ServerView { clients: without_client(s.clients, c.id), ..s },
        ClientView { state: SessionState::Closed, ..c },
        seq![
            ActionView::Send {
                client: c.id,
                payload: OutboundView::Error(ResponseErrorView::InternalError(spec_message(e))),
            },
            ActionView::Close { client: c.id },
        ],
    )
}

/// Whether `after` and `actions` are what becomes of a session to which
/// nothing can be written any more, not even the notice of its failure:
/// the session is in the registry no more, and its user is taken out of
/// voice chat altogether, of which every session that is left is told.
pub open spec fn spec_write_failed(
    s: ServerView,
    c: ClientView,
    after: ServerView,
    actions: Seq<ActionView>,
) -> bool {
    spec_leave_all(
        ServerView { clients: without_client(s.clients, c.id), ..s },
        c,
        after,
        actions,
    )
}

/// The session that is registered under `id`, if there is one.
pub open spec fn registered_session(s: ServerView, id: u64) -> Option<ClientView> {
    if is_registered(s, id) {
        Some(s.clients[client_ids(s.clients).index_of(id)])
    } else {
        None
    }
}

/// What becomes of a handler's result `out` after the actions `first`: a
/// step goes on behind them; an error is dealt with as
/// [`spec_wrap_err`] says.
pub open spec fn spec_settle(
    s: ServerView,
    c: ClientView,
    first: Seq<ActionView>,
    out: Result<StepView, ServerErrorView>,
) -> (ServerView, ClientView, StepView) {
    match out {
        Ok(step) => (s, c, StepView { actions: first + step.actions, store: step.store }),
        Err(e) => {
            let (s2, c2, told) = spec_wrap_err(s, c, e);
            (s2, c2, spec_done(first + told))
        },
    }
}

/// What the plugins are shown of an envelope: every envelope but an audio
/// frame, under the name of the user who sent it.
pub open spec fn spec_request_mirror(
    s: ServerView,
    c: ClientView,
    req: WsMessageView<ClientMessageView>,
) -> Seq<ActionView> {
    if req is Binary {
        Seq::empty()
    } else {
        spec_mirror(
            s.plugins,
            LoaderMessageView::Request {
                user_id: match c.uuid {
                    Some(u) => u,
                    None => Seq::empty(),
                },
                msg: req,
            },
        )
    }
}

/// Whether `after`, `c_after` and `step` are what becomes of the envelope
/// `req` that the session `c` sent to the server `s`.  Once the server is
/// shutting down nothing is handled any more.  Before that, the plugins
/// are shown the envelope, then the envelope goes to its handler, and an
/// error of the handler is dealt with as [`spec_wrap_err`] says.
pub open spec fn spec_handle_client(
    s: ServerView,
    c: ClientView,
    req: WsMessageView<ClientMessageView>,
    after: ServerView,
    c_after: ClientView,
    step: StepView,
) -> bool {
    if s.shutting_down {
        after == s && c_after == c && step == spec_done(Seq::empty())
    } else {
        exists|mid: ServerView, out: Result<StepView, ServerErrorView>| #[trigger]
            spec_call_request(s, c, req, mid, out) && (after, c_after, step) == spec_settle(
                mid,
                c,
                spec_request_mirror(s, c, req),
                out,
            )
    }
}

/// What follows once the store answered, or failed with a reason.
pub open spec fn spec_resume_client(
    s: ServerView,
    c: ClientView,
    pending: PendingView,
    answer: Result<StoreAnswerView, Seq<char>>,
) -> (ServerView, ClientView, StepView) {
    spec_settle(
        s,
        c,
        Seq::empty(),
        match answer {
            Ok(a) => spec_resume(s, c, pending, a),
            Err(reason) => Err(ServerErrorView::Internal(reason)),
        },
    )
}

/// The farewell to every session: the notice of the shutdown, then the end
/// of the connection.
pub open spec fn spec_goodbyes(clients: Seq<ClientView>) -> Seq<ActionView>
    decreases clients.len(),
{
    if clients.len() == 0 {
        Seq::empty()
    } else {
        spec_goodbyes(clients.drop_last()) + seq![
            ActionView::Send {
                client: clients.last().id,
                payload: OutboundView::Message(
                    ServerMessageView::Shutdown {
                        message: "Server shutting down... we'll be back shortly"@,
                    },
                ),
            },
            ActionView::Close { client: clients.last().id },
        ]
    }
}

/// What stopping every plugin takes.
pub open spec fn spec_stop_all(plugins: Seq<PluginView>) -> Seq<ActionView>
    decreases plugins.len(),
{
    if plugins.len() == 0 {
        Seq::empty()
    } else {
        spec_stop_all(plugins.drop_last()) + stop_steps(plugins.last())
    }
}

/// The plugins, all of them stopped.
pub open spec fn spec_stopped(plugins: Seq<PluginView>) -> Seq<PluginView> {
    Seq::new(plugins.len(), |i: int| PluginView { state: PluginState::Stopped, ..plugins[i] })
}

/// The shutdown: happens once.  The flag is raised, every session is told
/// and closed, every plugin is stopped, then the process ends.  On a
/// server that is shutting down already nothing happens.
pub open spec fn spec_shutdown(s: ServerView) -> (ServerView, Seq<ActionView>) {
    if s.shutting_down {
        (s, Seq::empty())
    } else {
        (
            ServerView {
                clients: Seq::empty(),
                plugins: spec_stopped(s.plugins),
                shutting_down: true,
                ..s
            },
            spec_goodbyes(s.clients) + spec_stop_all(s.plugins) + seq![ActionView::Exit],
        )
    }
}

/// A targeted broadcast reaches the sessions of the targets, each once,
/// and nobody else: every action is a write of the payload to a
/// registered session whose user is a target, every such session is
/// written to, and no two writes go to the same session.
pub proof fn law_broadcast_to_reaches_the_targets_once(
    clients: Seq<ClientView>,
    targets: Set<Seq<char>>,
    payload: OutboundView,
)
    requires
        client_ids(clients).no_duplicates(),
    ensures
        forall|k: int|
            0 <= k < spec_broadcast_to(clients, targets, payload).len() ==> exists|i: int|
                0 <= i < clients.len() && (#[trigger] clients[i]).uuid is Some && targets.contains(
                    clients[i].uuid->0,
                ) && (#[trigger] spec_broadcast_to(clients, targets, payload)[k])
                    == (ActionView::Send { client: clients[i].id, payload }),
        forall|i: int|
            0 <= i < clients.len() && (#[trigger] clients[i]).uuid is Some && targets.contains(
                clients[i].uuid->0,
            ) ==> spec_broadcast_to(clients, targets, payload).contains(
                ActionView::Send { client: clients[i].id, payload },
            ),
        forall|k1: int, k2: int|
            0 <= k1 < k2 < spec_broadcast_to(clients, targets, payload).len() ==> recipient(
                #[trigger] spec_broadcast_to(clients, targets, payload)[k1],
            ) != recipient(#[trigger] spec_broadcast_to(clients, targets, payload)[k2]),
    decreases clients.len(),
{
    let all = spec_broadcast_to(clients, targets, payload);
    if clients.len() > 0 {
        let before = clients.drop_last();
        let c = clients.last();
        let n = before.len() as int;
        let first = spec_broadcast_to(before, targets, payload);
        let wanted = c.uuid is Some && targets.contains(c.uuid->0);
        assert(client_ids(before) =~= client_ids(clients).drop_last());
        law_broadcast_to_reaches_the_targets_once(before, targets, payload);
        assert forall|k: int| 0 <= k < all.len() implies exists|i: int|
            0 <= i < clients.len() && (#[trigger] clients[i]).uuid is Some && targets.contains(
                clients[i].uuid->0,
            ) && (#[trigger] all[k]) == (ActionView::Send { client: clients[i].id, payload }) by {
            if k < first.len() {
                assert(all[k] == first[k]);
                let i = choose|i: int|
                    0 <= i < before.len() && (#[trigger] before[i]).uuid is Some && targets.contains(
                        before[i].uuid->0,
                    ) && first[k] == (ActionView::Send { client: before[i].id, payload });
                assert(clients[i] == before[i]);
            } else {
                assert(clients[n] == c);
            }
        }
        assert forall|i: int|
            0 <= i < clients.len() && (#[trigger] clients[i]).uuid is Some && targets.contains(
                clients[i].uuid->0,
            ) implies all.contains(ActionView::Send { client: clients[i].id, payload }) by {
            let a = ActionView::Send { client: clients[i].id, payload };
            if i < n {
                assert(before[i] == clients[i]);
                assert(first.contains(a));
                let k = choose|k: int| 0 <= k < first.len() && first[k] == a;
                assert(all[k] == a);
            } else {
                assert(all[first.len() as int] == a);
            }
        }
        assert forall|k1: int, k2: int| 0 <= k1 < k2 < all.len() implies recipient(
            #[trigger] all[k1],
        ) != recipient(#[trigger] all[k2]) by {
            assert(all[k1] == first[k1]);
            if k2 < first.len() {
                assert(all[k2] == first[k2]);
            } else {
                let i = choose|i: int|
                    0 <= i < before.len() && (#[trigger] before[i]).uuid is Some && targets.contains(
                        before[i].uuid->0,
                    ) && first[k1] == (ActionView::Send { client: before[i].id, payload });
                assert(client_ids(clients)[i] == before[i].id);
                assert(client_ids(clients)[n] == c.id);
            }
        }
    }
}

/// Taking a session out of the registry is idempotent: once it is out,
/// taking it out again changes nothing.
pub proof fn law_remove_is_idempotent(clients: Seq<ClientView>, id: u64)
    requires
        client_ids(clients).no_duplicates(),
    ensures
        !client_ids(without_client(clients, id)).contains(id),
        without_client(without_client(clients, id), id) == without_client(clients, id),
        client_ids(without_client(clients, id)).no_duplicates(),
{
    let ids = client_ids(clients);
    if ids.contains(id) {
        let i = ids.index_of(id);
        crate::utils::assoc::lemma_assoc_remove(ids, ids, i);
        assert(client_ids(clients.remove(i)) =~= ids.remove(i));
    }
}

impl Server {
    /// The registries are well-formed.
    pub open spec fn wf(&self) -> bool {
        spec_wf(self@) && self.voice.wf()
    }

    /// A server with this configuration and nobody connected.
    pub fn new_config(config: ServerConfig) -> (r: Self)
        ensures
            r.wf(),
            r@ == spec_new_server(config@),
    {
        let r = Server {
            config,
            clients: Vec::new(),
            plugins: Vec::new(),
            voice: Voice::new(),
            shutting_down: false,
        };
        assert(views(r.clients@) =~= Seq::<ClientView>::empty());
        assert(views(r.plugins@) =~= Seq::<PluginView>::empty());
        r
    }

    /// Position of the session `id` in the registry.
    pub fn client_index(&self, id: u64) -> (r: Option<usize>)
        requires
            self.wf(),
        ensures
            match r {
                Some(i) => is_registered(self@, id) && i == client_ids(self@.clients).index_of(id)
                    && i < self.clients.len() && self.clients[i as int].id == id,
                None => !is_registered(self@, id),
            },
    {
        let ghost ids = client_ids(self@.clients);
        let mut i: usize = 0;
        while i < self.clients.len()
            invariant
                i <= self.clients.len(),
                ids == client_ids(self@.clients),
                ids.no_duplicates(),
                forall|j: int| 0 <= j < i ==> ids[j] != id,
            decreases self.clients.len() - i,
        {
            if self.clients[i].id == id {
                proof {
                    assert(ids[i as int] == id);
                }
                return Some(i);
            }
            i = i + 1;
        }
        None
    }

    /// Takes the session out of the registry.  Returns whether it was
    /// there: taking it out once more changes nothing.
    pub fn remove(&mut self, id: u64) -> (r: bool)
        requires
            old(self).wf(),
        ensures
            final(self).wf(),
            r == is_registered(old(self)@, id),
            !is_registered(final(self)@, id),
            final(self)@ == (ServerView {
                clients: without_client(old(self)@.clients, id),
                ..old(self)@
            }),
    {
        let ghost ids = client_ids(self@.clients);
        match self.client_index(id) {
            Some(i) => {
                self.clients.remove(i);
                proof {
                    crate::utils::assoc::lemma_assoc_remove(ids, ids, i as int);
                    assert(views(self.clients@) =~= old(self)@.clients.remove(i as int));
                    assert(client_ids(self@.clients) =~= ids.remove(i as int));
                }
                true
            },
            None => false,
        }
    }

    /// Puts a session that has finished its handshake into the registry,
    /// in place of an earlier entry for the same connection if there is
    /// one.  Returns whether it did: a session that is not authenticated
    /// is not registered.
    pub fn register(&mut self, client: &Client) -> (r: bool)
        requires
            old(self).wf(),
        ensures
            final(self).wf(),
            r == (client.state == SessionState::Authenticated && client.uuid is Some),
            final(self)@ == if r {
                ServerView {
                    clients: without_client(old(self)@.clients, client.id).push(client@),
                    ..old(self)@
                }
            } else {
                old(self)@
            },
    {
        if client.state != SessionState::Authenticated || client.uuid.is_none() {
            return false;
        }
        self.remove(client.id);
        let ghost ids = client_ids(self@.clients);
        let ghost before = self@.clients;
        self.clients.push(client.clone());
        proof {
            crate::utils::assoc::lemma_assoc_push(ids, ids, client.id, client.id);
            assert(views(self.clients@) =~= before.push(client@));
            assert(client_ids(self@.clients) =~= ids.push(client.id));
        }
        true
    }

    /// One write of `payload` to every registered session.
    pub fn deliver_all(&self, payload: &Outbound) -> (r: Vec<Action>)
        ensures
            views(r@) == spec_broadcast(self@.clients, payload@),
    {
        let mut r: Vec<Action> = Vec::new();
        let mut i: usize = 0;
        while i < self.clients.len()
            invariant
                i <= self.clients.len(),
                r.len() == i,
                forall|k: int|
                    0 <= k < i ==> (#[trigger] r@[k])@ == (ActionView::Send {
                        client: self.clients@[k].id,
                        payload: payload@,
                    }),
            decreases self.clients.len() - i,
        {
            r.push(Action::Send { client: self.clients[i].id, payload: payload.clone() });
            i = i + 1;
        }
        r
    }

    /// One write of `msg` to every registered session.
    pub fn broadcast(&self, msg: ServerMessage) -> (r: Vec<Action>)
        ensures
            views(r@) == spec_broadcast(self@.clients, OutboundView::Message(msg@)),
    {
        self.deliver_all(&Outbound::Message(msg))
    }

    /// One write of `payload` to every registered session whose user is
    /// among `targets`.
    pub fn deliver_to(&self, targets: &[&String], payload: &Outbound) -> (r: Vec<Action>)
        ensures
            views(r@) == spec_broadcast_to(self@.clients, views(targets@).to_set(), payload@),
    {
        let mut r: Vec<Action> = Vec::new();
        let mut i: usize = 0;
        while i < self.clients.len()
            invariant
                i <= self.clients.len(),
                views(r@) == spec_broadcast_to(
                    self@.clients.take(i as int),
                    views(targets@).to_set(),
                    payload@,
                ),
            decreases self.clients.len() - i,
        {
            let ghost before = views(r@);
            proof {
                let next = self@.clients.take(i as int + 1);
                assert(next.drop_last() =~= self@.clients.take(i as int));
            }
            let wanted = match &self.clients[i].uuid {
                Some(u) => is_among(targets, u),
                None => false,
            };
            if wanted {
                r.push(Action::Send { client: self.clients[i].id, payload: payload.clone() });
                assert(views(r@) =~= before.push(
                    ActionView::Send { client: self.clients@[i as int].id, payload: payload@ },
                ));
            }
            i = i + 1;
        }
        assert(self@.clients.take(self.clients.len() as int) =~= self@.clients);
        r
    }

    /// One write of `message` to every registered session whose user is
    /// among `targets`.
    pub fn broadcast_to(&self, targets: &[&String], message: ServerMessage) -> (r: Vec<Action>)
        ensures
            views(r@) == spec_broadcast_to(
                self@.clients,
                views(targets@).to_set(),
                OutboundView::Message(message@),
            ),
    {
        self.deliver_to(targets, &Outbound::Message(message))
    }

    /// One write of the raw frame `payload` to every registered session
    /// whose user is among `targets`.
    pub fn broadcast_bin_to(&self, targets: &[&String], payload: Vec<u8>) -> (r: Vec<Action>)
        ensures
            views(r@) == spec_broadcast_to(
                self@.clients,
                views(targets@).to_set(),
                OutboundView::Binary(payload@),
            ),
    {
        self.deliver_to(targets, &Outbound::Binary(payload))
    }

    /// One write of `msg` to the control connection of every plugin that
    /// can be written to.
    pub fn send_plugin_message(&self, msg: &LoaderMessage) -> (r: Vec<Action>)
        ensures
            views(r@) == spec_mirror(self@.plugins, msg@),
    {
        let mut r: Vec<Action> = Vec::new();
        let mut i: usize = 0;
        while i < self.plugins.len()
            invariant
                i <= self.plugins.len(),
                views(r@) == spec_mirror(self@.plugins.take(i as int), msg@),
            decreases self.plugins.len() - i,
        {
            proof {
                let next = self@.plugins.take(i as int + 1);
                assert(next.drop_last() =~= self@.plugins.take(i as int));
            }
            match self.plugins[i].send(msg) {
                Some(a) => {
                    r.push(a);
                },
                None => {},
            }
            i = i + 1;
        }
        assert(self@.plugins.take(self.plugins.len() as int) =~= self@.plugins);
        r
    }

    /// When there is an error it removes the client: first from the
    /// registry, then the notice of an internal error goes out and the
    /// socket is closed.  The result is handed back as it came.
    pub fn wrap_err<T>(&mut self, client: &mut Client, res: Result<T, ServerError>) -> (r: (
        Result<T, ServerError>,
        Vec<Action>,
    ))
        requires
            old(self).wf(),
        ensures
            final(self).wf(),
            r.0 == res,
            match res {
                Ok(_) => final(self)@ == old(self)@ && final(client)@ == old(client)@ && views(r.1@)
                    == Seq::<ActionView>::empty(),
                Err(e) => (final(self)@, final(client)@, views(r.1@)) == spec_wrap_err(
                    old(self)@,
                    old(client)@,
                    e@,
                ),
            },
    {
        let mut actions: Vec<Action> = Vec::new();
        match &res {
            Ok(_) => {},
            Err(e) => {
                self.remove(client.id);
                client.state = SessionState::Closed;
                actions.push(
                    Action::Send {
                        client: client.id,
                        payload: Outbound::Error(ResponseError::InternalError(e.message())),
                    },
                );
                actions.push(Action::Close { client: client.id });
            },
        }
        (res, actions)
    }

    /// Deals with a session to which a write has failed: the session
    /// leaves the registry, and its user is not left behind in a voice
    /// channel.
    pub fn write_failed(&mut self, client: &Client) -> (r: Vec<Action>)
        requires
            old(self).wf(),
        ensures
            final(self).wf(),
            !is_registered(final(self)@, client.id),
            spec_write_failed(old(self)@, client@, final(self)@, views(r@)),
    {
        self.remove(client.id);
        let ghost removed = self@;
        let actions = leave_all(self, client);
        assert(self@.clients == removed.clients);
        actions
    }

    /// Deals with a failed write to the session that is registered under
    /// `id`.  Where no session is registered under it, nothing happens:
    /// a session that is not registered is in nobody's view.
    pub fn write_failed_to(&mut self, id: u64) -> (r: Vec<Action>)
        requires
            old(self).wf(),
        ensures
            final(self).wf(),
            !is_registered(final(self)@, id),
            match registered_session(old(self)@, id) {
                Some(c) => spec_write_failed(old(self)@, c, final(self)@, views(r@)),
                None => final(self)@ == old(self)@ && views(r@) == Seq::<ActionView>::empty(),
            },
    {
        match self.client_index(id) {
            Some(i) => {
                let client = self.clients[i].clone();
                self.write_failed(&client)
            },
            None => {
                let none: Vec<Action> = Vec::new();
                assert(views(none@) =~= Seq::<ActionView>::empty());
                none
            },
        }
    }

    /// Deals with a handler's result after the actions `first`.
    pub fn settle(&mut self, client: &mut Client, first: Vec<Action>, out: Result<Step, ServerError>) -> (r:
        Step)
        requires
            old(self).wf(),
        ensures
            final(self).wf(),
            (final(self)@, final(client)@, r@) == spec_settle(
                old(self)@,
                old(client)@,
                views(first@),
                outcome(out),
            ),
    {
        let mut actions = first;
        let (out, told) = self.wrap_err(client, out);
        match out {
            Ok(step) => {
                let Step { actions: more, store } = step;
                append_actions(&mut actions, more);
                assert(views(actions@) =~= views(first@) + views(more@));
                Step { actions, store }
            },
            Err(_) => {
                append_actions(&mut actions, told);
                assert(views(actions@) =~= views(first@) + views(told@));
                Step::done(actions)
            },
        }
    }

    /// Serves one envelope of an authenticated session.
    pub fn handle_client(&mut self, client: &mut Client, req: &WsMessage<ClientMessage>) -> (r: Step)
        requires
            old(self).wf(),
        ensures
            final(self).wf(),
            spec_handle_client(old(self)@, old(client)@, req@, final(self)@, final(client)@, r@),
    {
        if self.shutting_down {
            let none: Vec<Action> = Vec::new();
            assert(views(none@) =~= Seq::<ActionView>::empty());
            return Step::done(none);
        }
        let mirror = match req {
            WsMessage::Binary(_) => {
                let none: Vec<Action> = Vec::new();
                none
            },
            _ => {
                let user_id = match &client.uuid {
                    Some(u) => u.clone(),
                    None => String::new(),
                };
                self.send_plugin_message(&LoaderMessage::Request { user_id, msg: clone_request(req) })
            },
        };
        let out = self.call_request(req, client);
        let r = self.settle(client, mirror, out);
        r
    }

    /// Goes on with a request of an authenticated session once the store
    /// answered, or failed with a reason.
    pub fn resume_client(
        &mut self,
        client: &mut Client,
        pending: Pending,
        answer: Result<StoreAnswer, String>,
    ) -> (r: Step)
        requires
            old(self).wf(),
        ensures
            final(self).wf(),
            (final(self)@, final(client)@, r@) == spec_resume_client(
                old(self)@,
                old(client)@,
                pending@,
                match answer {
                    Ok(a) => Ok(a@),
                    Err(reason) => Err(reason@),
                },
            ),
    {
        let out = match answer {
            Ok(a) => self.resume(client, pending, a),
            Err(reason) => Err(ServerError::Internal(reason)),
        };
        let none: Vec<Action> = Vec::new();
        self.settle(client, none, out)
    }

    /// Shuts the server down.  Calling it again changes nothing and asks
    /// for nothing.
    pub fn shutdown(&mut self) -> (r: Vec<Action>)
        requires
            old(self).wf(),
        ensures
            final(self).wf(),
            (final(self)@, views(r@)) == spec_shutdown(old(self)@),
    {
        let mut actions: Vec<Action> = Vec::new();
        if self.shutting_down {
            return actions;
        }
        // Signal shutdown
        self.shutting_down = true;
        // Disconnect clients
        let mut i: usize = 0;
        while i < self.clients.len()
            invariant
                i <= self.clients.len(),
                self.clients == old(self).clients,
                self.plugins == old(self).plugins,
                self.voice == old(self).voice,
                self.config == old(self).config,
                self.shutting_down,
                views(actions@) == spec_goodbyes(old(self)@.clients.take(i as int)),
            decreases self.clients.len() - i,
        {
            proof {
                let next = old(self)@.clients.take(i as int + 1);
                assert(next.drop_last() =~= old(self)@.clients.take(i as int));
            }
            let id = self.clients[i].id;
            actions.push(
                Action::Send {
                    client: id,
                    payload: Outbound::Message(
                        ServerMessage::Shutdown {
                            message: "Server shutting down... we'll be back shortly".to_owned(),
                        },
                    ),
                },
            );
            actions.push(Action::Close { client: id });
            i = i + 1;
        }
        assert(old(self)@.clients.take(self.clients.len() as int) =~= old(self)@.clients);
        self.clients = Vec::new();
        assert(views(self.clients@) =~= Seq::<ClientView>::empty());
        // Stop plugins
        let stops = stop_plugins(&mut self.plugins);
        append_actions(&mut actions, stops);
        actions.push(Action::Exit);
        proof {
            assert(plugin_ids(self@.plugins) =~= plugin_ids(old(self)@.plugins));
        }
        actions
    }
}

/// Stops every plugin of the list.
pub fn stop_plugins(plugins: &mut Vec<Plugin>) -> (r: Vec<Action>)
    ensures
        views(final(plugins)@) == spec_stopped(views(old(plugins)@)),
        views(r@) == spec_stop_all(views(old(plugins)@)),
{
    let mut actions: Vec<Action> = Vec::new();
    let ghost all = views(plugins@);
    let mut k: usize = 0;
    while k < plugins.len()
        invariant
            k <= plugins.len(),
            plugins.len() == all.len(),
            forall|j: int| 0 <= j < k ==> (#[trigger] plugins@[j])@ == spec_stopped(all)[j],
            forall|j: int| k <= j < all.len() ==> (#[trigger] plugins@[j])@ == all[j],
            views(actions@) == spec_stop_all(all.take(k as int)),
        decreases plugins.len() - k,
    {
        proof {
            let next = all.take(k as int + 1);
            assert(next.drop_last() =~= all.take(k as int));
        }
        let mut plugin = plugins[k].clone();
        let steps = plugin.stop();
        plugins.set(k, plugin);
        append_actions(&mut actions, steps);
        k = k + 1;
    }
    assert(all.take(all.len() as int) =~= all);
    actions
}

/// Whether the text `u` is one of `targets`.
pub fn is_among(targets: &[&String], u: &String) -> (r: bool)
    ensures
        r == views(targets@).contains(u@),
{
    let mut i: usize = 0;
    while i < targets.len()
        invariant
            i <= targets.len(),
            forall|k: int| 0 <= k < i ==> views(targets@)[k] != u@,
        decreases targets.len() - i,
    {
        if *targets[i] == *u {
            assert(views(targets@)[i as int] == u@);
            return true;
        }
        i = i + 1;
    }
    false
}

} // verus!
