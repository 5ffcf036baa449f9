//! The shutdown happens once: what is proved of it.

use vstd::prelude::*;

use crate::action::{ActionView, OutboundView, PluginStepView};
use crate::plugin::types::LoaderMessageView;
use crate::plugin::{stop_steps, PluginState, PluginView};
use crate::server::{
    client_ids, plugin_ids, spec_goodbyes, spec_shutdown, spec_stop_all, spec_wf, ServerView,
};
use crate::types::message::ServerMessageView;
use crate::utils::client::ClientView;

verus! {

/// How often `a` occurs among `actions`.
pub open spec fn occurrences(actions: Seq<ActionView>, a: ActionView) -> nat
    decreases actions.len(),
{
    if actions.len() == 0 {
        0
    } else {
        occurrences(actions.drop_last(), a) + if actions.last() == a {
            1nat
        } else {
            0nat
        }
    }
}

/// One more action at the end counts once if it is the action looked for.
pub proof fn lemma_occurrences_push(x: Seq<ActionView>, e: ActionView, a: ActionView)
    ensures
        occurrences(x.push(e), a) == occurrences(x, a) + if e == a {
            1nat
        } else {
            0nat
        },
{
    assert(x.push(e).drop_last() =~= x);
    assert(x.push(e).last() == e);
}

/// Occurrences add up over a concatenation.
pub proof fn lemma_occurrences_add(x: Seq<ActionView>, y: Seq<ActionView>, a: ActionView)
    ensures
        occurrences(x + y, a) == occurrences(x, a) + occurrences(y, a),
    decreases y.len(),
{
    if y.len() == 0 {
        assert(x + y =~= x);
    } else {
        assert((x + y).drop_last() =~= x + y.drop_last());
        assert((x + y).last() == y.last());
        lemma_occurrences_add(x, y.drop_last(), a);
    }
}

/// The notice of the shutdown to the session `id`.
pub open spec fn spec_farewell(id: u64) -> ActionView {
    ActionView::Send {
        client: id,
        payload: OutboundView::Message(
            ServerMessageView::Shutdown { message: "Server shutting down... we'll be back shortly"@ },
        ),
    }
}

/// The session that `a` parts from: the one that `a` sends the notice of
/// the shutdown to, or whose socket `a` closes.  None for any other
/// action.
pub open spec fn parting(a: ActionView) -> Option<u64> {
    match a {
        ActionView::Close { client } => Some(client),
        ActionView::Send { client, .. } => if a == spec_farewell(client) {
            Some(client)
        } else {
            None
        },
        _ => None,
    }
}

/// The plugin that `a` stops: the one that `a` sends the shutdown record
/// to, whose control connection `a` closes, or whose process `a` kills.
/// None for any other action.
pub open spec fn stopping(a: ActionView) -> Option<Seq<char>> {
    match a {
        ActionView::Plugin { plugin, step } => if step == PluginStepView::Send(
            LoaderMessageView::Shutdown,
        ) || step == PluginStepView::CloseStream || step == PluginStepView::Kill {
            Some(plugin)
        } else {
            None
        },
        _ => None,
    }
}

/// Whether `plugin` is one of `plugins` and not stopped yet.
pub open spec fn is_active(plugins: Seq<PluginView>, plugin: Seq<char>) -> bool {
    exists|i: int|
        0 <= i < plugins.len() && (#[trigger] plugins[i]).id == plugin && plugins[i].state
            != PluginState::Stopped
}

/// How often the farewell to the sessions holds `a`: once if `a` parts
/// from one of the sessions, else never.
pub proof fn lemma_goodbyes(clients: Seq<ClientView>, a: ActionView)
    requires
        client_ids(clients).no_duplicates(),
    ensures
        occurrences(spec_goodbyes(clients), a) == match parting(a) {
            Some(id) => if client_ids(clients).contains(id) {
                1nat
            } else {
                0nat
            },
            None => 0nat,
        },
    decreases clients.len(),
{
    let ids = client_ids(clients);
    if clients.len() > 0 {
        let before = clients.drop_last();
        let last = clients.last();
        assert(client_ids(before) =~= ids.drop_last());
        lemma_goodbyes(before, a);
        let none = Seq::<ActionView>::empty();
        let notice = spec_farewell(last.id);
        let close = ActionView::Close { client: last.id };
        let tail = none.push(notice).push(close);
        assert(spec_goodbyes(clients) =~= spec_goodbyes(before) + tail);
        lemma_occurrences_add(spec_goodbyes(before), tail, a);
        lemma_occurrences_push(none, notice, a);
        lemma_occurrences_push(none.push(notice), close, a);
        assert(occurrences(tail, a) == if parting(a) == Some(last.id) {
            1nat
        } else {
            0nat
        });
        assert(ids[ids.len() - 1] == last.id);
        match parting(a) {
            Some(id) => {
                if ids.drop_last().contains(id) {
                    let k = choose|k: int| 0 <= k < ids.drop_last().len() && ids.drop_last()[k] == id;
                    assert(ids[k] == id);
                }
                if ids.contains(id) && id != last.id {
                    let k = choose|k: int| 0 <= k < ids.len() && ids[k] == id;
                    assert(ids.drop_last()[k] == id);
                }
            },
            None => {},
        }
    }
}

/// How often stopping one plugin holds `a`: once if `a` stops that plugin
/// and the plugin is not stopped yet, else never.
pub proof fn lemma_stop_steps(p: PluginView, a: ActionView)
    ensures
        occurrences(stop_steps(p), a) == if stopping(a) == Some(p.id) && p.state
            != PluginState::Stopped {
            1nat
        } else {
            0nat
        },
{
    let steps = stop_steps(p);
    if p.state != PluginState::Stopped {
        let none = Seq::<ActionView>::empty();
        assert(steps =~= none.push(steps[0]).push(steps[1]).push(steps[2]));
        lemma_occurrences_push(none, steps[0], a);
        lemma_occurrences_push(none.push(steps[0]), steps[1], a);
        lemma_occurrences_push(none.push(steps[0]).push(steps[1]), steps[2], a);
    }
}

/// How often stopping every plugin holds `a`: once if `a` stops one of
/// the plugins and that plugin is not stopped yet, else never.
pub proof fn lemma_stop_all(plugins: Seq<PluginView>, a: ActionView)
    requires
        plugin_ids(plugins).no_duplicates(),
    ensures
        occurrences(spec_stop_all(plugins), a) == match stopping(a) {
            Some(plugin) => if is_active(plugins, plugin) {
                1nat
            } else {
                0nat
            },
            None => 0nat,
        },
    decreases plugins.len(),
{
    let ids = plugin_ids(plugins);
    if plugins.len() > 0 {
        let before = plugins.drop_last();
        let last = plugins.last();
        let n = plugins.len() as int;
        assert(plugin_ids(before) =~= ids.drop_last());
        lemma_stop_all(before, a);
        lemma_stop_steps(last, a);
        lemma_occurrences_add(spec_stop_all(before), stop_steps(last), a);
        match stopping(a) {
            Some(plugin) => {
                if is_active(before, plugin) {
                    let i = choose|i: int|
                        0 <= i < before.len() && (#[trigger] before[i]).id == plugin
                            && before[i].state != PluginState::Stopped;
                    assert(plugins[i].id == plugin && plugins[i].state != PluginState::Stopped);
                    assert(ids[i] == plugin && ids[n - 1] == last.id);
                    assert(last.id != plugin);
                } else if last.id == plugin && last.state != PluginState::Stopped {
                    assert(plugins[n - 1].id == plugin && plugins[n - 1].state
                        != PluginState::Stopped);
                } else if is_active(plugins, plugin) {
                    let i = choose|i: int|
                        0 <= i < plugins.len() && (#[trigger] plugins[i]).id == plugin
                            && plugins[i].state != PluginState::Stopped;
                    assert(i < n - 1);
                    assert(before[i].id == plugin && before[i].state != PluginState::Stopped);
                }
            },
            None => {},
        }
    }
}

/// How often the first shutdown of a running server holds `a`.
pub proof fn lemma_first_shutdown(s: ServerView, a: ActionView)
    requires
        spec_wf(s),
        !s.shutting_down,
    ensures
        occurrences(spec_shutdown(s).1, a) == occurrences(spec_goodbyes(s.clients), a)
            + occurrences(spec_stop_all(s.plugins), a) + if a == ActionView::Exit {
            1nat
        } else {
            0nat
        },
{
    let farewell = spec_goodbyes(s.clients);
    let stops = spec_stop_all(s.plugins);
    let exit = seq![ActionView::Exit];
    assert(exit =~= Seq::<ActionView>::empty().push(ActionView::Exit));
    lemma_occurrences_push(Seq::empty(), ActionView::Exit, a);
    lemma_occurrences_add(farewell, stops, a);
    lemma_occurrences_add(farewell + stops, exit, a);
}

/// The shutdown is idempotent: shutting down a server that is shutting
/// down changes nothing and asks for nothing.
pub proof fn law_shutdown_is_idempotent(s: ServerView)
    ensures
        spec_shutdown(spec_shutdown(s).0) == (spec_shutdown(s).0, Seq::<ActionView>::empty()),
{}

/// Over two shutdowns in a row, whatever state the server is in, nothing
/// is done twice: no session is sent the notice twice, no socket is
/// closed twice, no plugin is told, disconnected or killed twice, and the
/// process is ended at most once.
pub proof fn law_shutdown_never_repeats(s: ServerView, a: ActionView)
    requires
        spec_wf(s),
    ensures
        occurrences(spec_shutdown(s).1 + spec_shutdown(spec_shutdown(s).0).1, a) <= 1,
{
    let first = spec_shutdown(s).1;
    let second = spec_shutdown(spec_shutdown(s).0).1;
    assert(first + second =~= first);
    if !s.shutting_down {
        lemma_first_shutdown(s, a);
        lemma_goodbyes(s.clients, a);
        lemma_stop_all(s.plugins, a);
    }
}

/// Over two shutdowns in a row of a server that was not shut down before,
/// every session that was registered is sent the notice of the shutdown
/// exactly once and its socket is closed exactly once.
pub proof fn law_shutdown_parts_from_each_session_once(s: ServerView, i: int, a: ActionView)
    requires
        spec_wf(s),
        !s.shutting_down,
        0 <= i < s.clients.len(),
        a == spec_farewell(s.clients[i].id) || a == (ActionView::Close { client: s.clients[i].id }),
    ensures
        occurrences(spec_shutdown(s).1 + spec_shutdown(spec_shutdown(s).0).1, a) == 1,
{
    let first = spec_shutdown(s).1;
    let second = spec_shutdown(spec_shutdown(s).0).1;
    assert(first + second =~= first);
    lemma_first_shutdown(s, a);
    lemma_goodbyes(s.clients, a);
    lemma_stop_all(s.plugins, a);
    assert(client_ids(s.clients)[i] == s.clients[i].id);
}

/// Over two shutdowns in a row, every plugin that was not stopped yet is
/// stopped exactly once: it is sent one shutdown record, its control
/// connection is closed once, and its process is killed once.  A plugin
/// that was stopped already is left alone; after an earlier shutdown
/// that is every plugin which that shutdown has stopped.
pub proof fn law_shutdown_stops_each_plugin_once(s: ServerView, i: int, a: ActionView)
    requires
        spec_wf(s),
        0 <= i < s.plugins.len(),
        s.shutting_down ==> s.plugins[i].state == PluginState::Stopped,
        stopping(a) == Some(s.plugins[i].id),
    ensures
        occurrences(spec_shutdown(s).1 + spec_shutdown(spec_shutdown(s).0).1, a) == if s.plugins[i].state
            != PluginState::Stopped {
            1nat
        } else {
            0nat
        },
{
    let first = spec_shutdown(s).1;
    let second = spec_shutdown(spec_shutdown(s).0).1;
    let plugin = s.plugins[i].id;
    assert(first + second =~= first);
    if !s.shutting_down {
        lemma_first_shutdown(s, a);
        lemma_goodbyes(s.clients, a);
        lemma_stop_all(s.plugins, a);
    }
    if is_active(s.plugins, plugin) {
        let k = choose|k: int|
            0 <= k < s.plugins.len() && (#[trigger] s.plugins[k]).id == plugin && s.plugins[k].state
                != PluginState::Stopped;
        assert(plugin_ids(s.plugins)[k] == plugin_ids(s.plugins)[i]);
        assert(k == i);
    }
}

} // verus!
