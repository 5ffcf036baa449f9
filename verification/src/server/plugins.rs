//! The operator's commands on plugins: starting, stopping and restarting
//! them.

use vstd::prelude::*;

use crate::action::{append_actions, Action, ActionView};
use crate::plugin::loader::PluginLoader;
use crate::plugin::{stop_steps, Plugin, PluginView};
use crate::server::{plugin_ids, spec_stop_all, stop_plugins, Server, ServerView};
use crate::types::views;
use crate::utils::assoc::{lemma_assoc_push, lemma_assoc_remove};

verus! {

/// The server after the plugin `p` was added to the active ones: as
/// before where a plugin of that name is active already.
pub open spec fn spec_add_plugin(s: ServerView, p: PluginView) -> ServerView {
    if plugin_ids(s.plugins).contains(p.id) {
        s
    } else {
        ServerView { plugins: s.plugins.push(p), ..s }
    }
}

/// What stopping the plugin `target` takes, and the server after it: the
/// plugin is stopped and leaves the active ones.  Where no plugin of that
/// name is active, nothing happens.
pub open spec fn spec_stop_plugin(s: ServerView, target: Seq<char>) -> (ServerView, Seq<ActionView>) {
    let ids = plugin_ids(s.plugins);
    if ids.contains(target) {
        let i = ids.index_of(target);
        (ServerView { plugins: s.plugins.remove(i), ..s }, stop_steps(s.plugins[i]))
    } else {
        (s, Seq::empty())
    }
}

/// What restarting the plugin `target` takes: stopping it, then starting
/// it, as one operation.
pub open spec fn spec_reload_plugin(s: ServerView, target: Seq<char>) -> (
    ServerView,
    Seq<ActionView>,
) {
    let (after, stops) = spec_stop_plugin(s, target);
    (after, stops + seq![ActionView::LoadPlugin { plugin: target }])
}

/// What restarting every plugin takes: stopping each active one, then
/// starting every installed one.
pub open spec fn spec_reload_all(s: ServerView) -> (ServerView, Seq<ActionView>) {
    (
        ServerView { plugins: Seq::empty(), ..s },
        spec_stop_all(s.plugins) + seq![ActionView::LoadAllPlugins],
    )
}

impl Server {
    /// Position of the plugin `target` among the active ones.
    pub fn plugin_index(&self, target: &str) -> (r: Option<usize>)
        requires
            self.wf(),
        ensures
            match r {
                Some(i) => plugin_ids(self@.plugins).contains(target@) && i == plugin_ids(
                    self@.plugins,
                ).index_of(target@) && i < self.plugins.len() && self.plugins[i as int].id@
                    == target@,
                None => !plugin_ids(self@.plugins).contains(target@),
            },
    {
        let ghost ids = plugin_ids(self@.plugins);
        let mut i: usize = 0;
        while i < self.plugins.len()
            invariant
                i <= self.plugins.len(),
                ids == plugin_ids(self@.plugins),
                ids.no_duplicates(),
                forall|j: int| 0 <= j < i ==> ids[j] != target@,
            decreases self.plugins.len() - i,
        {
            if *self.plugins[i].id.as_str() == *target {
                proof {
                    assert(ids[i as int] == target@);
                }
                return Some(i);
            }
            i = i + 1;
        }
        None
    }

    /// Adds a plugin to the active ones.  Returns whether it did: no two
    /// active plugins have the same name.
    pub fn add_plugin(&mut self, plugin: Plugin) -> (r: bool)
        requires
            old(self).wf(),
        ensures
            final(self).wf(),
            r == !plugin_ids(old(self)@.plugins).contains(plugin.id@),
            final(self)@ == spec_add_plugin(old(self)@, plugin@),
    {
        let ghost ids = plugin_ids(self@.plugins);
        let ghost before = self@.plugins;
        match self.plugin_index(plugin.id.as_str()) {
            Some(_) => false,
            None => {
                self.plugins.push(plugin);
                proof {
                    lemma_assoc_push(ids, ids, plugin.id@, plugin.id@);
                    assert(views(self.plugins@) =~= before.push(plugin@));
                    assert(plugin_ids(self@.plugins) =~= ids.push(plugin.id@));
                }
                true
            },
        }
    }

    /// Stops the plugin `target` and forgets its control connection.
    /// Stopping a plugin that is not active does nothing.
    pub fn stop_plugin(&mut self, loader: &mut PluginLoader, target: &str) -> (r: Vec<Action>)
        requires
            old(self).wf(),
            old(loader).wf(),
        ensures
            final(self).wf(),
            final(loader).wf(),
            final(loader)@ == old(loader)@.remove(target@),
            (final(self)@, views(r@)) == spec_stop_plugin(old(self)@, target@),
    {
        loader.remove(target);
        let ghost ids = plugin_ids(self@.plugins);
        let ghost before = self@.plugins;
        match self.plugin_index(target) {
            Some(i) => {
                let mut plugin = self.plugins.remove(i);
                proof {
                    lemma_assoc_remove(ids, ids, i as int);
                    assert(views(self.plugins@) =~= before.remove(i as int));
                    assert(plugin_ids(self@.plugins) =~= ids.remove(i as int));
                }
                plugin.stop()
            },
            None => {
                let none: Vec<Action> = Vec::new();
                none
            },
        }
    }

    /// Restarts the plugin `target`: stop followed by load, as one
    /// operation.
    pub fn reload_plugin(&mut self, loader: &mut PluginLoader, target: &str) -> (r: Vec<Action>)
        requires
            old(self).wf(),
            old(loader).wf(),
        ensures
            final(self).wf(),
            final(loader).wf(),
            final(loader)@ == old(loader)@.remove(target@),
            (final(self)@, views(r@)) == spec_reload_plugin(old(self)@, target@),
    {
        let mut actions = self.stop_plugin(loader, target);
        actions.push(Action::LoadPlugin { plugin: target.to_owned() });
        actions
    }

    /// Restarts every plugin.
    pub fn reload_all(&mut self, loader: &mut PluginLoader) -> (r: Vec<Action>)
        requires
            old(self).wf(),
            old(loader).wf(),
        ensures
            final(self).wf(),
            final(loader).wf(),
            final(loader)@ == Map::<Seq<char>, u64>::empty(),
            (final(self)@, views(r@)) == spec_reload_all(old(self)@),
    {
        let mut actions = stop_plugins(&mut self.plugins);
        self.plugins.clear();
        loader.clear();
        actions.push(Action::LoadAllPlugins);
        proof {
            assert(views(self.plugins@) =~= Seq::<PluginView>::empty());
        }
        actions
    }
}

} // verus!
