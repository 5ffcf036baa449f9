//! Handshake correlation: matching the control connections that arrive to
//! the plugins that were started.

use vstd::prelude::*;

use crate::plugin::types::{PluginHandshake, PluginJson};
use crate::plugin::{Plugin, PluginState, PluginView};
use crate::utils::assoc::{
    assoc, lemma_assoc_at, lemma_assoc_empty, lemma_assoc_push, lemma_assoc_remove,
    lemma_assoc_update,
};

verus! {

/// A control connection that announced itself.
pub struct ControlLink {
    id: String,
    conn: u64,
}

/// The control connections that have arrived, by the plugin that each
/// announced.
pub struct PluginLoader {
    plugin_clients: Vec<ControlLink>,
}

/// The plugins that announced themselves, in the order of their arrival.
pub closed spec fn link_keys(links: Seq<ControlLink>) -> Seq<Seq<char>> {
    Seq::new(links.len(), |i: int| links[i].id@)
}

/// The handles of the connections, in the same order.
pub closed spec fn link_vals(links: Seq<ControlLink>) -> Seq<u64> {
    Seq::new(links.len(), |i: int| links[i].conn)
}

impl View for PluginLoader {
    type V = Map<Seq<char>, u64>;

    closed spec fn view(&self) -> Map<Seq<char>, u64> {
        assoc(link_keys(self.plugin_clients@), link_vals(self.plugin_clients@))
    }
}

/// The plugin that `manifest` declares once its control connection is
/// there; none while it is not.
pub open spec fn spec_load(links: Map<Seq<char>, u64>, id: Seq<char>) -> Option<PluginView> {
    if links.contains_key(id) {
        Some(PluginView { id, conn: Some(links[id]), state: PluginState::Handshaken })
    } else {
        None
    }
}

impl PluginLoader {
    /// No plugin occurs twice.
    pub closed spec fn wf(&self) -> bool {
        link_keys(self.plugin_clients@).no_duplicates()
    }

    /// A loader that no connection has reached yet.
    pub fn new() -> (r: Self)
        ensures
            r.wf(),
            r@ == Map::<Seq<char>, u64>::empty(),
    {
        let r = PluginLoader { plugin_clients: Vec::new() };
        proof {
            lemma_assoc_empty(link_keys(r.plugin_clients@), link_vals(r.plugin_clients@));
        }
        r
    }

    /// Position of the connection that `plugin_id` announced.
    fn index_of(&self, plugin_id: &str) -> (r: Option<usize>)
        requires
            self.wf(),
        ensures
            match r {
                Some(i) => i < self.plugin_clients.len() && self.plugin_clients[i as int].id@
                    == plugin_id@ && self@.contains_key(plugin_id@) && self@[plugin_id@]
                    == self.plugin_clients[i as int].conn,
                None => !self@.contains_key(plugin_id@),
            },
    {
        let ghost keys = link_keys(self.plugin_clients@);
        let ghost vals = link_vals(self.plugin_clients@);
        let mut i: usize = 0;
        while i < self.plugin_clients.len()
            invariant
                i <= self.plugin_clients.len(),
                self.wf(),
                keys == link_keys(self.plugin_clients@),
                vals == link_vals(self.plugin_clients@),
                forall|j: int| 0 <= j < i ==> keys[j] != plugin_id@,
            decreases self.plugin_clients.len() - i,
        {
            if *self.plugin_clients[i].id.as_str() == *plugin_id {
                proof {
                    lemma_assoc_at(keys, vals, i as int);
                }
                return Some(i);
            }
            i = i + 1;
        }
        None
    }

    /// Takes in a control connection that announced itself with
    /// `handshake`; an earlier connection of the same plugin is forgotten.
    pub fn accept(&mut self, handshake: PluginHandshake, conn: u64)
        requires
            old(self).wf(),
        ensures
            final(self).wf(),
            final(self)@ == old(self)@.insert(handshake.id@, conn),
    {
        let ghost keys = link_keys(self.plugin_clients@);
        let ghost vals = link_vals(self.plugin_clients@);
        match self.index_of(handshake.id.as_str()) {
            Some(i) => {
                self.plugin_clients.set(i, ControlLink { id: handshake.id, conn });
                proof {
                    lemma_assoc_update(keys, vals, i as int, conn);
                    assert(link_keys(self.plugin_clients@) =~= keys);
                }
            },
            None => {
                self.plugin_clients.push(ControlLink { id: handshake.id, conn });
                proof {
                    lemma_assoc_push(keys, vals, handshake.id@, conn);
                    assert(link_keys(self.plugin_clients@) =~= keys.push(handshake.id@));
                }
            },
        }
    }

    /// The plugin that `manifest` declares, with its control connection
    /// attached, once that connection has arrived; none while it has not,
    /// and the caller asks again.
    pub fn load(&self, manifest: &PluginJson) -> (r: Option<Plugin>)
        requires
            self.wf(),
        ensures
            match r {
                Some(p) => Some(p@),
                None => None,
            } == spec_load(self@, manifest.id@),
    {
        match self.index_of(manifest.id.as_str()) {
            Some(i) => {
                let mut plugin = Plugin::spawned(manifest.id.clone());
                plugin.attach(self.plugin_clients[i].conn);
                Some(plugin)
            },
            None => None,
        }
    }

    /// Forgets the control connection of `plugin_id`, if there is one.
    pub fn remove(&mut self, plugin_id: &str)
        requires
            old(self).wf(),
        ensures
            final(self).wf(),
            final(self)@ == old(self)@.remove(plugin_id@),
    {
        let ghost keys = link_keys(self.plugin_clients@);
        let ghost vals = link_vals(self.plugin_clients@);
        match self.index_of(plugin_id) {
            Some(i) => {
                self.plugin_clients.remove(i);
                proof {
                    lemma_assoc_remove(keys, vals, i as int);
                    assert(link_keys(self.plugin_clients@) =~= keys.remove(i as int));
                }
            },
            None => {},
        }
    }

    /// Forgets every control connection.
    pub fn clear(&mut self)
        requires
            old(self).wf(),
        ensures
            final(self).wf(),
            final(self)@ == Map::<Seq<char>, u64>::empty(),
    {
        self.plugin_clients.clear();
        proof {
            lemma_assoc_empty(link_keys(self.plugin_clients@), link_vals(self.plugin_clients@));
        }
    }
}

} // verus!
