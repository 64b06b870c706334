//! The table of WebAssembly plugins the host has loaded: which are there
//! and which are active.

use vstd::prelude::*;

use crate::text::{owned, string_equals_str};

verus! {

/// A loaded plugin.
#[derive(Debug, Clone)]
pub struct Plugin {
    pub name: String,
    pub version: String,
    pub description: String,
    pub active: bool,
}

/// Descriptive information about a plugin.
#[derive(Debug, Clone)]
pub struct PluginInfo {
    pub name: String,
    pub version: String,
    pub author: String,
    pub description: String,
    pub active: bool,
}

/// State the host hands to a running plugin.
pub struct HostState {
    plugin_name: String,
}

impl HostState {
    /// The state of the plugin loaded from `plugin_name`.
    pub fn new(plugin_name: &str) -> (h: HostState)
        ensures
            h.name() == plugin_name@,
    {
        HostState { plugin_name: owned(plugin_name) }
    }

    /// Name of the plugin the state belongs to.
    pub closed spec fn name(&self) -> Seq<char> {
        self.plugin_name@
    }

    /// Name of the plugin the state belongs to.
    pub fn plugin_name(&self) -> (s: &str)
        ensures
            s@ == self.name(),
    {
        self.plugin_name.as_str()
    }
}

/// A plugin by its values: name, version, description, whether active.
pub open spec fn plugin_view(p: Plugin) -> (Seq<char>, Seq<char>, Seq<char>, bool) {
    (p.name@, p.version@, p.description@, p.active)
}

/// Position of the plugin of the given name, if loaded.
pub open spec fn plugin_position(plugins: Seq<Plugin>, name: Seq<char>) -> Option<int> {
    if exists|i: int| 0 <= i < plugins.len() && (#[trigger] plugins[i]).name@ == name {
        Some(choose|i: int| 0 <= i < plugins.len() && (#[trigger] plugins[i]).name@ == name)
    } else {
        None
    }
}

/// The plugins the host has loaded, one per name.
pub struct PluginManager {
    plugins: Vec<Plugin>,
}

impl PluginManager {
    /// The loaded plugins.
    pub closed spec fn plugin_list(&self) -> Seq<Plugin> {
        self.plugins@
    }

    /// Internal consistency: one plugin per name.
    pub closed spec fn wf(&self) -> bool {
        forall|i: int, j: int| 0 <= i < j < self.plugins@.len()
            ==> (#[trigger] self.plugins@[i]).name@ != (#[trigger] self.plugins@[j]).name@
    }

    /// A manager with no plugin loaded.
    pub fn new() -> (m: PluginManager)
        ensures
            m.wf(),
            m.plugin_list().len() == 0,
    {
        PluginManager { plugins: Vec::new() }
    }

    /// Position of a plugin.
    fn position(&self, name: &str) -> (r: Option<usize>)
        requires
            self.wf(),
        ensures
            match plugin_position(self.plugins@, name@) {
                Some(i) => r matches Some(k) && k as int == i,
                None => r is None,
            },
    {
        let mut i: usize = 0;
        while i < self.plugins.len()
            invariant
                i <= self.plugins@.len(),
                self.wf(),
                forall|j: int| 0 <= j < i ==> (#[trigger] self.plugins@[j]).name@ != name@,
            decreases self.plugins@.len() - i,
        {
            if string_equals_str(&self.plugins[i].name, name) {
                proof {
                    let v = self.plugins@;
                    let k = i as int;
                    let c = choose|c: int| 0 <= c < v.len() && (#[trigger] v[c]).name@ == name@;
                    if c != k {
                        if c < k {
                            assert(v[c].name@ != v[k].name@);
                        } else {
                            assert(v[k].name@ != v[c].name@);
                        }
                    }
                }
                return Some(i);
            }
            i = i + 1;
        }
        None
    }

    /// Records a plugin loaded from `path`: active, version 1.0.0, named by
    /// its path; it replaces a plugin loaded from the same path.
    pub fn record_loaded(&mut self, path: &str)
        requires
            old(self).wf(),
        ensures
            final(self).wf(),
            ({
                let p = (path@, "1.0.0"@, "WASM plugin"@, true);
                match plugin_position(old(self).plugin_list(), path@) {
                    Some(i) => final(self).plugin_list().len() == old(self).plugin_list().len()
                        && plugin_view(final(self).plugin_list()[i]) == p
                        && forall|j: int| 0 <= j < old(self).plugin_list().len() && j != i
                            ==> #[trigger] final(self).plugin_list()[j] == old(self).plugin_list()[j],
                    None => final(self).plugin_list().len() == old(self).plugin_list().len() + 1
                        && plugin_view(final(self).plugin_list().last()) == p
                        && final(self).plugin_list().drop_last() == old(self).plugin_list(),
                }
            }),
    {
        let plugin = Plugin { name: owned(path), version: owned("1.0.0"), description: owned("WASM plugin"), active: true };
        let ghost before = self.plugins@;
        match self.position(path) {
            Some(i) => {
                self.plugins.set(i, plugin);
                proof {
                    let v = self.plugins@;
                    assert forall|a: int, b: int| 0 <= a < b < v.len()
                        implies (#[trigger] v[a]).name@ != (#[trigger] v[b]).name@ by {
                        if a != i && b != i {
                            assert(v[a] == before[a] && v[b] == before[b]);
                        } else if a == i {
                            assert(v[b] == before[b]);
                        } else {
                            assert(v[a] == before[a]);
                        }
                    }
                }
            },
            None => {
                self.plugins.push(plugin);
                proof {
                    let v = self.plugins@;
                    assert(v.drop_last() =~= before);
                    assert forall|a: int, b: int| 0 <= a < b < v.len()
                        implies (#[trigger] v[a]).name@ != (#[trigger] v[b]).name@ by {
                        if b < before.len() {
                            assert(v[a] == before[a] && v[b] == before[b]);
                        } else {
                            assert(v[a] == before[a]);
                        }
                    }
                }
            },
        }
    }

    /// Removes a plugin; an unknown name changes nothing.
    pub fn unload_plugin(&mut self, name: &str)
        requires
            old(self).wf(),
        ensures
            final(self).wf(),
            match plugin_position(old(self).plugin_list(), name@) {
                Some(i) => final(self).plugin_list() == old(self).plugin_list().remove(i),
                None => final(self).plugin_list() == old(self).plugin_list(),
            },
    {
        match self.position(name) {
            Some(i) => {
                let ghost before = self.plugins@;
                self.plugins.remove(i);
                proof {
                    let v = self.plugins@;
                    assert forall|a: int, b: int| 0 <= a < b < v.len()
                        implies (#[trigger] v[a]).name@ != (#[trigger] v[b]).name@ by {
                        let a0 = if a < i { a } else { a + 1 };
                        let b0 = if b < i { b } else { b + 1 };
                        assert(v[a] == before[a0] && v[b] == before[b0]);
                    }
                }
            },
            None => {},
        }
    }

    /// Sets whether a plugin is active; an unknown name changes nothing.
    fn set_active(&mut self, name: &str, active: bool)
        requires
            old(self).wf(),
        ensures
            final(self).wf(),
            match plugin_position(old(self).plugin_list(), name@) {
                Some(i) => final(self).plugin_list() == old(self).plugin_list().update(
                    i,
                    Plugin { active, ..old(self).plugin_list()[i] },
                ),
                None => final(self).plugin_list() == old(self).plugin_list(),
            },
    {
        match self.position(name) {
            Some(i) => {
                let ghost before = self.plugins@;
                let mut p = self.plugins.remove(i);
                p.active = active;
                self.plugins.insert(i, p);
                proof {
                    let v = self.plugins@;
                    assert(v =~= before.update(i as int, Plugin { active, ..before[i as int] }));
                    assert forall|a: int, b: int| 0 <= a < b < v.len()
                        implies (#[trigger] v[a]).name@ != (#[trigger] v[b]).name@ by {
                        assert(v[a].name == before[a].name && v[b].name == before[b].name);
                    }
                }
            },
            None => {},
        }
    }

    /// Activates a plugin; an unknown name changes nothing.
    pub fn activate_plugin(&mut self, name: &str)
        requires
            old(self).wf(),
        ensures
            final(self).wf(),
            match plugin_position(old(self).plugin_list(), name@) {
                Some(i) => final(self).plugin_list() == old(self).plugin_list().update(
                    i,
                    Plugin { active: true, ..old(self).plugin_list()[i] },
                ),
                None => final(self).plugin_list() == old(self).plugin_list(),
            },
    {
        self.set_active(name, true)
    }

    /// Deactivates a plugin; an unknown name changes nothing.
    pub fn deactivate_plugin(&mut self, name: &str)
        requires
            old(self).wf(),
        ensures
            final(self).wf(),
            match plugin_position(old(self).plugin_list(), name@) {
                Some(i) => final(self).plugin_list() == old(self).plugin_list().update(
                    i,
                    Plugin { active: false, ..old(self).plugin_list()[i] },
                ),
                None => final(self).plugin_list() == old(self).plugin_list(),
            },
    {
        self.set_active(name, false)
    }

    /// The loaded plugins.
    pub fn get_plugins(&self) -> (r: &[Plugin])
        ensures
            r@ == self.plugin_list(),
    {
        self.plugins.as_slice()
    }

    /// Whether a plugin of the given name is loaded and active.
    pub fn is_active(&self, name: &str) -> (r: bool)
        requires
            self.wf(),
        ensures
            r == match plugin_position(self.plugin_list(), name@) {
                Some(i) => self.plugin_list()[i].active,
                None => false,
            },
    {
        match self.position(name) {
            Some(i) => self.plugins[i].active,
            None => false,
        }
    }
}

impl Default for PluginManager {
    fn default() -> (m: PluginManager)
        ensures
            m.wf(),
            m.plugin_list().len() == 0,
    {
        PluginManager::new()
    }
}

} // verus!
