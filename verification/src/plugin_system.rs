//! Plugin registry: the permissions a plugin can be granted, its manifest and
//! runtime statistics, and the manager that holds the loaded plugins.
use vstd::prelude::*;
use crate::text::str_equal;

verus! {

/// A capability that the host grants to a plugin instance.
#[derive(Debug, Clone, Copy, PartialEq, Eq, Structural)]
pub enum Permission {
    /// Read tables and constants.
    ReadTables,
    /// Write constants into the tune.
    WriteConstants,
    /// Subscribe to realtime channels.
    SubscribeChannels,
    /// Run action sequences.
    ExecuteActions,
}

/// Lifecycle state of a loaded plugin.
#[derive(Debug, Clone, Copy, PartialEq, Eq, Structural)]
pub enum PluginState {
    Loaded,
    Ready,
    Running,
    Unloading,
    Disabled,
}

/// Host configuration handed to the plugin manager.
#[derive(Debug, Clone)]
pub struct PluginConfig {
    /// Directory where plugins keep their data.
    pub data_dir: String,
    /// ECU family the host is talking to.
    pub ecu_type: String,
    /// Version of the host application.
    pub libretune_version: String,
}

/// What a plugin declares about itself.
#[derive(Debug, Clone)]
pub struct PluginManifest {
    pub name: String,
    pub version: String,
}

/// Runtime statistics of a loaded plugin.
#[derive(Debug, Clone, Copy)]
pub struct PluginStats {
    pub state: PluginState,
    pub exec_count: u64,
}

/// The abstract content of one loaded plugin: name, version, state and
/// execution count.
pub type PluginRecord = (Seq<char>, Seq<char>, PluginState, u64);

/// A plugin known to the manager.
#[derive(Debug, Clone)]
pub struct LoadedPlugin {
    manifest: PluginManifest,
    stats: PluginStats,
}

impl LoadedPlugin {
    pub closed spec fn record(&self) -> PluginRecord {
        (self.manifest.name@, self.manifest.version@, self.stats.state, self.stats.exec_count)
    }

    /// A plugin with the given manifest and statistics.
    pub fn new(manifest: PluginManifest, stats: PluginStats) -> (p: LoadedPlugin)
        ensures
            p.record() == (manifest.name@, manifest.version@, stats.state, stats.exec_count),
    {
        LoadedPlugin { manifest, stats }
    }

    /// The plugin's manifest.
    pub fn manifest(&self) -> (m: &PluginManifest)
        ensures
            m.name@ == self.record().0,
            m.version@ == self.record().1,
    {
        &self.manifest
    }

    /// The plugin's statistics.
    pub fn stats(&self) -> (s: &PluginStats)
        ensures
            s.state == self.record().2,
            s.exec_count == self.record().3,
    {
        &self.stats
    }
}

/// Index of the plugin called `name` in `plugins`, if there is one.
pub open spec fn plugin_index(plugins: Seq<PluginRecord>, name: Seq<char>) -> Option<int> {
    if exists|i: int| 0 <= i < plugins.len() && (#[trigger] plugins[i]).0 == name {
        Some(choose|i: int| 0 <= i < plugins.len() && (#[trigger] plugins[i]).0 == name)
    } else {
        None
    }
}

/// No two plugins share a name.
pub open spec fn names_distinct(plugins: Seq<PluginRecord>) -> bool {
    forall|i: int, j: int|
        0 <= i < plugins.len() && 0 <= j < plugins.len() && i != j ==> (#[trigger] plugins[i]).0
            != (#[trigger] plugins[j]).0
}

/// The registry after loading `rec`: it replaces the plugin of the same
/// name, or joins the end.
pub open spec fn registered(plugins: Seq<PluginRecord>, rec: PluginRecord) -> Seq<PluginRecord> {
    match plugin_index(plugins, rec.0) {
        Some(i) => plugins.update(i, rec),
        None => plugins.push(rec),
    }
}

/// After a plugin is loaded, looking up its name finds exactly it, names
/// stay distinct, and every other name finds what it found before.
pub proof fn registered_plugin_is_found(plugins: Seq<PluginRecord>, rec: PluginRecord, other: Seq<char>)
    requires
        names_distinct(plugins),
        other != rec.0,
    ensures
        names_distinct(registered(plugins, rec)),
        plugin_index(registered(plugins, rec), rec.0) matches Some(i) && registered(plugins, rec)[i] == rec,
        (match plugin_index(plugins, other) {
            Some(i) => plugin_index(registered(plugins, rec), other) matches Some(j) && registered(plugins, rec)[j]
                == plugins[i],
            None => plugin_index(registered(plugins, rec), other) is None,
        }),
{
    let after = registered(plugins, rec);
    match plugin_index(plugins, rec.0) {
        Some(k) => {
            assert(plugins[k].0 == rec.0);
            assert(after[k] == rec);
            assert forall|i: int, j: int|
                0 <= i < after.len() && 0 <= j < after.len() && i != j implies (#[trigger] after[i]).0
                != (#[trigger] after[j]).0 by {
                if i == k {
                    assert(plugins[j].0 != plugins[k].0);
                } else if j == k {
                    assert(plugins[i].0 != plugins[k].0);
                } else {
                    assert(after[i] == plugins[i] && after[j] == plugins[j]);
                }
            }
        },
        None => {
            assert(after[plugins.len() as int] == rec);
            assert forall|i: int, j: int|
                0 <= i < after.len() && 0 <= j < after.len() && i != j implies (#[trigger] after[i]).0
                != (#[trigger] after[j]).0 by {
                if i == plugins.len() {
                    assert(after[j] == plugins[j]);
                } else if j == plugins.len() {
                    assert(after[i] == plugins[i]);
                } else {
                    assert(after[i] == plugins[i] && after[j] == plugins[j]);
                }
            }
        },
    }
    let j = plugin_index(after, rec.0)->0;
    match plugin_index(plugins, rec.0) {
        Some(k) => assert(after[k].0 == after[j].0),
        None => assert(after[plugins.len() as int].0 == after[j].0),
    }
    match plugin_index(plugins, other) {
        Some(i) => {
            assert(plugins[i].0 == other);
            assert(after[i] == plugins[i]) by {
                match plugin_index(plugins, rec.0) {
                    Some(k) => assert(k != i),
                    None => {},
                }
            }
            let j2 = plugin_index(after, other)->0;
            assert(after[i].0 == after[j2].0);
        },
        None => {
            if exists|j: int| 0 <= j < after.len() && (#[trigger] after[j]).0 == other {
                let j = choose|j: int| 0 <= j < after.len() && (#[trigger] after[j]).0 == other;
                match plugin_index(plugins, rec.0) {
                    Some(k) => {
                        if j != k {
                            assert(after[j] == plugins[j]);
                        }
                    },
                    None => {
                        if j < plugins.len() {
                            assert(after[j] == plugins[j]);
                        }
                    },
                }
            }
        },
    }
}

/// The registry of loaded plugins; a plugin is found by its name, and no
/// two plugins share one.
pub struct PluginManager {
    config: PluginConfig,
    plugins: Vec<LoadedPlugin>,
}

impl View for PluginManager {
    type V = Seq<PluginRecord>;

    closed spec fn view(&self) -> Seq<PluginRecord> {
        self.plugins@.map_values(|p: LoadedPlugin| p.record())
    }
}

impl PluginManager {
    #[verifier::type_invariant]
    closed spec fn wf(self) -> bool {
        names_distinct(self@)
    }

    /// The host configuration the registry was made for: data directory,
    /// ECU type and host version.
    pub closed spec fn host_config(&self) -> (Seq<char>, Seq<char>, Seq<char>) {
        (self.config.data_dir@, self.config.ecu_type@, self.config.libretune_version@)
    }

    /// An empty registry for the given host configuration.
    pub fn new(config: PluginConfig) -> (m: PluginManager)
        ensures
            m@ == Seq::<PluginRecord>::empty(),
            m.host_config() == (config.data_dir@, config.ecu_type@, config.libretune_version@),
    {
        let m = PluginManager { config, plugins: Vec::new() };
        assert(m@ =~= Seq::<PluginRecord>::empty());
        m
    }

    /// Number of loaded plugins.
    pub fn count(&self) -> (n: usize)
        ensures
            n == self@.len(),
    {
        self.plugins.len()
    }

    /// The plugin called `name`, if one is loaded.
    pub fn get_plugin(&self, name: &str) -> (r: Option<&LoadedPlugin>)
        ensures
            match plugin_index(self@, name@) {
                Some(i) => r matches Some(p) && p.record() == self@[i],
                None => r is None,
            },
    {
        proof {
            use_type_invariant(self);
        }
        let mut i: usize = 0;
        while i < self.plugins.len()
            invariant
                i <= self.plugins@.len(),
                self@.len() == self.plugins@.len(),
                names_distinct(self@),
                forall|j: int| 0 <= j < self@.len() ==> #[trigger] self@[j] == self.plugins@[j].record(),
                forall|j: int| 0 <= j < i ==> (#[trigger] self@[j]).0 != name@,
            decreases self.plugins@.len() - i,
        {
            if str_equal(self.plugins[i].manifest.name.as_str(), name) {
                proof {
                    assert(self@[i as int].0 == name@);
                    let k = plugin_index(self@, name@)->0;
                    assert(self@[k].0 == self@[i as int].0);
                }
                return Some(&self.plugins[i]);
            }
            i = i + 1;
        }
        None
    }

    /// Loads `plugin`, replacing a loaded plugin of the same name.
    pub fn register(&mut self, plugin: LoadedPlugin)
        ensures
            final(self)@ == registered(old(self)@, plugin.record()),
            final(self).host_config() == old(self).host_config(),
    {
        proof {
            use_type_invariant(&*self);
        }
        let ghost before = self@;
        let mut i: usize = 0;
        while i < self.plugins.len()
            invariant
                i <= self.plugins@.len(),
                before == self@,
                before == old(self)@,
                self.host_config() == old(self).host_config(),
                self@.len() == self.plugins@.len(),
                names_distinct(before),
                forall|j: int| 0 <= j < self@.len() ==> #[trigger] self@[j] == self.plugins@[j].record(),
                forall|j: int| 0 <= j < i ==> (#[trigger] self@[j]).0 != plugin.record().0,
            decreases self.plugins@.len() - i,
        {
            if str_equal(self.plugins[i].manifest.name.as_str(), plugin.manifest.name.as_str()) {
                assert(before[i as int].0 == plugin.record().0);
                let ghost k = plugin_index(before, plugin.record().0)->0;
                assert(before[k].0 == before[i as int].0);
                assert(k == i);
                let mut plugins = Vec::new();
                std::mem::swap(&mut plugins, &mut self.plugins);
                plugins.set(i, plugin);
                proof {
                    let after = plugins@.map_values(|p: LoadedPlugin| p.record());
                    assert(after =~= before.update(i as int, plugin.record()));
                    assert(names_distinct(after));
                }
                self.plugins = plugins;
                assert(self@ =~= before.update(i as int, plugin.record()));
                assert(before == old(self)@);
                assert(plugin_index(old(self)@, plugin.record().0) == Some(i as int));
                return;
            }
            i = i + 1;
        }
        let mut plugins = Vec::new();
        std::mem::swap(&mut plugins, &mut self.plugins);
        plugins.push(plugin);
        proof {
            let after = plugins@.map_values(|p: LoadedPlugin| p.record());
            assert(after =~= before.push(plugin.record()));
            assert(names_distinct(after));
        }
        self.plugins = plugins;
        assert(self@ =~= before.push(plugin.record()));
    }
}

} // verus!
