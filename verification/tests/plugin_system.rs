use libretune::plugin_system::{
    LoadedPlugin, PluginConfig, PluginManager, PluginManifest, PluginState, PluginStats,
};

fn plugin(name: &str, version: &str, exec_count: u64) -> LoadedPlugin {
    LoadedPlugin::new(
        PluginManifest { name: name.to_string(), version: version.to_string() },
        PluginStats { state: PluginState::Ready, exec_count },
    )
}

fn empty_manager() -> PluginManager {
    PluginManager::new(PluginConfig {
        data_dir: "/tmp".to_string(),
        ecu_type: "Speeduino".to_string(),
        libretune_version: "0.1.0".to_string(),
    })
}

#[test]
fn registering_a_plugin_makes_it_findable() {
    let mut manager = empty_manager();
    assert!(manager.get_plugin("a").is_none());
    manager.register(plugin("a", "1", 0));
    manager.register(plugin("b", "2", 5));
    assert_eq!(manager.count(), 2);
    assert_eq!(manager.get_plugin("a").unwrap().manifest().version, "1");
    assert_eq!(manager.get_plugin("b").unwrap().stats().exec_count, 5);
    assert!(manager.get_plugin("c").is_none());
}

#[test]
fn registering_a_known_name_replaces_the_plugin() {
    let mut manager = empty_manager();
    manager.register(plugin("a", "1", 0));
    manager.register(plugin("b", "1", 0));
    manager.register(plugin("a", "2", 9));
    assert_eq!(manager.count(), 2);
    let a = manager.get_plugin("a").unwrap();
    assert_eq!(a.manifest().version, "2");
    assert_eq!(a.stats().exec_count, 9);
    assert_eq!(manager.get_plugin("b").unwrap().manifest().version, "1");
}
