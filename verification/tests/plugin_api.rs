use libretune::plugin_api::{
    api_execute_action, api_get_channel_value, api_get_constant, api_get_plugin_info, api_get_table_data,
    api_set_constant, api_subscribe_channel, plugin_info_response, ApiResponse, LogLevel, PluginApiContext,
    PluginLogMessage,
};
use libretune::plugin_system::{
    LoadedPlugin, Permission, PluginConfig, PluginManager, PluginManifest, PluginState, PluginStats,
};

fn create_test_context() -> PluginApiContext {
    let config = PluginConfig {
        data_dir: "/tmp".to_string(),
        ecu_type: "Speeduino".to_string(),
        libretune_version: "0.1.0".to_string(),
    };
    let manager = PluginManager::new(config);
    PluginApiContext::new(manager)
}

fn manager_with(name: &str, version: &str, state: PluginState, exec_count: u64) -> PluginManager {
    let mut manager = PluginManager::new(PluginConfig {
        data_dir: "/tmp".to_string(),
        ecu_type: "Speeduino".to_string(),
        libretune_version: "0.1.0".to_string(),
    });
    manager.register(LoadedPlugin::new(
        PluginManifest { name: name.to_string(), version: version.to_string() },
        PluginStats { state, exec_count },
    ));
    manager
}

#[test]
fn test_api_response_ok() {
    let resp = ApiResponse::ok(vec![1, 2, 3]);
    assert!(resp.success);
    assert_eq!(resp.data, vec![1, 2, 3]);
    assert!(resp.error.is_empty());
}

#[test]
fn test_api_response_ok_empty() {
    let resp = ApiResponse::ok_empty();
    assert!(resp.success);
    assert!(resp.data.is_empty());
}

#[test]
fn test_api_response_error() {
    let resp = ApiResponse::error("test error");
    assert!(!resp.success);
    assert_eq!(resp.error, "test error");
}

#[test]
fn test_api_response_permission_denied() {
    let resp = ApiResponse::permission_denied("WriteConstants");
    assert!(!resp.success);
    assert!(resp.error.contains("WriteConstants"));
}

#[test]
fn test_log_level_from_code() {
    assert_eq!(LogLevel::from_code(0), LogLevel::Debug);
    assert_eq!(LogLevel::from_code(1), LogLevel::Info);
    assert_eq!(LogLevel::from_code(2), LogLevel::Warn);
    assert_eq!(LogLevel::from_code(3), LogLevel::Error);
    assert_eq!(LogLevel::from_code(99), LogLevel::Error);
}

#[test]
fn test_log_level_as_str() {
    assert_eq!(LogLevel::Debug.as_str(), "DEBUG");
    assert_eq!(LogLevel::Info.as_str(), "INFO");
    assert_eq!(LogLevel::Warn.as_str(), "WARN");
    assert_eq!(LogLevel::Error.as_str(), "ERROR");
}

#[test]
fn test_plugin_log_message_creation() {
    let msg = PluginLogMessage::new("test_plugin", LogLevel::Info, "test message");
    assert_eq!(msg.plugin_name, "test_plugin");
    assert_eq!(msg.level, LogLevel::Info);
    assert_eq!(msg.message, "test message");
    assert!(msg.timestamp_ms > 0);
}

#[test]
fn test_plugin_log_message_format() {
    let msg = PluginLogMessage::new("test", LogLevel::Error, "failure");
    let formatted = msg.format_display();
    assert!(formatted.contains("test"));
    assert!(formatted.contains("ERROR"));
    assert!(formatted.contains("failure"));
}

#[test]
fn test_plugin_api_context_creation() {
    let ctx = create_test_context();
    assert_eq!(ctx.plugin_manager.lock().unwrap().count(), 0);
}

#[test]
fn test_api_get_table_data_no_permission() {
    let resp = api_get_table_data(&[], "veTable1", 0, 0);
    assert!(!resp.success);
    assert!(resp.error.contains("Permission denied"));
}

#[test]
fn test_api_get_table_data_with_permission() {
    let resp = api_get_table_data(&[Permission::ReadTables], "veTable1", 0, 0);
    assert!(resp.success);
    assert_eq!(resp.data.len(), 4);
}

#[test]
fn test_api_get_constant_no_permission() {
    let resp = api_get_constant(&[], "rpm");
    assert!(!resp.success);
}

#[test]
fn test_api_get_constant_with_permission() {
    let resp = api_get_constant(&[Permission::ReadTables], "rpm");
    assert!(resp.success);
}

#[test]
fn test_api_set_constant_no_permission() {
    let resp = api_set_constant(&[], "rpm", &[0, 0, 0, 0]);
    assert!(!resp.success);
}

#[test]
fn test_api_set_constant_with_permission() {
    let resp = api_set_constant(&[Permission::WriteConstants], "rpm", &[0, 0, 0, 0]);
    assert!(resp.success);
}

#[test]
fn test_api_set_constant_read_permission_insufficient() {
    // ReadTables alone must not satisfy a WriteConstants check.
    let resp = api_set_constant(&[Permission::ReadTables], "rpm", &[0, 0, 0, 0]);
    assert!(!resp.success);
}

#[test]
fn test_api_subscribe_channel_no_permission() {
    let resp = api_subscribe_channel(&[], "RPM");
    assert!(!resp.success);
}

#[test]
fn test_api_subscribe_channel_with_permission() {
    let resp = api_subscribe_channel(&[Permission::SubscribeChannels], "RPM");
    assert!(resp.success);
}

#[test]
fn test_api_get_channel_value_no_permission() {
    let resp = api_get_channel_value(&[], 0);
    assert!(!resp.success);
}

#[test]
fn test_api_get_channel_value_with_permission() {
    let resp = api_get_channel_value(&[Permission::SubscribeChannels], 0);
    assert!(resp.success);
}

#[test]
fn test_api_execute_action_no_permission() {
    let resp = api_execute_action(&[], "{}");
    assert!(!resp.success);
}

#[test]
fn test_api_execute_action_with_permission() {
    let resp = api_execute_action(&[Permission::ExecuteActions], "{}");
    assert!(resp.success);
}

#[test]
fn test_api_get_plugin_info_not_found() {
    let ctx = create_test_context();
    let resp = api_get_plugin_info(&ctx, "nonexistent");
    assert!(!resp.success);
}

#[test]
fn test_api_response_data_integrity() {
    let data = vec![1, 2, 3, 4, 5];
    let resp = ApiResponse::ok(data.clone());
    assert_eq!(resp.data, data);
}

#[test]
fn test_log_level_ordering() {
    // Verify numeric ordering matches severity
    assert!((LogLevel::Debug as i32) < (LogLevel::Info as i32));
    assert!((LogLevel::Info as i32) < (LogLevel::Warn as i32));
    assert!((LogLevel::Warn as i32) < (LogLevel::Error as i32));
}

#[test]
fn permission_denied_message_is_exact() {
    let resp = ApiResponse::permission_denied("ReadTables");
    assert_eq!(resp.error, "Permission denied: ReadTables");
    assert!(resp.data.is_empty());
}

#[test]
fn gated_functions_name_the_missing_permission() {
    assert_eq!(api_get_table_data(&[], "t", -1, -1).error, "Permission denied: ReadTables");
    assert_eq!(api_get_constant(&[Permission::WriteConstants], "c").error, "Permission denied: ReadTables");
    assert_eq!(api_set_constant(&[], "c", &[]).error, "Permission denied: WriteConstants");
    assert_eq!(api_subscribe_channel(&[Permission::ReadTables], "RPM").error, "Permission denied: SubscribeChannels");
    assert_eq!(api_get_channel_value(&[], 3).error, "Permission denied: SubscribeChannels");
    assert_eq!(api_execute_action(&[Permission::SubscribeChannels], "{}").error, "Permission denied: ExecuteActions");
}

#[test]
fn granted_reads_answer_four_zero_bytes() {
    let all = [
        Permission::ExecuteActions,
        Permission::SubscribeChannels,
        Permission::WriteConstants,
        Permission::ReadTables,
    ];
    assert_eq!(api_get_table_data(&all, "veTable1", 2, 3).data, vec![0u8; 4]);
    assert_eq!(api_get_constant(&all, "rpm").data, vec![0u8; 4]);
    assert_eq!(api_subscribe_channel(&all, "AFR").data, vec![0u8; 4]);
    assert_eq!(api_get_channel_value(&all, 7).data, vec![0u8; 4]);
    assert!(api_set_constant(&all, "rpm", &[1]).data.is_empty());
    assert!(api_execute_action(&all, "{}").data.is_empty());
    assert!(api_execute_action(&all, "{}").error.is_empty());
}

#[test]
fn log_message_display_line_is_exact() {
    let msg = PluginLogMessage::at_time("tuner", LogLevel::Warn, "lean at idle", Some(1_700_000_000_123));
    assert_eq!(msg.timestamp_ms, 1_700_000_000_123);
    assert_eq!(msg.format_display(), "[1700000000123] tuner [WARN]: lean at idle");
    let early = PluginLogMessage::at_time("p", LogLevel::Debug, "m", None);
    assert_eq!(early.timestamp_ms, 0);
    assert_eq!(early.format_display(), "[0] p [DEBUG]: m");
}

#[test]
fn log_timestamp_keeps_low_64_bits() {
    let reading: u128 = (1u128 << 64) + 5;
    let msg = PluginLogMessage::at_time("p", LogLevel::Info, "m", Some(reading));
    assert_eq!(msg.timestamp_ms, 5);
}

#[test]
fn log_level_codes_round_trip_on_values() {
    for level in [LogLevel::Debug, LogLevel::Info, LogLevel::Warn, LogLevel::Error] {
        assert_eq!(LogLevel::from_code(level as i32), level);
    }
    assert_eq!(LogLevel::from_code(-1), LogLevel::Error);
}

#[test]
fn plugin_info_of_a_loaded_plugin_is_json() {
    let manager = manager_with("boost_ctl", "1.2.0", PluginState::Running, 42);
    let resp = plugin_info_response(&manager, "boost_ctl");
    assert!(resp.success);
    assert_eq!(
        String::from_utf8(resp.data).unwrap(),
        r#"{"name":"boost_ctl","version":"1.2.0","state":"running","exec_count":42}"#
    );
    let missing = plugin_info_response(&manager, "other");
    assert!(!missing.success);
    assert_eq!(missing.error, "Plugin not found");
}

#[test]
fn plugin_info_through_the_context_lock() {
    let ctx = PluginApiContext::new(manager_with("datalog", "0.9", PluginState::Disabled, 0));
    let resp = api_get_plugin_info(&ctx, "datalog");
    assert!(resp.success);
    assert_eq!(
        String::from_utf8(resp.data).unwrap(),
        r#"{"name":"datalog","version":"0.9","state":"disabled","exec_count":0}"#
    );
    let resp = api_get_plugin_info(&ctx, "nonexistent");
    assert_eq!(resp.error, "Plugin not found");
}

#[test]
fn plugin_info_escapes_name_and_version() {
    let manager = manager_with("a\"b\\c\nd", "1\u{1}\t", PluginState::Ready, 3);
    let resp = plugin_info_response(&manager, "a\"b\\c\nd");
    assert!(resp.success);
    let text = String::from_utf8(resp.data).unwrap();
    assert_eq!(
        text,
        r#"{"name":"a\"b\\c\nd","version":"1\u0001\t","state":"ready","exec_count":3}"#
    );
    let value: serde_json::Value = serde_json::from_str(&text).unwrap();
    assert_eq!(value["name"], "a\"b\\c\nd");
    assert_eq!(value["version"], "1\u{1}\t");
    assert_eq!(value["state"], "ready");
    assert_eq!(value["exec_count"], 3);
}

#[test]
fn new_context_guards_the_manager_given() {
    let ctx = PluginApiContext::new(manager_with("p", "1", PluginState::Loaded, 0));
    let guard = ctx.plugin_manager.lock().unwrap();
    assert_eq!(guard.count(), 1);
    assert!(guard.get_plugin("p").is_some());
}
