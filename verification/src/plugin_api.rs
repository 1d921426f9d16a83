//! Plugin API surface: the host functions exposed to WASM plugins.
//!
//! Every host function that touches tune or realtime data checks the
//! permissions granted to the calling plugin instance first, and answers a
//! plugin that lacks them with a "Permission denied" response.
use crate::plugin_system::{Permission, PluginManager, PluginRecord, PluginState, plugin_index};
use crate::text::{decimal, json_escaped, owned, push_char, push_decimal, push_json_escaped};
use std::sync::{Mutex, MutexGuard};
use std::time::{Duration, SystemTime, UNIX_EPOCH};
use vstd::prelude::*;
use vstd::string::StringExecFns;
use vstd::utf8::encode_utf8;

verus! {

#[verifier::external_type_specification]
#[verifier::external_body]
#[verifier::reject_recursive_types(T)]
pub struct ExMutex<T: ?Sized>(Mutex<T>);

#[verifier::external_type_specification]
#[verifier::external_body]
#[verifier::reject_recursive_types(T)]
pub struct ExMutexGuard<'a, T: ?Sized + 'a>(MutexGuard<'a, T>);

/// The registry a plugin-manager mutex was created holding. Later locks
/// may see other contents; this names only what `Mutex::new` was given.
pub uninterp spec fn manager_mutex_initial(m: Mutex<PluginManager>) -> Seq<PluginRecord>;

/// `Mutex::new`: a mutex created holding `value`, unlocked.
#[verifier::external_body]
fn new_manager_mutex(value: PluginManager) -> (m: Mutex<PluginManager>)
    ensures
        manager_mutex_initial(m) == value@,
{
    Mutex::new(value)
}

/// `Mutex::lock`: the guard, or `None` where the mutex is poisoned.
/// Whether it is poisoned depends on other threads, so nothing is stated.
#[verifier::external_body]
fn lock_mutex<T>(m: &Mutex<T>) -> Option<MutexGuard<'_, T>> {
    match m.lock() {
        Ok(guard) => Some(guard),
        Err(_) => None,
    }
}

/// Dereferences a guard (`Deref for MutexGuard`): the value it protects.
#[verifier::external_body]
fn guarded<'a, 'b, T>(guard: &'b MutexGuard<'a, T>) -> &'b T {
    &**guard
}

#[verifier::external_type_specification]
#[verifier::external_body]
pub struct ExSystemTime(SystemTime);

/// `SystemTime::now`: the system clock's reading. It depends on the time of
/// the call, so nothing is stated of it.
#[verifier::external_body]
fn system_time_now() -> SystemTime {
    SystemTime::now()
}

/// `SystemTime::duration_since(UNIX_EPOCH)`: the time elapsed since the
/// Unix epoch, or `None` for a reading before the epoch. A `Duration` is
/// opaque here, so nothing is stated of it.
#[verifier::external_body]
fn elapsed_since_unix_epoch(t: &SystemTime) -> Option<Duration> {
    match t.duration_since(UNIX_EPOCH) {
        Ok(elapsed) => Some(elapsed),
        Err(_) => None,
    }
}

/// `Duration::as_millis`: the whole milliseconds of `d`. A `Duration` is
/// opaque here, so nothing is stated of the count.
#[verifier::external_body]
fn duration_millis(d: &Duration) -> u128 {
    d.as_millis()
}

/// Plugin API context shared with WASM host functions.
pub struct PluginApiContext {
    /// Plugin manager reference
    pub plugin_manager: Mutex<PluginManager>,
}

impl PluginApiContext {
    /// Create new API context with plugin manager.
    pub fn new(plugin_manager: PluginManager) -> (ctx: PluginApiContext)
        ensures
            manager_mutex_initial(ctx.plugin_manager) == plugin_manager@,
    {
        PluginApiContext { plugin_manager: new_manager_mutex(plugin_manager) }
    }
}

/// Plugin API response for any function call.
#[derive(Debug, Clone)]
pub struct ApiResponse {
    /// Success or error
    pub success: bool,
    /// Optional data payload (as serialized bytes)
    pub data: Vec<u8>,
    /// Error message if failed
    pub error: String,
}

/// `r` is a success carrying exactly `data`.
pub open spec fn succeeded_with(r: ApiResponse, data: Seq<u8>) -> bool {
    r.success && r.data@ == data && r.error@ == Seq::<char>::empty()
}

/// `r` is a failure with exactly the message `msg` and no data.
pub open spec fn failed_with(r: ApiResponse, msg: Seq<char>) -> bool {
    !r.success && r.data@ == Seq::<u8>::empty() && r.error@ == msg
}

/// The message of a permission-denied response.
pub open spec fn permission_denied_message(perm_name: Seq<char>) -> Seq<char> {
    "Permission denied: "@ + perm_name
}

/// The four zero bytes that stand for a value read by a host function.
pub open spec fn placeholder_value() -> Seq<u8> {
    seq![0u8, 0u8, 0u8, 0u8]
}

impl ApiResponse {
    /// Create successful response with data.
    pub fn ok(data: Vec<u8>) -> (r: ApiResponse)
        ensures
            succeeded_with(r, data@),
    {
        ApiResponse { success: true, data, error: String::new() }
    }

    /// Create success response with empty data.
    pub fn ok_empty() -> (r: ApiResponse)
        ensures
            succeeded_with(r, Seq::empty()),
    {
        ApiResponse { success: true, data: Vec::new(), error: String::new() }
    }

    /// Create error response.
    pub fn error(msg: &str) -> (r: ApiResponse)
        ensures
            failed_with(r, msg@),
    {
        ApiResponse { success: false, data: Vec::new(), error: owned(msg) }
    }

    /// Create permission denied response.
    pub fn permission_denied(perm_name: &str) -> (r: ApiResponse)
        ensures
            failed_with(r, permission_denied_message(perm_name@)),
    {
        let mut error = owned("Permission denied: ");
        error.append(perm_name);
        ApiResponse { success: false, data: Vec::new(), error }
    }
}

/// Plugin log level for messages.
#[derive(Debug, Clone, Copy, PartialEq, Eq, Structural)]
pub enum LogLevel {
    Debug,
    Info,
    Warn,
    Error,
}

/// The level for a numeric code: 0 debug, 1 info, 2 warn, anything else
/// error.
pub open spec fn level_of_code(code: int) -> LogLevel {
    if code == 0 {
        LogLevel::Debug
    } else if code == 1 {
        LogLevel::Info
    } else if code == 2 {
        LogLevel::Warn
    } else {
        LogLevel::Error
    }
}

/// The upper-case name of a level.
pub open spec fn level_name(level: LogLevel) -> Seq<char> {
    match level {
        LogLevel::Debug => "DEBUG"@,
        LogLevel::Info => "INFO"@,
        LogLevel::Warn => "WARN"@,
        LogLevel::Error => "ERROR"@,
    }
}

/// The numeric severity of a level (its code).
pub open spec fn level_severity(level: LogLevel) -> int {
    match level {
        LogLevel::Debug => 0,
        LogLevel::Info => 1,
        LogLevel::Warn => 2,
        LogLevel::Error => 3,
    }
}

/// Each level is the level of its own severity code, and the codes rise
/// with severity (debug 0 < info 1 < warn 2 < error 3).
pub proof fn log_level_codes_round_trip(level: LogLevel)
    ensures
        level_of_code(level_severity(level)) == level,
        0 <= level_severity(level) <= 3,
        level_severity(LogLevel::Debug) < level_severity(LogLevel::Info) < level_severity(LogLevel::Warn)
            < level_severity(LogLevel::Error),
{
}

/// Every code outside 0..=2 is an error.
pub proof fn unknown_codes_are_errors(code: int)
    requires
        !(0 <= code <= 2),
    ensures
        level_of_code(code) == LogLevel::Error,
{
}

impl LogLevel {
    /// Convert from numeric code.
    pub fn from_code(code: i32) -> (l: LogLevel)
        ensures
            l == level_of_code(code as int),
    {
        match code {
            0 => LogLevel::Debug,
            1 => LogLevel::Info,
            2 => LogLevel::Warn,
            _ => LogLevel::Error,
        }
    }

    /// Convert to string for display.
    pub fn as_str(&self) -> (s: &'static str)
        ensures
            s@ == level_name(*self),
    {
        match self {
            LogLevel::Debug => "DEBUG",
            LogLevel::Info => "INFO",
            LogLevel::Warn => "WARN",
            LogLevel::Error => "ERROR",
        }
    }
}

/// Plugin log message with timestamp.
#[derive(Debug, Clone)]
pub struct PluginLogMessage {
    /// Plugin name
    pub plugin_name: String,
    /// Log level
    pub level: LogLevel,
    /// Message text
    pub message: String,
    /// Timestamp in milliseconds since epoch
    pub timestamp_ms: u64,
}

/// A clock reading in milliseconds narrowed to 64 bits as `as u64` does
/// (the low 64 bits), or 0 when there is no reading.
pub open spec fn timestamp_of(reading: Option<u128>) -> u64 {
    match reading {
        Some(ms) => (ms % 0x1_0000_0000_0000_0000) as u64,
        None => 0,
    }
}

/// The display line of a log message: `[timestamp] plugin [LEVEL]: message`.
pub open spec fn log_line(timestamp_ms: u64, plugin_name: Seq<char>, level: LogLevel, message: Seq<char>) -> Seq<
    char,
> {
    "["@ + decimal(timestamp_ms as nat) + "] "@ + plugin_name + " ["@ + level_name(level) + "]: "@ + message
}

impl PluginLogMessage {
    /// Create new log message, stamped with the current time.
    pub fn new(plugin_name: &str, level: LogLevel, message: &str) -> (m: PluginLogMessage)
        ensures
            m.plugin_name@ == plugin_name@,
            m.level == level,
            m.message@ == message@,
    {
        let now = system_time_now();
        let reading = match elapsed_since_unix_epoch(&now) {
            Some(elapsed) => Some(duration_millis(&elapsed)),
            None => None,
        };
        PluginLogMessage::at_time(plugin_name, level, message, reading)
    }

    /// Create a log message for a clock reading in milliseconds since the
    /// epoch (`None` when the clock reads before the epoch).
    pub fn at_time(plugin_name: &str, level: LogLevel, message: &str, reading: Option<u128>) -> (m:
        PluginLogMessage)
        ensures
            m.plugin_name@ == plugin_name@,
            m.level == level,
            m.message@ == message@,
            m.timestamp_ms == timestamp_of(reading),
    {
        let timestamp_ms: u64 = match reading {
            Some(ms) => (ms % 0x1_0000_0000_0000_0000u128) as u64,
            None => 0,
        };
        PluginLogMessage { plugin_name: owned(plugin_name), level, message: owned(message), timestamp_ms }
    }

    /// Format log message for display.
    pub fn format_display(&self) -> (s: String)
        ensures
            s@ == log_line(self.timestamp_ms, self.plugin_name@, self.level, self.message@),
    {
        let mut s = owned("[");
        push_decimal(&mut s, self.timestamp_ms);
        s.append("] ");
        s.append(self.plugin_name.as_str());
        s.append(" [");
        s.append(self.level.as_str());
        s.append("]: ");
        s.append(self.message.as_str());
        s
    }
}

/// Whether `granted` holds `perm`.
pub fn has_permission(granted: &[Permission], perm: Permission) -> (b: bool)
    ensures
        b == granted@.contains(perm),
{
    let mut i: usize = 0;
    while i < granted.len()
        invariant
            i <= granted@.len(),
            forall|j: int| 0 <= j < i ==> granted@[j] != perm,
        decreases granted@.len() - i,
    {
        if granted[i] == perm {
            assert(granted@[i as int] == perm);
            return true;
        }
        i = i + 1;
    }
    false
}

/// The response of a host function that needs `perm` (named `perm_name`)
/// and, when it is granted, answers with `data`.
pub open spec fn gated(r: ApiResponse, granted: Seq<Permission>, perm: Permission, perm_name: Seq<char>, data: Seq<u8>) -> bool {
    if granted.contains(perm) {
        succeeded_with(r, data)
    } else {
        failed_with(r, permission_denied_message(perm_name))
    }
}

/// The four-byte value returned for a read.
fn placeholder_bytes() -> (v: Vec<u8>)
    ensures
        v@ == placeholder_value(),
{
    let v: Vec<u8> = vec![0u8, 0u8, 0u8, 0u8];
    assert(v@ =~= placeholder_value());
    v
}

/// Host function: Get table data (readonly).
///
/// Requires `ReadTables` permission; answers with the cell value as four
/// bytes.
pub fn api_get_table_data(granted: &[Permission], _table_name: &str, _row: i32, _col: i32) -> (r: ApiResponse)
    ensures
        gated(r, granted@, Permission::ReadTables, "ReadTables"@, placeholder_value()),
{
    if !has_permission(granted, Permission::ReadTables) {
        return ApiResponse::permission_denied("ReadTables");
    }
    ApiResponse::ok(placeholder_bytes())
}

/// Host function: Get constant value.
///
/// Requires `ReadTables` permission (constants are table-like data).
pub fn api_get_constant(granted: &[Permission], _constant_name: &str) -> (r: ApiResponse)
    ensures
        gated(r, granted@, Permission::ReadTables, "ReadTables"@, placeholder_value()),
{
    if !has_permission(granted, Permission::ReadTables) {
        return ApiResponse::permission_denied("ReadTables");
    }
    ApiResponse::ok(placeholder_bytes())
}

/// Host function: Set constant value.
///
/// Requires `WriteConstants` permission.
pub fn api_set_constant(granted: &[Permission], _constant_name: &str, _value_bytes: &[u8]) -> (r: ApiResponse)
    ensures
        gated(r, granted@, Permission::WriteConstants, "WriteConstants"@, Seq::empty()),
{
    if !has_permission(granted, Permission::WriteConstants) {
        return ApiResponse::permission_denied("WriteConstants");
    }
    ApiResponse::ok_empty()
}

/// Host function: Subscribe to realtime channel.
///
/// Requires `SubscribeChannels` permission; answers with the channel ID.
pub fn api_subscribe_channel(granted: &[Permission], _channel_name: &str) -> (r: ApiResponse)
    ensures
        gated(r, granted@, Permission::SubscribeChannels, "SubscribeChannels"@, placeholder_value()),
{
    if !has_permission(granted, Permission::SubscribeChannels) {
        return ApiResponse::permission_denied("SubscribeChannels");
    }
    ApiResponse::ok(placeholder_bytes())
}

/// Host function: Get realtime value for subscribed channel.
///
/// Requires `SubscribeChannels` permission.
pub fn api_get_channel_value(granted: &[Permission], _channel_id: u32) -> (r: ApiResponse)
    ensures
        gated(r, granted@, Permission::SubscribeChannels, "SubscribeChannels"@, placeholder_value()),
{
    if !has_permission(granted, Permission::SubscribeChannels) {
        return ApiResponse::permission_denied("SubscribeChannels");
    }
    ApiResponse::ok(placeholder_bytes())
}

/// Host function: Execute action sequence.
///
/// Requires `ExecuteActions` permission.
pub fn api_execute_action(granted: &[Permission], _action_json: &str) -> (r: ApiResponse)
    ensures
        gated(r, granted@, Permission::ExecuteActions, "ExecuteActions"@, Seq::empty()),
{
    if !has_permission(granted, Permission::ExecuteActions) {
        return ApiResponse::permission_denied("ExecuteActions");
    }
    ApiResponse::ok_empty()
}

/// The lower-case name of a plugin state.
pub open spec fn state_name(state: PluginState) -> Seq<char> {
    match state {
        PluginState::Loaded => "loaded"@,
        PluginState::Ready => "ready"@,
        PluginState::Running => "running"@,
        PluginState::Unloading => "unloading"@,
        PluginState::Disabled => "disabled"@,
    }
}

fn state_str(state: PluginState) -> (s: &'static str)
    ensures
        s@ == state_name(state),
{
    match state {
        PluginState::Loaded => "loaded",
        PluginState::Ready => "ready",
        PluginState::Running => "running",
        PluginState::Unloading => "unloading",
        PluginState::Disabled => "disabled",
    }
}

/// The JSON object that describes a loaded plugin:
/// `{"name":"..","version":"..","state":"..","exec_count":N}`, with name
/// and version escaped as JSON strings.
pub open spec fn plugin_info_json(p: PluginRecord) -> Seq<char> {
    "{\"name\":\""@ + json_escaped(p.0) + "\",\"version\":\""@ + json_escaped(p.1) + "\",\"state\":\""@ + state_name(p.2)
        + "\",\"exec_count\":"@ + decimal(p.3 as nat) + "}"@
}

/// The answer to a plugin-info query on a registry whose plugins are
/// `plugins`.
pub open spec fn plugin_info_answer(r: ApiResponse, plugins: Seq<PluginRecord>, name: Seq<char>) -> bool {
    match plugin_index(plugins, name) {
        Some(i) => succeeded_with(r, encode_utf8(plugin_info_json(plugins[i]))),
        None => failed_with(r, "Plugin not found"@),
    }
}

/// Plugin-info response for the plugins held by `manager`: the plugin's
/// manifest and stats as UTF-8 JSON, or "Plugin not found".
pub fn plugin_info_response(manager: &PluginManager, plugin_name: &str) -> (r: ApiResponse)
    ensures
        plugin_info_answer(r, manager@, plugin_name@),
{
    match manager.get_plugin(plugin_name) {
        Some(plugin) => {
            let manifest = plugin.manifest();
            let stats = plugin.stats();
            let mut info = owned("{\"name\":\"");
            push_json_escaped(&mut info, manifest.name.as_str());
            info.append("\",\"version\":\"");
            push_json_escaped(&mut info, manifest.version.as_str());
            info.append("\",\"state\":\"");
            info.append(state_str(stats.state));
            info.append("\",\"exec_count\":");
            push_decimal(&mut info, stats.exec_count);
            push_char(&mut info, '}');
            proof {
                reveal_strlit("}");
                assert(info@ =~= plugin_info_json(manager@[plugin_index(manager@, plugin_name@)->0]));
            }
            let bytes = vstd::slice::slice_to_vec(info.as_str().as_bytes());
            ApiResponse::ok(bytes)
        },
        None => ApiResponse::error("Plugin not found"),
    }
}

/// Host function: Get plugin info.
///
/// Returns the plugin's manifest and current stats as JSON, or
/// "Plugin not found" when no plugin has that name or the manager cannot be
/// locked.
pub fn api_get_plugin_info(ctx: &PluginApiContext, plugin_name: &str) -> (r: ApiResponse)
    ensures
        failed_with(r, "Plugin not found"@) || exists|plugins: Seq<PluginRecord>| plugin_info_answer(r, plugins, plugin_name@),
{
    match lock_mutex(&ctx.plugin_manager) {
        Some(guard) => {
            let manager = guarded(&guard);
            let r = plugin_info_response(manager, plugin_name);
            assert(plugin_info_answer(r, manager@, plugin_name@));
            r
        },
        None => ApiResponse::error("Plugin not found"),
    }
}

} // verus!
