//! The answers of the REST routes.
//!
//! A route that starts, stops or restarts a plugin answers in stages: the caller does the
//! work in between and hands its outcome to the next stage. A refusal at any stage is the
//! final answer.
use crate::api::display::{device_os_str, device_state_str, shows_os, shows_state};
use crate::api::status::{
    accepted_status, conflict_status, forbidden_status, not_found_status, ok_status,
    unprocessable_status,
};
use crate::idmap::{without, IdMap};
use crate::plugins::errors::VynkorError;
use crate::plugins::supervisor::watchdog::MAX_SPAN_NANOS;
use crate::text::{concat3, copy_texts};
use vstd::prelude::*;

verus! {

/// The most log lines that one request gets, whatever it asks for.
pub const MAX_LOG_LINES: usize = 10_000;

/// The log lines that a request gets that does not say how many it wants.
pub const DEFAULT_LOG_LINES: usize = 100;

/// The nanoseconds of a second.
pub const NANOS_PER_SEC: u128 = 1_000_000_000;

/// A plugin that registered with the kernel.
pub struct RegisteredPlugin {
    pub plugin_id: String,
    /// The name of its life-cycle state.
    pub state: String,
    pub registered_at: u64,
    pub permissions: Vec<String>,
    pub device_id: String,
}

/// A device in the registry, with its wire values.
pub struct DeviceRecord {
    pub device_id: String,
    pub os: i32,
    pub arch: String,
    pub os_version: String,
    pub capabilities: Vec<String>,
    pub last_seen: u64,
    pub state: i32,
    pub created: u64,
    pub expires: u64,
}

/// What the routes read of the plugin manager.
pub struct PluginManager {
    /// The registered plugins by identifier.
    pub plugins: IdMap<RegisteredPlugin>,
    /// The known devices by identifier.
    pub devices: IdMap<DeviceRecord>,
    /// The identifiers of the plugins with a supervised process.
    pub supervised: IdMap<()>,
}

/// A plugin that the configuration declares.
pub struct PluginDef {
    pub id: String,
}

/// What the routes answer from.
pub struct AppState {
    pub manager: PluginManager,
    /// The declared plugins: no other can be started, whatever a request names.
    pub plugin_defs: Vec<PluginDef>,
    /// When the process started, in nanoseconds of a clock that never goes back.
    pub started_at: u128,
}

/// The body of every answer that is not a success.
#[derive(Debug)]
pub struct ApiError {
    pub code: u16,
    pub message: String,
    pub retryable: bool,
}

/// The health report.
#[derive(Debug)]
pub struct Health {
    pub status: &'static str,
    pub version: &'static str,
    pub uptime_secs: u64,
    pub plugins: usize,
}

/// A plugin as clients see it.
#[derive(Debug)]
pub struct PluginInfo {
    pub plugin_id: String,
    pub state: String,
    pub registered_at: u64,
    pub permissions: Vec<String>,
    /// The owning device; `local` for plugins of the host.
    pub device_id: String,
    /// The last sign of life of the owning device, in Unix milliseconds.
    pub last_seen: u64,
}

/// A device as clients see it.
#[derive(Debug)]
pub struct DeviceInfoView {
    pub device_id: String,
    pub os: String,
    pub arch: String,
    pub os_version: String,
    pub capabilities: Vec<String>,
    /// The last sign of life of any plugin on the device, in Unix milliseconds.
    pub last_seen: u64,
    pub state: String,
    /// When the device was paired, in Unix milliseconds; 0 where that is unknown.
    pub created: u64,
    pub expires: u64,
}

/// What a log request asks for.
#[derive(Debug)]
pub struct LogsQuery {
    pub lines: Option<usize>,
}

/// The answer is a refusal with this status and message, in the uniform envelope: the body
/// repeats the status, which is no success, and the request is not worth repeating.
pub open spec fn is_refusal(answer: (u16, ApiError), status: u16, message: Seq<char>) -> bool {
    &&& !(200 <= status < 300)
    &&& answer.0 == status
    &&& answer.1.code == status
    &&& answer.1.message@ == message
    &&& !answer.1.retryable
}

/// A message about a plugin.
pub open spec fn about(before: Seq<char>, plugin_id: Seq<char>, after: Seq<char>) -> Seq<char> {
    before + plugin_id + after
}

/// The message for a plugin that is not registered.
pub open spec fn not_registered(plugin_id: Seq<char>) -> Seq<char> {
    about("plugin '"@, plugin_id, "' is not registered"@)
}

impl PluginManager {
    /// Every plugin and every device stands under its own identifier.
    pub open spec fn wf(self) -> bool {
        &&& self.plugins.wf()
        &&& self.devices.wf()
        &&& self.supervised.wf()
        &&& forall|k: Seq<char>| #[trigger]
            self.plugins@.contains_key(k) ==> self.plugins@[k].plugin_id@ == k
        &&& forall|k: Seq<char>| #[trigger]
            self.devices@.contains_key(k) ==> self.devices@[k].device_id@ == k
    }

    /// The plugin is registered.
    pub open spec fn registered(self, plugin_id: Seq<char>) -> bool {
        self.plugins@.contains_key(plugin_id)
    }

    /// The plugin has a supervised process.
    pub open spec fn is_supervised(self, plugin_id: Seq<char>) -> bool {
        self.supervised@.contains_key(plugin_id)
    }

    /// A manager without plugins and devices.
    pub fn new() -> (r: Self)
        ensures
            r.wf(),
            r.plugins@ == Map::<Seq<char>, RegisteredPlugin>::empty(),
            r.devices@ == Map::<Seq<char>, DeviceRecord>::empty(),
            r.supervised@ == Map::<Seq<char>, ()>::empty(),
            r.plugins.order() == Seq::<Seq<char>>::empty(),
            r.devices.order() == Seq::<Seq<char>>::empty(),
    {
        PluginManager { plugins: IdMap::new(), devices: IdMap::new(), supervised: IdMap::new() }
    }

    /// Records a registered plugin, which is listed last from then on.
    pub fn add_plugin(&mut self, plugin: RegisteredPlugin)
        requires
            old(self).wf(),
        ensures
            final(self).wf(),
            final(self).plugins@ == old(self).plugins@.insert(plugin.plugin_id@, plugin),
            final(self).plugins.order() == without(
                old(self).plugins.order(),
                plugin.plugin_id@,
            ).push(plugin.plugin_id@),
            final(self).devices == old(self).devices,
            final(self).supervised == old(self).supervised,
    {
        let ghost before = self.plugins@;
        self.plugins.insert(plugin.plugin_id.clone(), plugin);
        assert forall|k: Seq<char>| #[trigger]
            self.plugins@.contains_key(k) implies self.plugins@[k].plugin_id@ == k by {
            assert(k == plugin.plugin_id@ || before.contains_key(k));
        }
    }

    /// Records a device, which is listed last from then on.
    pub fn add_device(&mut self, device: DeviceRecord)
        requires
            old(self).wf(),
        ensures
            final(self).wf(),
            final(self).devices@ == old(self).devices@.insert(device.device_id@, device),
            final(self).devices.order() == without(
                old(self).devices.order(),
                device.device_id@,
            ).push(device.device_id@),
            final(self).plugins == old(self).plugins,
            final(self).supervised == old(self).supervised,
    {
        let ghost before = self.devices@;
        self.devices.insert(device.device_id.clone(), device);
        assert forall|k: Seq<char>| #[trigger]
            self.devices@.contains_key(k) implies self.devices@[k].device_id@ == k by {
            assert(k == device.device_id@ || before.contains_key(k));
        }
    }

    /// Records that a plugin has a supervised process.
    pub fn add_supervised(&mut self, plugin_id: String)
        requires
            old(self).wf(),
        ensures
            final(self).wf(),
            final(self).supervised@ == old(self).supervised@.insert(plugin_id@, ()),
            final(self).plugins == old(self).plugins,
            final(self).devices == old(self).devices,
    {
        self.supervised.insert(plugin_id, ());
    }
}

impl ApiError {
    /// The status of an answer together with its body.
    fn body(code: u16, message: &str, retryable: bool) -> (r: (u16, ApiError))
        ensures
            r.0 == code,
            r.1.code == code,
            r.1.message@ == message@,
            r.1.retryable == retryable,
    {
        (code, ApiError { code, message: message.to_owned(), retryable })
    }

    /// The answer to a request for something that does not exist.
    pub fn not_found(msg: &str) -> (r: (u16, ApiError))
        ensures
            is_refusal(r, 404, msg@),
    {
        Self::body(not_found_status(), msg, false)
    }

    /// The answer to a request that the present state rules out.
    pub fn conflict(msg: &str) -> (r: (u16, ApiError))
        ensures
            is_refusal(r, 409, msg@),
    {
        Self::body(conflict_status(), msg, false)
    }

    /// The answer to a request that could not be carried out.
    pub fn unprocessable(msg: &str) -> (r: (u16, ApiError))
        ensures
            is_refusal(r, 422, msg@),
    {
        Self::body(unprocessable_status(), msg, false)
    }

    /// The answer to a request that is not permitted.
    pub fn forbidden(msg: &str) -> (r: (u16, ApiError))
        ensures
            is_refusal(r, 403, msg@),
    {
        Self::body(forbidden_status(), msg, false)
    }
}

/// Reports that the process answers, for how many whole seconds it has been up at `now`, and
/// how many plugins are registered. A clock that stands before the start counts as none.
pub fn health_check(state: &AppState, version: &'static str, now: u128) -> (r: Health)
    requires
        state.manager.wf(),
        now - state.started_at <= MAX_SPAN_NANOS,
    ensures
        r.status@ == "ok"@,
        r.version == version,
        r.uptime_secs == (if now > state.started_at {
            (now - state.started_at) / NANOS_PER_SEC as int
        } else {
            0
        }),
        r.plugins == state.manager.plugins@.len(),
{
    let uptime: u128 = if now > state.started_at {
        (now - state.started_at) / NANOS_PER_SEC
    } else {
        0
    };
    Health {
        status: "ok",
        version,
        uptime_secs: uptime as u64,
        plugins: state.manager.plugins.len(),
    }
}

/// The last sign of life of a device; 0 where the device is not known.
pub open spec fn last_seen_of(manager: PluginManager, device_id: Seq<char>) -> u64 {
    if manager.devices@.contains_key(device_id) {
        manager.devices@[device_id].last_seen
    } else {
        0
    }
}

/// `info` shows the registered plugin, with the last sign of life of its device.
pub open spec fn shows_plugin(
    manager: PluginManager,
    plugin: RegisteredPlugin,
    info: PluginInfo,
) -> bool {
    &&& info.plugin_id@ == plugin.plugin_id@
    &&& info.state@ == plugin.state@
    &&& info.registered_at == plugin.registered_at
    &&& info.permissions.deep_view() == plugin.permissions.deep_view()
    &&& info.device_id@ == plugin.device_id@
    &&& info.last_seen == last_seen_of(manager, plugin.device_id@)
}

/// `view` shows the device, its operating system and state by name.
pub open spec fn shows_device(device: DeviceRecord, view: DeviceInfoView) -> bool {
    &&& view.device_id@ == device.device_id@
    &&& shows_os(device.os, view.os@)
    &&& view.arch@ == device.arch@
    &&& view.os_version@ == device.os_version@
    &&& view.capabilities.deep_view() == device.capabilities.deep_view()
    &&& view.last_seen == device.last_seen
    &&& shows_state(device.state, view.state@)
    &&& view.created == device.created
    &&& view.expires == device.expires
}

/// `infos` shows the registered plugins, one after the other in the registry's order.
pub open spec fn lists_plugins(manager: PluginManager, infos: Seq<PluginInfo>) -> bool {
    &&& infos.len() == manager.plugins.order().len()
    &&& forall|i: int|
        0 <= i < infos.len() ==> shows_plugin(
            manager,
            manager.plugins@[manager.plugins.order()[i]],
            #[trigger] infos[i],
        )
}

/// `views` shows the known devices, one after the other in the registry's order.
pub open spec fn lists_devices(manager: PluginManager, views: Seq<DeviceInfoView>) -> bool {
    &&& views.len() == manager.devices.order().len()
    &&& forall|i: int|
        0 <= i < views.len() ==> shows_device(
            manager.devices@[manager.devices.order()[i]],
            #[trigger] views[i],
        )
}

/// Shows one registered plugin.
fn plugin_info(manager: &PluginManager, plugin: &RegisteredPlugin) -> (r: PluginInfo)
    requires
        manager.wf(),
    ensures
        shows_plugin(*manager, *plugin, r),
{
    let last_seen: u64 = match manager.devices.get(&plugin.device_id) {
        Some(device) => device.last_seen,
        None => 0,
    };
    PluginInfo {
        plugin_id: plugin.plugin_id.clone(),
        state: plugin.state.clone(),
        registered_at: plugin.registered_at,
        permissions: copy_texts(&plugin.permissions),
        device_id: plugin.device_id.clone(),
        last_seen,
    }
}

/// Shows one device.
fn device_view(device: &DeviceRecord) -> (r: DeviceInfoView)
    ensures
        shows_device(*device, r),
{
    DeviceInfoView {
        device_id: device.device_id.clone(),
        os: device_os_str(device.os).to_owned(),
        arch: device.arch.clone(),
        os_version: device.os_version.clone(),
        capabilities: copy_texts(&device.capabilities),
        last_seen: device.last_seen,
        state: device_state_str(device.state).to_owned(),
        created: device.created,
        expires: device.expires,
    }
}

/// Lists the registered plugins.
pub fn list_plugins(state: &AppState) -> (r: Vec<PluginInfo>)
    requires
        state.manager.wf(),
    ensures
        lists_plugins(state.manager, r@),
{
    let plugins = &state.manager.plugins;
    let n: usize = plugins.len();
    let mut r: Vec<PluginInfo> = Vec::new();
    let mut i: usize = 0;
    while i < n
        invariant
            state.manager.wf(),
            plugins == state.manager.plugins,
            i <= n,
            n == plugins.order().len(),
            r.len() == i,
            forall|j: int|
                0 <= j < i ==> shows_plugin(
                    state.manager,
                    plugins@[plugins.order()[j]],
                    #[trigger] r@[j],
                ),
        decreases n - i,
    {
        let (_, plugin) = plugins.pair_at(i);
        r.push(plugin_info(&state.manager, plugin));
        i = i + 1;
    }
    r
}

/// Shows one plugin; refuses with 404 where it is not registered.
pub fn get_plugin(state: &AppState, id: &String) -> (r: Result<PluginInfo, (u16, ApiError)>)
    requires
        state.manager.wf(),
    ensures
        match r {
            Ok(info) => state.manager.registered(id@) && shows_plugin(
                state.manager,
                state.manager.plugins@[id@],
                info,
            ),
            Err(e) => !state.manager.registered(id@) && is_refusal(e, 404, not_registered(id@)),
        },
{
    match state.manager.plugins.get(id) {
        Some(plugin) => Ok(plugin_info(&state.manager, plugin)),
        None => Err(refuse_unregistered(id)),
    }
}

/// The refusal for a plugin that is not registered.
fn refuse_unregistered(id: &String) -> (r: (u16, ApiError))
    ensures
        is_refusal(r, 404, not_registered(id@)),
{
    let message: String = concat3("plugin '", id.as_str(), "' is not registered");
    ApiError::not_found(message.as_str())
}

/// Lists the known devices.
pub fn list_devices(state: &AppState) -> (r: Vec<DeviceInfoView>)
    requires
        state.manager.wf(),
    ensures
        lists_devices(state.manager, r@),
{
    let devices = &state.manager.devices;
    let n: usize = devices.len();
    let mut r: Vec<DeviceInfoView> = Vec::new();
    let mut i: usize = 0;
    while i < n
        invariant
            devices.wf(),
            i <= n,
            n == devices.order().len(),
            r.len() == i,
            forall|j: int|
                0 <= j < i ==> shows_device(devices@[devices.order()[j]], #[trigger] r@[j]),
        decreases n - i,
    {
        let (_, device) = devices.pair_at(i);
        r.push(device_view(device));
        i = i + 1;
    }
    r
}

/// The configuration declares the plugin.
pub open spec fn declared(state: AppState, id: Seq<char>) -> bool {
    exists|i: int| 0 <= i < state.plugin_defs.len() && (#[trigger] state.plugin_defs[i]).id@ == id
}

/// The declaration at this place is the first of the plugin.
pub open spec fn declared_at(state: AppState, id: Seq<char>, i: int) -> bool {
    &&& 0 <= i < state.plugin_defs.len()
    &&& state.plugin_defs[i].id@ == id
    &&& forall|j: int| 0 <= j < i ==> (#[trigger] state.plugin_defs[j]).id@ != id
}

/// Why a plugin cannot be started, by status and message: 409 where it has a supervised
/// process already, else 404 where it is not declared.
pub open spec fn start_refusal(state: AppState, id: Seq<char>) -> Option<(u16, Seq<char>)> {
    if state.manager.is_supervised(id) {
        Some((409, about("plugin '"@, id, "' is already running"@)))
    } else if !declared(state, id) {
        Some((404, about("plugin '"@, id, "' is not declared in config"@)))
    } else {
        None
    }
}

/// Why a declared plugin cannot be started, from the outcome of its validation: 403 where
/// it asks for a permission that it is not granted, 422 where it is invalid otherwise.
pub open spec fn validation_refusal(outcome: Result<(), VynkorError>) -> Option<(u16, Seq<char>)> {
    match outcome {
        Ok(_) => None,
        Err(VynkorError::PermissionDenied(_)) => Some(
            (403, "plugin requests a permission not granted by config"@),
        ),
        Err(_) => Some((422, "plugin definition failed validation"@)),
    }
}

/// Why a valid plugin was not started, from the outcome of the attempt.
pub open spec fn start_failure(id: Seq<char>, outcome: Result<(), VynkorError>) -> Option<
    (u16, Seq<char>),
> {
    match outcome {
        Ok(_) => None,
        Err(_) => Some((422, about("failed to start plugin '"@, id, "'"@))),
    }
}

/// First stage of starting a plugin: finds its declaration, which the caller is to validate.
pub fn start_plugin(state: &AppState, id: &String) -> (r: Result<usize, (u16, ApiError)>)
    requires
        state.manager.wf(),
    ensures
        match r {
            Ok(i) => start_refusal(*state, id@) is None && declared_at(*state, id@, i as int),
            Err(e) => start_refusal(*state, id@) matches Some((status, message)) && is_refusal(
                e,
                status,
                message,
            ),
        },
{
    if state.manager.supervised.contains_key(id) {
        let message: String = concat3("plugin '", id.as_str(), "' is already running");
        return Err(ApiError::conflict(message.as_str()));
    }
    let mut i: usize = 0;
    while i < state.plugin_defs.len()
        invariant
            i <= state.plugin_defs.len(),
            !state.manager.is_supervised(id@),
            forall|j: int| 0 <= j < i ==> (#[trigger] state.plugin_defs[j]).id@ != id@,
        decreases state.plugin_defs.len() - i,
    {
        if state.plugin_defs[i].id == *id {
            return Ok(i);
        }
        i = i + 1;
    }
    let message: String = concat3("plugin '", id.as_str(), "' is not declared in config");
    Err(ApiError::not_found(message.as_str()))
}

/// Second stage of starting a plugin: lets a valid declaration go on to its start.
pub fn start_plugin_validated(outcome: &Result<(), VynkorError>) -> (r: Result<
    (),
    (u16, ApiError),
>)
    ensures
        match r {
            Ok(()) => validation_refusal(*outcome) is None,
            Err(e) => validation_refusal(*outcome) matches Some((status, message)) && is_refusal(
                e,
                status,
                message,
            ),
        },
{
    match outcome {
        Ok(_) => Ok(()),
        Err(VynkorError::PermissionDenied(_)) => Err(
            ApiError::forbidden("plugin requests a permission not granted by config"),
        ),
        Err(_) => Err(ApiError::unprocessable("plugin definition failed validation")),
    }
}

/// Last stage of starting a plugin: 200 where it was started, else 422.
pub fn start_plugin_finished(id: &String, outcome: &Result<(), VynkorError>) -> (r: Result<
    u16,
    (u16, ApiError),
>)
    ensures
        match r {
            Ok(status) => start_failure(id@, *outcome) is None && status == 200,
            Err(e) => start_failure(id@, *outcome) matches Some((status, message)) && is_refusal(
                e,
                status,
                message,
            ),
        },
{
    match outcome {
        Ok(_) => Ok(ok_status()),
        Err(_) => {
            let message: String = concat3("failed to start plugin '", id.as_str(), "'");
            Err(ApiError::unprocessable(message.as_str()))
        },
    }
}

/// First stage of stopping a plugin: refuses with 404 where it is not registered.
pub fn stop_plugin(state: &AppState, id: &String) -> (r: Result<(), (u16, ApiError)>)
    requires
        state.manager.wf(),
    ensures
        match r {
            Ok(()) => state.manager.registered(id@),
            Err(e) => !state.manager.registered(id@) && is_refusal(e, 404, not_registered(id@)),
        },
{
    if state.manager.plugins.contains_key(id) {
        Ok(())
    } else {
        Err(refuse_unregistered(id))
    }
}

/// Last stage of stopping a plugin: 200 where it was stopped, 404 where it had no process
/// left to stop, else 422.
pub fn stop_plugin_finished(id: &String, outcome: &Result<(), VynkorError>) -> (r: Result<
    u16,
    (u16, ApiError),
>)
    ensures
        match r {
            Ok(status) => outcome is Ok && status == 200,
            Err(e) => match *outcome {
                Ok(_) => false,
                Err(VynkorError::PluginNotFound(_)) => is_refusal(
                    e,
                    404,
                    about("plugin '"@, id@, "' exited before stop completed"@),
                ),
                Err(_) => is_refusal(e, 422, about("failed to stop plugin '"@, id@, "'"@)),
            },
        },
{
    match outcome {
        Ok(_) => Ok(ok_status()),
        Err(VynkorError::PluginNotFound(_)) => {
            let message: String = concat3(
                "plugin '",
                id.as_str(),
                "' exited before stop completed",
            );
            Err(ApiError::not_found(message.as_str()))
        },
        Err(_) => {
            let message: String = concat3("failed to stop plugin '", id.as_str(), "'");
            Err(ApiError::unprocessable(message.as_str()))
        },
    }
}

/// First stage of restarting a plugin: refuses with 404 where it is not registered.
pub fn restart_plugin(state: &AppState, id: &String) -> (r: Result<(), (u16, ApiError)>)
    requires
        state.manager.wf(),
    ensures
        match r {
            Ok(()) => state.manager.registered(id@),
            Err(e) => !state.manager.registered(id@) && is_refusal(e, 404, not_registered(id@)),
        },
{
    if state.manager.plugins.contains_key(id) {
        Ok(())
    } else {
        Err(refuse_unregistered(id))
    }
}

/// Last stage of restarting a plugin: 202 where the restart is under way, else 422.
pub fn restart_plugin_finished(id: &String, outcome: &Result<(), VynkorError>) -> (r: Result<
    u16,
    (u16, ApiError),
>)
    ensures
        match r {
            Ok(status) => outcome is Ok && status == 202,
            Err(e) => outcome is Err && is_refusal(
                e,
                422,
                about("failed to restart plugin '"@, id@, "'"@),
            ),
        },
{
    match outcome {
        Ok(_) => Ok(accepted_status()),
        Err(_) => {
            let message: String = concat3("failed to restart plugin '", id.as_str(), "'");
            Err(ApiError::unprocessable(message.as_str()))
        },
    }
}

/// The number of log lines that a request gets.
pub open spec fn log_lines(q: LogsQuery) -> usize {
    let asked = q.lines.unwrap_or(DEFAULT_LOG_LINES);
    if asked > MAX_LOG_LINES {
        MAX_LOG_LINES
    } else {
        asked
    }
}

/// How many log lines of a plugin to hand out; refuses with 404 where the plugin is neither
/// registered nor supervised.
pub fn get_plugin_logs(state: &AppState, id: &String, q: &LogsQuery) -> (r: Result<
    usize,
    (u16, ApiError),
>)
    requires
        state.manager.wf(),
    ensures
        match r {
            Ok(n) => (state.manager.registered(id@) || state.manager.is_supervised(id@)) && n
                == log_lines(*q),
            Err(e) => !state.manager.registered(id@) && !state.manager.is_supervised(id@)
                && is_refusal(e, 404, not_registered(id@)),
        },
{
    if !state.manager.plugins.contains_key(id) && !state.manager.supervised.contains_key(id) {
        return Err(refuse_unregistered(id));
    }
    let asked: usize = q.lines.unwrap_or(DEFAULT_LOG_LINES);
    if asked > MAX_LOG_LINES {
        Ok(MAX_LOG_LINES)
    } else {
        Ok(asked)
    }
}

} // verus!
